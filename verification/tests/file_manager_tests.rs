use remote_bot::file_manager::{DirectoryProbe, FileManager};
use remote_bot::listing::EntryRead;
use remote_bot::types::FileItem;
use std::path::{Path, PathBuf};
use tempfile::{Builder, NamedTempFile, TempDir};

fn setup_test_env() -> (TempDir, FileManager) {
    let temp_dir = TempDir::new().unwrap();
    let file_manager = FileManager::new().unwrap();
    (temp_dir, file_manager)
}

fn create_file(path: PathBuf) {
    let file = NamedTempFile::new_in(path.parent().unwrap()).unwrap();
    file.persist(path).unwrap();
}

fn create_dir(parent: &Path, name: &str) -> PathBuf {
    Builder::new()
        .prefix(name)
        .rand_bytes(0)
        .tempdir_in(parent)
        .unwrap()
        .keep()
}

fn create_test_files(temp_dir: &TempDir) {
    create_file(temp_dir.path().join("file1.txt"));
    create_file(temp_dir.path().join("file2.txt"));
    create_dir(temp_dir.path(), "subdir");
    create_file(temp_dir.path().join("subdir").join("file3.txt"));
}

fn text(path: &Path) -> String {
    path.to_str().unwrap().to_string()
}

fn place(file_manager: &mut FileManager, user_id: u64, directory: &Path) {
    file_manager
        .enter_directory(user_id, DirectoryProbe::Directory(text(directory)))
        .unwrap();
}

fn read_directory(directory: &str) -> Result<Vec<EntryRead>, String> {
    let reader = Path::new(directory).read_dir().map_err(|e| e.to_string())?;
    let mut entries = Vec::new();
    for entry in reader {
        entries.push(match entry {
            Err(e) => EntryRead::Unreadable(e.to_string()),
            Ok(entry) => {
                let name = entry.file_name().to_string_lossy().to_string();
                match entry.metadata() {
                    Err(e) => EntryRead::NoMetadata { name, reason: e.to_string() },
                    Ok(metadata) => EntryRead::Item(FileItem {
                        name,
                        path: text(&entry.path()),
                        is_directory: metadata.is_dir(),
                        size: metadata.len(),
                    }),
                }
            }
        });
    }
    Ok(entries)
}

fn list(file_manager: &FileManager, user_id: u64) -> Result<Vec<FileItem>, remote_bot::errors::BotError> {
    let directory = file_manager.get_current_directory(user_id);
    FileManager::list_directory(read_directory(&directory))
}

#[test]
fn test_new_file_manager() {
    let file_manager = FileManager::new().unwrap();
    assert_eq!(file_manager.session_count(), 0);
}

#[test]
fn test_get_current_directory_for_user_default() {
    let file_manager = FileManager::new().unwrap();
    let user_id = 123;

    let path = file_manager.get_current_directory_for_user(user_id);
    assert_eq!(PathBuf::from(path), PathBuf::from("/"));
}

#[test]
fn test_list_directory() {
    let (temp_dir, mut file_manager) = setup_test_env();
    create_test_files(&temp_dir);

    let user_id = 123;
    place(&mut file_manager, user_id, temp_dir.path());

    let items = list(&file_manager, user_id).unwrap();

    let mut found_file1 = false;
    let mut found_file2 = false;
    let mut found_subdir = false;

    for item in items {
        if item.name == "file1.txt" && !item.is_directory {
            found_file1 = true;
        } else if item.name == "file2.txt" && !item.is_directory {
            found_file2 = true;
        } else if item.name == "subdir" && item.is_directory {
            found_subdir = true;
        }
    }

    assert!(found_file1, "file1.txt should be found");
    assert!(found_file2, "file2.txt should be found");
    assert!(found_subdir, "subdir should be found");
}

#[test]
fn test_list_directory_nonexistent() {
    let mut file_manager = FileManager::new().unwrap();
    let user_id = 123;

    place(&mut file_manager, user_id, Path::new("/nonexistent/path"));

    let result = list(&file_manager, user_id);
    assert!(result.is_err());
}

#[test]
fn test_change_directory_relative() {
    let (temp_dir, mut file_manager) = setup_test_env();
    create_test_files(&temp_dir);

    let user_id = 123;
    place(&mut file_manager, user_id, temp_dir.path());

    file_manager.change_directory(user_id, "subdir").unwrap();

    let current_dir = PathBuf::from(file_manager.get_current_directory(user_id));
    assert!(current_dir.ends_with("subdir"));

    let items = list(&file_manager, user_id).unwrap();
    let has_file3 = items.iter().any(|item| item.name == "file3.txt");
    assert!(has_file3, "Should find file3.txt in subdir");
}

#[test]
fn test_change_directory_parent() {
    let (temp_dir, mut file_manager) = setup_test_env();
    create_test_files(&temp_dir);

    let user_id = 123;
    let subdir_path = temp_dir.path().join("subdir");
    place(&mut file_manager, user_id, &subdir_path);

    file_manager.change_directory(user_id, "..").unwrap();

    let current_dir = PathBuf::from(file_manager.get_current_directory(user_id));
    assert_eq!(current_dir, temp_dir.path().canonicalize().unwrap());
}

#[test]
fn test_change_directory_nonexistent() {
    let (temp_dir, mut file_manager) = setup_test_env();
    let user_id = 123;
    place(&mut file_manager, user_id, temp_dir.path());

    let result = file_manager.change_directory(user_id, "nonexistent_dir");
    assert!(result.is_err());
}

#[test]
fn test_change_directory_root_parent() {
    let mut file_manager = FileManager::new().unwrap();
    let user_id = 123;

    place(&mut file_manager, user_id, Path::new("/"));

    file_manager.change_directory(user_id, "..").unwrap();

    let current_dir = PathBuf::from(file_manager.get_current_directory(user_id));
    assert_eq!(current_dir, PathBuf::from("/"));
}

#[test]
fn test_get_file_path() {
    let (temp_dir, mut file_manager) = setup_test_env();
    let user_id = 123;
    place(&mut file_manager, user_id, temp_dir.path());

    let file_path = PathBuf::from(file_manager.get_file_path(user_id, "test_file.txt"));
    let expected_path = temp_dir.path().join("test_file.txt");

    assert_eq!(file_path, expected_path);
}

#[test]
fn test_file_exists() {
    let (temp_dir, mut file_manager) = setup_test_env();
    create_test_files(&temp_dir);

    let user_id = 123;
    place(&mut file_manager, user_id, temp_dir.path());

    assert!(file_manager.file_exists(user_id, "file1.txt"));
    assert!(!file_manager.file_exists(user_id, "nonexistent.txt"));
}

#[test]
fn test_is_file() {
    let (temp_dir, mut file_manager) = setup_test_env();
    create_test_files(&temp_dir);

    let user_id = 123;
    place(&mut file_manager, user_id, temp_dir.path());

    assert!(file_manager.is_file(user_id, "file1.txt"));
    assert!(!file_manager.is_file(user_id, "subdir"));
}

#[test]
fn test_multiple_users() {
    let (temp_dir, mut file_manager) = setup_test_env();
    create_test_files(&temp_dir);

    let user1_id = 123;
    let user2_id = 456;

    place(&mut file_manager, user1_id, temp_dir.path());
    place(&mut file_manager, user2_id, &temp_dir.path().join("subdir"));

    let user1_dir = PathBuf::from(file_manager.get_current_directory(user1_id));
    let user2_dir = PathBuf::from(file_manager.get_current_directory(user2_id));

    assert_ne!(user1_dir, user2_dir);
    assert!(user2_dir.ends_with("subdir"));

    file_manager.change_directory(user1_id, "subdir").unwrap();

    let user1_dir_after = PathBuf::from(file_manager.get_current_directory(user1_id));
    let user2_dir_after = PathBuf::from(file_manager.get_current_directory(user2_id));

    assert_eq!(user1_dir_after, user2_dir_after);

    file_manager.change_directory(user2_id, "..").unwrap();

    let user1_dir_final = PathBuf::from(file_manager.get_current_directory(user1_id));
    let user2_dir_final = PathBuf::from(file_manager.get_current_directory(user2_id));

    assert_ne!(user1_dir_final, user2_dir_final);
    assert!(user1_dir_final.ends_with("subdir"));
    assert_eq!(user2_dir_final, temp_dir.path().canonicalize().unwrap());
}

#[test]
fn test_file_item_properties() {
    let (temp_dir, _) = setup_test_env();
    create_test_files(&temp_dir);

    let entries = read_directory(temp_dir.path().to_str().unwrap()).unwrap();
    let items = FileManager::list_directory(Ok(entries)).unwrap();
    let file_item = &items[0];

    assert!(!file_item.name.is_empty());
    assert!(Path::new(&file_item.path).exists());
}

#[test]
fn parent_marker_at_the_root_stays_at_the_root() {
    let mut file_manager = FileManager::new().unwrap();
    assert_eq!(file_manager.resolve_directory(1, ".."), "/");
    file_manager.change_directory(1, "..").unwrap();
    assert_eq!(file_manager.get_current_directory(1), "/");
    assert!(!file_manager.has_parent_directory(1));
}

#[test]
fn into_a_directory_and_back() {
    let (temp_dir, mut file_manager) = setup_test_env();
    create_test_files(&temp_dir);
    let canonical = text(&temp_dir.path().canonicalize().unwrap());
    place(&mut file_manager, 1, temp_dir.path());

    file_manager.change_directory(1, "subdir").unwrap();
    file_manager.change_directory(1, "..").unwrap();

    assert_eq!(file_manager.get_current_directory(1), canonical);
}

#[test]
fn change_of_one_user_leaves_the_other() {
    let (temp_dir, mut file_manager) = setup_test_env();
    create_test_files(&temp_dir);
    let canonical = text(&temp_dir.path().canonicalize().unwrap());
    place(&mut file_manager, 1, Path::new(&canonical));
    place(&mut file_manager, 2, Path::new(&canonical));

    file_manager.change_directory(1, "subdir").unwrap();
    assert_eq!(file_manager.get_current_directory(2), canonical);
    assert_eq!(file_manager.get_current_directory(3), "/");
    assert!(file_manager.change_directory(2, "file1.txt").is_err());
    assert_eq!(file_manager.get_current_directory(2), canonical);
    assert!(file_manager.get_current_directory(1).ends_with("subdir"));
    assert_eq!(file_manager.session_count(), 2);
}

#[test]
fn candidate_directories() {
    let mut file_manager = FileManager::new().unwrap();
    place(&mut file_manager, 1, Path::new("/srv/data"));
    assert_eq!(file_manager.resolve_directory(1, ".."), "/srv");
    assert_eq!(file_manager.resolve_directory(1, "sub"), "/srv/data/sub");
    assert_eq!(file_manager.resolve_directory(1, "/etc"), "/etc");
    assert_eq!(file_manager.resolve_directory(1, "."), "/srv/data/.");
    assert_eq!(file_manager.get_file_path(1, "x.txt"), "/srv/data/x.txt");
    assert!(file_manager.has_parent_directory(1));
}

#[test]
fn probes_decide_the_change() {
    let mut file_manager = FileManager::new().unwrap();
    match file_manager.enter_directory(1, DirectoryProbe::NotADirectory) {
        Err(remote_bot::errors::BotError::FileError(message)) => {
            assert_eq!(message, "Directory does not exist")
        }
        _ => panic!("what is no directory cannot be entered"),
    }
    match file_manager.enter_directory(1, DirectoryProbe::Unresolvable("loop".to_string())) {
        Err(remote_bot::errors::BotError::FileError(message)) => {
            assert_eq!(message, "Failed to canonicalize path: loop")
        }
        _ => panic!("what has no canonical form cannot be entered"),
    }
    assert_eq!(file_manager.session_count(), 0);
    file_manager.enter_directory(1, DirectoryProbe::Directory("/var".to_string())).unwrap();
    assert_eq!(file_manager.get_current_directory(1), "/var");

    assert!(matches!(
        FileManager::probe_directory("/nonexistent/path"),
        DirectoryProbe::NotADirectory
    ));
    assert!(matches!(
        FileManager::probe_directory("/"),
        DirectoryProbe::Directory(canonical) if canonical == "/"
    ));
}

#[test]
fn answers_of_the_file_system_make_the_probe() {
    assert!(matches!(
        FileManager::classify_directory(false, None),
        DirectoryProbe::NotADirectory
    ));
    assert!(matches!(
        FileManager::classify_directory(false, Some(Ok("/srv".to_string()))),
        DirectoryProbe::NotADirectory
    ));
    assert!(matches!(
        FileManager::classify_directory(false, Some(Err("gone".to_string()))),
        DirectoryProbe::NotADirectory
    ));
    assert!(matches!(
        FileManager::classify_directory(true, Some(Ok("/srv".to_string()))),
        DirectoryProbe::Directory(canonical) if canonical == "/srv"
    ));
    assert!(matches!(
        FileManager::classify_directory(true, Some(Err("too many links".to_string()))),
        DirectoryProbe::Unresolvable(reason) if reason == "too many links"
    ));
    assert!(matches!(
        FileManager::classify_directory(true, None),
        DirectoryProbe::Unresolvable(reason) if reason == "canonical form unknown"
    ));
}

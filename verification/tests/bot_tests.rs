use remote_bot::auth_manager::AuthManager;
use remote_bot::bot::{
    announce_code, directory_change_reply, download_action, handle_command, Action, Sender,
};
use remote_bot::commands::Command;
use remote_bot::errors::BotError;
use remote_bot::file_manager::{DirectoryProbe, FileManager};
use remote_bot::types::Loaded;
use tempfile::{Builder, NamedTempFile, TempDir};

const UNAUTHORIZED: &str = "\u{274c} Unauthorized. Use /auth to get access.";
const ALREADY: &str = "\u{2705} You are already authorized.";
const NOT_VERIFIED: &str = "\u{274c} Not verified.";

fn managers() -> (AuthManager, FileManager) {
    (
        AuthManager::new("users.json", Loaded::Missing("missing".to_string())).unwrap(),
        FileManager::new().unwrap(),
    )
}

fn sender(id: u64) -> Option<Sender> {
    Some(Sender { id, display_name: Some(format!("user{}", id)) })
}

fn authorize(auth: &mut AuthManager, id: u64) {
    let code = auth.register_access_code(123456, id);
    assert!(auth.verify_access_code(&code, id));
}

fn reply(action: Action) -> String {
    match action {
        Action::Reply(text) => text,
        other => panic!("expected a reply, got {:?}", other),
    }
}

#[test]
fn request_without_sender_is_not_answered() {
    let (mut auth, mut files) = managers();
    let action = handle_command(&mut auth, &mut files, None, Command::Pwd, 1);
    assert!(matches!(action, Action::Nothing));
    let action = handle_command(&mut auth, &mut files, None, Command::AuthRequest, 1);
    assert!(matches!(action, Action::Nothing));
    assert_eq!(auth.pending_code_count(), 0);
}

#[test]
fn gated_requests_of_unauthorized_users_get_one_answer() {
    let (mut auth, mut files) = managers();
    let gated = vec![
        Command::Ls,
        Command::Cd("/".to_string()),
        Command::Download("file".to_string()),
        Command::Exec("true".to_string()),
        Command::Pwd,
    ];
    for command in gated {
        assert!(command.needs_authorization());
        let action = handle_command(&mut auth, &mut files, sender(1), command, 1);
        assert_eq!(reply(action), UNAUTHORIZED);
    }
    assert_eq!(files.session_count(), 0);
    assert!(!Command::Help.needs_authorization());
    assert!(!Command::AuthRequest.needs_authorization());
    assert!(!Command::Auth("1".to_string()).needs_authorization());
}

#[test]
fn help_depends_on_authorization() {
    let (mut auth, mut files) = managers();
    let action = handle_command(&mut auth, &mut files, sender(1), Command::Help, 1);
    assert_eq!(
        reply(action),
        "Available commands:\n/help - Show this help\n/auth - Authorize with access code"
    );
    authorize(&mut auth, 1);
    let action = handle_command(&mut auth, &mut files, sender(1), Command::Help, 1);
    assert_eq!(
        reply(action),
        "Available commands:\n/help - Show this help\n/ls - List directory contents\n/cd <directory> - Change directory\n/download <filename> - Download file\n/exec <command> - Execute command\n/pwd - Print working directory"
    );
}

#[test]
fn request_for_a_code_issues_and_announces_it() {
    let (mut auth, mut files) = managers();
    let action = handle_command(&mut auth, &mut files, sender(77), Command::AuthRequest, 1);
    match action {
        Action::AnnounceCode { log_line, console_line, reply } => {
            let code = console_line.rsplit(' ').next().unwrap().to_string();
            assert_eq!(code.len(), 6);
            assert_eq!(auth.code_owner(&code), Some(77));
            assert_eq!(log_line, format!("Access code generated for user 77: {}", code));
            assert_eq!(console_line, format!("Access code for user 77: {}", code));
            assert_eq!(
                reply,
                "\u{1f511} Please enter the access code displayed in the console."
            );
        }
        other => panic!("expected an announcement, got {:?}", other),
    }
    authorize(&mut auth, 77);
    let pending = auth.pending_code_count();
    let action = handle_command(&mut auth, &mut files, sender(77), Command::AuthRequest, 1);
    assert_eq!(reply(action), ALREADY);
    assert_eq!(auth.pending_code_count(), pending);
}

#[test]
fn announcement_of_a_given_code() {
    match announce_code(18446744073709551615, "482913") {
        Action::AnnounceCode { log_line, console_line, .. } => {
            assert_eq!(
                log_line,
                "Access code generated for user 18446744073709551615: 482913"
            );
            assert_eq!(console_line, "Access code for user 18446744073709551615: 482913");
        }
        other => panic!("expected an announcement, got {:?}", other),
    }
}

#[test]
fn redemption_through_the_gate() {
    let (mut auth, mut files) = managers();
    let code = auth.register_access_code(654321, 5);

    let refused =
        handle_command(&mut auth, &mut files, sender(6), Command::Auth(code.clone()), 10);
    assert!(matches!(refused, Action::CodeRefused { reply } if reply == NOT_VERIFIED));
    assert!(!auth.is_authorized(6));
    let refused =
        handle_command(&mut auth, &mut files, sender(5), Command::Auth("000000".to_string()), 10);
    assert!(matches!(refused, Action::CodeRefused { reply } if reply == NOT_VERIFIED));
    assert!(!auth.is_authorized(5));

    let redeemed =
        handle_command(&mut auth, &mut files, sender(5), Command::Auth(code.clone()), 1234);
    assert!(matches!(
        redeemed,
        Action::CodeRedeemed { reply } if reply == "\u{2705} Verified. You are now authorized."
    ));
    assert!(auth.is_authorized(5));
    let record = &auth.authorized_users().users[&5];
    assert_eq!(record.display_name.as_deref(), Some("user5"));
    assert_eq!(record.authorized_at, 1234);

    let again = handle_command(&mut auth, &mut files, sender(5), Command::Auth(code), 10);
    assert_eq!(reply(again), ALREADY);
}

#[test]
fn authorized_requests_are_served() {
    let (mut auth, mut files) = managers();
    authorize(&mut auth, 1);
    let temp_dir = TempDir::new().unwrap();
    let root = temp_dir.path().canonicalize().unwrap();
    let root_text = root.to_str().unwrap().to_string();
    Builder::new().prefix("inner").rand_bytes(0).tempdir_in(&root).unwrap().keep();
    NamedTempFile::new_in(&root).unwrap().persist(root.join("data.bin")).unwrap();
    files.enter_directory(1, DirectoryProbe::Directory(root_text.clone())).unwrap();

    let action = handle_command(&mut auth, &mut files, sender(1), Command::Pwd, 1);
    assert_eq!(reply(action), format!("\u{1f4c1} Current directory: {}", root_text));

    let action = handle_command(&mut auth, &mut files, sender(1), Command::Ls, 1);
    match action {
        Action::ReadDirectory { directory, has_parent } => {
            assert_eq!(directory, root_text);
            assert!(has_parent);
        }
        other => panic!("expected a directory to read, got {:?}", other),
    }

    let action =
        handle_command(&mut auth, &mut files, sender(1), Command::Exec("ls -la".to_string()), 1);
    match action {
        Action::Execute { directory, command } => {
            assert_eq!(directory, root_text);
            assert_eq!(command, "ls -la");
        }
        other => panic!("expected a command to run, got {:?}", other),
    }

    let action = handle_command(
        &mut auth,
        &mut files,
        sender(1),
        Command::Download("data.bin".to_string()),
        1,
    );
    match action {
        Action::SendDocument { path } => {
            assert_eq!(path, root.join("data.bin").to_str().unwrap())
        }
        other => panic!("expected a document, got {:?}", other),
    }
    let action = handle_command(
        &mut auth,
        &mut files,
        sender(1),
        Command::Download("inner".to_string()),
        1,
    );
    assert_eq!(reply(action), "\u{274c} Cannot download directories");
    let action = handle_command(
        &mut auth,
        &mut files,
        sender(1),
        Command::Download("absent".to_string()),
        1,
    );
    assert_eq!(reply(action), "\u{274c} File not found");

    let action =
        handle_command(&mut auth, &mut files, sender(1), Command::Cd("inner".to_string()), 1);
    let inner = root.join("inner");
    assert_eq!(
        reply(action),
        format!("\u{1f4c1} Changed directory to: {}", inner.to_str().unwrap())
    );
    assert_eq!(files.get_current_directory(1), inner.to_str().unwrap());

    let action =
        handle_command(&mut auth, &mut files, sender(1), Command::Cd("absent".to_string()), 1);
    assert_eq!(reply(action), "\u{274c} Error: File error: Directory does not exist");
    assert_eq!(files.get_current_directory(1), inner.to_str().unwrap());
}

#[test]
fn listing_of_the_root_offers_no_way_up() {
    let (mut auth, mut files) = managers();
    authorize(&mut auth, 1);
    let action = handle_command(&mut auth, &mut files, sender(1), Command::Ls, 1);
    match action {
        Action::ReadDirectory { directory, has_parent } => {
            assert_eq!(directory, "/");
            assert!(!has_parent);
        }
        other => panic!("expected a directory to read, got {:?}", other),
    }
}

#[test]
fn download_decisions() {
    assert_eq!(reply(download_action(false, false, "/a".to_string())), "\u{274c} File not found");
    assert_eq!(reply(download_action(false, true, "/a".to_string())), "\u{274c} File not found");
    assert_eq!(
        reply(download_action(true, false, "/a".to_string())),
        "\u{274c} Cannot download directories"
    );
    assert!(matches!(
        download_action(true, true, "/a".to_string()),
        Action::SendDocument { path } if path == "/a"
    ));
}

#[test]
fn directory_change_replies() {
    assert_eq!(
        directory_change_reply(&Ok(()), "/srv/data"),
        "\u{1f4c1} Changed directory to: /srv/data"
    );
    assert_eq!(
        directory_change_reply(
            &Err(BotError::FileError("Directory does not exist".to_string())),
            "/srv"
        ),
        "\u{274c} Error: File error: Directory does not exist"
    );
}

#[test]
fn errors_render_with_their_kind() {
    assert_eq!(BotError::ConfigError("a".to_string()).to_string(), "Configuration error: a");
    assert_eq!(BotError::AuthError("b".to_string()).to_string(), "Authentication error: b");
    assert_eq!(BotError::FileError("c".to_string()).to_string(), "File error: c");
    assert_eq!(BotError::LogError("d".to_string()).to_string(), "Log error: d");
    assert_eq!(BotError::TelegramError("e".to_string()).to_string(), "Telegram error: e");
    assert_eq!(
        BotError::SerializationError("f".to_string()).to_string(),
        "Serialization error: f"
    );
}

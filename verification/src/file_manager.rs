use crate::errors::BotError;
use crate::paths::{
    joined, parent_of, path_canonicalize, path_exists, path_is_dir, path_is_file, path_join,
    path_parent, root_path,
};
use crate::text::{join_text, same_text};
use crate::types::Id;
use std::collections::HashMap;
use vstd::prelude::*;
use vstd::std_specs::hash::group_hash_axioms;
use vstd::string::StringExecFns;

verus! {

broadcast use group_hash_axioms;

/// The token that asks for the parent of the current directory.
pub open spec fn parent_marker() -> Seq<char> {
    ".."@
}

/// What the file system said of the directory a user asked to enter: it is
/// no directory, it is one but has no canonical form (with the reason), or
/// it is one, with its canonical form.
#[derive(Debug)]
pub enum DirectoryProbe {
    NotADirectory,
    Unresolvable(String),
    Directory(String),
}

/// The directory that `token` leads to from `current`, before the file
/// system is asked: for the parent marker the parent of `current`, or
/// `current` itself where it has none; for any other token, `current` with
/// the token joined to it.
pub open spec fn candidate_directory(
    current: Seq<char>,
    token: Seq<char>,
    parent: Option<Seq<char>>,
    descended: Seq<char>,
) -> Seq<char> {
    if token == parent_marker() {
        match parent {
            Some(up) => up,
            None => current,
        }
    } else {
        descended
    }
}

/// The directory of `user_id` in a table of sessions: the one set for them,
/// or the root.
pub open spec fn directory_in(sessions: Map<Id, Seq<char>>, user_id: Id) -> Seq<char> {
    if sessions.contains_key(user_id) {
        sessions[user_id]
    } else {
        root_path()
    }
}

/// The sessions after `user_id` asked for a directory of which the file
/// system said `probe`: only a directory with a canonical form is entered.
pub open spec fn sessions_after(
    sessions: Map<Id, Seq<char>>,
    user_id: Id,
    probe: DirectoryProbe,
) -> Map<Id, Seq<char>> {
    match probe {
        DirectoryProbe::Directory(canonical) => sessions.insert(user_id, canonical@),
        _ => sessions,
    }
}

/// Whether `outcome` is what a change of directory reports for `probe`.
pub open spec fn reports(outcome: Result<(), BotError>, probe: DirectoryProbe) -> bool {
    match probe {
        DirectoryProbe::Directory(_) => outcome is Ok,
        DirectoryProbe::NotADirectory => outcome matches Err(BotError::FileError(message))
            && message@ == "Directory does not exist"@,
        DirectoryProbe::Unresolvable(reason) => outcome matches Err(BotError::FileError(message))
            && message@ == "Failed to canonicalize path: "@ + reason@,
    }
}

/// One request to change directory: who asked, and what the file system
/// said of the directory they asked for.
pub struct DirectoryRequest {
    pub user_id: Id,
    pub probe: DirectoryProbe,
}

/// The sessions after a history of requests, the first request first.
pub open spec fn sessions_after_all(
    sessions: Map<Id, Seq<char>>,
    requests: Seq<DirectoryRequest>,
) -> Map<Id, Seq<char>>
    decreases requests.len(),
{
    if requests.len() == 0 {
        sessions
    } else {
        sessions_after(
            sessions_after_all(sessions, requests.drop_last()),
            requests.last().user_id,
            requests.last().probe,
        )
    }
}

/// However many requests others make, and whatever the file system says of
/// them, a user who makes none stays where they are.
pub proof fn law_sessions_stay_independent(
    sessions: Map<Id, Seq<char>>,
    requests: Seq<DirectoryRequest>,
    bystander: Id,
)
    requires
        forall|at: int| 0 <= at < requests.len() ==> (#[trigger] requests[at]).user_id != bystander,
    ensures
        directory_in(sessions_after_all(sessions, requests), bystander) == directory_in(
            sessions,
            bystander,
        ),
    decreases requests.len(),
{
    if requests.len() > 0 {
        let earlier = requests.drop_last();
        assert forall|at: int| 0 <= at < earlier.len() implies (#[trigger] earlier[at]).user_id
            != bystander by {
            assert(earlier[at] == requests[at]);
        }
        law_sessions_stay_independent(sessions, earlier, bystander);
        assert(requests.last() == requests[requests.len() - 1]);
    }
}

/// A change of directory by one user is never seen in the session of
/// another, whatever the file system said of the directory.
pub proof fn law_sessions_are_independent(
    sessions: Map<Id, Seq<char>>,
    user_id: Id,
    other: Id,
    probe: DirectoryProbe,
)
    requires
        other != user_id,
    ensures
        directory_in(sessions_after(sessions, user_id, probe), other) == directory_in(
            sessions,
            other,
        ),
{
}

/// Where the current directory has no parent, the parent marker leads to
/// the current directory itself; and entering a directory whose canonical
/// form is the one the user is in already is no error and leaves them where
/// they are.
pub proof fn law_parent_marker_without_parent(
    sessions: Map<Id, Seq<char>>,
    user_id: Id,
    descended: Seq<char>,
    canonical: String,
    outcome: Result<(), BotError>,
)
    requires
        canonical@ == directory_in(sessions, user_id),
        reports(outcome, DirectoryProbe::Directory(canonical)),
    ensures
        candidate_directory(directory_in(sessions, user_id), parent_marker(), None, descended)
            == directory_in(sessions, user_id),
        outcome is Ok,
        directory_in(
            sessions_after(sessions, user_id, DirectoryProbe::Directory(canonical)),
            user_id,
        ) == directory_in(sessions, user_id),
{
}

/// Into a directory and back: from the canonical directory `entered` the
/// parent marker leads to its parent `up`, and the user then stands in the
/// canonical form `back` that the file system gave for that parent. No
/// other user has moved.
pub proof fn law_into_a_directory_and_back(
    sessions: Map<Id, Seq<char>>,
    user_id: Id,
    other: Id,
    entered: String,
    up: Seq<char>,
    descended: Seq<char>,
    back: String,
)
    requires
        other != user_id,
    ensures
        candidate_directory(
            directory_in(
                sessions_after(sessions, user_id, DirectoryProbe::Directory(entered)),
                user_id,
            ),
            parent_marker(),
            Some(up),
            descended,
        ) == up,
        directory_in(
            sessions_after(
                sessions_after(sessions, user_id, DirectoryProbe::Directory(entered)),
                user_id,
                DirectoryProbe::Directory(back),
            ),
            user_id,
        ) == back@,
        directory_in(
            sessions_after(
                sessions_after(sessions, user_id, DirectoryProbe::Directory(entered)),
                user_id,
                DirectoryProbe::Directory(back),
            ),
            other,
        ) == directory_in(sessions, other),
{
}

/// A change of directory that fails changes no session; one that succeeds
/// puts the user in the canonical form that the file system gave.
pub proof fn law_change_of_directory(
    sessions: Map<Id, Seq<char>>,
    user_id: Id,
    probe: DirectoryProbe,
    outcome: Result<(), BotError>,
)
    requires
        reports(outcome, probe),
    ensures
        outcome is Err ==> sessions_after(sessions, user_id, probe) == sessions,
        outcome is Ok ==> (probe matches DirectoryProbe::Directory(canonical) && directory_in(
            sessions_after(sessions, user_id, probe),
            user_id,
        ) == canonical@),
{
}

/// Whether `probe` is what the two answers of the file system make of a
/// path: no directory where it does not lead to one; else the directory by
/// its canonical form, or unresolvable with the reason the canonical form was
/// refused, or for want of one where none was asked for.
pub open spec fn probe_of(
    is_directory: bool,
    canonical: Option<Result<String, String>>,
    probe: DirectoryProbe,
) -> bool {
    if !is_directory {
        probe is NotADirectory
    } else {
        match canonical {
            Some(Ok(path)) => probe == DirectoryProbe::Directory(path),
            Some(Err(reason)) => probe == DirectoryProbe::Unresolvable(reason),
            None => probe matches DirectoryProbe::Unresolvable(reason) && reason@
                == "canonical form unknown"@,
        }
    }
}

/// Keeps the current directory of every user.
pub struct FileManager {
    sessions: HashMap<Id, String>,
}

impl View for FileManager {
    type V = Map<Id, Seq<char>>;

    closed spec fn view(&self) -> Map<Id, Seq<char>> {
        self.sessions@.map_values(|path: String| path@)
    }
}

impl FileManager {
    /// The current directory of a user: the one they last entered, or the
    /// root where they have entered none.
    pub open spec fn current_directory(&self, user_id: Id) -> Seq<char> {
        directory_in(self@, user_id)
    }

    /// A tracker in which nobody has entered a directory yet.
    pub fn new() -> (made: Result<FileManager, BotError>)
        ensures
            made matches Ok(manager) && manager@ == Map::<Id, Seq<char>>::empty(),
    {
        let manager = FileManager { sessions: HashMap::new() };
        assert(manager@ =~= Map::<Id, Seq<char>>::empty());
        Ok(manager)
    }

    /// The current directory of a user.
    pub fn get_current_directory_for_user(&self, user_id: Id) -> (directory: String)
        ensures
            directory@ == self.current_directory(user_id),
    {
        match self.sessions.get(&user_id) {
            Some(path) => path.clone(),
            None => String::from_str("/"),
        }
    }

    /// The current directory of a user.
    pub fn get_current_directory(&self, user_id: Id) -> (directory: String)
        ensures
            directory@ == self.current_directory(user_id),
    {
        self.get_current_directory_for_user(user_id)
    }

    /// The path of `filename` seen from the current directory of a user.
    pub fn get_file_path(&self, user_id: Id, filename: &str) -> (path: String)
        ensures
            path@ == joined(self.current_directory(user_id), filename@),
    {
        let current = self.get_current_directory_for_user(user_id);
        path_join(current.as_str(), filename)
    }

    /// Whether `filename`, seen from the current directory of a user, leads
    /// to anything in the file system right now.
    pub fn file_exists(&self, user_id: Id, filename: &str) -> (found: bool) {
        let path = self.get_file_path(user_id, filename);
        path_exists(path.as_str())
    }

    /// Whether `filename`, seen from the current directory of a user, leads
    /// to a regular file in the file system right now.
    pub fn is_file(&self, user_id: Id, filename: &str) -> (found: bool) {
        let path = self.get_file_path(user_id, filename);
        path_is_file(path.as_str())
    }

    /// The directory that `token` leads to from the current directory of a
    /// user, before the file system is asked.
    pub fn resolve_directory(&self, user_id: Id, token: &str) -> (candidate: String)
        ensures
            candidate@ == candidate_directory(
                self.current_directory(user_id),
                token@,
                parent_of(self.current_directory(user_id)),
                joined(self.current_directory(user_id), token@),
            ),
            self.current_directory(user_id) == root_path() && token@ == parent_marker()
                ==> candidate@ == root_path(),
    {
        let current = self.get_current_directory_for_user(user_id);
        if same_text(token, "..") {
            match path_parent(current.as_str()) {
                Some(up) => up,
                None => current,
            }
        } else {
            path_join(current.as_str(), token)
        }
    }

    /// Whether the current directory of a user has a parent.
    pub fn has_parent_directory(&self, user_id: Id) -> (found: bool)
        ensures
            found == parent_of(self.current_directory(user_id)) is Some,
            self.current_directory(user_id) == root_path() ==> !found,
    {
        let current = self.get_current_directory_for_user(user_id);
        path_parent(current.as_str()).is_some()
    }

    /// How many users have entered a directory.
    pub fn session_count(&self) -> (count: usize)
        ensures
            count == self@.len(),
    {
        assert(self@.dom() =~= self.sessions@.dom());
        self.sessions.len()
    }

    /// What two answers of the file system say of a path: whether it leads
    /// to a directory, and, where that was asked, its canonical form or the
    /// reason it has none. What is no directory cannot be entered, whatever
    /// else is known of it. A directory can be entered by its canonical
    /// form only, so one whose canonical form was refused, or was not asked
    /// for, cannot be resolved.
    pub fn classify_directory(
        is_directory: bool,
        canonical: Option<Result<String, String>>,
    ) -> (probe: DirectoryProbe)
        ensures
            probe_of(is_directory, canonical, probe),
    {
        if !is_directory {
            return DirectoryProbe::NotADirectory;
        }
        match canonical {
            Some(Ok(path)) => DirectoryProbe::Directory(path),
            Some(Err(reason)) => DirectoryProbe::Unresolvable(reason),
            None => DirectoryProbe::Unresolvable(String::from_str("canonical form unknown")),
        }
    }

    /// Asks the file system about a directory that a user wants to enter:
    /// whether it is one, and if so, for its canonical form.
    pub fn probe_directory(candidate: &str) -> (probe: DirectoryProbe) {
        let is_directory = path_is_dir(candidate);
        let canonical = if is_directory {
            Some(path_canonicalize(candidate))
        } else {
            None
        };
        FileManager::classify_directory(is_directory, canonical)
    }

    /// Enters the directory of which the file system said `probe`, for
    /// `user_id` and for nobody else, or reports why it cannot be entered
    /// and leaves every session as it was.
    pub fn enter_directory(&mut self, user_id: Id, probe: DirectoryProbe) -> (outcome: Result<
        (),
        BotError,
    >)
        ensures
            reports(outcome, probe),
            final(self)@ == sessions_after(old(self)@, user_id, probe),
    {
        match probe {
            DirectoryProbe::Directory(canonical) => {
                self.sessions.insert(user_id, canonical);
                assert(self@ =~= old(self)@.insert(user_id, canonical@));
                Ok(())
            },
            DirectoryProbe::NotADirectory => Err(
                BotError::FileError(String::from_str("Directory does not exist")),
            ),
            DirectoryProbe::Unresolvable(reason) => Err(
                BotError::FileError(join_text("Failed to canonicalize path: ", reason.as_str())),
            ),
        }
    }

    /// Moves a user to the directory that `path` leads to from their current
    /// one, where the file system finds a directory there; otherwise reports
    /// the failure and leaves every session as it was. The session of no
    /// other user changes either way.
    pub fn change_directory(&mut self, user_id: Id, path: &str) -> (outcome: Result<(), BotError>)
        ensures
            exists|probe: DirectoryProbe|
                #[trigger] reports(outcome, probe) && final(self)@ == sessions_after(
                    old(self)@,
                    user_id,
                    probe,
                ),
            outcome is Err ==> final(self)@ == old(self)@,
            forall|other: Id|
                other != user_id ==> #[trigger] final(self).current_directory(other) == old(
                    self,
                ).current_directory(other),
    {
        let candidate = self.resolve_directory(user_id, path);
        let probe = FileManager::probe_directory(candidate.as_str());
        let outcome = self.enter_directory(user_id, probe);
        assert(reports(outcome, probe));
        outcome
    }
}

} // verus!

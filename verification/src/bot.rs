use crate::auth_manager::{is_access_code, AuthManager, AuthState};
use crate::commands::Command;
use crate::errors::BotError;
use crate::file_manager::{directory_in, reports, sessions_after, DirectoryProbe, FileManager};
use crate::paths::{joined, parent_of};
use crate::text::{decimal_string, decimal_text, join_text};
use crate::types::{AuthorizedRecord, Id};
use vstd::prelude::*;
use vstd::string::StringExecFns;

verus! {

/// Who sent a request: their identity and the name the transport shows for
/// them, if it shows one.
#[derive(Debug, Clone)]
pub struct Sender {
    pub id: Id,
    pub display_name: Option<String>,
}

/// What the transport is asked to do in answer to a request.
#[derive(Debug)]
pub enum Action {
    /// Nothing at all.
    Nothing,
    /// Send a text to the user.
    Reply(String),
    /// Write `log_line` to the log, show `console_line` to the operator and
    /// send `reply` to the user.
    AnnounceCode { log_line: String, console_line: String, reply: String },
    /// The code was redeemed: write the authorized users to the durable
    /// store, then send `reply` to the user.
    CodeRedeemed { reply: String },
    /// The code was not redeemed: send `reply` to the user. The reply is the
    /// same whether the code is unknown or belongs to someone else.
    CodeRefused { reply: String },
    /// Read `directory` and present its listing; `has_parent` says whether
    /// the listing offers the way up.
    ReadDirectory { directory: String, has_parent: bool },
    /// Send the file at `path` to the user.
    SendDocument { path: String },
    /// Run `command` in `directory` and present what it printed.
    Execute { directory: String, command: String },
}

/// The answer to a request that only authorized users may make.
pub open spec fn unauthorized_text() -> Seq<char> {
    "\u{274c} Unauthorized. Use /auth to get access."@
}

/// The answer to a user who asks for authorization and has it already.
pub open spec fn already_authorized_text() -> Seq<char> {
    "\u{2705} You are already authorized."@
}

/// The answer that tells a user where to find their access code.
pub open spec fn enter_code_text() -> Seq<char> {
    "\u{1f511} Please enter the access code displayed in the console."@
}

/// The answer to a user whose code was redeemed.
pub open spec fn verified_text() -> Seq<char> {
    "\u{2705} Verified. You are now authorized."@
}

/// The answer to a user whose code was not redeemed, whatever the reason.
pub open spec fn not_verified_text() -> Seq<char> {
    "\u{274c} Not verified."@
}

/// Whether the action is what presenting a code leads to: where the code
/// was redeemed, the store is to be written and the user told so; where it
/// was not, the user is told that, and no more.
pub open spec fn redemption_outcome(action: Action, redeemed: bool) -> bool {
    if redeemed {
        action matches Action::CodeRedeemed { reply } && reply@ == verified_text()
    } else {
        action matches Action::CodeRefused { reply } && reply@ == not_verified_text()
    }
}

/// The help shown to a user, by whether they are authorized.
pub open spec fn help_text(authorized: bool) -> Seq<char> {
    if authorized {
        "Available commands:\n/help - Show this help\n/ls - List directory contents\n/cd <directory> - Change directory\n/download <filename> - Download file\n/exec <command> - Execute command\n/pwd - Print working directory"@
    } else {
        "Available commands:\n/help - Show this help\n/auth - Authorize with access code"@
    }
}

/// The line that records in the log which code a user was issued.
pub open spec fn code_log_line(user_id: Id, code: Seq<char>) -> Seq<char> {
    "Access code generated for user "@ + decimal_text(user_id as nat) + ": "@ + code
}

/// The line that shows the operator which code a user was issued.
pub open spec fn code_console_line(user_id: Id, code: Seq<char>) -> Seq<char> {
    "Access code for user "@ + decimal_text(user_id as nat) + ": "@ + code
}

/// The answer to a change of directory: where the user stands now, or why
/// they did not move.
pub open spec fn directory_change_text(outcome: Result<(), BotError>, directory: Seq<char>) -> Seq<
    char,
> {
    match outcome {
        Ok(_) => "\u{1f4c1} Changed directory to: "@ + directory,
        Err(error) => "\u{274c} Error: "@ + error.display_text(),
    }
}

/// The answer that names the current directory.
pub open spec fn current_directory_text(directory: Seq<char>) -> Seq<char> {
    "\u{1f4c1} Current directory: "@ + directory
}

/// The answer to a request for a file that is not there.
pub open spec fn file_not_found_text() -> Seq<char> {
    "\u{274c} File not found"@
}

/// The answer to a request to download what is no regular file.
pub open spec fn not_a_file_text() -> Seq<char> {
    "\u{274c} Cannot download directories"@
}

/// Whether the action is to send exactly `text` to the user.
pub open spec fn replies(action: Action, text: Seq<char>) -> bool {
    action matches Action::Reply(sent) && sent@ == text
}

/// Whether the action announces that `code` was issued to `user_id`.
pub open spec fn announces(action: Action, user_id: Id, code: Seq<char>) -> bool {
    action matches Action::AnnounceCode { log_line, console_line, reply } && log_line@
        == code_log_line(user_id, code) && console_line@ == code_console_line(user_id, code)
        && reply@ == enter_code_text()
}

/// Whether the action is what a request for a file leads to, given whether
/// anything lies at `path` and whether that is a regular file.
pub open spec fn download_outcome(action: Action, exists: bool, regular: bool, path: Seq<char>)
    -> bool {
    if !exists {
        replies(action, file_not_found_text())
    } else if !regular {
        replies(action, not_a_file_text())
    } else {
        action matches Action::SendDocument { path: sent } && sent@ == path
    }
}

/// Answers a request for help.
pub fn handle_help(auth_manager: &AuthManager, user_id: Id) -> (action: Action)
    ensures
        replies(action, help_text(auth_manager@.is_authorized(user_id))),
{
    if auth_manager.is_authorized(user_id) {
        Action::Reply(
            String::from_str(
                "Available commands:\n/help - Show this help\n/ls - List directory contents\n/cd <directory> - Change directory\n/download <filename> - Download file\n/exec <command> - Execute command\n/pwd - Print working directory",
            ),
        )
    } else {
        Action::Reply(
            String::from_str(
                "Available commands:\n/help - Show this help\n/auth - Authorize with access code",
            ),
        )
    }
}

/// Builds the announcement of a code that was issued to a user.
pub fn announce_code(user_id: Id, code: &str) -> (action: Action)
    ensures
        announces(action, user_id, code@),
{
    let id_text = decimal_string(user_id);
    let log_line = String::from_str("Access code generated for user ").concat(
        id_text.as_str(),
    ).concat(": ").concat(code);
    let console_line = String::from_str("Access code for user ").concat(id_text.as_str()).concat(
        ": ",
    ).concat(code);
    let reply = String::from_str(
        "\u{1f511} Please enter the access code displayed in the console.",
    );
    Action::AnnounceCode { log_line, console_line, reply }
}

/// Answers a request for an access code: a user who is authorized already is
/// told so; any other is issued a fresh code, which is announced.
pub fn handle_auth(auth_manager: &mut AuthManager, user_id: Id) -> (action: Action)
    ensures
        old(auth_manager)@.is_authorized(user_id) ==> replies(action, already_authorized_text())
            && final(auth_manager)@ == old(auth_manager)@,
        !old(auth_manager)@.is_authorized(user_id) ==> exists|code: Seq<char>|
            is_access_code(code) && final(auth_manager)@ == old(auth_manager)@.issue(code, user_id)
                && #[trigger] announces(action, user_id, code),
{
    if auth_manager.is_authorized(user_id) {
        return Action::Reply(String::from_str("\u{2705} You are already authorized."));
    }
    let access_code = auth_manager.generate_access_code(user_id);
    let action = announce_code(user_id, access_code.as_str());
    assert(announces(action, user_id, access_code@));
    action
}

/// Answers the redemption of a code: a user who is authorized already is
/// told so; for any other the code is redeemed where it is theirs, with
/// their name and the time, and refused where it is not.
pub fn handle_auth_code(
    auth_manager: &mut AuthManager,
    code: &str,
    sender: Sender,
    now: u64,
) -> (action: Action)
    ensures
        old(auth_manager)@.is_authorized(sender.id) ==> replies(action, already_authorized_text())
            && final(auth_manager)@ == old(auth_manager)@,
        !old(auth_manager)@.is_authorized(sender.id) ==> final(auth_manager)@ == old(
            auth_manager,
        )@.redeem(
            code@,
            sender.id,
            AuthorizedRecord { display_name: sender.display_name, authorized_at: now },
        ) && redemption_outcome(action, old(auth_manager)@.redeemable(code@, sender.id)),
{
    if auth_manager.is_authorized(sender.id) {
        return Action::Reply(String::from_str("\u{2705} You are already authorized."));
    }
    if auth_manager.redeem_access_code(code, sender.id, sender.display_name, now) {
        Action::CodeRedeemed {
            reply: String::from_str("\u{2705} Verified. You are now authorized."),
        }
    } else {
        Action::CodeRefused { reply: String::from_str("\u{274c} Not verified.") }
    }
}

/// Answers a request for the listing of the current directory: the
/// transport is to read it.
pub fn handle_ls(file_manager: &FileManager, user_id: Id) -> (action: Action)
    ensures
        action matches Action::ReadDirectory { directory, has_parent } && directory@
            == file_manager.current_directory(user_id) && has_parent == parent_of(
            file_manager.current_directory(user_id),
        ) is Some,
{
    Action::ReadDirectory {
        directory: file_manager.get_current_directory(user_id),
        has_parent: file_manager.has_parent_directory(user_id),
    }
}

/// The answer to a change of directory that ended in `outcome` and left the
/// user in `directory`.
pub fn directory_change_reply(outcome: &Result<(), BotError>, directory: &str) -> (text: String)
    ensures
        text@ == directory_change_text(*outcome, directory@),
{
    match outcome {
        Ok(_) => join_text("\u{1f4c1} Changed directory to: ", directory),
        Err(error) => {
            let shown = error.to_string();
            join_text("\u{274c} Error: ", shown.as_str())
        },
    }
}

/// Answers a request to change directory: the user moves where the file
/// system finds a directory, and is told where they stand or why they did
/// not move.
pub fn handle_cd(file_manager: &mut FileManager, path: &str, user_id: Id) -> (action: Action)
    ensures
        exists|probe: DirectoryProbe, outcome: Result<(), BotError>|
            #[trigger] reports(outcome, probe) && final(file_manager)@ == sessions_after(
                old(file_manager)@,
                user_id,
                probe,
            ) && replies(
                action,
                directory_change_text(outcome, final(file_manager).current_directory(user_id)),
            ),
{
    let outcome = file_manager.change_directory(user_id, path);
    let current = file_manager.get_current_directory(user_id);
    let text = directory_change_reply(&outcome, current.as_str());
    let action = Action::Reply(text);
    proof {
        let probe = choose|probe: DirectoryProbe|
            #[trigger] reports(outcome, probe) && file_manager@ == sessions_after(
                old(file_manager)@,
                user_id,
                probe,
            );
        assert(reports(outcome, probe));
    }
    action
}

/// What a request for a file leads to, given whether anything lies at
/// `path` and whether that is a regular file.
pub fn download_action(exists: bool, regular: bool, path: String) -> (action: Action)
    ensures
        download_outcome(action, exists, regular, path@),
{
    if !exists {
        Action::Reply(String::from_str("\u{274c} File not found"))
    } else if !regular {
        Action::Reply(String::from_str("\u{274c} Cannot download directories"))
    } else {
        Action::SendDocument { path }
    }
}

/// Answers a request for a file of the current directory.
pub fn handle_download(file_manager: &FileManager, filename: &str, user_id: Id) -> (action: Action)
    ensures
        exists|exists: bool, regular: bool|
            #[trigger] download_outcome(
                action,
                exists,
                regular,
                joined(file_manager.current_directory(user_id), filename@),
            ),
{
    let exists = file_manager.file_exists(user_id, filename);
    let regular = if exists {
        file_manager.is_file(user_id, filename)
    } else {
        false
    };
    let path = file_manager.get_file_path(user_id, filename);
    let action = download_action(exists, regular, path);
    assert(download_outcome(
        action,
        exists,
        regular,
        joined(file_manager.current_directory(user_id), filename@),
    ));
    action
}

/// Answers a request to run a command: the transport is to run it in the
/// current directory of the user, as it was typed.
pub fn handle_exec(file_manager: &FileManager, command: String, user_id: Id) -> (action: Action)
    ensures
        action matches Action::Execute { directory, command: handed } && directory@
            == file_manager.current_directory(user_id) && handed == command,
{
    Action::Execute { directory: file_manager.get_current_directory(user_id), command }
}

/// Answers a request for the current directory.
pub fn handle_pwd(file_manager: &FileManager, user_id: Id) -> (action: Action)
    ensures
        replies(action, current_directory_text(file_manager.current_directory(user_id))),
{
    let current = file_manager.get_current_directory(user_id);
    Action::Reply(join_text("\u{1f4c1} Current directory: ", current.as_str()))
}

/// What answering a request that needs no authorization comes to.
pub open spec fn exempt_outcome(
    before: AuthState,
    after: AuthState,
    sender: Sender,
    command: Command,
    now: u64,
    action: Action,
) -> bool
    recommends
        command.is_exempt(),
{
    match command {
        Command::Help => after == before && replies(
            action,
            help_text(before.is_authorized(sender.id)),
        ),
        Command::AuthRequest => if before.is_authorized(sender.id) {
            after == before && replies(action, already_authorized_text())
        } else {
            exists|code: Seq<char>|
                is_access_code(code) && after == before.issue(code, sender.id)
                    && #[trigger] announces(action, sender.id, code)
        },
        Command::Auth(code) => if before.is_authorized(sender.id) {
            after == before && replies(action, already_authorized_text())
        } else {
            after == before.redeem(
                code@,
                sender.id,
                AuthorizedRecord { display_name: sender.display_name, authorized_at: now },
            ) && redemption_outcome(action, before.redeemable(code@, sender.id))
        },
        _ => true,
    }
}

/// What answering a request of an authorized user comes to.
pub open spec fn served_outcome(
    before: Map<Id, Seq<char>>,
    after: Map<Id, Seq<char>>,
    user_id: Id,
    command: Command,
    action: Action,
) -> bool
    recommends
        !command.is_exempt(),
{
    match command {
        Command::Ls => after == before && (action matches Action::ReadDirectory {
            directory,
            has_parent,
        } && directory@ == directory_in(before, user_id) && has_parent == parent_of(
            directory_in(before, user_id),
        ) is Some),
        Command::Cd(path) => exists|probe: DirectoryProbe, outcome: Result<(), BotError>|
            #[trigger] reports(outcome, probe) && after == sessions_after(before, user_id, probe)
                && replies(action, directory_change_text(outcome, directory_in(after, user_id))),
        Command::Download(filename) => after == before && exists|exists: bool, regular: bool|
            #[trigger] download_outcome(
                action,
                exists,
                regular,
                joined(directory_in(before, user_id), filename@),
            ),
        Command::Exec(command) => after == before && (action matches Action::Execute {
            directory,
            command: handed,
        } && directory@ == directory_in(before, user_id) && handed == command),
        Command::Pwd => after == before && replies(
            action,
            current_directory_text(directory_in(before, user_id)),
        ),
        _ => true,
    }
}

/// What answering a request comes to. A request without a sender is not
/// answered. Help, the request for a code and the redemption of one are
/// answered for everyone. Every other request is served to an authorized
/// sender, and answered to any other with the one text that says they are
/// not authorized, with nothing changed.
pub open spec fn gate_outcome(
    auth_before: AuthState,
    auth_after: AuthState,
    files_before: Map<Id, Seq<char>>,
    files_after: Map<Id, Seq<char>>,
    sender: Option<Sender>,
    command: Command,
    now: u64,
    action: Action,
) -> bool {
    match sender {
        None => action is Nothing && auth_after == auth_before && files_after == files_before,
        Some(who) => if command.is_exempt() {
            files_after == files_before && exempt_outcome(
                auth_before,
                auth_after,
                who,
                command,
                now,
                action,
            )
        } else if !auth_before.is_authorized(who.id) {
            replies(action, unauthorized_text()) && auth_after == auth_before && files_after
                == files_before
        } else {
            auth_after == auth_before && served_outcome(
                files_before,
                files_after,
                who.id,
                command,
                action,
            )
        },
    }
}

/// Whoever is not authorized gets the same answer to every request that
/// needs authorization, whatever they asked for and whatever the state of
/// their session, and nothing changes.
pub proof fn law_unauthorized_is_uniform(
    auth_before: AuthState,
    auth_after: AuthState,
    files_before: Map<Id, Seq<char>>,
    files_after: Map<Id, Seq<char>>,
    who: Sender,
    command: Command,
    now: u64,
    action: Action,
)
    requires
        !command.is_exempt(),
        !auth_before.is_authorized(who.id),
        gate_outcome(
            auth_before,
            auth_after,
            files_before,
            files_after,
            Some(who),
            command,
            now,
            action,
        ),
    ensures
        replies(action, unauthorized_text()),
        auth_after == auth_before,
        files_after == files_before,
{
}

/// A request that needs authorization never changes who is authorized or
/// which codes are outstanding, and a request that needs none never moves
/// anyone.
pub proof fn law_gate_separates_the_managers(
    auth_before: AuthState,
    auth_after: AuthState,
    files_before: Map<Id, Seq<char>>,
    files_after: Map<Id, Seq<char>>,
    sender: Option<Sender>,
    command: Command,
    now: u64,
    action: Action,
)
    requires
        gate_outcome(
            auth_before,
            auth_after,
            files_before,
            files_after,
            sender,
            command,
            now,
            action,
        ),
    ensures
        !command.is_exempt() ==> auth_after == auth_before,
        command.is_exempt() ==> files_after == files_before,
{
}

/// Answers one request. `sender` is who the transport says sent it and `now`
/// the time in seconds since the epoch.
pub fn handle_command(
    auth_manager: &mut AuthManager,
    file_manager: &mut FileManager,
    sender: Option<Sender>,
    command: Command,
    now: u64,
) -> (action: Action)
    ensures
        gate_outcome(
            old(auth_manager)@,
            final(auth_manager)@,
            old(file_manager)@,
            final(file_manager)@,
            sender,
            command,
            now,
            action,
        ),
{
    let who = match sender {
        None => {
            return Action::Nothing;
        },
        Some(who) => who,
    };
    let user_id = who.id;
    match command {
        Command::Help => handle_help(auth_manager, user_id),
        Command::AuthRequest => handle_auth(auth_manager, user_id),
        Command::Auth(code) => handle_auth_code(auth_manager, code.as_str(), who, now),
        gated => {
            if !auth_manager.is_authorized(user_id) {
                return Action::Reply(
                    String::from_str("\u{274c} Unauthorized. Use /auth to get access."),
                );
            }
            match gated {
                Command::Ls => handle_ls(file_manager, user_id),
                Command::Cd(path) => handle_cd(file_manager, path.as_str(), user_id),
                Command::Download(filename) => handle_download(
                    file_manager,
                    filename.as_str(),
                    user_id,
                ),
                Command::Exec(text) => handle_exec(file_manager, text, user_id),
                Command::Pwd => handle_pwd(file_manager, user_id),
                _ => Action::Nothing,
            }
        },
    }
}

} // verus!

use vstd::prelude::*;
use vstd::std_specs::convert::FromSpecImpl;
use vstd::string::StringExecFns;

verus! {

/// Every failure the bot can report, each with the text that explains it.
#[derive(Debug)]
pub enum BotError {
    ConfigError(String),
    AuthError(String),
    FileError(String),
    LogError(String),
    TelegramError(String),
    SerializationError(String),
}

impl BotError {
    /// The text that explains the failure, without the prefix of its kind.
    pub open spec fn detail(self) -> Seq<char> {
        match self {
            BotError::ConfigError(msg) => msg@,
            BotError::AuthError(msg) => msg@,
            BotError::FileError(msg) => msg@,
            BotError::LogError(msg) => msg@,
            BotError::TelegramError(msg) => msg@,
            BotError::SerializationError(msg) => msg@,
        }
    }

    /// The prefix that names the kind of failure.
    pub open spec fn prefix(self) -> Seq<char> {
        match self {
            BotError::ConfigError(_) => "Configuration error: "@,
            BotError::AuthError(_) => "Authentication error: "@,
            BotError::FileError(_) => "File error: "@,
            BotError::LogError(_) => "Log error: "@,
            BotError::TelegramError(_) => "Telegram error: "@,
            BotError::SerializationError(_) => "Serialization error: "@,
        }
    }

    /// The message shown to a user: the kind's prefix, then the detail.
    pub open spec fn display_text(self) -> Seq<char> {
        self.prefix() + self.detail()
    }

    /// Renders the error as the message shown to a user.
    pub fn to_string(&self) -> (text: String)
        ensures
            text@ == self.display_text(),
    {
        match self {
            BotError::ConfigError(msg) => String::from_str("Configuration error: ").concat(
                msg.as_str(),
            ),
            BotError::AuthError(msg) => String::from_str("Authentication error: ").concat(
                msg.as_str(),
            ),
            BotError::FileError(msg) => String::from_str("File error: ").concat(msg.as_str()),
            BotError::LogError(msg) => String::from_str("Log error: ").concat(msg.as_str()),
            BotError::TelegramError(msg) => String::from_str("Telegram error: ").concat(
                msg.as_str(),
            ),
            BotError::SerializationError(msg) => String::from_str("Serialization error: ").concat(
                msg.as_str(),
            ),
        }
    }
}

/// The error of the JSON decoder and encoder, carried through as it is.
#[verifier::external_type_specification]
#[verifier::external_body]
pub struct ExJsonError(serde_json::Error);

/// The error of an input or output operation, carried through as it is.
#[verifier::external_type_specification]
#[verifier::external_body]
pub struct ExIoError(std::io::Error);

/// The text of a JSON error. Calls its `Display` through `to_string`; nothing
/// is claimed of the text.
#[verifier::external_body]
fn json_error_text(error: &serde_json::Error) -> (text: String) {
    error.to_string()
}

/// The text of an input or output error. Calls its `Display` through
/// `to_string`; nothing is claimed of the text.
#[verifier::external_body]
fn io_error_text(error: &std::io::Error) -> (text: String) {
    error.to_string()
}

impl From<serde_json::Error> for BotError {
    /// A JSON error is a serialization error with the text of the JSON error.
    fn from(err: serde_json::Error) -> (error: BotError)
        ensures
            error is SerializationError,
    {
        BotError::SerializationError(json_error_text(&err))
    }
}

/// The text of the result is the text of the JSON error, which no spec
/// function can give: the conversion promises its kind and no more.
impl FromSpecImpl<serde_json::Error> for BotError {
    open spec fn obeys_from_spec() -> bool {
        false
    }

    open spec fn from_spec(err: serde_json::Error) -> BotError {
        arbitrary()
    }
}

impl From<std::io::Error> for BotError {
    /// An input or output error is a file error with the text of that error.
    fn from(err: std::io::Error) -> (error: BotError)
        ensures
            error is FileError,
    {
        BotError::FileError(io_error_text(&err))
    }
}

/// The text of the result is the text of the outside error, which no spec
/// function can give: the conversion promises its kind and no more.
impl FromSpecImpl<std::io::Error> for BotError {
    open spec fn obeys_from_spec() -> bool {
        false
    }

    open spec fn from_spec(err: std::io::Error) -> BotError {
        arbitrary()
    }
}

} // verus!

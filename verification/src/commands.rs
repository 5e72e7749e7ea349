use vstd::prelude::*;

verus! {

/// What a user can ask of the bot, with the one argument some requests carry.
#[derive(Debug, Clone)]
pub enum Command {
    Help,
    AuthRequest,
    Auth(String),
    Ls,
    Cd(String),
    Download(String),
    Exec(String),
    Pwd,
}

impl Command {
    /// Whether the request is answered without asking who is authorized:
    /// help, the request for an access code, and the redemption of one.
    pub open spec fn is_exempt(self) -> bool {
        self is Help || self is AuthRequest || self is Auth
    }

    /// Whether the request is served to authorized users only.
    pub fn needs_authorization(&self) -> (gated: bool)
        ensures
            gated == !self.is_exempt(),
    {
        match self {
            Command::Help => false,
            Command::AuthRequest => false,
            Command::Auth(_) => false,
            _ => true,
        }
    }
}

} // verus!

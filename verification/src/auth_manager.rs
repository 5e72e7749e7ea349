use crate::errors::BotError;
use crate::text::{
    decimal_string, decimal_text, is_digit, join_text, lemma_decimal_text_digits,
    lemma_six_digit_text,
};
use crate::types::{AuthorizedRecord, AuthorizedUsers, Id, Loaded, SaveOutcome};
use std::collections::HashMap;
use std::time::{SystemTime, UNIX_EPOCH};
use vstd::hash_map::StringHashMap;
use vstd::prelude::*;
use vstd::std_specs::hash::group_hash_axioms;

verus! {

broadcast use group_hash_axioms;

/// The authorization state as mathematics: the record of every authorized
/// user, and the user that each outstanding access code was issued to.
pub struct AuthState {
    pub authorized: Map<Id, AuthorizedRecord>,
    pub codes: Map<Seq<char>, Id>,
}

impl AuthState {
    /// The state a manager starts in when the store held `authorized`.
    pub open spec fn restored(authorized: Map<Id, AuthorizedRecord>) -> AuthState {
        AuthState { authorized, codes: Map::empty() }
    }

    /// Whether the user has redeemed a code.
    pub open spec fn is_authorized(self, user_id: Id) -> bool {
        self.authorized.contains_key(user_id)
    }

    /// The state after `code` was issued to `user_id`. A code that was
    /// outstanding for someone else now belongs to `user_id` alone.
    pub open spec fn issue(self, code: Seq<char>, user_id: Id) -> AuthState {
        AuthState { authorized: self.authorized, codes: self.codes.insert(code, user_id) }
    }

    /// Whether `code` is outstanding and was issued to `user_id`.
    pub open spec fn redeemable(self, code: Seq<char>, user_id: Id) -> bool {
        self.codes.contains_key(code) && self.codes[code] == user_id
    }

    /// The state after `user_id` presented `code`: where the code is theirs
    /// to redeem, they are recorded as authorized and the code is gone;
    /// otherwise nothing changes.
    pub open spec fn redeem(self, code: Seq<char>, user_id: Id, record: AuthorizedRecord)
        -> AuthState {
        if self.redeemable(code, user_id) {
            AuthState {
                authorized: self.authorized.insert(user_id, record),
                codes: self.codes.remove(code),
            }
        } else {
            self
        }
    }
}

/// The record of a user authorized at `now` whose name is not known.
pub open spec fn unnamed_record(now: u64) -> AuthorizedRecord {
    AuthorizedRecord { display_name: None, authorized_at: now }
}

/// A code issued to one user cannot be redeemed by another: the attempt is
/// refused, changes nothing, and leaves the other user as authorized or
/// unauthorized as they were before the code was issued.
pub proof fn law_code_is_bound_to_its_user(
    state: AuthState,
    code: Seq<char>,
    owner: Id,
    other: Id,
    record: AuthorizedRecord,
)
    requires
        owner != other,
    ensures
        !state.issue(code, owner).redeemable(code, other),
        state.issue(code, owner).redeem(code, other, record) == state.issue(code, owner),
        state.issue(code, owner).redeem(code, other, record).is_authorized(other)
            == state.is_authorized(other),
{
}

/// A code is good for one redemption: once it was redeemed, presenting it
/// again is refused, whoever presents it.
pub proof fn law_code_is_single_use(
    state: AuthState,
    code: Seq<char>,
    user_id: Id,
    record: AuthorizedRecord,
    later: Id,
)
    requires
        state.redeemable(code, user_id),
    ensures
        !state.redeem(code, user_id, record).redeemable(code, later),
{
}

/// Authorization comes from redeeming a code and from nothing else, and it
/// survives a restart. Nobody is authorized in a manager restored from an
/// empty store; issuing a code authorizes nobody; presenting a code
/// authorizes the presenter exactly when the code was theirs to redeem, and
/// changes nothing for anyone else; and a manager restored from the
/// authorized users of a state authorizes the same users as that state.
pub proof fn law_authorization_lifecycle(
    state: AuthState,
    code: Seq<char>,
    user_id: Id,
    record: AuthorizedRecord,
    anyone: Id,
)
    ensures
        !AuthState::restored(Map::empty()).is_authorized(anyone),
        state.issue(code, user_id).is_authorized(anyone) == state.is_authorized(anyone),
        state.redeem(code, user_id, record).is_authorized(anyone) == (state.is_authorized(anyone)
            || (anyone == user_id && state.redeemable(code, user_id))),
        AuthState::restored(state.redeem(code, user_id, record).authorized).is_authorized(anyone)
            == state.redeem(code, user_id, record).is_authorized(anyone),
{
}

/// Whether a text is an access code: a number of six digits in decimal.
pub open spec fn is_access_code(code: Seq<char>) -> bool {
    exists|number: nat| 100000 <= number <= 999999 && code == decimal_text(number)
}

/// An access code has a fixed length and is made of digits: six of them, of
/// which the first is not a zero.
pub proof fn law_access_code_shape(code: Seq<char>)
    requires
        is_access_code(code),
    ensures
        code.len() == 6,
        forall|i: int| 0 <= i < code.len() ==> is_digit(#[trigger] code[i]),
        code[0] != '0',
{
    let number = choose|number: nat| 100000 <= number <= 999999 && code == decimal_text(number);
    lemma_decimal_text_digits(number);
    lemma_six_digit_text(number);
}

/// Issues and redeems single-use access codes and keeps the authorized users.
pub struct AuthManager {
    authorized_users: AuthorizedUsers,
    users_file_path: String,
    access_codes: StringHashMap<Id>,
}

/// Draws the number of a fresh access code. Calls `rand::rng()` and
/// `Rng::random_range` on the inclusive range of the six-digit numbers; the
/// call returns some number of that range, and which one is left open.
#[verifier::external_body]
fn draw_code_number() -> (number: u32)
    ensures
        100000 <= number <= 999999,
{
    rand::Rng::random_range(&mut rand::rng(), 100000u32..=999999u32)
}

/// Reads the clock. Calls `SystemTime::now` and, through
/// `SystemTime::duration_since`, gives the whole seconds since the epoch, or
/// nothing where the clock stands before it; nothing is claimed of the value.
#[verifier::external_body]
fn clock_seconds() -> (seconds: Option<u64>) {
    match SystemTime::now().duration_since(UNIX_EPOCH) {
        Ok(elapsed) => Some(elapsed.as_secs()),
        Err(_) => None,
    }
}

impl View for AuthManager {
    type V = AuthState;

    closed spec fn view(&self) -> AuthState {
        AuthState { authorized: self.authorized_users.users@, codes: self.access_codes@ }
    }
}

impl AuthManager {
    /// The path of the durable store that this manager was made for.
    pub closed spec fn store_path(&self) -> Seq<char> {
        self.users_file_path@
    }

    /// Builds the manager from what came of reading the durable store. Only
    /// a store that is missing counts as empty. One that is there but could
    /// not be read, or was read but not decoded, is an error, so that what
    /// it held is never taken for nothing. No access code is outstanding at
    /// the start.
    pub fn new(file_path: &str, stored: Loaded<AuthorizedUsers>) -> (made: Result<
        AuthManager,
        BotError,
    >)
        ensures
            match stored {
                Loaded::Missing(_) => made matches Ok(manager) && manager@ == AuthState::restored(
                    Map::empty(),
                ) && manager.store_path() == file_path@,
                Loaded::Unreadable(reason) => made matches Err(BotError::AuthError(message))
                    && message@ == "Failed to read auth file: "@ + reason@,
                Loaded::Malformed(reason) => made matches Err(
                    BotError::SerializationError(message),
                ) && message@ == "Failed to parse auth file: "@ + reason@,
                Loaded::Decoded(users) => made matches Ok(manager) && manager@
                    == AuthState::restored(users.users@) && manager.store_path() == file_path@,
            },
    {
        let authorized_users = match stored {
            Loaded::Missing(_) => AuthorizedUsers { users: HashMap::new() },
            Loaded::Unreadable(reason) => {
                return Err(
                    BotError::AuthError(join_text("Failed to read auth file: ", reason.as_str())),
                );
            },
            Loaded::Malformed(reason) => {
                return Err(
                    BotError::SerializationError(
                        join_text("Failed to parse auth file: ", reason.as_str()),
                    ),
                );
            },
            Loaded::Decoded(users) => users,
        };
        Ok(
            AuthManager {
                authorized_users,
                users_file_path: file_path.to_owned(),
                access_codes: StringHashMap::new(),
            },
        )
    }

    /// Issues the code written as `number` in decimal to `user_id` and
    /// returns its text.
    pub fn register_access_code(&mut self, number: u32, user_id: Id) -> (code: String)
        ensures
            code@ == decimal_text(number as nat),
            final(self)@ == old(self)@.issue(code@, user_id),
            final(self).store_path() == old(self).store_path(),
    {
        let code = decimal_string(number as u64);
        self.access_codes.insert(code.clone(), user_id);
        code
    }

    /// Issues a freshly drawn six-digit code to `user_id` and returns it.
    pub fn generate_access_code(&mut self, user_id: Id) -> (code: String)
        ensures
            is_access_code(code@),
            final(self)@ == old(self)@.issue(code@, user_id),
            final(self).store_path() == old(self).store_path(),
    {
        let number = draw_code_number();
        self.register_access_code(number, user_id)
    }

    /// Redeems `code` for `user_id`, recording `display_name` and the time
    /// `now`. Returns whether the code was theirs to redeem; where it was
    /// not, nothing changes.
    pub fn redeem_access_code(
        &mut self,
        code: &str,
        user_id: Id,
        display_name: Option<String>,
        now: u64,
    ) -> (verified: bool)
        ensures
            verified == old(self)@.redeemable(code@, user_id),
            final(self)@ == old(self)@.redeem(
                code@,
                user_id,
                AuthorizedRecord { display_name, authorized_at: now },
            ),
            final(self).store_path() == old(self).store_path(),
    {
        let matches = match self.access_codes.get(code) {
            Some(owner) => *owner == user_id,
            None => false,
        };
        if matches {
            self.authorized_users.users.insert(
                user_id,
                AuthorizedRecord { display_name, authorized_at: now },
            );
            self.access_codes.remove(code);
        }
        matches
    }

    /// Redeems `code` for `user_id` at the present time, with no display
    /// name. Returns whether the code was theirs to redeem; where it was
    /// not, nothing changes.
    pub fn verify_access_code(&mut self, code: &str, user_id: Id) -> (verified: bool)
        ensures
            verified == old(self)@.redeemable(code@, user_id),
            exists|now: u64|
                final(self)@ == old(self)@.redeem(
                    code@,
                    user_id,
                    #[trigger] unnamed_record(now),
                ),
            final(self).store_path() == old(self).store_path(),
    {
        let now = match clock_seconds() {
            Some(seconds) => seconds,
            None => 0,
        };
        let verified = self.redeem_access_code(code, user_id, None, now);
        assert(self@ == old(self)@.redeem(code@, user_id, unnamed_record(now)));
        verified
    }

    /// Whether the user has redeemed a code.
    pub fn is_authorized(&self, user_id: Id) -> (authorized: bool)
        ensures
            authorized == self@.is_authorized(user_id),
    {
        self.authorized_users.users.contains_key(&user_id)
    }

    /// The authorized users, as they are written to the durable store.
    pub fn authorized_users(&self) -> (users: &AuthorizedUsers)
        ensures
            users.users@ == self@.authorized,
    {
        &self.authorized_users
    }

    /// The path of the durable store that this manager was made for.
    pub fn users_file_path(&self) -> (path: &str)
        ensures
            path@ == self.store_path(),
    {
        self.users_file_path.as_str()
    }

    /// How many users are authorized.
    pub fn authorized_count(&self) -> (count: usize)
        ensures
            count == self@.authorized.len(),
    {
        self.authorized_users.users.len()
    }

    /// The user that an outstanding code was issued to.
    pub fn code_owner(&self, code: &str) -> (owner: Option<Id>)
        ensures
            owner == if self@.codes.contains_key(code@) {
                Some(self@.codes[code@])
            } else {
                None
            },
    {
        match self.access_codes.get(code) {
            Some(owner) => Some(*owner),
            None => None,
        }
    }

    /// How many codes are outstanding.
    pub fn pending_code_count(&self) -> (count: usize)
        ensures
            count == self@.codes.len(),
    {
        self.access_codes.len()
    }

    /// What a verification reports once the durable store was written: a
    /// code that was not redeemed reports `false`, and nothing was to be
    /// written; a redeemed one reports `true` only when the write succeeded,
    /// and the failure of the write otherwise. A failed write does not undo
    /// the redemption in memory: until the next successful write the manager
    /// knows of an authorization that the store does not hold.
    pub fn complete_verification(verified: bool, outcome: SaveOutcome) -> (reported: Result<
        bool,
        BotError,
    >)
        ensures
            !verified ==> reported == Ok::<bool, BotError>(false),
            verified ==> match outcome {
                SaveOutcome::Saved => reported == Ok::<bool, BotError>(true),
                SaveOutcome::EncodingFailed(reason) => reported == Err::<bool, BotError>(
                    BotError::SerializationError(reason),
                ),
                SaveOutcome::WriteFailed(reason) => reported matches Err(
                    BotError::AuthError(message),
                ) && message@ == "Failed to save auth file: "@ + reason@,
            },
    {
        if !verified {
            return Ok(false);
        }
        match outcome {
            SaveOutcome::Saved => Ok(true),
            SaveOutcome::EncodingFailed(reason) => Err(BotError::SerializationError(reason)),
            SaveOutcome::WriteFailed(reason) => Err(
                BotError::AuthError(join_text("Failed to save auth file: ", reason.as_str())),
            ),
        }
    }
}

} // verus!

use crate::auth_manager::AuthState;
use crate::types::{AuthorizedRecord, Id};
use vstd::prelude::*;

verus! {

/// One thing that happens to the authorization state: a code is issued to a
/// user, or a user presents a code.
pub enum AuthEvent {
    Issued { code: Seq<char>, user_id: Id },
    Presented { code: Seq<char>, user_id: Id, record: AuthorizedRecord },
}

impl AuthState {
    /// The state after one event.
    pub open spec fn after(self, event: AuthEvent) -> AuthState {
        match event {
            AuthEvent::Issued { code, user_id } => self.issue(code, user_id),
            AuthEvent::Presented { code, user_id, record } => self.redeem(code, user_id, record),
        }
    }

    /// The state after a history of events, the first event first.
    pub open spec fn after_all(self, events: Seq<AuthEvent>) -> AuthState
        decreases events.len(),
    {
        if events.len() == 0 {
            self
        } else {
            self.after_all(events.drop_last()).after(events.last())
        }
    }
}

/// Whether, at position `at` of a history that starts in `state`, `user_id`
/// presents a code that is theirs to redeem at that moment.
pub open spec fn redeems_at(state: AuthState, events: Seq<AuthEvent>, at: int, user_id: Id) -> bool {
    0 <= at < events.len() && (events[at] matches AuthEvent::Presented {
        code,
        user_id: presenter,
        ..
    } && presenter == user_id && state.after_all(events.take(at)).redeemable(code, user_id))
}

/// Whether some event of the history issues `code`.
pub open spec fn issues(events: Seq<AuthEvent>, code: Seq<char>) -> bool {
    exists|at: int|
        0 <= at < events.len() && (#[trigger] events[at] matches AuthEvent::Issued {
            code: issued,
            ..
        } && issued == code)
}

/// Authorization is never lost: whoever is authorized stays so, whatever
/// happens afterwards.
pub proof fn law_authorization_is_never_lost(
    state: AuthState,
    events: Seq<AuthEvent>,
    user_id: Id,
)
    requires
        state.is_authorized(user_id),
    ensures
        state.after_all(events).is_authorized(user_id),
    decreases events.len(),
{
    if events.len() > 0 {
        law_authorization_is_never_lost(state, events.drop_last(), user_id);
    }
}

/// Nobody becomes authorized but by presenting a code that is theirs to
/// redeem: a user who is authorized after a history, and was not before it,
/// redeemed their own code at some moment of it.
pub proof fn law_authorized_only_by_own_code(
    state: AuthState,
    events: Seq<AuthEvent>,
    user_id: Id,
)
    requires
        !state.is_authorized(user_id),
        state.after_all(events).is_authorized(user_id),
    ensures
        exists|at: int| redeems_at(state, events, at, user_id),
    decreases events.len(),
{
    if events.len() > 0 {
        let earlier = events.drop_last();
        if state.after_all(earlier).is_authorized(user_id) {
            law_authorized_only_by_own_code(state, earlier, user_id);
            let at = choose|at: int| redeems_at(state, earlier, at, user_id);
            assert(earlier.take(at) =~= events.take(at));
            assert(redeems_at(state, events, at, user_id));
        } else {
            let at = events.len() - 1;
            assert(events.take(at) =~= earlier);
            assert(redeems_at(state, events, at, user_id));
        }
    }
}

/// A code that is not outstanding stays so until it is issued again: after
/// a history that does not issue it, nobody can redeem it.
pub proof fn law_spent_code_stays_spent(
    state: AuthState,
    events: Seq<AuthEvent>,
    code: Seq<char>,
    user_id: Id,
)
    requires
        !state.codes.contains_key(code),
        !issues(events, code),
    ensures
        !state.after_all(events).codes.contains_key(code),
        !state.after_all(events).redeemable(code, user_id),
    decreases events.len(),
{
    if events.len() > 0 {
        let earlier = events.drop_last();
        assert(!issues(earlier, code)) by {
            if issues(earlier, code) {
                let at = choose|at: int|
                    0 <= at < earlier.len() && (#[trigger] earlier[at] matches AuthEvent::Issued {
                        code: issued,
                        ..
                    } && issued == code);
                assert(events[at] == earlier[at]);
            }
        }
        law_spent_code_stays_spent(state, earlier, code, user_id);
        assert(events[events.len() - 1] == events.last());
    }
}

/// A redeemed code is spent: after the redemption, and after any history
/// that does not issue the code again, nobody can redeem it.
pub proof fn law_redeemed_code_is_spent(
    state: AuthState,
    code: Seq<char>,
    user_id: Id,
    record: AuthorizedRecord,
    events: Seq<AuthEvent>,
    later: Id,
)
    requires
        state.redeemable(code, user_id),
        !issues(events, code),
    ensures
        state.redeem(code, user_id, record).after_all(events).is_authorized(user_id),
        !state.redeem(code, user_id, record).after_all(events).redeemable(code, later),
{
    law_spent_code_stays_spent(state.redeem(code, user_id, record), events, code, later);
    law_authorization_is_never_lost(state.redeem(code, user_id, record), events, user_id);
}

} // verus!

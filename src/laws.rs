use vstd::prelude::*;

use crate::account::AccountId;
use crate::contract::{register_result, register_state, Error};
use crate::signature::signature_valid;

verus! {

/// The registered accounts after a run of registration attempts starting
/// from `registered`. Each attempt is given by its caller and by whether its
/// signature verified (`signature_valid` for `register_with_signature`).
pub open spec fn state_after(registered: Set<AccountId>, attempts: Seq<(AccountId, bool)>) -> Set<AccountId>
    decreases attempts.len(),
{
    if attempts.len() == 0 {
        registered
    } else {
        let last = attempts.last();
        register_state(state_after(registered, attempts.drop_last()), last.0, last.1)
    }
}

/// What attempt `i` of the run returns.
pub open spec fn outcome_at(registered: Set<AccountId>, attempts: Seq<(AccountId, bool)>, i: int) -> Result<(), Error> {
    register_result(state_after(registered, attempts.take(i)), attempts[i].0, attempts[i].1)
}

/// One attempt never removes an account.
proof fn lemma_attempt_keeps(registered: Set<AccountId>, caller: AccountId, signature_ok: bool)
    ensures
        registered.subset_of(register_state(registered, caller, signature_ok)),
{
}

/// The state after the first `j` attempts includes the state after the
/// first `i`, for `i <= j`.
proof fn lemma_prefix_grows(registered: Set<AccountId>, attempts: Seq<(AccountId, bool)>, i: int, j: int)
    requires
        0 <= i <= j <= attempts.len(),
    ensures
        state_after(registered, attempts.take(i)).subset_of(state_after(registered, attempts.take(j))),
    decreases j - i,
{
    if i < j {
        lemma_prefix_grows(registered, attempts, i, j - 1);
        assert(attempts.take(j).drop_last() =~= attempts.take(j - 1));
        let prev = state_after(registered, attempts.take(j - 1));
        lemma_attempt_keeps(prev, attempts[j - 1].0, attempts[j - 1].1);
    }
}

/// Once an account is registered it stays registered, whatever attempts
/// follow: if it is registered after the first `i` attempts of a run, it is
/// registered after the first `j` for every later `j`.
pub proof fn lemma_registration_is_terminal(
    registered: Set<AccountId>,
    attempts: Seq<(AccountId, bool)>,
    id: AccountId,
    i: int,
    j: int,
)
    requires
        0 <= i <= j <= attempts.len(),
        state_after(registered, attempts.take(i)).contains(id),
    ensures
        state_after(registered, attempts.take(j)).contains(id),
{
    lemma_prefix_grows(registered, attempts, i, j);
}

/// At most one attempt per account succeeds: after an attempt by `id`
/// succeeds, every later attempt by `id` returns `AlreadyRegistered`.
pub proof fn lemma_at_most_one_success(
    registered: Set<AccountId>,
    attempts: Seq<(AccountId, bool)>,
    id: AccountId,
    i: int,
    j: int,
)
    requires
        0 <= i < j < attempts.len(),
        attempts[i].0 == id,
        attempts[j].0 == id,
        outcome_at(registered, attempts, i) is Ok,
    ensures
        outcome_at(registered, attempts, j) == Err::<(), Error>(Error::AlreadyRegistered),
{
    assert(attempts.take(i + 1).drop_last() =~= attempts.take(i));
    assert(state_after(registered, attempts.take(i + 1)).contains(id));
    lemma_prefix_grows(registered, attempts, i + 1, j);
}

/// A registration succeeds only with a signature that verifies over exactly
/// the message presented, under the caller's own key; an account not yet
/// registered that presents one that does not verify is refused with
/// `InvalidSignature`.
pub proof fn lemma_signature_binding(
    registered: Set<AccountId>,
    caller: AccountId,
    message: Seq<u8>,
    signature: Seq<u8>,
)
    ensures
        register_result(registered, caller, signature_valid(caller, message, signature)) is Ok
            ==> signature_valid(caller, message, signature),
        !registered.contains(caller) && !signature_valid(caller, message, signature)
            ==> register_result(registered, caller, signature_valid(caller, message, signature))
            == Err::<(), Error>(Error::InvalidSignature),
{
}

/// A refused attempt changes nothing: in particular whether any account is
/// registered stays as it was.
pub proof fn lemma_failure_has_no_effect(registered: Set<AccountId>, caller: AccountId, signature_ok: bool)
    requires
        register_result(registered, caller, signature_ok) is Err,
    ensures
        register_state(registered, caller, signature_ok) == registered,
{
}

/// An account with no successful attempt in a run from the empty state is
/// not registered after it.
pub proof fn lemma_unknown_is_unregistered(attempts: Seq<(AccountId, bool)>, id: AccountId)
    requires
        forall|i: int|
            0 <= i < attempts.len() && (#[trigger] attempts[i]).0 == id
                ==> outcome_at(Set::empty(), attempts, i) is Err,
    ensures
        !state_after(Set::empty(), attempts).contains(id),
    decreases attempts.len(),
{
    if attempts.len() > 0 {
        let n = attempts.len() - 1;
        let rest = attempts.drop_last();
        assert forall|i: int|
            0 <= i < rest.len() && (#[trigger] rest[i]).0 == id
                implies outcome_at(Set::empty(), rest, i) is Err by {
            assert(rest.take(i) =~= attempts.take(i));
            assert(attempts[i] == rest[i]);
        }
        lemma_unknown_is_unregistered(rest, id);
        assert(attempts.take(n) =~= rest);
        if attempts[n].0 == id {
            assert(outcome_at(Set::empty(), attempts, n) is Err);
        }
    }
}

} // verus!

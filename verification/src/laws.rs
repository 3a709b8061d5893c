//! What holds of the contract as a whole.
use vstd::prelude::*;

use crate::address::Address;
use crate::contract::{
    after_batch, after_check, after_check_since, after_emergency, after_finalize, after_flag, after_init,
    after_initiate, after_issue, after_refresh, after_revoke, after_sanction, after_suspend,
    after_unsanction, after_unsuspend, being_revoked, check_record, emergency_reason,
    finalization_refused, init_refused, initiation_refused, officer_refused, last_check_ledger, standing,
    standing_since, Refusal,
};
use crate::effect::{EffectView, EntryView};
use crate::env::{found, EnvView, StoreView};
use crate::types::{CredentialCheckResult, Durability, StatusView, REVOCATION_DELAY};

verus! {

// ---------------------------------------------------------------------------
// Calls and runs
// ---------------------------------------------------------------------------

/// A call that changes the environment. `CheckSince` is a check that is given
/// the ledger of the caller's last one.
pub enum Operation {
    Init(Address),
    Sanction(Address),
    Unsanction(Address),
    Flag(Address),
    Issue(Address, u64),
    Suspend(Address),
    Unsuspend(Address, u64),
    Initiate(Address, Seq<u8>),
    Finalize(Address),
    Revoke(Address, Seq<u8>),
    Emergency(Address, Seq<u8>),
    Check(Address),
    CheckSince(Address, u32),
    Refresh(Address),
    Batch(Seq<Address>),
}

impl Operation {
    /// Why the call is refused, if it is.
    pub open spec fn refused(self, pre: EnvView) -> Option<Refusal> {
        match self {
            Operation::Init(_) => init_refused(pre),
            Operation::Initiate(_, _) => initiation_refused(pre),
            Operation::Revoke(_, _) => initiation_refused(pre),
            Operation::Finalize(participant) => finalization_refused(pre, participant),
            Operation::Check(_) => None,
            Operation::CheckSince(_, _) => None,
            Operation::Refresh(_) => None,
            Operation::Batch(_) => None,
            _ => officer_refused(pre),
        }
    }

    /// What the call makes of the environment.
    pub open spec fn apply(self, pre: EnvView) -> EnvView {
        match self {
            Operation::Init(officer) => after_init(pre, officer),
            Operation::Sanction(target) => after_sanction(pre, target),
            Operation::Unsanction(target) => after_unsanction(pre, target),
            Operation::Flag(target) => after_flag(pre, target),
            Operation::Issue(participant, expiry) => after_issue(pre, participant, expiry),
            Operation::Suspend(participant) => after_suspend(pre, participant),
            Operation::Unsuspend(participant, expiry) => after_unsuspend(pre, participant, expiry),
            Operation::Initiate(participant, reason) => after_initiate(pre, participant, reason),
            Operation::Finalize(participant) => after_finalize(pre, participant),
            Operation::Revoke(participant, reason) => after_revoke(pre, participant, reason),
            Operation::Emergency(participant, reason) => after_emergency(pre, participant, reason),
            Operation::Check(address) => after_check(pre, address),
            Operation::CheckSince(address, last) => after_check_since(pre, address, last),
            Operation::Refresh(address) => after_refresh(pre, address),
            Operation::Batch(addresses) => after_batch(pre, addresses),
        }
    }

    /// The call only asks how someone stands.
    pub open spec fn is_check(self) -> bool {
        self is Check || self is CheckSince || self is Refresh || self is Batch
    }

    /// The call is the officer's to make.
    pub open spec fn is_officers(self) -> bool {
        !self.is_check() && !(self is Init)
    }

    /// The call is about `address`.
    pub open spec fn concerns(self, address: Address) -> bool {
        match self {
            Operation::Init(_) => false,
            Operation::Sanction(target) => target == address,
            Operation::Unsanction(target) => target == address,
            Operation::Flag(target) => target == address,
            Operation::Issue(participant, _) => participant == address,
            Operation::Suspend(participant) => participant == address,
            Operation::Unsuspend(participant, _) => participant == address,
            Operation::Initiate(participant, _) => participant == address,
            Operation::Finalize(participant) => participant == address,
            Operation::Revoke(participant, _) => participant == address,
            Operation::Emergency(participant, _) => participant == address,
            Operation::Check(checked) => checked == address,
            Operation::CheckSince(checked, _) => checked == address,
            Operation::Refresh(checked) => checked == address,
            Operation::Batch(addresses) => addresses.contains(address),
        }
    }
}

/// The same environment in another ledger.
pub open spec fn in_ledger(env: EnvView, sequence: u32, timestamp: u64) -> EnvView {
    EnvView { sequence, timestamp, ..env }
}

/// A step in the life of the contract: a call, or a later ledger.
pub enum Step {
    Call(Operation),
    Ledger(u32, u64),
}

impl Step {
    /// Calls are made only when they are not refused, and ledgers do not go
    /// back.
    pub open spec fn allowed(self, pre: EnvView) -> bool {
        match self {
            Step::Call(operation) => operation.refused(pre) is None,
            Step::Ledger(sequence, _) => pre.sequence <= sequence,
        }
    }

    /// What the step makes of the environment.
    pub open spec fn apply(self, pre: EnvView) -> EnvView {
        match self {
            Step::Call(operation) => operation.apply(pre),
            Step::Ledger(sequence, timestamp) => in_ledger(pre, sequence, timestamp),
        }
    }
}

/// Every step of the run is allowed where it is taken.
pub open spec fn allowed_run(pre: EnvView, steps: Seq<Step>) -> bool
    decreases steps.len(),
{
    steps.len() == 0 || (allowed_run(pre, steps.drop_last()) && steps.last().allowed(
        run(pre, steps.drop_last()),
    ))
}

/// What a run of steps makes of the environment.
pub open spec fn run(pre: EnvView, steps: Seq<Step>) -> EnvView
    decreases steps.len(),
{
    if steps.len() == 0 {
        pre
    } else {
        steps.last().apply(run(pre, steps.drop_last()))
    }
}

// ---------------------------------------------------------------------------
// What is asked of the host
// ---------------------------------------------------------------------------

/// The storage of a host that has carried out `effects`.
pub open spec fn carried_out(store: StoreView, effects: Seq<EffectView>) -> StoreView
    decreases effects.len(),
{
    if effects.len() == 0 {
        store
    } else {
        let before = carried_out(store, effects.drop_last());
        match effects.last() {
            EffectView::Put(entry) => before.with(entry),
            EffectView::Remove(key) => before.without(key),
            _ => before,
        }
    }
}

/// Requests are never taken back: a call only adds to them.
pub proof fn law_requests_only_grow(pre: EnvView, operation: Operation)
    ensures
        pre.effects.is_prefix_of(operation.apply(pre).effects),
{
}

/// What a call asks of the host, after the requests that were there before.
pub open spec fn asked(pre: EnvView, operation: Operation) -> Seq<EffectView> {
    operation.apply(pre).effects.skip(pre.effects.len() as int)
}

/// Every call that is the officer's asks for the authorization of the stored
/// officer before it asks for anything else, and asks for no other.
pub proof fn law_officer_authorizes_first(pre: EnvView, operation: Operation)
    requires
        operation.is_officers(),
        operation.refused(pre) is None,
    ensures
        asked(pre, operation).len() > 1,
        pre.store.officer is Some,
        asked(pre, operation)[0] == EffectView::RequireAuth(pre.store.officer->0),
        forall|i: int|
            0 < i < asked(pre, operation).len() ==> !(#[trigger] asked(
                pre,
                operation,
            )[i] is RequireAuth),
{
}

/// A call is refused after the officer has been asked only where there is an
/// officer to ask, and only if it is the officer's to make.
pub proof fn law_refusals_ask_a_known_officer(pre: EnvView, operation: Operation)
    requires
        operation.refused(pre) matches Some(refusal) && refusal.comes_after_officer(),
    ensures
        pre.store.officer is Some,
        operation.is_officers(),
{
}

/// Anyone may ask how someone stands: a check is never refused, asks for no
/// authorization and touches nothing but temporary storage.
pub proof fn law_checks_are_open_to_all(pre: EnvView, operation: Operation)
    requires
        operation.is_check(),
    ensures
        operation.refused(pre) is None,
        forall|i: int|
            0 <= i < asked(pre, operation).len() ==> {
                let effect = #[trigger] asked(pre, operation)[i];
                &&& effect.touches() is Some
                &&& effect.touches()->0.kept_in() == Durability::Temporary
            },
{
}

/// A host that carries out what a call has asked, in order, ends up with the
/// storage that the contract sees after the call.
pub proof fn law_requests_account_for_storage(pre: EnvView, operation: Operation)
    ensures
        operation.apply(pre).store == carried_out(pre.store, asked(pre, operation)),
{
    let effects = asked(pre, operation);
    match operation {
        Operation::Batch(addresses) => {
            lemma_batch_carried_out(pre, addresses);
            assert(effects =~= addresses.map_values(
                |address: Address|
                    EffectView::Put(
                        EntryView::LastComplianceCheck(address, check_record(pre, address)),
                    ),
            ));
        },
        Operation::Refresh(address) => {
            reveal_with_fuel(carried_out, 3);
            assert(effects.drop_last().drop_last() =~= Seq::empty());
            assert(operation.apply(pre).store =~= carried_out(pre.store, effects));
        },
        _ => {
            reveal_with_fuel(carried_out, 8);
            assert(operation.apply(pre).store =~= carried_out(pre.store, effects));
        },
    }
}

/// Two environments are the same to a check of `address`.
pub open spec fn alike_for(one: EnvView, other: EnvView, address: Address) -> bool {
    &&& found(one.store.pending, address) == found(other.store.pending, address)
    &&& found(one.store.statuses, address) == found(other.store.statuses, address)
}

/// Two environments, in the same ledger and with the same officer, are the
/// same in what a call looks at.
pub open spec fn alike(one: EnvView, other: EnvView, operation: Operation) -> bool {
    &&& one.sequence == other.sequence
    &&& one.timestamp == other.timestamp
    &&& one.store.officer == other.store.officer
    &&& match operation {
        Operation::Finalize(participant) => found(one.store.pending, participant) == found(
            other.store.pending,
            participant,
        ),
        Operation::Check(address) => alike_for(one, other, address),
        Operation::CheckSince(address, _) => alike_for(one, other, address),
        Operation::Refresh(address) => alike_for(one, other, address),
        Operation::Batch(addresses) => forall|i: int|
            0 <= i < addresses.len() ==> alike_for(one, other, #[trigger] addresses[i]),
        _ => true,
    }
}

/// What a call asks for, and whether it is refused, rests on the ledger, the
/// officer and the few entries it looks at: an environment that holds no more
/// than those serves as well as the whole storage.
pub proof fn law_calls_look_at_little(one: EnvView, other: EnvView, operation: Operation)
    requires
        alike(one, other, operation),
    ensures
        operation.refused(one) == operation.refused(other),
        operation.refused(one) is None ==> asked(one, operation) == asked(other, operation),
{
    if operation.refused(one) is None {
        if operation is Finalize {
            assert(found(one.store.pending, operation->Finalize_0) is Some);
        }
        assert(asked(one, operation) =~= asked(other, operation));
    }
}

proof fn lemma_batch_carried_out(pre: EnvView, addresses: Seq<Address>)
    ensures
        after_batch(pre, addresses).store == carried_out(
            pre.store,
            addresses.map_values(
                |address: Address|
                    EffectView::Put(
                        EntryView::LastComplianceCheck(address, check_record(pre, address)),
                    ),
            ),
        ),
    decreases addresses.len(),
{
    let put = |address: Address|
        EffectView::Put(EntryView::LastComplianceCheck(address, check_record(pre, address)));
    if addresses.len() == 0 {
        assert(after_batch(pre, addresses).store =~= pre.store);
    } else {
        lemma_batch_carried_out(pre, addresses.drop_last());
        assert(addresses.map_values(put).drop_last() =~= addresses.drop_last().map_values(put));
        law_batch_is_checks_in_order(pre, addresses.drop_last(), addresses.last());
        assert(addresses.drop_last().push(addresses.last()) =~= addresses);
    }
}

// ---------------------------------------------------------------------------
// What stays as it is
// ---------------------------------------------------------------------------

/// A call changes nothing that is stored about an address it is not about.
pub proof fn law_calls_keep_to_their_subject(pre: EnvView, operation: Operation, other: Address)
    requires
        !operation.concerns(other),
    ensures
        ({
            let post = operation.apply(pre).store;
            &&& found(post.sanctioned, other) == found(pre.store.sanctioned, other)
            &&& found(post.flagged, other) == found(pre.store.flagged, other)
            &&& found(post.statuses, other) == found(pre.store.statuses, other)
            &&& found(post.pending, other) == found(pre.store.pending, other)
            &&& found(post.checks, other) == found(pre.store.checks, other)
            &&& found(post.issuers, other) == found(pre.store.issuers, other)
        }),
        standing(operation.apply(pre), other) == standing(pre, other),
        forall|last: u32| #[trigger]
            standing_since(operation.apply(pre), other, last) == standing_since(pre, other, last),
{
}

/// Asking how someone stands changes nothing but the record of the check, and
/// so the standing of nobody.
pub proof fn law_checks_change_only_their_record(
    pre: EnvView,
    operation: Operation,
    anyone: Address,
)
    requires
        operation.is_check(),
    ensures
        (StoreView { checks: pre.store.checks, ..operation.apply(pre).store }) == pre.store,
        standing(operation.apply(pre), anyone) == standing(pre, anyone),
        forall|last: u32| #[trigger]
            standing_since(operation.apply(pre), anyone, last) == standing_since(pre, anyone, last),
{
}

/// Sanctions and flags are kept apart from credentials: neither changes how
/// anyone stands.
pub proof fn law_sanctions_and_flags_leave_standings(
    pre: EnvView,
    operation: Operation,
    anyone: Address,
)
    requires
        operation is Sanction || operation is Unsanction || operation is Flag,
    ensures
        standing(operation.apply(pre), anyone) == standing(pre, anyone),
        forall|last: u32| #[trigger]
            standing_since(operation.apply(pre), anyone, last) == standing_since(pre, anyone, last),
{
}

/// Once there is an officer, no run of calls puts another in their place, and
/// the contract cannot be set up again.
pub proof fn law_officer_is_permanent(pre: EnvView, steps: Seq<Step>)
    requires
        pre.store.officer is Some,
        allowed_run(pre, steps),
    ensures
        run(pre, steps).store.officer == pre.store.officer,
        init_refused(run(pre, steps)) == Some(Refusal::AlreadyInitialized),
    decreases steps.len(),
{
    if steps.len() > 0 {
        law_officer_is_permanent(pre, steps.drop_last());
    }
}

/// Once flagged, an address stays flagged.
pub proof fn law_flags_are_permanent(pre: EnvView, steps: Seq<Step>, target: Address)
    requires
        found(pre.store.flagged, target) == Some(true),
    ensures
        found(run(pre, steps).store.flagged, target) == Some(true),
    decreases steps.len(),
{
    if steps.len() > 0 {
        law_flags_are_permanent(pre, steps.drop_last(), target);
    }
}

// ---------------------------------------------------------------------------
// Sanctions and flags
// ---------------------------------------------------------------------------

/// A sanction shows at once and is gone once it is lifted; a flag shows at
/// once.
pub proof fn law_sanctions_and_flags_show(pre: EnvView, target: Address)
    ensures
        found(after_sanction(pre, target).store.sanctioned, target) == Some(true),
        found(after_unsanction(pre, target).store.sanctioned, target) is None,
        found(after_flag(pre, target).store.flagged, target) == Some(true),
{
}

/// Lifting a sanction undoes putting it, if there was no mark before.
pub proof fn law_unsanction_undoes_sanction(pre: EnvView, target: Address)
    requires
        !pre.store.sanctioned.contains_key(target),
    ensures
        after_unsanction(after_sanction(pre, target), target).store == pre.store,
{
    assert(after_unsanction(after_sanction(pre, target), target).store =~= pre.store);
}

// ---------------------------------------------------------------------------
// Credentials
// ---------------------------------------------------------------------------

/// A credential that was just issued or reactivated is active up to and
/// including its expiry, and expired afterwards, unless a revocation is under
/// way.
pub proof fn law_credentials_last_until_expiry(
    pre: EnvView,
    participant: Address,
    expiry: u64,
    sequence: u32,
    timestamp: u64,
)
    requires
        !pre.store.pending.contains_key(participant),
    ensures
        ({
            let expected = if timestamp <= expiry {
                CredentialCheckResult::Active
            } else {
                CredentialCheckResult::Expired
            };
            let issued = in_ledger(after_issue(pre, participant, expiry), sequence, timestamp);
            let reactivated = in_ledger(
                after_unsuspend(pre, participant, expiry),
                sequence,
                timestamp,
            );
            &&& standing(issued, participant) == expected
            &&& standing(reactivated, participant) == expected
        }),
{
}

/// A suspended credential is reported as suspended, unless a revocation is
/// under way.
pub proof fn law_suspension_shows(
    pre: EnvView,
    participant: Address,
    sequence: u32,
    timestamp: u64,
)
    requires
        !pre.store.pending.contains_key(participant),
    ensures
        standing(in_ledger(after_suspend(pre, participant), sequence, timestamp), participant)
            == CredentialCheckResult::Suspended,
{
}

/// Who has no credential, and no revocation under way, is not found.
pub proof fn law_without_credential_not_found(env: EnvView, address: Address)
    requires
        !env.store.statuses.contains_key(address),
        !env.store.pending.contains_key(address),
    ensures
        standing(env, address) == CredentialCheckResult::NotFound,
{
}

// ---------------------------------------------------------------------------
// Revocation in two phases
// ---------------------------------------------------------------------------

/// A revocation that is under way is reported whatever the stored credential
/// says: a plain check can give no other answer.
pub proof fn law_pending_revocation_comes_first(env: EnvView, address: Address)
    requires
        being_revoked(env, address),
    ensures
        standing(env, address) == CredentialCheckResult::PendingRevocation,
{
}

/// A caller that gives the ledger of its last check is told `Revoked` if the
/// credential was revoked in that ledger or later, pending revocation or not.
/// In every other case, and with ledger 0, it is told what a plain check says.
pub proof fn law_revocation_since_the_last_check_is_reported(
    env: EnvView,
    address: Address,
    last: u32,
)
    ensures
        match found(env.store.statuses, address) {
            Some(StatusView::Revoked(_, at)) => standing_since(env, address, last) == (if 0 < last
                <= at {
                CredentialCheckResult::Revoked
            } else {
                standing(env, address)
            }),
            _ => standing_since(env, address, last) == standing(env, address),
        },
        standing_since(env, address, 0) == standing(env, address),
        after_check_since(env, address, 0) == after_check(env, address),
{
}

/// While a revocation is under way no check, with a ledger or without, passes
/// the participant: the answer is that the credential is revoked or about to
/// be.
pub proof fn law_no_check_passes_while_being_revoked(env: EnvView, address: Address, last: u32)
    requires
        being_revoked(env, address),
    ensures
        standing_since(env, address, last) == CredentialCheckResult::PendingRevocation
            || standing_since(env, address, last) == CredentialCheckResult::Revoked,
{
}

/// Once initiated, in either of the three ways, a revocation is under way from
/// the same ledger on.
pub proof fn law_revocation_starts_at_once(pre: EnvView, participant: Address, reason: Seq<u8>)
    ensures
        being_revoked(after_initiate(pre, participant, reason), participant),
        being_revoked(after_revoke(pre, participant, reason), participant),
        being_revoked(after_emergency(pre, participant, reason), participant),
{
}

/// Only finalizing it ends a revocation: whatever else is called, and however
/// many ledgers pass, a plain check reports the pending revocation. A
/// credential issued or reactivated meanwhile does not hide it.
pub proof fn law_only_finalization_ends_a_revocation(
    pre: EnvView,
    steps: Seq<Step>,
    participant: Address,
)
    requires
        being_revoked(pre, participant),
        allowed_run(pre, steps),
        forall|i: int|
            0 <= i < steps.len() ==> #[trigger] steps[i] != Step::Call(
                Operation::Finalize(participant),
            ),
    ensures
        being_revoked(run(pre, steps), participant),
        standing(run(pre, steps), participant) == CredentialCheckResult::PendingRevocation,
    decreases steps.len(),
{
    if steps.len() > 0 {
        let earlier = steps.drop_last();
        assert forall|i: int| 0 <= i < earlier.len() implies #[trigger] earlier[i] != Step::Call(
            Operation::Finalize(participant),
        ) by {
            assert(earlier[i] == steps[i]);
        }
        law_only_finalization_ends_a_revocation(pre, earlier, participant);
        assert(steps[steps.len() - 1] != Step::Call(Operation::Finalize(participant)));
    }
}

/// A revocation can be finalized once its delay has elapsed, and no earlier.
/// The same delay holds for revoking at once.
pub proof fn law_finalization_waits_for_the_delay(
    pre: EnvView,
    participant: Address,
    reason: Seq<u8>,
    sequence: u32,
    timestamp: u64,
)
    requires
        initiation_refused(pre) is None,
    ensures
        ({
            let initiated = in_ledger(
                after_initiate(pre, participant, reason),
                sequence,
                timestamp,
            );
            let revoked = in_ledger(after_revoke(pre, participant, reason), sequence, timestamp);
            let expected = if sequence < pre.sequence + REVOCATION_DELAY {
                Some(Refusal::DelayNotElapsed)
            } else {
                None
            };
            &&& finalization_refused(initiated, participant) == expected
            &&& finalization_refused(revoked, participant) == expected
        }),
{
}

/// The step is a call that initiates or finalizes a revocation of the
/// credential of `participant`.
pub open spec fn is_revocation_of(step: Step, participant: Address) -> bool {
    match step {
        Step::Call(Operation::Initiate(subject, _)) => subject == participant,
        Step::Call(Operation::Revoke(subject, _)) => subject == participant,
        Step::Call(Operation::Emergency(subject, _)) => subject == participant,
        Step::Call(Operation::Finalize(subject)) => subject == participant,
        _ => false,
    }
}

/// Through any run without another revocation call about the participant, the
/// pending revocation stays what it was.
pub proof fn law_pending_revocation_is_kept(pre: EnvView, steps: Seq<Step>, participant: Address)
    requires
        forall|i: int|
            0 <= i < steps.len() ==> !is_revocation_of(#[trigger] steps[i], participant),
    ensures
        found(run(pre, steps).store.pending, participant) == found(pre.store.pending, participant),
    decreases steps.len(),
{
    if steps.len() > 0 {
        let earlier = steps.drop_last();
        assert forall|i: int| 0 <= i < earlier.len() implies !is_revocation_of(
            #[trigger] earlier[i],
            participant,
        ) by {
            assert(earlier[i] == steps[i]);
        }
        law_pending_revocation_is_kept(pre, earlier, participant);
        assert(!is_revocation_of(steps[steps.len() - 1], participant));
    }
}

/// The delay counts ledgers and nothing else: whatever other calls are made
/// after the first phase, the second is open from the due ledger on and closed
/// before it.
pub proof fn law_delay_holds_through_other_calls(
    pre: EnvView,
    participant: Address,
    reason: Seq<u8>,
    steps: Seq<Step>,
)
    requires
        initiation_refused(pre) is None,
        allowed_run(after_initiate(pre, participant, reason), steps),
        forall|i: int|
            0 <= i < steps.len() ==> !is_revocation_of(#[trigger] steps[i], participant),
    ensures
        ({
            let post = run(after_initiate(pre, participant, reason), steps);
            finalization_refused(post, participant) == (if post.sequence < pre.sequence
                + REVOCATION_DELAY {
                Some(Refusal::DelayNotElapsed)
            } else {
                None
            })
        }),
{
    let initiated = after_initiate(pre, participant, reason);
    law_officer_is_permanent(initiated, steps);
    law_pending_revocation_is_kept(initiated, steps, participant);
    assert(found(run(initiated, steps).store.pending, participant) is Some);
}

/// Both phases together revoke the credential, for the reason given in the
/// first, in the ledger of the second.
pub proof fn law_two_phases_revoke(
    pre: EnvView,
    participant: Address,
    reason: Seq<u8>,
    sequence: u32,
    timestamp: u64,
)
    requires
        initiation_refused(pre) is None,
        sequence >= pre.sequence + REVOCATION_DELAY,
    ensures
        ({
            let first = in_ledger(after_initiate(pre, participant, reason), sequence, timestamp);
            let second = after_finalize(first, participant);
            &&& finalization_refused(first, participant) is None
            &&& found(second.store.statuses, participant) == Some(
                StatusView::Revoked(reason, sequence),
            )
            &&& found(second.store.pending, participant) is None
        }),
{
}

/// After finalization the participant is reported as revoked, in whatever
/// ledger, and there is nothing left to finalize.
pub proof fn law_finalized_is_revoked(
    pre: EnvView,
    participant: Address,
    sequence: u32,
    timestamp: u64,
)
    requires
        finalization_refused(pre, participant) is None,
    ensures
        ({
            let post = in_ledger(after_finalize(pre, participant), sequence, timestamp);
            &&& standing(post, participant) == CredentialCheckResult::Revoked
            &&& forall|last: u32| #[trigger]
                standing_since(post, participant, last) == CredentialCheckResult::Revoked
            &&& finalization_refused(post, participant) == Some(Refusal::NoPendingRevocation)
        }),
{
}

/// Revoking at once stores the revoked credential in the same ledger. A plain
/// check reports the pending revocation until it is finalized; a caller that
/// last checked in this ledger or an earlier one is told of the revocation.
pub proof fn law_immediate_revocation(pre: EnvView, participant: Address, reason: Seq<u8>)
    ensures
        ({
            let post = after_revoke(pre, participant, reason);
            &&& found(post.store.statuses, participant) == Some(
                StatusView::Revoked(reason, pre.sequence),
            )
            &&& standing(post, participant) == CredentialCheckResult::PendingRevocation
            &&& forall|last: u32|
                0 < last <= pre.sequence ==> #[trigger] standing_since(post, participant, last)
                    == CredentialCheckResult::Revoked
        }),
{
}

/// An emergency is caught by checks in the same ledger, and can be finalized
/// in the same ledger.
pub proof fn law_emergency_has_no_delay(pre: EnvView, participant: Address, reason: Seq<u8>)
    requires
        officer_refused(pre) is None,
    ensures
        ({
            let post = after_emergency(pre, participant, reason);
            &&& found(post.store.statuses, participant) == Some(
                StatusView::Revoked(reason, pre.sequence),
            )
            &&& standing(post, participant) == CredentialCheckResult::PendingRevocation
            &&& forall|last: u32|
                0 < last <= pre.sequence ==> #[trigger] standing_since(post, participant, last)
                    == CredentialCheckResult::Revoked
            &&& finalization_refused(post, participant) is None
            &&& found(after_finalize(post, participant).store.statuses, participant) == Some(
                StatusView::Revoked(emergency_reason(), pre.sequence),
            )
        }),
{
}

// ---------------------------------------------------------------------------
// Checks
// ---------------------------------------------------------------------------

/// After a check, the ledger of the latest check is the current one, and the
/// recorded answer is the one that was given.
pub proof fn law_checks_are_recorded(pre: EnvView, address: Address)
    ensures
        found(after_check(pre, address).store.checks, address) == Some(check_record(pre, address)),
        check_record(pre, address).check_ledger == pre.sequence,
        check_record(pre, address).result == standing(pre, address),
        last_check_ledger(after_check(pre, address), address) == pre.sequence,
        forall|last: u32|
            #![trigger after_check_since(pre, address, last)]
            ({
                let post = after_check_since(pre, address, last);
                &&& last_check_ledger(post, address) == pre.sequence
                &&& post.store.checks[address].result == standing_since(pre, address, last)
            }),
{
}

/// Checking again in the same ledger gives the same answer and leaves the same
/// storage.
pub proof fn law_checks_repeat(pre: EnvView, address: Address)
    ensures
        standing(after_check(pre, address), address) == standing(pre, address),
        after_check(after_check(pre, address), address).store == after_check(pre, address).store,
        forall|last: u32|
            #![trigger after_check_since(pre, address, last)]
            ({
                let once = after_check_since(pre, address, last);
                &&& standing_since(once, address, last) == standing_since(pre, address, last)
                &&& after_check_since(once, address, last).store == once.store
            }),
{
    let once = after_check(pre, address);
    assert(after_check(once, address).store =~= once.store);
    assert forall|last: u32|
        #![trigger after_check_since(pre, address, last)]
        ({
            let once = after_check_since(pre, address, last);
            &&& standing_since(once, address, last) == standing_since(pre, address, last)
            &&& after_check_since(once, address, last).store == once.store
        }) by {
        let once = after_check_since(pre, address, last);
        assert(after_check_since(once, address, last).store =~= once.store);
    }
}

/// An answer rests on the ledger and on two entries, the pending revocation
/// and the credential of the address: on nothing that an earlier check left.
pub proof fn law_answers_rest_on_two_entries(one: EnvView, other: EnvView, address: Address)
    requires
        one.sequence == other.sequence,
        one.timestamp == other.timestamp,
        alike_for(one, other, address),
    ensures
        standing(one, address) == standing(other, address),
        forall|last: u32| #[trigger]
            standing_since(one, address, last) == standing_since(other, address, last),
{
    assert(one.store.pending.contains_key(address) == (found(
        one.store.pending,
        address,
    ) is Some));
}

/// A refreshed check leaves the same storage as a plain one.
pub proof fn law_refresh_is_a_check(pre: EnvView, address: Address)
    ensures
        after_refresh(pre, address).store == after_check(pre, address).store,
{
}

/// A batch is the same as its checks made one after the other: no check in it
/// bears on the answer to another.
pub proof fn law_batch_is_checks_in_order(pre: EnvView, addresses: Seq<Address>, next: Address)
    ensures
        after_batch(pre, Seq::empty()) == pre,
        after_batch(pre, addresses.push(next)) == after_check(after_batch(pre, addresses), next),
        standing(after_batch(pre, addresses), next) == standing(pre, next),
{
    let longer = addresses.push(next);
    assert(longer[addresses.len() as int] == next);
    assert forall|address: Address| addresses.contains(address) implies longer.contains(
        address,
    ) by {
        let i = choose|i: int| 0 <= i < addresses.len() && addresses[i] == address;
        assert(longer[i] == address);
    }
    assert(after_batch(pre, Seq::empty()) =~= pre);
    assert(after_batch(pre, longer) =~= after_check(after_batch(pre, addresses), next));
}

// ---------------------------------------------------------------------------
// What a run leaves behind
// ---------------------------------------------------------------------------

/// The run puts `target` under sanctions and does not lift them afterwards.
pub open spec fn leaves_sanctioned(steps: Seq<Step>, target: Address) -> bool {
    exists|i: int|
        0 <= i < steps.len() && #[trigger] steps[i] == Step::Call(Operation::Sanction(target))
            && lifted_by_none(steps, i, target)
}

/// No step after the one at `i` lifts the sanctions on `target`.
pub open spec fn lifted_by_none(steps: Seq<Step>, i: int, target: Address) -> bool {
    forall|j: int|
        i < j < steps.len() ==> #[trigger] steps[j] != Step::Call(Operation::Unsanction(target))
}

/// An address without a mark to begin with is under sanctions exactly when the
/// run put it there and did not lift the sanctions since.
pub proof fn law_sanctions_follow_the_run(pre: EnvView, steps: Seq<Step>, target: Address)
    requires
        !pre.store.sanctioned.contains_key(target),
    ensures
        found(run(pre, steps).store.sanctioned, target) == (if leaves_sanctioned(steps, target) {
            Some(true)
        } else {
            None
        }),
    decreases steps.len(),
{
    if steps.len() > 0 {
        let earlier = steps.drop_last();
        let n = earlier.len() as int;
        law_sanctions_follow_the_run(pre, earlier, target);
        assert(forall|i: int| 0 <= i < n ==> #[trigger] earlier[i] == steps[i]);
        if steps[n] == Step::Call(Operation::Sanction(target)) {
            assert(lifted_by_none(steps, n, target));
        } else if steps[n] == Step::Call(Operation::Unsanction(target)) {
            assert(!leaves_sanctioned(steps, target));
        } else {
            if leaves_sanctioned(earlier, target) {
                let i = choose|i: int|
                    0 <= i < n && #[trigger] earlier[i] == Step::Call(Operation::Sanction(target))
                        && lifted_by_none(earlier, i, target);
                assert(steps[i] == earlier[i]);
                assert forall|j: int| i < j < steps.len() implies #[trigger] steps[j] != Step::Call(
                    Operation::Unsanction(target),
                ) by {
                    if j < n {
                        assert(earlier[j] == steps[j]);
                    }
                }
                assert(lifted_by_none(steps, i, target));
            }
            if leaves_sanctioned(steps, target) {
                let i = choose|i: int|
                    0 <= i < steps.len() && #[trigger] steps[i] == Step::Call(
                        Operation::Sanction(target),
                    ) && lifted_by_none(steps, i, target);
                assert(earlier[i] == steps[i]);
                assert forall|j: int| i < j < n implies #[trigger] earlier[j] != Step::Call(
                    Operation::Unsanction(target),
                ) by {
                    assert(earlier[j] == steps[j]);
                }
                assert(lifted_by_none(earlier, i, target));
            }
        }
    }
}

/// The step issues a credential to `participant`.
pub open spec fn is_issue_to(step: Step, participant: Address) -> bool {
    step matches Step::Call(Operation::Issue(subject, _)) && subject == participant
}

/// A participant without an issuer to begin with has one exactly when the run
/// issued a credential to them.
pub proof fn law_issuers_follow_the_run(pre: EnvView, steps: Seq<Step>, participant: Address)
    requires
        !pre.store.issuers.contains_key(participant),
    ensures
        run(pre, steps).store.issuers.contains_key(participant) <==> exists|i: int|
            0 <= i < steps.len() && is_issue_to(#[trigger] steps[i], participant),
    decreases steps.len(),
{
    if steps.len() > 0 {
        let earlier = steps.drop_last();
        let n = earlier.len() as int;
        law_issuers_follow_the_run(pre, earlier, participant);
        assert(forall|i: int| 0 <= i < n ==> #[trigger] steps[i] == earlier[i]);
        if exists|i: int| 0 <= i < n && is_issue_to(#[trigger] earlier[i], participant) {
            let i = choose|i: int| 0 <= i < n && is_issue_to(#[trigger] earlier[i], participant);
            assert(is_issue_to(steps[i], participant));
        }
        if is_issue_to(steps[n], participant) {
            assert(run(pre, steps).store.issuers.contains_key(participant));
        }
    }
}

/// The step checks how `address` stands.
pub open spec fn is_check_of(step: Step, address: Address) -> bool {
    step matches Step::Call(operation) && operation.is_check() && operation.concerns(address)
}

/// The step at `i` is the last in the run that checks how `address` stands.
pub open spec fn is_latest_check(steps: Seq<Step>, i: int, address: Address) -> bool {
    &&& 0 <= i < steps.len()
    &&& is_check_of(steps[i], address)
    &&& forall|j: int| i < j < steps.len() ==> !is_check_of(#[trigger] steps[j], address)
}

/// For an address without a record to begin with, the ledger of the latest
/// check is the one in which the run last checked it, or 0 if it never did.
pub proof fn law_last_check_follows_the_run(pre: EnvView, steps: Seq<Step>, address: Address)
    requires
        !pre.store.checks.contains_key(address),
    ensures
        forall|i: int| #[trigger]
            is_latest_check(steps, i, address) ==> last_check_ledger(run(pre, steps), address)
                == run(pre, steps.take(i)).sequence,
        (forall|i: int| 0 <= i < steps.len() ==> !is_check_of(#[trigger] steps[i], address))
            ==> last_check_ledger(run(pre, steps), address) == 0,
    decreases steps.len(),
{
    if steps.len() > 0 {
        let earlier = steps.drop_last();
        let n = earlier.len() as int;
        law_last_check_follows_the_run(pre, earlier, address);
        assert(forall|i: int| 0 <= i < n ==> #[trigger] earlier[i] == steps[i]);
        assert(steps.take(n) =~= earlier);
        if !is_check_of(steps[n], address) {
            assert(found(run(pre, steps).store.checks, address) == found(
                run(pre, earlier).store.checks,
                address,
            ));
        } else {
            assert(last_check_ledger(run(pre, steps), address) == run(pre, earlier).sequence);
        }
        assert forall|i: int| #[trigger] is_latest_check(steps, i, address) implies
            last_check_ledger(run(pre, steps), address) == run(pre, steps.take(i)).sequence by {
            if i < n {
                assert(!is_check_of(steps[n], address));
                assert(is_latest_check(earlier, i, address));
                assert(earlier.take(i) =~= steps.take(i));
            }
        }
    }
}

// ---------------------------------------------------------------------------
// What holds in every state
// ---------------------------------------------------------------------------

/// The entries agree with their keys, with each other and with the ledger.
pub open spec fn consistent(env: EnvView) -> bool {
    let store = env.store;
    &&& forall|who: Address| #[trigger]
        store.pending.contains_key(who) ==> {
            let pending = store.pending[who];
            &&& pending.address == who
            &&& pending.initiated_at <= env.sequence
            &&& pending.effective_ledger == pending.initiated_at || pending.effective_ledger
                == pending.initiated_at + REVOCATION_DELAY
        }
    &&& forall|who: Address| #[trigger]
        store.statuses.contains_key(who) ==> match store.statuses[who] {
            StatusView::PendingRevocation(due) => store.pending.contains_key(who)
                && store.pending[who].effective_ledger == due,
            StatusView::Revoked(_, at) => at <= env.sequence,
            _ => true,
        }
    &&& forall|who: Address| #[trigger]
        store.checks.contains_key(who) ==> {
            &&& store.checks[who].address == who
            &&& store.checks[who].check_ledger <= env.sequence
        }
    &&& forall|who: Address| #[trigger]
        store.issuers.contains_key(who) ==> store.officer == Some(store.issuers[who])
}

/// A fresh environment is consistent, and stays so through every allowed run.
pub proof fn law_every_state_is_consistent(sequence: u32, timestamp: u64, steps: Seq<Step>)
    requires
        allowed_run(
            EnvView { sequence, timestamp, store: StoreView::empty(), effects: Seq::empty() },
            steps,
        ),
    ensures
        consistent(
            run(
                EnvView { sequence, timestamp, store: StoreView::empty(), effects: Seq::empty() },
                steps,
            ),
        ),
    decreases steps.len(),
{
    if steps.len() > 0 {
        law_every_state_is_consistent(sequence, timestamp, steps.drop_last());
    }
}

/// In a consistent state, a plain check reports whoever has a pending
/// revocation, and whoever has a credential that awaits one.
pub proof fn law_no_stale_answer(env: EnvView, address: Address)
    requires
        consistent(env),
        env.store.pending.contains_key(address) || (found(env.store.statuses, address) matches Some(
            StatusView::PendingRevocation(_),
        )),
    ensures
        being_revoked(env, address),
        standing(env, address) == CredentialCheckResult::PendingRevocation,
{
}

} // verus!

//! What each call does, entry by entry and request by request.
use vstd::prelude::*;

use crate::address::Address;
use crate::contract::{
    after_check, after_check_since, after_emergency, after_finalize, after_init, after_initiate,
    after_revoke, being_revoked, emergency_reason, finalization_refused, init_refused,
    initiation_refused, last_check_ledger, officer_refused, standing, standing_since, Refusal,
};
use crate::effect::{Effect, EffectView, Entry, EntryView, Event, EventView};
use crate::env::{found, EnvView, StoreView};
use crate::laws::{asked, in_ledger, run, Operation, Step};
use crate::types::{
    ComplianceCheckRecord, CredentialCheckResult, CredentialStatus, DataKey, Durability,
    PendingRevocation, PendingView, StatusView, CREDENTIAL_TTL_LEDGERS, INSTANCE_TTL_LEDGERS,
    REVOCATION_DELAY,
};

verus! {

// ---------------------------------------------------------------------------
// Storage as one map from keys to entries
// ---------------------------------------------------------------------------

/// The entry that storage holds under `key`.
pub open spec fn held(store: StoreView, key: DataKey) -> Option<EntryView> {
    match key {
        DataKey::Officer => match store.officer {
            Some(officer) => Some(EntryView::Officer(officer)),
            None => None,
        },
        DataKey::Sanctioned(who) => if store.sanctioned.contains_key(who) {
            Some(EntryView::Sanctioned(who, store.sanctioned[who]))
        } else {
            None
        },
        DataKey::Flagged(who) => if store.flagged.contains_key(who) {
            Some(EntryView::Flagged(who, store.flagged[who]))
        } else {
            None
        },
        DataKey::CredentialStatus(who) => if store.statuses.contains_key(who) {
            Some(EntryView::CredentialStatus(who, store.statuses[who]))
        } else {
            None
        },
        DataKey::PendingRevocation(who) => if store.pending.contains_key(who) {
            Some(EntryView::PendingRevocation(who, store.pending[who]))
        } else {
            None
        },
        DataKey::LastComplianceCheck(who) => if store.checks.contains_key(who) {
            Some(EntryView::LastComplianceCheck(who, store.checks[who]))
        } else {
            None
        },
        DataKey::CredentialIssuer(who) => if store.issuers.contains_key(who) {
            Some(EntryView::CredentialIssuer(who, store.issuers[who]))
        } else {
            None
        },
    }
}

/// Storage is what it holds: two storages with the same entry under every key
/// are the same.
pub proof fn law_storage_is_its_entries(one: StoreView, other: StoreView)
    requires
        forall|key: DataKey| #[trigger] held(one, key) == held(other, key),
    ensures
        one == other,
{
    assert(held(one, DataKey::Officer) == held(other, DataKey::Officer));
    assert forall|who: Address| #[trigger]
        found(one.sanctioned, who) == found(other.sanctioned, who) by {
        let key = DataKey::Sanctioned(who);
        assert(held(one, key) == held(other, key));
    }
    lemma_same_lookups(one.sanctioned, other.sanctioned);
    assert forall|who: Address| #[trigger]
        found(one.flagged, who) == found(other.flagged, who) by {
        let key = DataKey::Flagged(who);
        assert(held(one, key) == held(other, key));
    }
    lemma_same_lookups(one.flagged, other.flagged);
    assert forall|who: Address| #[trigger]
        found(one.statuses, who) == found(other.statuses, who) by {
        let key = DataKey::CredentialStatus(who);
        assert(held(one, key) == held(other, key));
    }
    lemma_same_lookups(one.statuses, other.statuses);
    assert forall|who: Address| #[trigger]
        found(one.pending, who) == found(other.pending, who) by {
        let key = DataKey::PendingRevocation(who);
        assert(held(one, key) == held(other, key));
    }
    lemma_same_lookups(one.pending, other.pending);
    assert forall|who: Address| #[trigger]
        found(one.checks, who) == found(other.checks, who) by {
        let key = DataKey::LastComplianceCheck(who);
        assert(held(one, key) == held(other, key));
    }
    lemma_same_lookups(one.checks, other.checks);
    assert forall|who: Address| #[trigger]
        found(one.issuers, who) == found(other.issuers, who) by {
        let key = DataKey::CredentialIssuer(who);
        assert(held(one, key) == held(other, key));
    }
    lemma_same_lookups(one.issuers, other.issuers);
}

proof fn lemma_same_lookups<V>(one: Map<Address, V>, other: Map<Address, V>)
    requires
        forall|key: Address| #[trigger] found(one, key) == found(other, key),
    ensures
        one == other,
{
    assert forall|key: Address| one.dom().contains(key) == other.dom().contains(key) by {
        assert(found(one, key) == found(other, key));
    }
    assert forall|key: Address| one.dom().contains(key) implies one[key] == other[key] by {
        assert(found(one, key) == found(other, key));
    }
    assert(one =~= other);
}

/// Writing an entry puts it under its key and leaves every other key alone.
pub proof fn law_writing_sets_one_entry(store: StoreView, entry: EntryView, other: DataKey)
    ensures
        held(store.with(entry), entry.key()) == Some(entry),
        other != entry.key() ==> held(store.with(entry), other) == held(store, other),
{
}

/// Deleting an entry empties its key and leaves every other key alone.
pub proof fn law_deleting_empties_one_key(store: StoreView, key: DataKey, other: DataKey)
    ensures
        held(store.without(key), key) is None,
        other != key ==> held(store.without(key), other) == held(store, other),
{
}

/// A contract that has not been set up holds nothing.
pub proof fn law_fresh_storage_holds_nothing(key: DataKey)
    ensures
        held(StoreView::empty(), key) is None,
{
}

/// A look-up finds the value held for a key, and nothing where there is none.
pub proof fn law_lookup<V>(map: Map<Address, V>, key: Address)
    ensures
        map.contains_key(key) ==> found(map, key) == Some(map[key]),
        !map.contains_key(key) ==> found(map, key) is None,
{
}

/// The ledger of the latest check is that of the stored record, or 0.
pub proof fn law_last_check_is_the_stored_one(env: EnvView, address: Address)
    ensures
        env.store.checks.contains_key(address) ==> last_check_ledger(env, address)
            == env.store.checks[address].check_ledger,
        !env.store.checks.contains_key(address) ==> last_check_ledger(env, address) == 0,
{
}

/// The officer lives with the instance, the records of checks are temporary,
/// and everything else persists.
pub proof fn law_only_check_records_are_temporary(key: DataKey)
    ensures
        key.kept_in() == Durability::Instance <==> key is Officer,
        key.kept_in() == Durability::Temporary <==> key is LastComplianceCheck,
{
}

// ---------------------------------------------------------------------------
// Models
// ---------------------------------------------------------------------------

/// The model of a stored value has the fields of the value.
pub proof fn law_models_keep_values(
    status: CredentialStatus,
    pending: PendingRevocation,
    record: ComplianceCheckRecord,
    address: Address,
)
    ensures
        address@ == address,
        record@ == record,
        pending@.address == pending.address,
        pending@.effective_ledger == pending.effective_ledger,
        pending@.reason == pending.reason@,
        pending@.initiated_at == pending.initiated_at,
        pending@.initiated_at_timestamp == pending.initiated_at_timestamp,
        status matches CredentialStatus::Active(expiry) ==> status@ == StatusView::Active(expiry),
        status matches CredentialStatus::Suspended(since) ==> status@ == StatusView::Suspended(
            since,
        ),
        status matches CredentialStatus::Revoked(reason, at) ==> status@ == StatusView::Revoked(
            reason@,
            at,
        ),
        status matches CredentialStatus::PendingRevocation(due) ==> status@
            == StatusView::PendingRevocation(due),
{
}

/// The model of an entry has the key and the value of the entry.
pub proof fn law_models_keep_entries(entry: Entry)
    ensures
        entry matches Entry::Officer(who) ==> entry@ == EntryView::Officer(who),
        entry matches Entry::Sanctioned(who, mark) ==> entry@ == EntryView::Sanctioned(who, mark),
        entry matches Entry::Flagged(who, mark) ==> entry@ == EntryView::Flagged(who, mark),
        entry matches Entry::CredentialStatus(who, status) ==> entry@
            == EntryView::CredentialStatus(who, status@),
        entry matches Entry::PendingRevocation(who, pending) ==> entry@
            == EntryView::PendingRevocation(who, pending@),
        entry matches Entry::LastComplianceCheck(who, record) ==> entry@
            == EntryView::LastComplianceCheck(who, record),
        entry matches Entry::CredentialIssuer(who, issuer) ==> entry@
            == EntryView::CredentialIssuer(who, issuer),
{
}

/// The model of an event has the fields of the event, and its topic is the
/// one of its kind.
pub proof fn law_models_keep_events(event: Event)
    ensures
        event matches Event::CredentialIssued { participant, expiry } ==> event@
            == (EventView::CredentialIssued { participant, expiry }) && event@.topic()
            == "credential_issued"@,
        event matches Event::CredentialSuspended { participant, since } ==> event@
            == (EventView::CredentialSuspended { participant, since }) && event@.topic()
            == "credential_suspended"@,
        event matches Event::CredentialReactivated { participant, expiry } ==> event@
            == (EventView::CredentialReactivated { participant, expiry }) && event@.topic()
            == "credential_reactivated"@,
        event matches Event::RevocationPending { participant, effective_ledger, reason } ==> event@
            == (EventView::RevocationPending { participant, effective_ledger, reason: reason@ })
            && event@.topic() == "RevocationPending"@,
        event matches Event::CredentialRevoked { participant, reason, revoked_at } ==> event@
            == (EventView::CredentialRevoked { participant, reason: reason@, revoked_at })
            && event@.topic() == "credential_revoked"@,
{
}

/// The model of a request has the fields of the request.
pub proof fn law_models_keep_requests(effect: Effect)
    ensures
        effect matches Effect::RequireAuth(who) ==> effect@ == EffectView::RequireAuth(who),
        effect matches Effect::Put(entry) ==> effect@ == EffectView::Put(entry@),
        effect matches Effect::Remove(key) ==> effect@ == EffectView::Remove(key),
        effect matches Effect::ExtendTtl { key, threshold, extend_to } ==> effect@
            == (EffectView::ExtendTtl { key, threshold, extend_to }),
        effect matches Effect::ExtendInstanceTtl { threshold, extend_to } ==> effect@
            == (EffectView::ExtendInstanceTtl { threshold, extend_to }),
        effect matches Effect::Publish(event) ==> effect@ == EffectView::Publish(event@),
{
}

// ---------------------------------------------------------------------------
// Refusals
// ---------------------------------------------------------------------------

/// Setting up is refused exactly when there is an officer already.
pub proof fn law_setup_is_refused_only_twice(env: EnvView)
    ensures
        init_refused(env) is None <==> env.store.officer is None,
        init_refused(env) is Some ==> init_refused(env) == Some(Refusal::AlreadyInitialized),
{
}

/// What is the officer's is refused exactly when there is no officer.
pub proof fn law_officers_calls_need_an_officer(env: EnvView)
    ensures
        officer_refused(env) is None <==> env.store.officer is Some,
        officer_refused(env) is Some ==> officer_refused(env) == Some(Refusal::NotInitialized),
{
}

/// With an officer, initiating a revocation is refused exactly when the due
/// ledger has no number. Neither the time nor anything stored has a say.
pub proof fn law_initiation_is_refused_only_at_the_end(env: EnvView, alike: EnvView)
    ensures
        initiation_refused(env) == Some(Refusal::NotInitialized) <==> env.store.officer is None,
        initiation_refused(env) == Some(Refusal::LedgerOverflow) <==> env.store.officer is Some
            && env.sequence + REVOCATION_DELAY > u32::MAX,
        initiation_refused(env) is None <==> env.store.officer is Some && env.sequence
            + REVOCATION_DELAY <= u32::MAX,
        env.sequence == alike.sequence && env.store.officer is Some && alike.store.officer is Some
            ==> initiation_refused(env) == initiation_refused(alike),
{
}

/// With an officer and a pending revocation, finalizing is refused exactly
/// before the effective ledger; without a pending revocation it is always
/// refused. Nothing but the officer, that revocation and the ledger has a say.
pub proof fn law_finalization_is_refused_only_before_it_is_due(
    env: EnvView,
    participant: Address,
)
    ensures
        finalization_refused(env, participant) == Some(Refusal::NotInitialized)
            <==> env.store.officer is None,
        finalization_refused(env, participant) == Some(Refusal::NoPendingRevocation)
            <==> env.store.officer is Some && !env.store.pending.contains_key(participant),
        finalization_refused(env, participant) == Some(Refusal::DelayNotElapsed)
            <==> env.store.officer is Some && env.store.pending.contains_key(participant)
            && env.sequence < env.store.pending[participant].effective_ledger,
        finalization_refused(env, participant) is None <==> env.store.officer is Some
            && env.store.pending.contains_key(participant)
            && env.store.pending[participant].effective_ledger <= env.sequence,
{
}

/// What can be finalized stays so: once it is due in one ledger, a revocation
/// is due in every later one.
pub proof fn law_due_stays_due(
    env: EnvView,
    participant: Address,
    sequence: u32,
    timestamp: u64,
)
    requires
        finalization_refused(env, participant) is None,
        sequence >= env.sequence,
    ensures
        finalization_refused(in_ledger(env, sequence, timestamp), participant) is None,
{
}

/// After an emergency, finalizing is refused in no ledger from the current one
/// on; it leaves the revoked credential, with the reason of the emergency and
/// the ledger in which it was finalized.
pub proof fn law_emergency_can_be_finalized_ever_after(
    pre: EnvView,
    participant: Address,
    reason: Seq<u8>,
    sequence: u32,
    timestamp: u64,
)
    requires
        pre.store.officer is Some,
        sequence >= pre.sequence,
    ensures
        ({
            let later = in_ledger(
                after_emergency(pre, participant, reason),
                sequence,
                timestamp,
            );
            let post = after_finalize(later, participant);
            &&& finalization_refused(later, participant) is None
            &&& held(post.store, DataKey::CredentialStatus(participant)) == Some(
                EntryView::CredentialStatus(
                    participant,
                    StatusView::Revoked(emergency_reason(), sequence),
                ),
            )
            &&& held(post.store, DataKey::PendingRevocation(participant)) is None
            &&& standing(post, participant) == CredentialCheckResult::Revoked
        }),
{
}

/// The reason that an emergency leaves reads "emergency".
pub proof fn law_emergency_reason_reads_emergency()
    ensures
        emergency_reason().len() == "emergency"@.len(),
        forall|i: int|
            0 <= i < emergency_reason().len() ==> #[trigger] emergency_reason()[i] as char
                == "emergency"@[i],
{
    reveal_strlit("emergency");
}

/// The officer is asked before a refusal is told exactly when the refusal does
/// not rest on the officer being there or not.
pub proof fn law_refusals_about_the_officer_come_first(refusal: Refusal)
    ensures
        refusal.comes_after_officer() <==> refusal != Refusal::AlreadyInitialized && refusal
            != Refusal::NotInitialized,
{
}

/// Each refusal has its own words.
pub proof fn law_refusals_in_words(refusal: Refusal)
    ensures
        refusal is AlreadyInitialized ==> refusal.text() == "Already initialized"@,
        refusal is NotInitialized ==> refusal.text() == "Not initialized"@,
        refusal is LedgerOverflow ==> refusal.text() == "Ledger number overflow"@,
        refusal is NoPendingRevocation ==> refusal.text() == "No pending revocation"@,
        refusal is DelayNotElapsed ==> refusal.text() == "Revocation delay not elapsed"@,
{
}

// ---------------------------------------------------------------------------
// Who writes what
// ---------------------------------------------------------------------------

/// The call may change the entry under `key`.
pub open spec fn writes(operation: Operation, key: DataKey) -> bool {
    match key {
        DataKey::Officer => operation is Init,
        DataKey::Sanctioned(who) => operation == Operation::Sanction(who) || operation
            == Operation::Unsanction(who),
        DataKey::Flagged(who) => operation == Operation::Flag(who),
        DataKey::CredentialIssuer(who) => operation is Issue && operation.concerns(who),
        DataKey::PendingRevocation(who) => (operation is Initiate || operation is Revoke
            || operation is Emergency || operation is Finalize) && operation.concerns(who),
        DataKey::CredentialStatus(who) => (operation is Issue || operation is Suspend
            || operation is Unsuspend || operation is Initiate || operation is Revoke
            || operation is Emergency || operation is Finalize) && operation.concerns(who),
        DataKey::LastComplianceCheck(who) => operation.is_check() && operation.concerns(who),
    }
}

/// Each entry has its writers: no other call changes it. No call moves the
/// ledger.
pub proof fn law_entries_have_their_writers(pre: EnvView, operation: Operation, key: DataKey)
    ensures
        !writes(operation, key) ==> held(operation.apply(pre).store, key) == held(pre.store, key),
        operation.apply(pre).sequence == pre.sequence,
        operation.apply(pre).timestamp == pre.timestamp,
{
}

/// A call asks the host about no entry that it does not write.
pub proof fn law_requests_keep_to_written_entries(pre: EnvView, operation: Operation, i: int)
    requires
        0 <= i < asked(pre, operation).len(),
    ensures
        asked(pre, operation)[i].touches() matches Some(key) ==> writes(operation, key),
{
    if let Operation::Batch(addresses) = operation {
        assert(addresses.contains(addresses[i]));
    }
}

/// Whoever the contract is set up with is its officer, byte for byte, and is
/// the one whose authorization every call of the officer's then asks for.
pub proof fn law_setup_installs_the_given_officer(
    pre: EnvView,
    officer: Address,
    operation: Operation,
)
    requires
        init_refused(pre) is None,
    ensures
        after_init(pre, officer).store.officer == Some(officer),
        operation.is_officers() && operation.refused(after_init(pre, officer)) is None ==> asked(
            after_init(pre, officer),
            operation,
        )[0] == EffectView::RequireAuth(officer),
{
}

/// Marks are set by the calls named after them, and sanctions are lifted by
/// `Unsanction`; the issuer on record is the officer of the time.
pub proof fn law_marks_and_issuers(pre: EnvView, who: Address, expiry: u64)
    requires
        pre.store.officer is Some,
    ensures
        held(Operation::Sanction(who).apply(pre).store, DataKey::Sanctioned(who)) == Some(
            EntryView::Sanctioned(who, true),
        ),
        held(Operation::Unsanction(who).apply(pre).store, DataKey::Sanctioned(who)) is None,
        held(Operation::Flag(who).apply(pre).store, DataKey::Flagged(who)) == Some(
            EntryView::Flagged(who, true),
        ),
        held(Operation::Issue(who, expiry).apply(pre).store, DataKey::CredentialIssuer(who))
            == Some(EntryView::CredentialIssuer(who, pre.store.officer->0)),
{
}

/// The credential that a call leaves: issued and reactivated ones last until
/// the expiry given, suspensions carry the time, revocations the reason and
/// the ledger.
pub proof fn law_credentials_after_each_call(
    pre: EnvView,
    who: Address,
    expiry: u64,
    reason: Seq<u8>,
)
    ensures
        ({
            let key = DataKey::CredentialStatus(who);
            let entry = |status: StatusView| Some(EntryView::CredentialStatus(who, status));
            let left = |operation: Operation| held(operation.apply(pre).store, key);
            &&& left(Operation::Issue(who, expiry)) == entry(StatusView::Active(expiry))
            &&& left(Operation::Unsuspend(who, expiry)) == entry(StatusView::Active(expiry))
            &&& left(Operation::Suspend(who)) == entry(StatusView::Suspended(pre.timestamp))
            &&& left(Operation::Revoke(who, reason)) == entry(
                StatusView::Revoked(reason, pre.sequence),
            )
            &&& left(Operation::Emergency(who, reason)) == entry(
                StatusView::Revoked(reason, pre.sequence),
            )
            &&& pre.store.pending.contains_key(who) ==> left(Operation::Finalize(who)) == entry(
                StatusView::Revoked(pre.store.pending[who].reason, pre.sequence),
            )
            &&& initiation_refused(pre) is None ==> (left(Operation::Initiate(who, reason)) matches
                Some(EntryView::CredentialStatus(subject, StatusView::PendingRevocation(due)))
                && subject == who && due == pre.sequence + REVOCATION_DELAY)
        }),
{
}

/// The pending revocation that a call leaves is the participant's, dates from
/// the current ledger, carries the reason given and is due after the delay; in
/// an emergency it is due at once. Finalizing leaves none.
pub proof fn law_pending_after_each_call(pre: EnvView, who: Address, reason: Seq<u8>)
    ensures
        ({
            let initiated = Operation::Initiate(who, reason).apply(pre).store.pending;
            let revoked = Operation::Revoke(who, reason).apply(pre).store.pending;
            let emergency = Operation::Emergency(who, reason).apply(pre).store.pending;
            let finalized = Operation::Finalize(who).apply(pre).store.pending;
            &&& initiated.contains_key(who) && dates_from(initiated[who], pre, who)
            &&& revoked.contains_key(who) && dates_from(revoked[who], pre, who)
            &&& emergency.contains_key(who) && dates_from(emergency[who], pre, who)
            &&& !finalized.contains_key(who)
            &&& initiated[who].reason == reason
            &&& revoked[who].reason == reason
            &&& emergency[who].reason == emergency_reason()
            &&& emergency[who].effective_ledger == pre.sequence
            &&& initiation_refused(pre) is None ==> {
                &&& initiated[who].effective_ledger == pre.sequence + REVOCATION_DELAY
                &&& revoked[who].effective_ledger == pre.sequence + REVOCATION_DELAY
            }
        }),
{
}

/// The pending revocation is that of `who`, initiated in the current ledger.
pub open spec fn dates_from(pending: PendingView, env: EnvView, who: Address) -> bool {
    &&& pending.address == who
    &&& pending.initiated_at == env.sequence
    &&& pending.initiated_at_timestamp == env.timestamp
}

/// The record that a check leaves names the address, the ledger and the answer
/// that was given.
pub proof fn law_records_after_each_check(
    pre: EnvView,
    who: Address,
    last: u32,
    addresses: Seq<Address>,
)
    ensures
        ({
            let key = DataKey::LastComplianceCheck(who);
            let left = |operation: Operation| held(operation.apply(pre).store, key);
            let entry = |result: CredentialCheckResult|
                Some(
                    EntryView::LastComplianceCheck(
                        who,
                        ComplianceCheckRecord { address: who, check_ledger: pre.sequence, result },
                    ),
                );
            &&& left(Operation::Check(who)) == entry(standing(pre, who))
            &&& left(Operation::Refresh(who)) == entry(standing(pre, who))
            &&& left(Operation::CheckSince(who, last)) == entry(standing_since(pre, who, last))
            &&& addresses.contains(who) ==> left(Operation::Batch(addresses)) == entry(
                standing(pre, who),
            )
        }),
{
}

/// An address without a flag to begin with is flagged exactly when the run
/// flags it.
pub proof fn law_flags_follow_the_run(pre: EnvView, steps: Seq<Step>, target: Address)
    requires
        !pre.store.flagged.contains_key(target),
    ensures
        found(run(pre, steps).store.flagged, target) == (if exists|i: int|
            0 <= i < steps.len() && #[trigger] steps[i] == Step::Call(Operation::Flag(target)) {
            Some(true)
        } else {
            None
        }),
    decreases steps.len(),
{
    if steps.len() > 0 {
        let earlier = steps.drop_last();
        let n = earlier.len() as int;
        law_flags_follow_the_run(pre, earlier, target);
        assert(forall|i: int| 0 <= i < n ==> #[trigger] steps[i] == earlier[i]);
        if exists|i: int|
            0 <= i < n && #[trigger] earlier[i] == Step::Call(Operation::Flag(target)) {
            let i = choose|i: int|
                0 <= i < n && #[trigger] earlier[i] == Step::Call(Operation::Flag(target));
            assert(steps[i] == Step::Call(Operation::Flag(target)));
        }
        if let Step::Call(operation) = steps[n] {
            law_entries_have_their_writers(
                run(pre, earlier),
                operation,
                DataKey::Flagged(target),
            );
        }
        if steps[n] == Step::Call(Operation::Flag(target)) {
            assert(found(run(pre, steps).store.flagged, target) == Some(true));
        }
    }
}

// ---------------------------------------------------------------------------
// Answers
// ---------------------------------------------------------------------------

/// When each answer is given, and no other: a revocation that has been
/// initiated by now settles it; failing that, the stored credential does.
pub proof fn law_answers_case_by_case(env: EnvView, who: Address)
    ensures
        ({
            let under_way = env.store.pending.contains_key(who)
                && env.store.pending[who].initiated_at <= env.sequence;
            let stored = env.store.statuses.contains_key(who);
            let status = env.store.statuses[who];
            let answer = standing(env, who);
            &&& being_revoked(env, who) <==> under_way
            &&& answer == CredentialCheckResult::PendingRevocation <==> under_way || (stored
                && status is PendingRevocation)
            &&& answer == CredentialCheckResult::NotFound <==> !under_way && !stored
            &&& answer == CredentialCheckResult::Suspended <==> !under_way && stored
                && status is Suspended
            &&& answer == CredentialCheckResult::Revoked <==> !under_way && stored
                && status is Revoked
            &&& answer == CredentialCheckResult::Active <==> !under_way && stored && (
            status matches StatusView::Active(expiry) && env.timestamp <= expiry)
            &&& answer == CredentialCheckResult::Expired <==> !under_way && stored && (
            status matches StatusView::Active(expiry) && env.timestamp > expiry)
        }),
{
}

/// When a caller that gives the ledger of its last check gets another answer
/// than a plain check: exactly when the stored credential was revoked in that
/// ledger or later. The answer is `Revoked` then.
pub proof fn law_answers_since_the_last_check(env: EnvView, who: Address, last: u32)
    ensures
        ({
            let stale = env.store.statuses.contains_key(who) && (
            env.store.statuses[who] matches StatusView::Revoked(_, at) && 0 < last && last <= at);
            &&& stale ==> standing_since(env, who, last) == CredentialCheckResult::Revoked
            &&& !stale ==> standing_since(env, who, last) == standing(env, who)
        }),
{
}

/// A check with a ledger leaves the same as a plain one wherever the answers
/// agree.
pub proof fn law_equal_answers_leave_the_same(env: EnvView, who: Address, last: u32)
    requires
        standing_since(env, who, last) == standing(env, who),
    ensures
        after_check_since(env, who, last) == after_check(env, who),
{
}

// ---------------------------------------------------------------------------
// Two routes to a revocation
// ---------------------------------------------------------------------------

/// Revoking at once keeps its reason through both phases: the pending
/// revocation and its announcement carry it, and finalizing in any ledger from
/// the due one on leaves and announces the credential revoked for that reason.
pub proof fn law_immediate_revocation_keeps_its_reason(
    pre: EnvView,
    participant: Address,
    reason: Seq<u8>,
    sequence: u32,
    timestamp: u64,
)
    requires
        initiation_refused(pre) is None,
        sequence >= pre.sequence + REVOCATION_DELAY,
    ensures
        ({
            let post = after_revoke(pre, participant, reason);
            let later = in_ledger(post, sequence, timestamp);
            let done = after_finalize(later, participant);
            let effective_ledger = (pre.sequence + REVOCATION_DELAY) as u32;
            &&& found(post.store.pending, participant) matches Some(pending)
                && pending.reason == reason
            &&& asked(pre, Operation::Revoke(participant, reason)).contains(
                EffectView::Publish(
                    EventView::RevocationPending { participant, effective_ledger, reason },
                ),
            )
            &&& finalization_refused(later, participant) is None
            &&& found(done.store.statuses, participant) == Some(
                StatusView::Revoked(reason, sequence),
            )
            &&& asked(later, Operation::Finalize(participant)).contains(
                EffectView::Publish(
                    EventView::CredentialRevoked { participant, reason, revoked_at: sequence },
                ),
            )
        }),
{
    let effective_ledger = (pre.sequence + REVOCATION_DELAY) as u32;
    let later = in_ledger(after_revoke(pre, participant, reason), sequence, timestamp);
    let first = asked(pre, Operation::Revoke(participant, reason));
    let second = asked(later, Operation::Finalize(participant));
    assert(first[4] == EffectView::Publish(
        EventView::RevocationPending { participant, effective_ledger, reason },
    ));
    assert(second[4] == EffectView::Publish(
        EventView::CredentialRevoked { participant, reason, revoked_at: sequence },
    ));
}

/// Both routes end in the same place: finalizing leaves the same storage
/// whether the revocation was initiated in the first phase or at once.
pub proof fn law_both_routes_end_alike(
    pre: EnvView,
    participant: Address,
    reason: Seq<u8>,
    sequence: u32,
    timestamp: u64,
)
    ensures
        after_revoke(pre, participant, reason).store.pending == after_initiate(
            pre,
            participant,
            reason,
        ).store.pending,
        after_finalize(
            in_ledger(after_revoke(pre, participant, reason), sequence, timestamp),
            participant,
        ).store == after_finalize(
            in_ledger(after_initiate(pre, participant, reason), sequence, timestamp),
            participant,
        ).store,
{
    let one = after_finalize(
        in_ledger(after_revoke(pre, participant, reason), sequence, timestamp),
        participant,
    ).store;
    let other = after_finalize(
        in_ledger(after_initiate(pre, participant, reason), sequence, timestamp),
        participant,
    ).store;
    assert(one =~= other);
}

// ---------------------------------------------------------------------------
// Requests
// ---------------------------------------------------------------------------

/// The request that the life of the entry under `key` be extended by as long
/// as a credential is kept.
pub open spec fn kept_for_a_year(key: DataKey) -> EffectView {
    EffectView::ExtendTtl {
        key,
        threshold: CREDENTIAL_TTL_LEDGERS,
        extend_to: CREDENTIAL_TTL_LEDGERS,
    }
}

/// The request that the entry held under `key` be written.
pub open spec fn put_of(env: EnvView, key: DataKey) -> EffectView {
    EffectView::Put(held(env.store, key)->0)
}

/// Marks and lifted marks: one write of what is then stored, or one deletion,
/// after the officer's authorization.
pub proof fn law_requests_for_marks(pre: EnvView, who: Address)
    requires
        pre.store.officer is Some,
    ensures
        asked(pre, Operation::Sanction(who)) == seq![
            EffectView::RequireAuth(pre.store.officer->0),
            put_of(Operation::Sanction(who).apply(pre), DataKey::Sanctioned(who)),
        ],
        asked(pre, Operation::Unsanction(who)) == seq![
            EffectView::RequireAuth(pre.store.officer->0),
            EffectView::Remove(DataKey::Sanctioned(who)),
        ],
        asked(pre, Operation::Flag(who)) == seq![
            EffectView::RequireAuth(pre.store.officer->0),
            put_of(Operation::Flag(who).apply(pre), DataKey::Flagged(who)),
        ],
{
}

/// Setting up writes the officer given and keeps the instance alive. It asks
/// for nobody's authorization.
pub proof fn law_requests_for_setup(pre: EnvView, officer: Address)
    ensures
        asked(pre, Operation::Init(officer)) == seq![
            EffectView::Put(EntryView::Officer(officer)),
            EffectView::ExtendInstanceTtl {
                threshold: INSTANCE_TTL_LEDGERS,
                extend_to: INSTANCE_TTL_LEDGERS,
            },
        ],
{
}

/// Issuing, suspending and reactivating: what is then stored is written, and
/// announced with the figure that is stored. A credential that is issued is
/// kept alive.
pub proof fn law_requests_for_credentials(pre: EnvView, participant: Address, expiry: u64)
    requires
        pre.store.officer is Some,
    ensures
        ({
            let officer = pre.store.officer->0;
            let key = DataKey::CredentialStatus(participant);
            let issue = Operation::Issue(participant, expiry);
            let suspend = Operation::Suspend(participant);
            let unsuspend = Operation::Unsuspend(participant, expiry);
            &&& asked(pre, issue) == seq![
                EffectView::RequireAuth(officer),
                put_of(issue.apply(pre), key),
                kept_for_a_year(key),
                put_of(issue.apply(pre), DataKey::CredentialIssuer(participant)),
                EffectView::Publish(EventView::CredentialIssued { participant, expiry }),
            ]
            &&& asked(pre, suspend) == seq![
                EffectView::RequireAuth(officer),
                put_of(suspend.apply(pre), key),
                EffectView::Publish(
                    EventView::CredentialSuspended { participant, since: pre.timestamp },
                ),
            ]
            &&& asked(pre, unsuspend) == seq![
                EffectView::RequireAuth(officer),
                put_of(unsuspend.apply(pre), key),
                EffectView::Publish(EventView::CredentialReactivated { participant, expiry }),
            ]
        }),
{
}

/// Initiating: what is then stored is written, the pending revocation is kept
/// alive, and the announcement carries the reason and the due ledger. Revoking
/// at once asks for what initiating does, and then writes the revoked
/// credential.
pub proof fn law_requests_for_initiations(pre: EnvView, participant: Address, reason: Seq<u8>)
    requires
        initiation_refused(pre) is None,
    ensures
        ({
            let officer = pre.store.officer->0;
            let status = DataKey::CredentialStatus(participant);
            let pending = DataKey::PendingRevocation(participant);
            let initiate = Operation::Initiate(participant, reason);
            let revoke = Operation::Revoke(participant, reason);
            &&& asked(pre, initiate) == seq![
                EffectView::RequireAuth(officer),
                put_of(initiate.apply(pre), pending),
                kept_for_a_year(pending),
                put_of(initiate.apply(pre), status),
                EffectView::Publish(
                    EventView::RevocationPending {
                        participant,
                        effective_ledger: initiate.apply(
                            pre,
                        ).store.pending[participant].effective_ledger,
                        reason,
                    },
                ),
            ]
            &&& asked(pre, revoke) == asked(pre, initiate).push(put_of(revoke.apply(pre), status))
        }),
{
    let initiate = Operation::Initiate(participant, reason);
    let revoke = Operation::Revoke(participant, reason);
    assert(asked(pre, revoke) =~= asked(pre, initiate).push(
        put_of(revoke.apply(pre), DataKey::CredentialStatus(participant)),
    ));
}

/// Finalizing and the emergency: what is then stored is written, what is
/// settled is deleted, and finalizing announces the reason and the ledger.
pub proof fn law_requests_for_revocations(pre: EnvView, participant: Address, reason: Seq<u8>)
    requires
        pre.store.officer is Some,
    ensures
        ({
            let officer = pre.store.officer->0;
            let status = DataKey::CredentialStatus(participant);
            let pending = DataKey::PendingRevocation(participant);
            let emergency = Operation::Emergency(participant, reason);
            let finalize = Operation::Finalize(participant);
            &&& asked(pre, emergency) == seq![
                EffectView::RequireAuth(officer),
                put_of(emergency.apply(pre), status),
                put_of(emergency.apply(pre), pending),
            ]
            &&& finalize.refused(pre) is None ==> asked(pre, finalize) == seq![
                EffectView::RequireAuth(officer),
                put_of(finalize.apply(pre), status),
                kept_for_a_year(status),
                EffectView::Remove(pending),
                EffectView::Publish(
                    EventView::CredentialRevoked {
                        participant,
                        reason: pre.store.pending[participant].reason,
                        revoked_at: pre.sequence,
                    },
                ),
            ]
        }),
{
}

/// A check writes its record and nothing more; a refreshed one deletes the old
/// record first; a batch writes one record for each address, in order.
pub proof fn law_requests_for_checks(
    pre: EnvView,
    who: Address,
    last: u32,
    addresses: Seq<Address>,
)
    ensures
        ({
            let key = DataKey::LastComplianceCheck(who);
            let check = Operation::Check(who);
            let since = Operation::CheckSince(who, last);
            let refresh = Operation::Refresh(who);
            let batch = Operation::Batch(addresses);
            &&& asked(pre, check) == seq![put_of(check.apply(pre), key)]
            &&& asked(pre, since) == seq![put_of(since.apply(pre), key)]
            &&& asked(pre, refresh) == seq![EffectView::Remove(key), put_of(refresh.apply(pre), key)]
            &&& asked(pre, batch).len() == addresses.len()
            &&& forall|i: int|
                0 <= i < addresses.len() ==> #[trigger] asked(pre, batch)[i] == put_of(
                    batch.apply(pre),
                    DataKey::LastComplianceCheck(addresses[i]),
                )
        }),
{
    let batch = Operation::Batch(addresses);
    assert forall|i: int| 0 <= i < addresses.len() implies #[trigger] asked(pre, batch)[i]
        == put_of(batch.apply(pre), DataKey::LastComplianceCheck(addresses[i])) by {
        assert(addresses.contains(addresses[i]));
    }
}

} // verus!

//! The compliance contract.
use vstd::prelude::*;

use crate::address::Address;
use crate::effect::{EffectView, Entry, EntryView, Event, EventView};
use crate::env::{found, Env, EnvView, StoreView};
use crate::types::{
    ComplianceCheckRecord, CredentialCheckResult, CredentialStatus, DataKey, PendingRevocation,
    PendingView, StatusView, CREDENTIAL_TTL_LEDGERS, INSTANCE_TTL_LEDGERS, REVOCATION_DELAY,
};

verus! {

// ---------------------------------------------------------------------------
// What each call makes of the environment
// ---------------------------------------------------------------------------

/// Setting up the contract: `officer` becomes the compliance officer.
pub open spec fn after_init(pre: EnvView, officer: Address) -> EnvView {
    EnvView {
        store: StoreView { officer: Some(officer), ..pre.store },
        effects: pre.effects + seq![
            EffectView::Put(EntryView::Officer(officer)),
            EffectView::ExtendInstanceTtl {
                threshold: INSTANCE_TTL_LEDGERS,
                extend_to: INSTANCE_TTL_LEDGERS,
            },
        ],
        ..pre
    }
}

/// Putting `target` under sanctions.
pub open spec fn after_sanction(pre: EnvView, target: Address) -> EnvView {
    EnvView {
        store: StoreView { sanctioned: pre.store.sanctioned.insert(target, true), ..pre.store },
        effects: pre.effects + seq![
            EffectView::RequireAuth(pre.store.officer->0),
            EffectView::Put(EntryView::Sanctioned(target, true)),
        ],
        ..pre
    }
}

/// Lifting the sanctions on `target`.
pub open spec fn after_unsanction(pre: EnvView, target: Address) -> EnvView {
    EnvView {
        store: StoreView { sanctioned: pre.store.sanctioned.remove(target), ..pre.store },
        effects: pre.effects + seq![
            EffectView::RequireAuth(pre.store.officer->0),
            EffectView::Remove(DataKey::Sanctioned(target)),
        ],
        ..pre
    }
}

/// Flagging `target`.
pub open spec fn after_flag(pre: EnvView, target: Address) -> EnvView {
    EnvView {
        store: StoreView { flagged: pre.store.flagged.insert(target, true), ..pre.store },
        effects: pre.effects + seq![
            EffectView::RequireAuth(pre.store.officer->0),
            EffectView::Put(EntryView::Flagged(target, true)),
        ],
        ..pre
    }
}

/// Issuing a credential that is good until `expiry`.
pub open spec fn after_issue(pre: EnvView, participant: Address, expiry: u64) -> EnvView {
    let officer = pre.store.officer->0;
    EnvView {
        store: StoreView {
            statuses: pre.store.statuses.insert(participant, StatusView::Active(expiry)),
            issuers: pre.store.issuers.insert(participant, officer),
            ..pre.store
        },
        effects: pre.effects + seq![
            EffectView::RequireAuth(officer),
            EffectView::Put(EntryView::CredentialStatus(participant, StatusView::Active(expiry))),
            EffectView::ExtendTtl {
                key: DataKey::CredentialStatus(participant),
                threshold: CREDENTIAL_TTL_LEDGERS,
                extend_to: CREDENTIAL_TTL_LEDGERS,
            },
            EffectView::Put(EntryView::CredentialIssuer(participant, officer)),
            EffectView::Publish(EventView::CredentialIssued { participant, expiry }),
        ],
        ..pre
    }
}

/// Suspending a credential.
pub open spec fn after_suspend(pre: EnvView, participant: Address) -> EnvView {
    let status = StatusView::Suspended(pre.timestamp);
    EnvView {
        store: StoreView { statuses: pre.store.statuses.insert(participant, status), ..pre.store },
        effects: pre.effects + seq![
            EffectView::RequireAuth(pre.store.officer->0),
            EffectView::Put(EntryView::CredentialStatus(participant, status)),
            EffectView::Publish(
                EventView::CredentialSuspended { participant, since: pre.timestamp },
            ),
        ],
        ..pre
    }
}

/// Reactivating a credential, good until `expiry`.
pub open spec fn after_unsuspend(pre: EnvView, participant: Address, expiry: u64) -> EnvView {
    let status = StatusView::Active(expiry);
    EnvView {
        store: StoreView { statuses: pre.store.statuses.insert(participant, status), ..pre.store },
        effects: pre.effects + seq![
            EffectView::RequireAuth(pre.store.officer->0),
            EffectView::Put(EntryView::CredentialStatus(participant, status)),
            EffectView::Publish(EventView::CredentialReactivated { participant, expiry }),
        ],
        ..pre
    }
}

/// The first ledger in which a revocation that is initiated now can be
/// finalized.
pub open spec fn due_ledger(pre: EnvView) -> u32 {
    (pre.sequence + REVOCATION_DELAY) as u32
}

/// The first phase of a revocation.
pub open spec fn after_initiate(pre: EnvView, participant: Address, reason: Seq<u8>) -> EnvView {
    let due = due_ledger(pre);
    let pending = PendingView {
        address: participant,
        effective_ledger: due,
        reason,
        initiated_at: pre.sequence,
        initiated_at_timestamp: pre.timestamp,
    };
    let status = StatusView::PendingRevocation(due);
    EnvView {
        store: StoreView {
            pending: pre.store.pending.insert(participant, pending),
            statuses: pre.store.statuses.insert(participant, status),
            ..pre.store
        },
        effects: pre.effects + seq![
            EffectView::RequireAuth(pre.store.officer->0),
            EffectView::Put(EntryView::PendingRevocation(participant, pending)),
            EffectView::ExtendTtl {
                key: DataKey::PendingRevocation(participant),
                threshold: CREDENTIAL_TTL_LEDGERS,
                extend_to: CREDENTIAL_TTL_LEDGERS,
            },
            EffectView::Put(EntryView::CredentialStatus(participant, status)),
            EffectView::Publish(
                EventView::RevocationPending { participant, effective_ledger: due, reason },
            ),
        ],
        ..pre
    }
}

/// The second phase of a revocation.
pub open spec fn after_finalize(pre: EnvView, participant: Address) -> EnvView {
    let reason = pre.store.pending[participant].reason;
    let status = StatusView::Revoked(reason, pre.sequence);
    EnvView {
        store: StoreView {
            pending: pre.store.pending.remove(participant),
            statuses: pre.store.statuses.insert(participant, status),
            ..pre.store
        },
        effects: pre.effects + seq![
            EffectView::RequireAuth(pre.store.officer->0),
            EffectView::Put(EntryView::CredentialStatus(participant, status)),
            EffectView::ExtendTtl {
                key: DataKey::CredentialStatus(participant),
                threshold: CREDENTIAL_TTL_LEDGERS,
                extend_to: CREDENTIAL_TTL_LEDGERS,
            },
            EffectView::Remove(DataKey::PendingRevocation(participant)),
            EffectView::Publish(
                EventView::CredentialRevoked { participant, reason, revoked_at: pre.sequence },
            ),
        ],
        ..pre
    }
}

/// Revoking at once: the first phase of a revocation, with the credential
/// marked as revoked already.
pub open spec fn after_revoke(pre: EnvView, participant: Address, reason: Seq<u8>) -> EnvView {
    let initiated = after_initiate(pre, participant, reason);
    let status = StatusView::Revoked(reason, pre.sequence);
    EnvView {
        store: StoreView {
            statuses: pre.store.statuses.insert(participant, status),
            ..initiated.store
        },
        effects: initiated.effects + seq![
            EffectView::Put(EntryView::CredentialStatus(participant, status)),
        ],
        ..pre
    }
}

/// The reason that an emergency leaves in the pending revocation: the bytes
/// of "emergency".
pub open spec fn emergency_reason() -> Seq<u8> {
    seq![101u8, 109u8, 101u8, 114u8, 103u8, 101u8, 110u8, 99u8, 121u8]
}

/// Revoking in an emergency: due in the current ledger already.
pub open spec fn after_emergency(pre: EnvView, participant: Address, reason: Seq<u8>) -> EnvView {
    let status = StatusView::Revoked(reason, pre.sequence);
    let pending = PendingView {
        address: participant,
        effective_ledger: pre.sequence,
        reason: emergency_reason(),
        initiated_at: pre.sequence,
        initiated_at_timestamp: pre.timestamp,
    };
    EnvView {
        store: StoreView {
            pending: pre.store.pending.insert(participant, pending),
            statuses: pre.store.statuses.insert(participant, status),
            ..pre.store
        },
        effects: pre.effects + seq![
            EffectView::RequireAuth(pre.store.officer->0),
            EffectView::Put(EntryView::CredentialStatus(participant, status)),
            EffectView::Put(EntryView::PendingRevocation(participant, pending)),
        ],
        ..pre
    }
}

/// A revocation of the credential of `address` has been initiated, in this
/// ledger or an earlier one, and not been finalized.
pub open spec fn being_revoked(env: EnvView, address: Address) -> bool {
    &&& env.store.pending.contains_key(address)
    &&& env.sequence >= env.store.pending[address].initiated_at
}

/// How `address` stands in a plain compliance check: a revocation that is
/// under way comes first, whatever the stored credential says.
pub open spec fn standing(env: EnvView, address: Address) -> CredentialCheckResult {
    if being_revoked(env, address) {
        CredentialCheckResult::PendingRevocation
    } else {
        match found(env.store.statuses, address) {
            Some(StatusView::Active(expiry)) => if env.timestamp > expiry {
                CredentialCheckResult::Expired
            } else {
                CredentialCheckResult::Active
            },
            Some(StatusView::Suspended(_)) => CredentialCheckResult::Suspended,
            Some(StatusView::PendingRevocation(_)) => CredentialCheckResult::PendingRevocation,
            Some(StatusView::Revoked(_, _)) => CredentialCheckResult::Revoked,
            None => CredentialCheckResult::NotFound,
        }
    }
}

/// How `address` stands for a caller whose last check was in ledger `last`: a
/// credential revoked in that ledger or a later one is reported as revoked,
/// even while the revocation is still to be finalized. Ledger 0 stands for a
/// caller that has not checked before.
pub open spec fn standing_since(env: EnvView, address: Address, last: u32) -> CredentialCheckResult {
    if last > 0 && (found(env.store.statuses, address) matches Some(StatusView::Revoked(_, at))
        && at >= last) {
        CredentialCheckResult::Revoked
    } else {
        standing(env, address)
    }
}

/// The record that a compliance check of `address` leaves.
pub open spec fn check_record(env: EnvView, address: Address) -> ComplianceCheckRecord {
    ComplianceCheckRecord {
        address,
        check_ledger: env.sequence,
        result: standing(env, address),
    }
}

/// A compliance check.
pub open spec fn after_check(pre: EnvView, address: Address) -> EnvView {
    let record = check_record(pre, address);
    EnvView {
        store: StoreView { checks: pre.store.checks.insert(address, record), ..pre.store },
        effects: pre.effects + seq![
            EffectView::Put(EntryView::LastComplianceCheck(address, record)),
        ],
        ..pre
    }
}

/// A compliance check for a caller whose last check was in ledger `last`.
pub open spec fn after_check_since(pre: EnvView, address: Address, last: u32) -> EnvView {
    let record = ComplianceCheckRecord {
        address,
        check_ledger: pre.sequence,
        result: standing_since(pre, address, last),
    };
    EnvView {
        store: StoreView { checks: pre.store.checks.insert(address, record), ..pre.store },
        effects: pre.effects + seq![
            EffectView::Put(EntryView::LastComplianceCheck(address, record)),
        ],
        ..pre
    }
}

/// The ledger of the latest check of `address`, or 0 if there is none.
pub open spec fn last_check_ledger(env: EnvView, address: Address) -> u32 {
    match found(env.store.checks, address) {
        Some(record) => record.check_ledger,
        None => 0,
    }
}

/// A compliance check that drops the record of the previous one first.
pub open spec fn after_refresh(pre: EnvView, address: Address) -> EnvView {
    let record = check_record(pre, address);
    EnvView {
        store: StoreView { checks: pre.store.checks.insert(address, record), ..pre.store },
        effects: pre.effects + seq![
            EffectView::Remove(DataKey::LastComplianceCheck(address)),
            EffectView::Put(EntryView::LastComplianceCheck(address, record)),
        ],
        ..pre
    }
}

/// A compliance check of each of `addresses`, in their order.
pub open spec fn after_batch(pre: EnvView, addresses: Seq<Address>) -> EnvView {
    EnvView {
        store: StoreView {
            checks: pre.store.checks.union_prefer_right(
                Map::new(
                    |address: Address| addresses.contains(address),
                    |address: Address| check_record(pre, address),
                ),
            ),
            ..pre.store
        },
        effects: pre.effects + addresses.map_values(
            |address: Address|
                EffectView::Put(
                    EntryView::LastComplianceCheck(address, check_record(pre, address)),
                ),
        ),
        ..pre
    }
}

// ---------------------------------------------------------------------------
// What the contract refuses
// ---------------------------------------------------------------------------

/// Why a call is refused. A call that is refused must not be made.
#[derive(Clone, Copy, Debug, PartialEq, Eq, Structural)]
pub enum Refusal {
    /// The contract has been set up before.
    AlreadyInitialized,
    /// The contract has not been set up, so there is no officer.
    NotInitialized,
    /// The ledger in which the revocation would be due has no number.
    LedgerOverflow,
    /// There is no revocation to finalize.
    NoPendingRevocation,
    /// The revocation is not due yet.
    DelayNotElapsed,
}

impl Refusal {
    /// The refusal in words.
    pub open spec fn text(self) -> Seq<char> {
        match self {
            Refusal::AlreadyInitialized => "Already initialized"@,
            Refusal::NotInitialized => "Not initialized"@,
            Refusal::LedgerOverflow => "Ledger number overflow"@,
            Refusal::NoPendingRevocation => "No pending revocation"@,
            Refusal::DelayNotElapsed => "Revocation delay not elapsed"@,
        }
    }

    /// The officer has to authorize the call before the refusal is told. The
    /// other refusals come before anyone is asked.
    pub open spec fn comes_after_officer(self) -> bool {
        self is LedgerOverflow || self is NoPendingRevocation || self is DelayNotElapsed
    }

    /// Tells whether the officer has to authorize the call before the refusal
    /// is told.
    pub fn demands_officer(&self) -> (r: bool)
        ensures
            r == self.comes_after_officer(),
    {
        match self {
            Refusal::AlreadyInitialized => false,
            Refusal::NotInitialized => false,
            Refusal::LedgerOverflow => true,
            Refusal::NoPendingRevocation => true,
            Refusal::DelayNotElapsed => true,
        }
    }

    /// The refusal in words.
    pub fn message(&self) -> (message: &'static str)
        ensures
            message@ == self.text(),
    {
        match self {
            Refusal::AlreadyInitialized => "Already initialized",
            Refusal::NotInitialized => "Not initialized",
            Refusal::LedgerOverflow => "Ledger number overflow",
            Refusal::NoPendingRevocation => "No pending revocation",
            Refusal::DelayNotElapsed => "Revocation delay not elapsed",
        }
    }
}

/// Whether setting up the contract is refused.
pub open spec fn init_refused(env: EnvView) -> Option<Refusal> {
    if env.store.officer is Some {
        Some(Refusal::AlreadyInitialized)
    } else {
        None
    }
}

/// Whether what only the officer may do is refused, whoever asks for it.
pub open spec fn officer_refused(env: EnvView) -> Option<Refusal> {
    if env.store.officer is None {
        Some(Refusal::NotInitialized)
    } else {
        None
    }
}

/// Whether the first phase of a revocation is refused.
pub open spec fn initiation_refused(env: EnvView) -> Option<Refusal> {
    if env.store.officer is None {
        Some(Refusal::NotInitialized)
    } else if env.sequence + REVOCATION_DELAY > u32::MAX {
        Some(Refusal::LedgerOverflow)
    } else {
        None
    }
}

/// Whether the second phase of a revocation is refused.
pub open spec fn finalization_refused(env: EnvView, participant: Address) -> Option<Refusal> {
    if env.store.officer is None {
        Some(Refusal::NotInitialized)
    } else if !env.store.pending.contains_key(participant) {
        Some(Refusal::NoPendingRevocation)
    } else if env.sequence < env.store.pending[participant].effective_ledger {
        Some(Refusal::DelayNotElapsed)
    } else {
        None
    }
}

// ---------------------------------------------------------------------------
// The contract
// ---------------------------------------------------------------------------

/// The compliance contract: sanctions, flags and credentials, in the hands of
/// one officer.
pub struct ComplianceContract;

impl ComplianceContract {
    /// Tells whether [`ComplianceContract::init`] is refused.
    pub fn init_refusal(env: &Env) -> (refusal: Option<Refusal>)
        ensures
            refusal == init_refused(env@),
    {
        match env.officer() {
            Some(_) => Some(Refusal::AlreadyInitialized),
            None => None,
        }
    }

    /// Tells whether the calls that are the officer's are refused.
    pub fn officer_refusal(env: &Env) -> (refusal: Option<Refusal>)
        ensures
            refusal == officer_refused(env@),
    {
        match env.officer() {
            Some(_) => None,
            None => Some(Refusal::NotInitialized),
        }
    }

    /// Tells whether [`ComplianceContract::initiate_revocation`] and
    /// [`ComplianceContract::revoke_credential`] are refused.
    pub fn initiation_refusal(env: &Env) -> (refusal: Option<Refusal>)
        ensures
            refusal == initiation_refused(env@),
    {
        if env.officer().is_none() {
            Some(Refusal::NotInitialized)
        } else if env.sequence() > u32::MAX - REVOCATION_DELAY {
            Some(Refusal::LedgerOverflow)
        } else {
            None
        }
    }

    /// Tells whether [`ComplianceContract::finalize_revocation`] is refused.
    pub fn finalization_refusal(env: &Env, participant: Address) -> (refusal: Option<Refusal>)
        ensures
            refusal == finalization_refused(env@, participant),
    {
        if env.officer().is_none() {
            return Some(Refusal::NotInitialized);
        }
        match env.pending_revocation(&participant) {
            None => Some(Refusal::NoPendingRevocation),
            Some(pending) => if env.sequence() < pending.effective_ledger {
                Some(Refusal::DelayNotElapsed)
            } else {
                None
            },
        }
    }

    /// Asks for the officer's authorization and hands back who the officer is.
    fn demand_officer(env: &mut Env) -> (officer: Address)
        requires
            officer_refused(old(env)@) is None,
        ensures
            old(env)@.store.officer == Some(officer),
            final(env)@ == old(env)@.asking(EffectView::RequireAuth(officer)),
    {
        let officer = env.officer().unwrap();
        env.require_auth(officer);
        officer
    }

    /// Sets up the contract, once.
    pub fn init(env: &mut Env, officer: Address)
        requires
            init_refused(old(env)@) is None,
        ensures
            final(env)@ == after_init(old(env)@, officer),
    {
        env.put(Entry::Officer(officer));
        env.extend_instance_ttl(INSTANCE_TTL_LEDGERS, INSTANCE_TTL_LEDGERS);
    }

    /// Puts an address under sanctions.
    pub fn sanction(env: &mut Env, target: Address)
        requires
            officer_refused(old(env)@) is None,
        ensures
            final(env)@ == after_sanction(old(env)@, target),
    {
        Self::demand_officer(env);
        env.put(Entry::Sanctioned(target, true));
    }

    /// Lifts the sanctions on an address.
    pub fn unsanction(env: &mut Env, target: Address)
        requires
            officer_refused(old(env)@) is None,
        ensures
            final(env)@ == after_unsanction(old(env)@, target),
    {
        Self::demand_officer(env);
        env.remove(DataKey::Sanctioned(target));
    }

    /// Tells whether an address is under sanctions.
    pub fn is_sanctioned(env: &Env, target: Address) -> (r: bool)
        ensures
            r == (found(env@.store.sanctioned, target) == Some(true)),
    {
        match env.sanctioned(&target) {
            Some(mark) => mark,
            None => false,
        }
    }

    /// Flags an address.
    pub fn flag_address(env: &mut Env, target: Address)
        requires
            officer_refused(old(env)@) is None,
        ensures
            final(env)@ == after_flag(old(env)@, target),
    {
        Self::demand_officer(env);
        env.put(Entry::Flagged(target, true));
    }

    /// Tells whether an address has been flagged.
    pub fn is_flagged(env: &Env, target: Address) -> (r: bool)
        ensures
            r == (found(env@.store.flagged, target) == Some(true)),
    {
        match env.flagged(&target) {
            Some(mark) => mark,
            None => false,
        }
    }

    /// Issues a credential that is good until `expiry`.
    pub fn issue_credential(env: &mut Env, participant: Address, expiry: u64)
        requires
            officer_refused(old(env)@) is None,
        ensures
            final(env)@ == after_issue(old(env)@, participant, expiry),
    {
        let officer = Self::demand_officer(env);
        env.put(Entry::CredentialStatus(participant, CredentialStatus::Active(expiry)));
        env.extend_ttl(
            DataKey::CredentialStatus(participant),
            CREDENTIAL_TTL_LEDGERS,
            CREDENTIAL_TTL_LEDGERS,
        );
        env.put(Entry::CredentialIssuer(participant, officer));
        env.publish(Event::CredentialIssued { participant, expiry });
    }

    /// Suspends a credential.
    pub fn suspend_credential(env: &mut Env, participant: Address)
        requires
            officer_refused(old(env)@) is None,
        ensures
            final(env)@ == after_suspend(old(env)@, participant),
    {
        Self::demand_officer(env);
        let since: u64 = env.timestamp();
        env.put(Entry::CredentialStatus(participant, CredentialStatus::Suspended(since)));
        env.publish(Event::CredentialSuspended { participant, since });
    }

    /// Reactivates a credential, good until `new_expiry`.
    pub fn unsuspend_credential(env: &mut Env, participant: Address, new_expiry: u64)
        requires
            officer_refused(old(env)@) is None,
        ensures
            final(env)@ == after_unsuspend(old(env)@, participant, new_expiry),
    {
        Self::demand_officer(env);
        env.put(Entry::CredentialStatus(participant, CredentialStatus::Active(new_expiry)));
        env.publish(Event::CredentialReactivated { participant, expiry: new_expiry });
    }

    /// The first phase of a revocation. From this ledger on, every plain check
    /// of the participant reports the pending revocation, until it is
    /// finalized. Returns the first ledger in which it can be finalized.
    pub fn initiate_revocation(env: &mut Env, participant: Address, reason: Vec<u8>) -> (due: u32)
        requires
            initiation_refused(old(env)@) is None,
        ensures
            due == old(env)@.sequence + REVOCATION_DELAY,
            final(env)@ == after_initiate(old(env)@, participant, reason@),
    {
        Self::demand_officer(env);
        let initiated_at: u32 = env.sequence();
        let effective_ledger: u32 = initiated_at + REVOCATION_DELAY;
        let pending = PendingRevocation {
            address: participant,
            effective_ledger,
            reason: reason.clone(),
            initiated_at,
            initiated_at_timestamp: env.timestamp(),
        };
        env.put(Entry::PendingRevocation(participant, pending));
        env.extend_ttl(
            DataKey::PendingRevocation(participant),
            CREDENTIAL_TTL_LEDGERS,
            CREDENTIAL_TTL_LEDGERS,
        );
        env.put(
            Entry::CredentialStatus(
                participant,
                CredentialStatus::PendingRevocation(effective_ledger),
            ),
        );
        env.publish(Event::RevocationPending { participant, effective_ledger, reason });
        effective_ledger
    }

    /// The second phase of a revocation, once its delay has elapsed.
    pub fn finalize_revocation(env: &mut Env, participant: Address)
        requires
            finalization_refused(old(env)@, participant) is None,
        ensures
            final(env)@ == after_finalize(old(env)@, participant),
    {
        Self::demand_officer(env);
        let revoked_at: u32 = env.sequence();
        let reason = env.pending_revocation(&participant).unwrap().reason.clone();
        env.put(
            Entry::CredentialStatus(
                participant,
                CredentialStatus::Revoked(reason.clone(), revoked_at),
            ),
        );
        env.extend_ttl(
            DataKey::CredentialStatus(participant),
            CREDENTIAL_TTL_LEDGERS,
            CREDENTIAL_TTL_LEDGERS,
        );
        env.remove(DataKey::PendingRevocation(participant));
        env.publish(Event::CredentialRevoked { participant, reason, revoked_at });
    }

    /// Revokes at once: initiates a revocation and marks the credential as
    /// revoked in the current ledger. The revocation stays pending until it
    /// is finalized.
    pub fn revoke_credential(env: &mut Env, participant: Address, reason: Vec<u8>)
        requires
            initiation_refused(old(env)@) is None,
        ensures
            final(env)@ == after_revoke(old(env)@, participant, reason@),
    {
        Self::initiate_revocation(env, participant, reason.clone());
        let revoked_at: u32 = env.sequence();
        env.put(
            Entry::CredentialStatus(participant, CredentialStatus::Revoked(reason, revoked_at)),
        );
    }

    /// Revokes in an emergency. The revocation can be finalized in the current
    /// ledger already.
    pub fn emergency_revoke(env: &mut Env, participant: Address, reason: Vec<u8>)
        requires
            officer_refused(old(env)@) is None,
        ensures
            final(env)@ == after_emergency(old(env)@, participant, reason@),
    {
        Self::demand_officer(env);
        let now: u32 = env.sequence();
        env.put(Entry::CredentialStatus(participant, CredentialStatus::Revoked(reason, now)));
        let pending = PendingRevocation {
            address: participant,
            effective_ledger: now,
            reason: vec![101u8, 109u8, 101u8, 114u8, 103u8, 101u8, 110u8, 99u8, 121u8],
            initiated_at: now,
            initiated_at_timestamp: env.timestamp(),
        };
        assert(pending.reason@ =~= emergency_reason());
        env.put(Entry::PendingRevocation(participant, pending));
    }

    /// How an address stands, by the revocation that is under way for it and,
    /// failing that, by its stored credential.
    fn decide(env: &Env, address: &Address) -> (result: CredentialCheckResult)
        ensures
            result == standing(env@, *address),
    {
        if let Some(pending) = env.pending_revocation(address) {
            if env.sequence() >= pending.initiated_at {
                return CredentialCheckResult::PendingRevocation;
            }
        }
        match env.credential_status(address) {
            Some(CredentialStatus::Active(expiry)) => if env.timestamp() > *expiry {
                CredentialCheckResult::Expired
            } else {
                CredentialCheckResult::Active
            },
            Some(CredentialStatus::Suspended(_)) => CredentialCheckResult::Suspended,
            Some(CredentialStatus::PendingRevocation(_)) =>
            CredentialCheckResult::PendingRevocation,
            Some(CredentialStatus::Revoked(_, _)) => CredentialCheckResult::Revoked,
            None => CredentialCheckResult::NotFound,
        }
    }

    fn check_credential_internal(env: &mut Env, address: Address, last_check_ledger: u32) -> (result:
        CredentialCheckResult)
        ensures
            result == standing_since(old(env)@, address, last_check_ledger),
            final(env)@ == after_check_since(old(env)@, address, last_check_ledger),
    {
        let revoked_since = match env.credential_status(&address) {
            Some(CredentialStatus::Revoked(_, revoked_at)) => last_check_ledger > 0 && *revoked_at
                >= last_check_ledger,
            _ => false,
        };
        let result = if revoked_since {
            CredentialCheckResult::Revoked
        } else {
            Self::decide(env, &address)
        };
        let record = ComplianceCheckRecord { address, check_ledger: env.sequence(), result };
        env.put(Entry::LastComplianceCheck(address, record));
        result
    }

    /// Checks how an address stands, and records the check.
    pub fn check_credential(env: &mut Env, address: Address) -> (result: CredentialCheckResult)
        ensures
            result == standing(old(env)@, address),
            final(env)@ == after_check(old(env)@, address),
    {
        Self::check_credential_internal(env, address, 0)
    }

    /// Checks how an address stands for a caller that last checked in the
    /// given ledger, and records the check. If the credential was revoked in
    /// that ledger or a later one, what the caller saw then is stale, and the
    /// answer is `Revoked`, whether the revocation has been finalized or not.
    pub fn check_credential_with_ledger(
        env: &mut Env,
        address: Address,
        last_check_ledger: u32,
    ) -> (result: CredentialCheckResult)
        ensures
            result == standing_since(old(env)@, address, last_check_ledger),
            final(env)@ == after_check_since(old(env)@, address, last_check_ledger),
    {
        Self::check_credential_internal(env, address, last_check_ledger)
    }

    /// The ledger of the latest check of an address, or 0 if there is none.
    pub fn get_last_check_ledger(env: &Env, address: Address) -> (ledger: u32)
        ensures
            ledger == last_check_ledger(env@, address),
    {
        match env.last_compliance_check(&address) {
            Some(record) => record.check_ledger,
            None => 0,
        }
    }

    /// Drops the record of the latest check of an address and checks anew.
    pub fn refresh_credential(env: &mut Env, address: Address) -> (result: CredentialCheckResult)
        ensures
            result == standing(old(env)@, address),
            final(env)@ == after_refresh(old(env)@, address),
    {
        env.remove(DataKey::LastComplianceCheck(address));
        Self::check_credential(env, address)
    }

    /// Checks how each of `addresses` stands, in their order.
    pub fn batch_check_credentials(env: &mut Env, addresses: Vec<Address>) -> (results: Vec<
        CredentialCheckResult,
    >)
        ensures
            results@ == addresses@.map_values(|address: Address| standing(old(env)@, address)),
            final(env)@ == after_batch(old(env)@, addresses@),
    {
        let ghost pre = env@;
        let mut results: Vec<CredentialCheckResult> = Vec::new();
        let mut i: usize = 0;
        assert(env@ =~= after_batch(pre, addresses@.take(0)));
        while i < addresses.len()
            invariant
                i <= addresses.len(),
                results@ == addresses@.take(i as int).map_values(
                    |address: Address| standing(pre, address),
                ),
                env@ == after_batch(pre, addresses@.take(i as int)),
            decreases addresses.len() - i,
        {
            let ghost done = addresses@.take(i as int);
            let ghost next = addresses@.take(i + 1);
            let result = Self::check_credential(env, addresses[i]);
            results.push(result);
            proof {
                assert(next =~= done.push(addresses[i as int]));
                assert(forall|address: Address|
                    next.contains(address) <==> done.contains(address) || address
                        == addresses[i as int]) by {
                    assert(next[i as int] == addresses[i as int]);
                    assert forall|address: Address| done.contains(address) implies next.contains(
                        address,
                    ) by {
                        let j = choose|j: int| 0 <= j < done.len() && done[j] == address;
                        assert(next[j] == address);
                    }
                }
                assert(env@ =~= after_batch(pre, next));
            }
            i = i + 1;
        }
        assert(addresses@.take(i as int) =~= addresses@);
        results
    }
}

} // verus!

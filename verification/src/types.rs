//! What the contract stores, and the answers it gives.
use vstd::prelude::*;

use crate::address::Address;

verus! {

/// Ledgers that pass between the first and the second phase of a revocation.
pub const REVOCATION_DELAY: u32 = 10;

/// What a caller pays for a compliance check, in stroops (0.01 XLM).
pub const COMPLIANCE_CHECK_FEE: i128 = 100_000;

/// How long a credential is kept alive, in ledgers (about one year).
pub const CREDENTIAL_TTL_LEDGERS: u32 = 6311520;

/// How long the contract instance is kept alive, in ledgers.
pub const INSTANCE_TTL_LEDGERS: u32 = 648000;

/// The name of a storage entry.
#[derive(Clone, Copy, Debug, PartialEq, Eq)]
pub enum DataKey {
    /// The compliance officer; in instance storage.
    Officer,
    /// Whether an address is under sanctions.
    Sanctioned(Address),
    /// Whether an address has been flagged.
    Flagged(Address),
    /// The state of a participant's credential.
    CredentialStatus(Address),
    /// The revocation that is under way for a participant.
    PendingRevocation(Address),
    /// The latest compliance check of an address; in temporary storage.
    LastComplianceCheck(Address),
    /// Who issued a participant's credential.
    CredentialIssuer(Address),
}

/// Which of the host's storages an entry is kept in.
#[derive(Clone, Copy, Debug, PartialEq, Eq, Structural)]
pub enum Durability {
    /// Lives and dies with the contract instance.
    Instance,
    /// Kept until it is deleted.
    Persistent,
    /// Lost when its time is up.
    Temporary,
}

impl DataKey {
    /// Where the entry under this key is kept.
    pub open spec fn kept_in(self) -> Durability {
        match self {
            DataKey::Officer => Durability::Instance,
            DataKey::LastComplianceCheck(_) => Durability::Temporary,
            _ => Durability::Persistent,
        }
    }

    /// Where the entry under this key is kept.
    pub fn durability(&self) -> (durability: Durability)
        ensures
            durability == self.kept_in(),
    {
        match self {
            DataKey::Officer => Durability::Instance,
            DataKey::LastComplianceCheck(_) => Durability::Temporary,
            _ => Durability::Persistent,
        }
    }
}

/// The state of a credential.
#[derive(Debug, PartialEq, Eq)]
pub enum CredentialStatus {
    /// In force up to and including the given time.
    Active(u64),
    /// Suspended since the given time.
    Suspended(u64),
    /// Revoked, with the reason and the ledger in which it was revoked.
    Revoked(Vec<u8>, u32),
    /// Awaiting the second phase of a revocation, due from the given ledger on.
    PendingRevocation(u32),
}

/// The mathematical model of a [`CredentialStatus`].
#[verifier::ext_equal]
pub enum StatusView {
    Active(u64),
    Suspended(u64),
    Revoked(Seq<u8>, u32),
    PendingRevocation(u32),
}

impl View for CredentialStatus {
    type V = StatusView;

    open spec fn view(&self) -> StatusView {
        match self {
            CredentialStatus::Active(expiry) => StatusView::Active(*expiry),
            CredentialStatus::Suspended(since) => StatusView::Suspended(*since),
            CredentialStatus::Revoked(reason, at) => StatusView::Revoked(reason@, *at),
            CredentialStatus::PendingRevocation(due) => StatusView::PendingRevocation(*due),
        }
    }
}

impl Clone for CredentialStatus {
    fn clone(&self) -> (copy: Self)
        ensures
            copy@ == self@,
    {
        match self {
            CredentialStatus::Active(expiry) => CredentialStatus::Active(*expiry),
            CredentialStatus::Suspended(since) => CredentialStatus::Suspended(*since),
            CredentialStatus::Revoked(reason, at) => CredentialStatus::Revoked(
                reason.clone(),
                *at,
            ),
            CredentialStatus::PendingRevocation(due) => CredentialStatus::PendingRevocation(*due),
        }
    }
}

/// A revocation whose second phase is still to come.
#[derive(Debug, PartialEq, Eq)]
pub struct PendingRevocation {
    /// Whose credential is being revoked.
    pub address: Address,
    /// The first ledger in which the revocation can be finalized.
    pub effective_ledger: u32,
    pub reason: Vec<u8>,
    /// The ledger in which the revocation was initiated.
    pub initiated_at: u32,
    /// The time at which the revocation was initiated.
    pub initiated_at_timestamp: u64,
}

/// The mathematical model of a [`PendingRevocation`].
#[verifier::ext_equal]
pub struct PendingView {
    pub address: Address,
    pub effective_ledger: u32,
    pub reason: Seq<u8>,
    pub initiated_at: u32,
    pub initiated_at_timestamp: u64,
}

impl View for PendingRevocation {
    type V = PendingView;

    open spec fn view(&self) -> PendingView {
        PendingView {
            address: self.address,
            effective_ledger: self.effective_ledger,
            reason: self.reason@,
            initiated_at: self.initiated_at,
            initiated_at_timestamp: self.initiated_at_timestamp,
        }
    }
}

impl Clone for PendingRevocation {
    fn clone(&self) -> (copy: Self)
        ensures
            copy@ == self@,
    {
        PendingRevocation {
            address: self.address,
            effective_ledger: self.effective_ledger,
            reason: self.reason.clone(),
            initiated_at: self.initiated_at,
            initiated_at_timestamp: self.initiated_at_timestamp,
        }
    }
}

/// The answer to a compliance check.
#[derive(Clone, Copy, Debug, PartialEq, Eq, Structural)]
pub enum CredentialCheckResult {
    Active,
    Suspended,
    Revoked,
    PendingRevocation,
    NotFound,
    Expired,
}

/// The trace that a compliance check leaves.
#[derive(Clone, Copy, Debug, PartialEq, Eq)]
pub struct ComplianceCheckRecord {
    /// Who was checked.
    pub address: Address,
    /// The ledger in which the check was made.
    pub check_ledger: u32,
    pub result: CredentialCheckResult,
}

impl View for ComplianceCheckRecord {
    type V = ComplianceCheckRecord;

    open spec fn view(&self) -> ComplianceCheckRecord {
        *self
    }
}

} // verus!

//! What the contract asks of its host, in the order in which it asks.
use vstd::prelude::*;

use crate::address::Address;
use crate::types::{
    ComplianceCheckRecord, CredentialStatus, DataKey, PendingRevocation, PendingView, StatusView,
};

verus! {

/// A storage entry: its key and its value.
#[derive(Debug, PartialEq, Eq)]
pub enum Entry {
    Officer(Address),
    Sanctioned(Address, bool),
    Flagged(Address, bool),
    CredentialStatus(Address, CredentialStatus),
    PendingRevocation(Address, PendingRevocation),
    LastComplianceCheck(Address, ComplianceCheckRecord),
    CredentialIssuer(Address, Address),
}

/// The mathematical model of an [`Entry`].
#[verifier::ext_equal]
pub enum EntryView {
    Officer(Address),
    Sanctioned(Address, bool),
    Flagged(Address, bool),
    CredentialStatus(Address, StatusView),
    PendingRevocation(Address, PendingView),
    LastComplianceCheck(Address, ComplianceCheckRecord),
    CredentialIssuer(Address, Address),
}

impl EntryView {
    /// The key under which the entry is stored.
    pub open spec fn key(self) -> DataKey {
        match self {
            EntryView::Officer(_) => DataKey::Officer,
            EntryView::Sanctioned(who, _) => DataKey::Sanctioned(who),
            EntryView::Flagged(who, _) => DataKey::Flagged(who),
            EntryView::CredentialStatus(who, _) => DataKey::CredentialStatus(who),
            EntryView::PendingRevocation(who, _) => DataKey::PendingRevocation(who),
            EntryView::LastComplianceCheck(who, _) => DataKey::LastComplianceCheck(who),
            EntryView::CredentialIssuer(who, _) => DataKey::CredentialIssuer(who),
        }
    }
}

impl View for Entry {
    type V = EntryView;

    open spec fn view(&self) -> EntryView {
        match self {
            Entry::Officer(officer) => EntryView::Officer(*officer),
            Entry::Sanctioned(who, value) => EntryView::Sanctioned(*who, *value),
            Entry::Flagged(who, value) => EntryView::Flagged(*who, *value),
            Entry::CredentialStatus(who, status) => EntryView::CredentialStatus(*who, status@),
            Entry::PendingRevocation(who, pending) => EntryView::PendingRevocation(
                *who,
                pending@,
            ),
            Entry::LastComplianceCheck(who, record) => EntryView::LastComplianceCheck(
                *who,
                *record,
            ),
            Entry::CredentialIssuer(who, issuer) => EntryView::CredentialIssuer(*who, *issuer),
        }
    }
}

impl Entry {
    /// The key under which the entry is stored.
    pub fn key(&self) -> (key: DataKey)
        ensures
            key == self@.key(),
    {
        match self {
            Entry::Officer(_) => DataKey::Officer,
            Entry::Sanctioned(who, _) => DataKey::Sanctioned(*who),
            Entry::Flagged(who, _) => DataKey::Flagged(*who),
            Entry::CredentialStatus(who, _) => DataKey::CredentialStatus(*who),
            Entry::PendingRevocation(who, _) => DataKey::PendingRevocation(*who),
            Entry::LastComplianceCheck(who, _) => DataKey::LastComplianceCheck(*who),
            Entry::CredentialIssuer(who, _) => DataKey::CredentialIssuer(*who),
        }
    }
}

impl Clone for Entry {
    fn clone(&self) -> (copy: Self)
        ensures
            copy@ == self@,
    {
        match self {
            Entry::Officer(officer) => Entry::Officer(*officer),
            Entry::Sanctioned(who, value) => Entry::Sanctioned(*who, *value),
            Entry::Flagged(who, value) => Entry::Flagged(*who, *value),
            Entry::CredentialStatus(who, status) => Entry::CredentialStatus(*who, status.clone()),
            Entry::PendingRevocation(who, pending) => Entry::PendingRevocation(
                *who,
                pending.clone(),
            ),
            Entry::LastComplianceCheck(who, record) => Entry::LastComplianceCheck(*who, *record),
            Entry::CredentialIssuer(who, issuer) => Entry::CredentialIssuer(*who, *issuer),
        }
    }
}

/// What the contract announces.
#[derive(Debug, PartialEq, Eq)]
pub enum Event {
    CredentialIssued { participant: Address, expiry: u64 },
    CredentialSuspended { participant: Address, since: u64 },
    CredentialReactivated { participant: Address, expiry: u64 },
    RevocationPending { participant: Address, effective_ledger: u32, reason: Vec<u8> },
    CredentialRevoked { participant: Address, reason: Vec<u8>, revoked_at: u32 },
}

/// The mathematical model of an [`Event`].
#[verifier::ext_equal]
pub enum EventView {
    CredentialIssued { participant: Address, expiry: u64 },
    CredentialSuspended { participant: Address, since: u64 },
    CredentialReactivated { participant: Address, expiry: u64 },
    RevocationPending { participant: Address, effective_ledger: u32, reason: Seq<u8> },
    CredentialRevoked { participant: Address, reason: Seq<u8>, revoked_at: u32 },
}

impl View for Event {
    type V = EventView;

    open spec fn view(&self) -> EventView {
        match self {
            Event::CredentialIssued { participant, expiry } => EventView::CredentialIssued {
                participant: *participant,
                expiry: *expiry,
            },
            Event::CredentialSuspended { participant, since } => EventView::CredentialSuspended {
                participant: *participant,
                since: *since,
            },
            Event::CredentialReactivated { participant, expiry } =>
            EventView::CredentialReactivated { participant: *participant, expiry: *expiry },
            Event::RevocationPending { participant, effective_ledger, reason } =>
            EventView::RevocationPending {
                participant: *participant,
                effective_ledger: *effective_ledger,
                reason: reason@,
            },
            Event::CredentialRevoked { participant, reason, revoked_at } =>
            EventView::CredentialRevoked {
                participant: *participant,
                reason: reason@,
                revoked_at: *revoked_at,
            },
        }
    }
}

impl EventView {
    /// The topic that the event is published under, ahead of the participant.
    pub open spec fn topic(self) -> Seq<char> {
        match self {
            EventView::CredentialIssued { .. } => "credential_issued"@,
            EventView::CredentialSuspended { .. } => "credential_suspended"@,
            EventView::CredentialReactivated { .. } => "credential_reactivated"@,
            EventView::RevocationPending { .. } => "RevocationPending"@,
            EventView::CredentialRevoked { .. } => "credential_revoked"@,
        }
    }
}

impl Event {
    /// The topic that the event is published under, ahead of the participant.
    pub fn topic(&self) -> (topic: &'static str)
        ensures
            topic@ == self@.topic(),
    {
        match self {
            Event::CredentialIssued { .. } => "credential_issued",
            Event::CredentialSuspended { .. } => "credential_suspended",
            Event::CredentialReactivated { .. } => "credential_reactivated",
            Event::RevocationPending { .. } => "RevocationPending",
            Event::CredentialRevoked { .. } => "credential_revoked",
        }
    }
}

/// One request to the host.
#[derive(Debug, PartialEq, Eq)]
pub enum Effect {
    /// Abort the invocation unless this address has authorized it.
    RequireAuth(Address),
    /// Write an entry.
    Put(Entry),
    /// Delete an entry.
    Remove(DataKey),
    /// Extend the life of an entry to `extend_to` ledgers, if less than
    /// `threshold` are left.
    ExtendTtl { key: DataKey, threshold: u32, extend_to: u32 },
    /// The same for the contract instance.
    ExtendInstanceTtl { threshold: u32, extend_to: u32 },
    /// Publish an event.
    Publish(Event),
}

/// The mathematical model of an [`Effect`].
#[verifier::ext_equal]
pub enum EffectView {
    RequireAuth(Address),
    Put(EntryView),
    Remove(DataKey),
    ExtendTtl { key: DataKey, threshold: u32, extend_to: u32 },
    ExtendInstanceTtl { threshold: u32, extend_to: u32 },
    Publish(EventView),
}

impl EffectView {
    /// The entry that the request writes, deletes or keeps alive.
    pub open spec fn touches(self) -> Option<DataKey> {
        match self {
            EffectView::Put(entry) => Some(entry.key()),
            EffectView::Remove(key) => Some(key),
            EffectView::ExtendTtl { key, .. } => Some(key),
            _ => None,
        }
    }
}

impl View for Effect {
    type V = EffectView;

    open spec fn view(&self) -> EffectView {
        match self {
            Effect::RequireAuth(who) => EffectView::RequireAuth(*who),
            Effect::Put(entry) => EffectView::Put(entry@),
            Effect::Remove(key) => EffectView::Remove(*key),
            Effect::ExtendTtl { key, threshold, extend_to } => EffectView::ExtendTtl {
                key: *key,
                threshold: *threshold,
                extend_to: *extend_to,
            },
            Effect::ExtendInstanceTtl { threshold, extend_to } => EffectView::ExtendInstanceTtl {
                threshold: *threshold,
                extend_to: *extend_to,
            },
            Effect::Publish(event) => EffectView::Publish(event@),
        }
    }
}

} // verus!

//! The environment of an invocation: the ledger it runs in, the storage it
//! sees, and the requests it makes of the host.
use vstd::prelude::*;

use crate::address::Address;
use crate::effect::{Effect, EffectView, Entry, EntryView, Event};
use crate::table::Table;
use crate::types::{
    ComplianceCheckRecord, CredentialStatus, DataKey, PendingRevocation, PendingView, StatusView,
};

verus! {

/// The mathematical model of the contract's storage.
#[verifier::ext_equal]
pub struct StoreView {
    pub officer: Option<Address>,
    pub sanctioned: Map<Address, bool>,
    pub flagged: Map<Address, bool>,
    pub statuses: Map<Address, StatusView>,
    pub pending: Map<Address, PendingView>,
    pub checks: Map<Address, ComplianceCheckRecord>,
    pub issuers: Map<Address, Address>,
}

impl StoreView {
    /// Storage in which nothing has been written.
    pub open spec fn empty() -> StoreView {
        StoreView {
            officer: None,
            sanctioned: Map::empty(),
            flagged: Map::empty(),
            statuses: Map::empty(),
            pending: Map::empty(),
            checks: Map::empty(),
            issuers: Map::empty(),
        }
    }

    /// The storage after `entry` has been written.
    pub open spec fn with(self, entry: EntryView) -> StoreView {
        match entry {
            EntryView::Officer(officer) => StoreView { officer: Some(officer), ..self },
            EntryView::Sanctioned(who, value) => StoreView {
                sanctioned: self.sanctioned.insert(who, value),
                ..self
            },
            EntryView::Flagged(who, value) => StoreView {
                flagged: self.flagged.insert(who, value),
                ..self
            },
            EntryView::CredentialStatus(who, status) => StoreView {
                statuses: self.statuses.insert(who, status),
                ..self
            },
            EntryView::PendingRevocation(who, pending) => StoreView {
                pending: self.pending.insert(who, pending),
                ..self
            },
            EntryView::LastComplianceCheck(who, record) => StoreView {
                checks: self.checks.insert(who, record),
                ..self
            },
            EntryView::CredentialIssuer(who, issuer) => StoreView {
                issuers: self.issuers.insert(who, issuer),
                ..self
            },
        }
    }

    /// The storage after the entry under `key` has been deleted.
    pub open spec fn without(self, key: DataKey) -> StoreView {
        match key {
            DataKey::Officer => StoreView { officer: None, ..self },
            DataKey::Sanctioned(who) => StoreView {
                sanctioned: self.sanctioned.remove(who),
                ..self
            },
            DataKey::Flagged(who) => StoreView { flagged: self.flagged.remove(who), ..self },
            DataKey::CredentialStatus(who) => StoreView {
                statuses: self.statuses.remove(who),
                ..self
            },
            DataKey::PendingRevocation(who) => StoreView {
                pending: self.pending.remove(who),
                ..self
            },
            DataKey::LastComplianceCheck(who) => StoreView {
                checks: self.checks.remove(who),
                ..self
            },
            DataKey::CredentialIssuer(who) => StoreView {
                issuers: self.issuers.remove(who),
                ..self
            },
        }
    }
}

/// The mathematical model of an [`Env`].
#[verifier::ext_equal]
pub struct EnvView {
    /// The number of the current ledger.
    pub sequence: u32,
    /// The time of the current ledger.
    pub timestamp: u64,
    pub store: StoreView,
    /// The requests made of the host so far, oldest first.
    pub effects: Seq<EffectView>,
}

impl EnvView {
    /// The environment after one more request that leaves the storage alone.
    pub open spec fn asking(self, effect: EffectView) -> EnvView {
        EnvView { effects: self.effects.push(effect), ..self }
    }
}

/// The environment of an invocation.
///
/// Whoever runs the contract fills it with the entries that the host holds
/// ([`Env::load`]), lets the contract work on it, and then carries out the
/// requests that [`Env::take_effects`] hands out, in their order.
#[derive(Debug)]
pub struct Env {
    sequence: u32,
    timestamp: u64,
    officer: Option<Address>,
    sanctioned: Table<bool>,
    flagged: Table<bool>,
    statuses: Table<CredentialStatus>,
    pending: Table<PendingRevocation>,
    checks: Table<ComplianceCheckRecord>,
    issuers: Table<Address>,
    effects: Vec<Effect>,
}

impl View for Env {
    type V = EnvView;

    closed spec fn view(&self) -> EnvView {
        EnvView {
            sequence: self.sequence,
            timestamp: self.timestamp,
            store: StoreView {
                officer: self.officer,
                sanctioned: self.sanctioned@,
                flagged: self.flagged@,
                statuses: self.statuses@,
                pending: self.pending@,
                checks: self.checks@,
                issuers: self.issuers@,
            },
            effects: self.effects@.map_values(|effect: Effect| effect@),
        }
    }
}

/// What a look-up in a map finds.
pub open spec fn found<V>(map: Map<Address, V>, key: Address) -> Option<V> {
    if map.contains_key(key) {
        Some(map[key])
    } else {
        None
    }
}

impl Env {
    /// An environment in the given ledger, with empty storage.
    pub fn new(sequence: u32, timestamp: u64) -> (env: Env)
        ensures
            env@ == (EnvView {
                sequence,
                timestamp,
                store: StoreView::empty(),
                effects: Seq::empty(),
            }),
    {
        let env = Env {
            sequence,
            timestamp,
            officer: None,
            sanctioned: Table::new(),
            flagged: Table::new(),
            statuses: Table::new(),
            pending: Table::new(),
            checks: Table::new(),
            issuers: Table::new(),
            effects: Vec::new(),
        };
        assert(env@.effects =~= Seq::<EffectView>::empty());
        env
    }

    /// Moves to another ledger. Storage stays as it is.
    pub fn set_ledger(&mut self, sequence: u32, timestamp: u64)
        ensures
            final(self)@ == (EnvView { sequence, timestamp, ..old(self)@ }),
    {
        self.sequence = sequence;
        self.timestamp = timestamp;
    }

    fn store(&mut self, entry: Entry)
        ensures
            final(self)@ == (EnvView { store: old(self)@.store.with(entry@), ..old(self)@ }),
    {
        match entry {
            Entry::Officer(officer) => {
                self.officer = Some(officer);
            },
            Entry::Sanctioned(who, value) => {
                self.sanctioned.insert(who, value);
            },
            Entry::Flagged(who, value) => {
                self.flagged.insert(who, value);
            },
            Entry::CredentialStatus(who, status) => {
                self.statuses.insert(who, status);
            },
            Entry::PendingRevocation(who, pending) => {
                self.pending.insert(who, pending);
            },
            Entry::LastComplianceCheck(who, record) => {
                self.checks.insert(who, record);
            },
            Entry::CredentialIssuer(who, issuer) => {
                self.issuers.insert(who, issuer);
            },
        }
    }

    fn ask(&mut self, effect: Effect)
        ensures
            final(self)@ == old(self)@.asking(effect@),
    {
        self.effects.push(effect);
    }

    /// Takes over an entry that the host already holds.
    pub fn load(&mut self, entry: Entry)
        ensures
            final(self)@ == (EnvView { store: old(self)@.store.with(entry@), ..old(self)@ }),
    {
        self.store(entry);
    }

    /// Hands out the requests made so far, oldest first, and starts afresh.
    pub fn take_effects(&mut self) -> (effects: Vec<Effect>)
        ensures
            effects@.map_values(|effect: Effect| effect@) == old(self)@.effects,
            final(self)@ == (EnvView { effects: Seq::empty(), ..old(self)@ }),
    {
        let mut effects: Vec<Effect> = Vec::new();
        core::mem::swap(&mut effects, &mut self.effects);
        assert(self@.effects =~= Seq::<EffectView>::empty());
        effects
    }

    /// The number of the current ledger.
    pub fn sequence(&self) -> (sequence: u32)
        ensures
            sequence == self@.sequence,
    {
        self.sequence
    }

    /// The time of the current ledger.
    pub fn timestamp(&self) -> (timestamp: u64)
        ensures
            timestamp == self@.timestamp,
    {
        self.timestamp
    }

    /// The compliance officer, once there is one.
    pub fn officer(&self) -> (officer: Option<Address>)
        ensures
            officer == self@.store.officer,
    {
        self.officer
    }

    /// The stored sanction mark of `who`.
    pub fn sanctioned(&self, who: &Address) -> (mark: Option<bool>)
        ensures
            mark == found(self@.store.sanctioned, *who),
    {
        match self.sanctioned.get(who) {
            Some(mark) => Some(*mark),
            None => None,
        }
    }

    /// The stored flag of `who`.
    pub fn flagged(&self, who: &Address) -> (mark: Option<bool>)
        ensures
            mark == found(self@.store.flagged, *who),
    {
        match self.flagged.get(who) {
            Some(mark) => Some(*mark),
            None => None,
        }
    }

    /// The stored credential of `who`.
    pub fn credential_status(&self, who: &Address) -> (status: Option<&CredentialStatus>)
        ensures
            match status {
                Some(status) => found(self@.store.statuses, *who) == Some(status@),
                None => found(self@.store.statuses, *who) is None,
            },
    {
        self.statuses.get(who)
    }

    /// The revocation that is under way for `who`.
    pub fn pending_revocation(&self, who: &Address) -> (pending: Option<&PendingRevocation>)
        ensures
            match pending {
                Some(pending) => found(self@.store.pending, *who) == Some(pending@),
                None => found(self@.store.pending, *who) is None,
            },
    {
        self.pending.get(who)
    }

    /// The latest compliance check of `who`.
    pub fn last_compliance_check(&self, who: &Address) -> (record: Option<ComplianceCheckRecord>)
        ensures
            record == found(self@.store.checks, *who),
    {
        match self.checks.get(who) {
            Some(record) => Some(*record),
            None => None,
        }
    }

    /// Requires that `who` has authorized the invocation.
    pub(crate) fn require_auth(&mut self, who: Address)
        ensures
            final(self)@ == old(self)@.asking(EffectView::RequireAuth(who)),
    {
        self.ask(Effect::RequireAuth(who));
    }

    /// Writes an entry.
    pub(crate) fn put(&mut self, entry: Entry)
        ensures
            final(self)@ == (EnvView {
                store: old(self)@.store.with(entry@),
                ..old(self)@.asking(EffectView::Put(entry@))
            }),
    {
        self.ask(Effect::Put(entry.clone()));
        self.store(entry);
    }

    /// Deletes an entry.
    pub(crate) fn remove(&mut self, key: DataKey)
        ensures
            final(self)@ == (EnvView {
                store: old(self)@.store.without(key),
                ..old(self)@.asking(EffectView::Remove(key))
            }),
    {
        self.ask(Effect::Remove(key));
        match key {
            DataKey::Officer => {
                self.officer = None;
            },
            DataKey::Sanctioned(who) => {
                self.sanctioned.remove(&who);
            },
            DataKey::Flagged(who) => {
                self.flagged.remove(&who);
            },
            DataKey::CredentialStatus(who) => {
                self.statuses.remove(&who);
            },
            DataKey::PendingRevocation(who) => {
                self.pending.remove(&who);
            },
            DataKey::LastComplianceCheck(who) => {
                self.checks.remove(&who);
            },
            DataKey::CredentialIssuer(who) => {
                self.issuers.remove(&who);
            },
        }
    }

    /// Extends the life of an entry.
    pub(crate) fn extend_ttl(&mut self, key: DataKey, threshold: u32, extend_to: u32)
        ensures
            final(self)@ == old(self)@.asking(
                EffectView::ExtendTtl { key, threshold, extend_to },
            ),
    {
        self.ask(Effect::ExtendTtl { key, threshold, extend_to });
    }

    /// Extends the life of the contract instance.
    pub(crate) fn extend_instance_ttl(&mut self, threshold: u32, extend_to: u32)
        ensures
            final(self)@ == old(self)@.asking(
                EffectView::ExtendInstanceTtl { threshold, extend_to },
            ),
    {
        self.ask(Effect::ExtendInstanceTtl { threshold, extend_to });
    }

    /// Publishes an event.
    pub(crate) fn publish(&mut self, event: Event)
        ensures
            final(self)@ == old(self)@.asking(EffectView::Publish(event@)),
    {
        self.ask(Effect::Publish(event));
    }
}

} // verus!

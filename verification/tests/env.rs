use compliance::{
    Address, ComplianceContract, CredentialCheckResult, CredentialStatus, DataKey, Durability,
    Effect, Entry, Env, Event,
};

fn address(n: u8) -> Address {
    Address { text: [n; 56] }
}

/// What a host holds after carrying out the requests.
fn carry_out(host: &mut Vec<Entry>, effects: Vec<Effect>) {
    for effect in effects {
        match effect {
            Effect::Put(entry) => {
                host.retain(|held| held.key() != entry.key());
                host.push(entry);
            }
            Effect::Remove(key) => host.retain(|held| held.key() != key),
            _ => {}
        }
    }
}

#[test]
fn addresses_differ_by_any_byte() {
    let a = address(7);
    assert!(a.same(&address(7)));
    for i in 0..56 {
        let mut b = a;
        b.text[i] = 8;
        assert!(!a.same(&b));
        assert!(!b.same(&a));
    }
}

#[test]
fn entries_know_their_key_and_storage() {
    let cases = [
        (Entry::Officer(address(1)), DataKey::Officer, Durability::Instance),
        (
            Entry::Sanctioned(address(1), true),
            DataKey::Sanctioned(address(1)),
            Durability::Persistent,
        ),
        (Entry::Flagged(address(1), true), DataKey::Flagged(address(1)), Durability::Persistent),
        (
            Entry::CredentialStatus(address(1), CredentialStatus::Active(1)),
            DataKey::CredentialStatus(address(1)),
            Durability::Persistent,
        ),
        (
            Entry::CredentialIssuer(address(1), address(2)),
            DataKey::CredentialIssuer(address(1)),
            Durability::Persistent,
        ),
    ];
    for (entry, key, durability) in cases {
        assert_eq!(entry.key(), key);
        assert_eq!(key.durability(), durability);
        assert_eq!(entry.clone(), entry);
    }
    assert_eq!(DataKey::PendingRevocation(address(1)).durability(), Durability::Persistent);
    assert_eq!(DataKey::LastComplianceCheck(address(1)).durability(), Durability::Temporary);
}

#[test]
fn event_topics() {
    let participant = address(1);
    let reason = b"fraud".to_vec();
    assert_eq!(Event::CredentialIssued { participant, expiry: 1 }.topic(), "credential_issued");
    assert_eq!(
        Event::CredentialSuspended { participant, since: 1 }.topic(),
        "credential_suspended"
    );
    assert_eq!(
        Event::CredentialReactivated { participant, expiry: 1 }.topic(),
        "credential_reactivated"
    );
    assert_eq!(
        Event::RevocationPending { participant, effective_ledger: 1, reason: reason.clone() }
            .topic(),
        "RevocationPending"
    );
    assert_eq!(
        Event::CredentialRevoked { participant, reason, revoked_at: 1 }.topic(),
        "credential_revoked"
    );
}

#[test]
fn ledger_is_what_it_was_set_to() {
    let mut env = Env::new(5, 6);
    assert_eq!((env.sequence(), env.timestamp()), (5, 6));
    env.set_ledger(7, 8);
    assert_eq!((env.sequence(), env.timestamp()), (7, 8));
}

#[test]
fn loading_asks_nothing_and_overwrites() {
    let mut env = Env::new(5, 6);
    env.load(Entry::Officer(address(1)));
    env.load(Entry::CredentialStatus(address(2), CredentialStatus::Active(1)));
    env.load(Entry::CredentialStatus(address(3), CredentialStatus::Active(2)));
    env.load(Entry::CredentialStatus(address(2), CredentialStatus::Suspended(3)));
    assert_eq!(env.officer(), Some(address(1)));
    assert_eq!(env.credential_status(&address(2)), Some(&CredentialStatus::Suspended(3)));
    assert_eq!(env.credential_status(&address(3)), Some(&CredentialStatus::Active(2)));
    assert_eq!(env.credential_status(&address(4)), None);
    assert_eq!(env.take_effects(), vec![]);
}

/// Each call runs on what the host holds, as left by the calls before it.
#[test]
fn requests_account_for_storage() {
    let mut host: Vec<Entry> = vec![];
    let calls: [fn(&mut Env); 9] = [
        |env| ComplianceContract::init(env, address(1)),
        |env| ComplianceContract::issue_credential(env, address(2), 50),
        |env| ComplianceContract::sanction(env, address(3)),
        |env| ComplianceContract::revoke_credential(env, address(2), b"fraud".to_vec()),
        |env| {
            assert_eq!(
                ComplianceContract::refresh_credential(env, address(2)),
                CredentialCheckResult::PendingRevocation
            );
        },
        |env| ComplianceContract::unsanction(env, address(3)),
        |env| ComplianceContract::emergency_revoke(env, address(2), vec![]),
        |env| ComplianceContract::finalize_revocation(env, address(2)),
        |env| {
            assert_eq!(
                ComplianceContract::check_credential(env, address(2)),
                CredentialCheckResult::Revoked
            );
        },
    ];
    for call in calls {
        let mut env = Env::new(100, 10);
        for entry in &host {
            env.load(entry.clone());
        }
        call(&mut env);
        carry_out(&mut host, env.take_effects());
    }
    let mut keys: Vec<DataKey> = vec![];
    for entry in &host {
        keys.push(entry.key());
    }
    assert_eq!(
        keys,
        vec![
            DataKey::Officer,
            DataKey::CredentialIssuer(address(2)),
            DataKey::CredentialStatus(address(2)),
            DataKey::LastComplianceCheck(address(2)),
        ]
    );
}

/// A call on the entries it looks at asks for the same as on whole storage.
#[test]
fn calls_look_at_little() {
    let mut whole = Env::new(100, 10);
    ComplianceContract::init(&mut whole, address(1));
    ComplianceContract::issue_credential(&mut whole, address(2), 50);
    ComplianceContract::sanction(&mut whole, address(2));
    ComplianceContract::emergency_revoke(&mut whole, address(3), b"leak".to_vec());
    ComplianceContract::check_credential(&mut whole, address(2));
    whole.take_effects();

    let mut part = Env::new(100, 10);
    part.load(Entry::Officer(address(1)));
    part.load(Entry::CredentialStatus(address(2), CredentialStatus::Active(50)));
    part.load(Entry::PendingRevocation(
        address(3),
        whole.pending_revocation(&address(3)).unwrap().clone(),
    ));
    for env in [&mut whole, &mut part] {
        assert_eq!(ComplianceContract::finalization_refusal(env, address(3)), None);
        ComplianceContract::finalize_revocation(env, address(3));
        assert_eq!(
            ComplianceContract::check_credential(env, address(2)),
            CredentialCheckResult::Active
        );
    }
    assert_eq!(whole.take_effects(), part.take_effects());
}

#[test]
fn officer_authorizes_first() {
    let calls: [fn(&mut Env); 10] = [
        |env| ComplianceContract::sanction(env, address(2)),
        |env| ComplianceContract::unsanction(env, address(2)),
        |env| ComplianceContract::flag_address(env, address(2)),
        |env| ComplianceContract::issue_credential(env, address(2), 50),
        |env| ComplianceContract::suspend_credential(env, address(2)),
        |env| ComplianceContract::unsuspend_credential(env, address(2), 60),
        |env| {
            ComplianceContract::initiate_revocation(env, address(2), vec![]);
        },
        |env| ComplianceContract::revoke_credential(env, address(2), vec![]),
        |env| ComplianceContract::emergency_revoke(env, address(2), vec![]),
        |env| ComplianceContract::finalize_revocation(env, address(2)),
    ];
    let mut env = Env::new(100, 10);
    ComplianceContract::init(&mut env, address(1));
    env.take_effects();
    for call in calls {
        call(&mut env);
        let effects = env.take_effects();
        assert_eq!(effects[0], Effect::RequireAuth(address(1)));
        assert!(effects[1..].iter().all(|effect| !matches!(effect, Effect::RequireAuth(_))));
        assert_eq!(env.officer(), Some(address(1)));
    }
}

#[test]
fn checks_repeat_and_leave_standings() {
    let mut env = Env::new(100, 10);
    ComplianceContract::init(&mut env, address(1));
    ComplianceContract::issue_credential(&mut env, address(2), 50);
    env.take_effects();
    let first = ComplianceContract::check_credential(&mut env, address(2));
    let record = env.last_compliance_check(&address(2));
    ComplianceContract::sanction(&mut env, address(2));
    ComplianceContract::flag_address(&mut env, address(2));
    let second = ComplianceContract::check_credential(&mut env, address(2));
    assert_eq!(first, CredentialCheckResult::Active);
    assert_eq!(second, CredentialCheckResult::Active);
    assert_eq!(env.last_compliance_check(&address(2)), record);
}

use compliance::{
    Address, ComplianceCheckRecord, ComplianceContract, CredentialCheckResult, CredentialStatus,
    DataKey, Effect, Entry, Env, Event, PendingRevocation, Refusal, COMPLIANCE_CHECK_FEE,
    CREDENTIAL_TTL_LEDGERS, INSTANCE_TTL_LEDGERS, REVOCATION_DELAY,
};

fn address(n: u8) -> Address {
    Address { text: [n; 56] }
}

const OFFICER: u8 = 1;
const ALICE: u8 = 2;
const BOB: u8 = 3;

/// Ledger 100, time 1000, with an officer and no requests outstanding.
fn registry() -> Env {
    let mut env = Env::new(100, 1_000);
    ComplianceContract::init(&mut env, address(OFFICER));
    env.take_effects();
    env
}

fn check(env: &mut Env, who: u8) -> CredentialCheckResult {
    ComplianceContract::check_credential(env, address(who))
}

#[test]
fn constants() {
    assert_eq!(REVOCATION_DELAY, 10);
    assert_eq!(COMPLIANCE_CHECK_FEE, 100_000);
    assert_eq!(CREDENTIAL_TTL_LEDGERS, 6_311_520);
    assert_eq!(INSTANCE_TTL_LEDGERS, 648_000);
}

#[test]
fn init_stores_the_officer() {
    let mut env = Env::new(100, 1_000);
    assert_eq!(ComplianceContract::init_refusal(&env), None);
    ComplianceContract::init(&mut env, address(OFFICER));
    assert_eq!(env.officer(), Some(address(OFFICER)));
    assert_eq!(
        env.take_effects(),
        vec![
            Effect::Put(Entry::Officer(address(OFFICER))),
            Effect::ExtendInstanceTtl { threshold: 648_000, extend_to: 648_000 },
        ]
    );
}

#[test]
fn init_is_refused_the_second_time() {
    let env = registry();
    let refusal = ComplianceContract::init_refusal(&env);
    assert_eq!(refusal, Some(Refusal::AlreadyInitialized));
    assert_eq!(refusal.unwrap().message(), "Already initialized");
}

#[test]
fn officers_calls_are_refused_without_an_officer() {
    let env = Env::new(100, 1_000);
    assert_eq!(ComplianceContract::officer_refusal(&env), Some(Refusal::NotInitialized));
    assert_eq!(ComplianceContract::initiation_refusal(&env), Some(Refusal::NotInitialized));
    assert_eq!(
        ComplianceContract::finalization_refusal(&env, address(ALICE)),
        Some(Refusal::NotInitialized)
    );
    assert_eq!(ComplianceContract::officer_refusal(&registry()), None);
    assert_eq!(ComplianceContract::initiation_refusal(&registry()), None);
    assert_eq!(Refusal::NotInitialized.message(), "Not initialized");
}

#[test]
fn sanctions_come_and_go() {
    let mut env = registry();
    assert!(!ComplianceContract::is_sanctioned(&env, address(ALICE)));
    ComplianceContract::sanction(&mut env, address(ALICE));
    assert!(ComplianceContract::is_sanctioned(&env, address(ALICE)));
    assert!(!ComplianceContract::is_sanctioned(&env, address(BOB)));
    ComplianceContract::unsanction(&mut env, address(ALICE));
    assert!(!ComplianceContract::is_sanctioned(&env, address(ALICE)));
    assert_eq!(
        env.take_effects(),
        vec![
            Effect::RequireAuth(address(OFFICER)),
            Effect::Put(Entry::Sanctioned(address(ALICE), true)),
            Effect::RequireAuth(address(OFFICER)),
            Effect::Remove(DataKey::Sanctioned(address(ALICE))),
        ]
    );
}

#[test]
fn stored_marks_are_read_as_they_are() {
    let mut env = registry();
    env.load(Entry::Sanctioned(address(ALICE), false));
    env.load(Entry::Flagged(address(ALICE), false));
    env.load(Entry::Sanctioned(address(BOB), true));
    env.load(Entry::Flagged(address(BOB), true));
    assert!(!ComplianceContract::is_sanctioned(&env, address(ALICE)));
    assert!(!ComplianceContract::is_flagged(&env, address(ALICE)));
    assert!(ComplianceContract::is_sanctioned(&env, address(BOB)));
    assert!(ComplianceContract::is_flagged(&env, address(BOB)));
    assert_eq!(env.take_effects(), vec![]);
}

#[test]
fn flags_stay() {
    let mut env = registry();
    assert!(!ComplianceContract::is_flagged(&env, address(ALICE)));
    ComplianceContract::flag_address(&mut env, address(ALICE));
    ComplianceContract::unsanction(&mut env, address(ALICE));
    ComplianceContract::issue_credential(&mut env, address(ALICE), 2_000);
    assert!(ComplianceContract::is_flagged(&env, address(ALICE)));
    assert!(!ComplianceContract::is_flagged(&env, address(BOB)));
    assert_eq!(
        env.take_effects()[..2],
        [
            Effect::RequireAuth(address(OFFICER)),
            Effect::Put(Entry::Flagged(address(ALICE), true)),
        ]
    );
}

#[test]
fn issued_credential_is_active_up_to_its_expiry() {
    let mut env = registry();
    assert_eq!(check(&mut env, ALICE), CredentialCheckResult::NotFound);
    ComplianceContract::issue_credential(&mut env, address(ALICE), 2_000);
    assert_eq!(check(&mut env, ALICE), CredentialCheckResult::Active);
    env.set_ledger(150, 2_000);
    assert_eq!(check(&mut env, ALICE), CredentialCheckResult::Active);
    env.set_ledger(151, 2_001);
    assert_eq!(check(&mut env, ALICE), CredentialCheckResult::Expired);
    assert_eq!(check(&mut env, BOB), CredentialCheckResult::NotFound);
}

#[test]
fn issuing_asks_the_host() {
    let mut env = registry();
    ComplianceContract::issue_credential(&mut env, address(ALICE), 2_000);
    assert_eq!(
        env.take_effects(),
        vec![
            Effect::RequireAuth(address(OFFICER)),
            Effect::Put(Entry::CredentialStatus(address(ALICE), CredentialStatus::Active(2_000))),
            Effect::ExtendTtl {
                key: DataKey::CredentialStatus(address(ALICE)),
                threshold: 6_311_520,
                extend_to: 6_311_520,
            },
            Effect::Put(Entry::CredentialIssuer(address(ALICE), address(OFFICER))),
            Effect::Publish(Event::CredentialIssued { participant: address(ALICE), expiry: 2_000 }),
        ]
    );
}

#[test]
fn suspension_and_reactivation() {
    let mut env = registry();
    ComplianceContract::issue_credential(&mut env, address(ALICE), 2_000);
    env.take_effects();
    ComplianceContract::suspend_credential(&mut env, address(ALICE));
    assert_eq!(
        env.take_effects(),
        vec![
            Effect::RequireAuth(address(OFFICER)),
            Effect::Put(Entry::CredentialStatus(
                address(ALICE),
                CredentialStatus::Suspended(1_000)
            )),
            Effect::Publish(Event::CredentialSuspended {
                participant: address(ALICE),
                since: 1_000
            }),
        ]
    );
    env.set_ledger(200, 9_000);
    assert_eq!(check(&mut env, ALICE), CredentialCheckResult::Suspended);
    env.take_effects();
    ComplianceContract::unsuspend_credential(&mut env, address(ALICE), 9_500);
    assert_eq!(
        env.take_effects(),
        vec![
            Effect::RequireAuth(address(OFFICER)),
            Effect::Put(Entry::CredentialStatus(address(ALICE), CredentialStatus::Active(9_500))),
            Effect::Publish(Event::CredentialReactivated {
                participant: address(ALICE),
                expiry: 9_500
            }),
        ]
    );
    assert_eq!(check(&mut env, ALICE), CredentialCheckResult::Active);
}

#[test]
fn initiation_is_seen_in_the_same_ledger() {
    let mut env = registry();
    ComplianceContract::issue_credential(&mut env, address(ALICE), 2_000);
    env.take_effects();
    let due = ComplianceContract::initiate_revocation(&mut env, address(ALICE), b"fraud".to_vec());
    assert_eq!(due, 110);
    let pending = PendingRevocation {
        address: address(ALICE),
        effective_ledger: 110,
        reason: b"fraud".to_vec(),
        initiated_at: 100,
        initiated_at_timestamp: 1_000,
    };
    assert_eq!(env.pending_revocation(&address(ALICE)), Some(&pending));
    assert_eq!(
        env.credential_status(&address(ALICE)),
        Some(&CredentialStatus::PendingRevocation(110))
    );
    assert_eq!(
        env.take_effects(),
        vec![
            Effect::RequireAuth(address(OFFICER)),
            Effect::Put(Entry::PendingRevocation(address(ALICE), pending)),
            Effect::ExtendTtl {
                key: DataKey::PendingRevocation(address(ALICE)),
                threshold: 6_311_520,
                extend_to: 6_311_520,
            },
            Effect::Put(Entry::CredentialStatus(
                address(ALICE),
                CredentialStatus::PendingRevocation(110)
            )),
            Effect::Publish(Event::RevocationPending {
                participant: address(ALICE),
                effective_ledger: 110,
                reason: b"fraud".to_vec(),
            }),
        ]
    );
    assert_eq!(check(&mut env, ALICE), CredentialCheckResult::PendingRevocation);
}

#[test]
fn initiation_is_refused_where_the_due_ledger_has_no_number() {
    let mut env = registry();
    env.set_ledger(u32::MAX - 10, 1_000);
    assert_eq!(ComplianceContract::initiation_refusal(&env), None);
    let due = ComplianceContract::initiate_revocation(&mut env, address(ALICE), vec![]);
    assert_eq!(due, u32::MAX);
    env.set_ledger(u32::MAX - 9, 1_000);
    assert_eq!(ComplianceContract::initiation_refusal(&env), Some(Refusal::LedgerOverflow));
    assert_eq!(Refusal::LedgerOverflow.message(), "Ledger number overflow");
}

#[test]
fn pending_revocation_is_not_hidden_by_other_calls() {
    let mut env = registry();
    ComplianceContract::initiate_revocation(&mut env, address(ALICE), b"fraud".to_vec());
    ComplianceContract::issue_credential(&mut env, address(ALICE), 5_000);
    assert_eq!(check(&mut env, ALICE), CredentialCheckResult::PendingRevocation);
    ComplianceContract::suspend_credential(&mut env, address(ALICE));
    assert_eq!(check(&mut env, ALICE), CredentialCheckResult::PendingRevocation);
    ComplianceContract::unsuspend_credential(&mut env, address(ALICE), 5_000);
    env.set_ledger(500, 2_000);
    assert_eq!(check(&mut env, ALICE), CredentialCheckResult::PendingRevocation);
}

#[test]
fn finalization_waits_for_the_delay() {
    let mut env = registry();
    assert_eq!(
        ComplianceContract::finalization_refusal(&env, address(ALICE)),
        Some(Refusal::NoPendingRevocation)
    );
    assert_eq!(Refusal::NoPendingRevocation.message(), "No pending revocation");
    ComplianceContract::initiate_revocation(&mut env, address(ALICE), b"fraud".to_vec());
    env.set_ledger(109, 1_500);
    assert_eq!(
        ComplianceContract::finalization_refusal(&env, address(ALICE)),
        Some(Refusal::DelayNotElapsed)
    );
    assert_eq!(Refusal::DelayNotElapsed.message(), "Revocation delay not elapsed");
    env.set_ledger(110, 1_600);
    assert_eq!(ComplianceContract::finalization_refusal(&env, address(ALICE)), None);
}

#[test]
fn finalization_revokes() {
    let mut env = registry();
    ComplianceContract::initiate_revocation(&mut env, address(ALICE), b"fraud".to_vec());
    env.take_effects();
    env.set_ledger(113, 1_600);
    ComplianceContract::finalize_revocation(&mut env, address(ALICE));
    assert_eq!(
        env.take_effects(),
        vec![
            Effect::RequireAuth(address(OFFICER)),
            Effect::Put(Entry::CredentialStatus(
                address(ALICE),
                CredentialStatus::Revoked(b"fraud".to_vec(), 113)
            )),
            Effect::ExtendTtl {
                key: DataKey::CredentialStatus(address(ALICE)),
                threshold: 6_311_520,
                extend_to: 6_311_520,
            },
            Effect::Remove(DataKey::PendingRevocation(address(ALICE))),
            Effect::Publish(Event::CredentialRevoked {
                participant: address(ALICE),
                reason: b"fraud".to_vec(),
                revoked_at: 113,
            }),
        ]
    );
    assert_eq!(env.pending_revocation(&address(ALICE)), None);
    assert_eq!(check(&mut env, ALICE), CredentialCheckResult::Revoked);
    assert_eq!(
        ComplianceContract::finalization_refusal(&env, address(ALICE)),
        Some(Refusal::NoPendingRevocation)
    );
}

#[test]
fn revoked_credential_can_be_issued_again() {
    let mut env = registry();
    ComplianceContract::initiate_revocation(&mut env, address(ALICE), b"fraud".to_vec());
    env.set_ledger(110, 1_600);
    ComplianceContract::finalize_revocation(&mut env, address(ALICE));
    ComplianceContract::issue_credential(&mut env, address(ALICE), 5_000);
    assert_eq!(check(&mut env, ALICE), CredentialCheckResult::Active);
}

#[test]
fn immediate_revocation_stays_pending() {
    let mut env = registry();
    ComplianceContract::issue_credential(&mut env, address(ALICE), 2_000);
    env.take_effects();
    ComplianceContract::revoke_credential(&mut env, address(ALICE), b"fraud".to_vec());
    let effects = env.take_effects();
    assert_eq!(effects.len(), 6);
    assert_eq!(effects[0], Effect::RequireAuth(address(OFFICER)));
    assert_eq!(
        effects[3],
        Effect::Put(Entry::CredentialStatus(
            address(ALICE),
            CredentialStatus::PendingRevocation(110)
        ))
    );
    assert_eq!(
        effects[5],
        Effect::Put(Entry::CredentialStatus(
            address(ALICE),
            CredentialStatus::Revoked(b"fraud".to_vec(), 100)
        ))
    );
    assert_eq!(
        env.credential_status(&address(ALICE)),
        Some(&CredentialStatus::Revoked(b"fraud".to_vec(), 100))
    );
    assert_eq!(check(&mut env, ALICE), CredentialCheckResult::PendingRevocation);
    assert_eq!(
        ComplianceContract::finalization_refusal(&env, address(ALICE)),
        Some(Refusal::DelayNotElapsed)
    );
    env.set_ledger(110, 1_600);
    ComplianceContract::finalize_revocation(&mut env, address(ALICE));
    assert_eq!(check(&mut env, ALICE), CredentialCheckResult::Revoked);
}

#[test]
fn emergency_has_no_delay() {
    let mut env = registry();
    ComplianceContract::emergency_revoke(&mut env, address(ALICE), b"leak".to_vec());
    let pending = PendingRevocation {
        address: address(ALICE),
        effective_ledger: 100,
        reason: b"emergency".to_vec(),
        initiated_at: 100,
        initiated_at_timestamp: 1_000,
    };
    assert_eq!(
        env.take_effects(),
        vec![
            Effect::RequireAuth(address(OFFICER)),
            Effect::Put(Entry::CredentialStatus(
                address(ALICE),
                CredentialStatus::Revoked(b"leak".to_vec(), 100)
            )),
            Effect::Put(Entry::PendingRevocation(address(ALICE), pending)),
        ]
    );
    assert_eq!(check(&mut env, ALICE), CredentialCheckResult::PendingRevocation);
    assert_eq!(ComplianceContract::finalization_refusal(&env, address(ALICE)), None);
    ComplianceContract::finalize_revocation(&mut env, address(ALICE));
    assert_eq!(
        env.credential_status(&address(ALICE)),
        Some(&CredentialStatus::Revoked(b"emergency".to_vec(), 100))
    );
    assert_eq!(check(&mut env, ALICE), CredentialCheckResult::Revoked);
}

#[test]
fn revocation_from_a_later_ledger_is_not_seen_yet() {
    let mut env = registry();
    env.load(Entry::CredentialStatus(address(ALICE), CredentialStatus::Active(5_000)));
    env.load(Entry::PendingRevocation(
        address(ALICE),
        PendingRevocation {
            address: address(ALICE),
            effective_ledger: 111,
            reason: vec![],
            initiated_at: 101,
            initiated_at_timestamp: 1_005,
        },
    ));
    assert_eq!(check(&mut env, ALICE), CredentialCheckResult::Active);
    env.set_ledger(101, 1_005);
    assert_eq!(check(&mut env, ALICE), CredentialCheckResult::PendingRevocation);
}

#[test]
fn stored_pending_status_is_reported_without_an_entry() {
    let mut env = registry();
    env.load(Entry::CredentialStatus(address(ALICE), CredentialStatus::PendingRevocation(3)));
    assert_eq!(check(&mut env, ALICE), CredentialCheckResult::PendingRevocation);
}

#[test]
fn checks_are_recorded() {
    let mut env = registry();
    assert_eq!(ComplianceContract::get_last_check_ledger(&env, address(ALICE)), 0);
    ComplianceContract::issue_credential(&mut env, address(ALICE), 2_000);
    env.take_effects();
    env.set_ledger(123, 1_500);
    assert_eq!(check(&mut env, ALICE), CredentialCheckResult::Active);
    assert_eq!(ComplianceContract::get_last_check_ledger(&env, address(ALICE)), 123);
    assert_eq!(ComplianceContract::get_last_check_ledger(&env, address(BOB)), 0);
    let record = ComplianceCheckRecord {
        address: address(ALICE),
        check_ledger: 123,
        result: CredentialCheckResult::Active,
    };
    assert_eq!(env.last_compliance_check(&address(ALICE)), Some(record));
    assert_eq!(
        env.take_effects(),
        vec![Effect::Put(Entry::LastComplianceCheck(address(ALICE), record))]
    );
}

/// Once the revocation is finalized, or where there is none, the ledger of the
/// last check makes no difference.
#[test]
fn ledger_of_the_last_check_without_pending_revocation() {
    let mut env = registry();
    ComplianceContract::emergency_revoke(&mut env, address(ALICE), b"leak".to_vec());
    ComplianceContract::finalize_revocation(&mut env, address(ALICE));
    ComplianceContract::issue_credential(&mut env, address(BOB), 2_000);
    for ledger in [0, 1, 99, 100, 101, u32::MAX] {
        assert_eq!(
            ComplianceContract::check_credential_with_ledger(&mut env, address(ALICE), ledger),
            CredentialCheckResult::Revoked
        );
        assert_eq!(
            ComplianceContract::check_credential_with_ledger(&mut env, address(BOB), ledger),
            CredentialCheckResult::Active
        );
    }
}

#[test]
fn refresh_drops_the_old_record_first() {
    let mut env = registry();
    ComplianceContract::issue_credential(&mut env, address(ALICE), 2_000);
    check(&mut env, ALICE);
    env.take_effects();
    env.set_ledger(130, 2_500);
    assert_eq!(
        ComplianceContract::refresh_credential(&mut env, address(ALICE)),
        CredentialCheckResult::Expired
    );
    assert_eq!(ComplianceContract::get_last_check_ledger(&env, address(ALICE)), 130);
    assert_eq!(
        env.take_effects(),
        vec![
            Effect::Remove(DataKey::LastComplianceCheck(address(ALICE))),
            Effect::Put(Entry::LastComplianceCheck(
                address(ALICE),
                ComplianceCheckRecord {
                    address: address(ALICE),
                    check_ledger: 130,
                    result: CredentialCheckResult::Expired,
                }
            )),
        ]
    );
}

#[test]
fn batch_answers_in_order() {
    let mut env = registry();
    ComplianceContract::issue_credential(&mut env, address(10), 2_000);
    ComplianceContract::issue_credential(&mut env, address(11), 999);
    ComplianceContract::suspend_credential(&mut env, address(12));
    ComplianceContract::initiate_revocation(&mut env, address(13), vec![]);
    ComplianceContract::emergency_revoke(&mut env, address(14), vec![]);
    ComplianceContract::finalize_revocation(&mut env, address(14));
    env.take_effects();
    let addresses = vec![
        address(10),
        address(11),
        address(12),
        address(13),
        address(14),
        address(15),
        address(10),
    ];
    let results = ComplianceContract::batch_check_credentials(&mut env, addresses.clone());
    assert_eq!(
        results,
        vec![
            CredentialCheckResult::Active,
            CredentialCheckResult::Expired,
            CredentialCheckResult::Suspended,
            CredentialCheckResult::PendingRevocation,
            CredentialCheckResult::Revoked,
            CredentialCheckResult::NotFound,
            CredentialCheckResult::Active,
        ]
    );
    let expected: Vec<Effect> = (0..7)
        .map(|i| {
            Effect::Put(Entry::LastComplianceCheck(
                addresses[i],
                ComplianceCheckRecord {
                    address: addresses[i],
                    check_ledger: 100,
                    result: results[i],
                },
            ))
        })
        .collect();
    assert_eq!(env.take_effects(), expected);
    assert_eq!(ComplianceContract::batch_check_credentials(&mut env, vec![]), vec![]);
    assert_eq!(env.take_effects(), vec![]);
}

#[test]
fn calls_keep_to_their_subject() {
    let mut env = registry();
    ComplianceContract::issue_credential(&mut env, address(BOB), 2_000);
    ComplianceContract::sanction(&mut env, address(ALICE));
    ComplianceContract::flag_address(&mut env, address(ALICE));
    ComplianceContract::initiate_revocation(&mut env, address(ALICE), vec![]);
    ComplianceContract::emergency_revoke(&mut env, address(ALICE), vec![]);
    ComplianceContract::finalize_revocation(&mut env, address(ALICE));
    assert!(!ComplianceContract::is_sanctioned(&env, address(BOB)));
    assert!(!ComplianceContract::is_flagged(&env, address(BOB)));
    assert_eq!(env.credential_status(&address(BOB)), Some(&CredentialStatus::Active(2_000)));
    assert_eq!(check(&mut env, BOB), CredentialCheckResult::Active);
}

#[test]
fn delay_holds_through_other_calls() {
    let mut env = registry();
    ComplianceContract::initiate_revocation(&mut env, address(ALICE), b"fraud".to_vec());
    ComplianceContract::suspend_credential(&mut env, address(ALICE));
    ComplianceContract::emergency_revoke(&mut env, address(BOB), vec![]);
    ComplianceContract::finalize_revocation(&mut env, address(BOB));
    env.set_ledger(109, 1_900);
    ComplianceContract::issue_credential(&mut env, address(ALICE), 5_000);
    assert_eq!(
        ComplianceContract::finalization_refusal(&env, address(ALICE)),
        Some(Refusal::DelayNotElapsed)
    );
    env.set_ledger(110, 1_900);
    assert_eq!(ComplianceContract::finalization_refusal(&env, address(ALICE)), None);
}

#[test]
fn revocation_since_the_last_check_is_reported_before_it_is_finalized() {
    let mut env = registry();
    ComplianceContract::issue_credential(&mut env, address(ALICE), 2_000);
    ComplianceContract::revoke_credential(&mut env, address(ALICE), b"fraud".to_vec());
    env.take_effects();
    env.set_ledger(104, 1_100);
    for ledger in [1, 50, 99, 100] {
        assert_eq!(
            ComplianceContract::check_credential_with_ledger(&mut env, address(ALICE), ledger),
            CredentialCheckResult::Revoked
        );
        assert_eq!(
            env.take_effects(),
            vec![Effect::Put(Entry::LastComplianceCheck(
                address(ALICE),
                ComplianceCheckRecord {
                    address: address(ALICE),
                    check_ledger: 104,
                    result: CredentialCheckResult::Revoked,
                }
            ))]
        );
    }
    for ledger in [0, 101, 104, u32::MAX] {
        assert_eq!(
            ComplianceContract::check_credential_with_ledger(&mut env, address(ALICE), ledger),
            CredentialCheckResult::PendingRevocation
        );
    }
    assert_eq!(check(&mut env, ALICE), CredentialCheckResult::PendingRevocation);
    assert_eq!(ComplianceContract::get_last_check_ledger(&env, address(ALICE)), 104);
}

#[test]
fn emergency_since_the_last_check_is_reported() {
    let mut env = registry();
    ComplianceContract::emergency_revoke(&mut env, address(ALICE), b"leak".to_vec());
    for (ledger, expected) in [
        (0, CredentialCheckResult::PendingRevocation),
        (1, CredentialCheckResult::Revoked),
        (100, CredentialCheckResult::Revoked),
        (101, CredentialCheckResult::PendingRevocation),
    ] {
        assert_eq!(
            ComplianceContract::check_credential_with_ledger(&mut env, address(ALICE), ledger),
            expected
        );
    }
}

#[test]
fn initiated_revocation_is_pending_whatever_the_last_check() {
    let mut env = registry();
    ComplianceContract::initiate_revocation(&mut env, address(ALICE), b"fraud".to_vec());
    for ledger in [0, 1, 100, 101] {
        assert_eq!(
            ComplianceContract::check_credential_with_ledger(&mut env, address(ALICE), ledger),
            CredentialCheckResult::PendingRevocation
        );
    }
}

#[test]
fn refusals_that_come_after_the_officer() {
    assert!(!Refusal::AlreadyInitialized.demands_officer());
    assert!(!Refusal::NotInitialized.demands_officer());
    assert!(Refusal::LedgerOverflow.demands_officer());
    assert!(Refusal::NoPendingRevocation.demands_officer());
    assert!(Refusal::DelayNotElapsed.demands_officer());
}

#[test]
fn sanctions_issuers_and_checks_follow_the_calls() {
    let mut env = registry();
    ComplianceContract::sanction(&mut env, address(ALICE));
    ComplianceContract::unsanction(&mut env, address(ALICE));
    ComplianceContract::sanction(&mut env, address(ALICE));
    ComplianceContract::unsanction(&mut env, address(BOB));
    assert!(ComplianceContract::is_sanctioned(&env, address(ALICE)));
    assert!(!ComplianceContract::is_sanctioned(&env, address(BOB)));

    env.take_effects();
    ComplianceContract::unsuspend_credential(&mut env, address(BOB), 2_000);
    ComplianceContract::issue_credential(&mut env, address(ALICE), 2_000);
    let issuers: Vec<DataKey> = env
        .take_effects()
        .iter()
        .filter_map(|effect| match effect {
            Effect::Put(entry @ Entry::CredentialIssuer(_, _)) => Some(entry.key()),
            _ => None,
        })
        .collect();
    assert_eq!(issuers, vec![DataKey::CredentialIssuer(address(ALICE))]);

    check(&mut env, ALICE);
    env.set_ledger(105, 1_100);
    ComplianceContract::batch_check_credentials(&mut env, vec![address(ALICE)]);
    env.set_ledger(108, 1_200);
    check(&mut env, BOB);
    assert_eq!(ComplianceContract::get_last_check_ledger(&env, address(ALICE)), 105);
    assert_eq!(ComplianceContract::get_last_check_ledger(&env, address(BOB)), 108);
    assert_eq!(ComplianceContract::get_last_check_ledger(&env, address(OFFICER)), 0);
}

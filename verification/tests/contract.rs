use mint_lock::{
    Contract, Error, Issuance, IssuanceLog, MintInterface, MinterConfig, MinterStats, Principal,
    Rejection,
};

fn admin() -> Principal {
    Principal::account(0, 1)
}

fn bob() -> Principal {
    Principal::account(0, 2)
}

fn carol() -> Principal {
    Principal::account(0, 3)
}

fn mallory() -> Principal {
    Principal::account(6, 6)
}

fn token() -> Principal {
    Principal::contract(9, 9)
}

fn config() -> MinterConfig {
    MinterConfig { limit: 1000, epoch_length: 100 }
}

/// A lock with `admin()` as administrator and bob as a delegate on `token()`.
fn with_bob() -> Contract {
    let mut contract = Contract::__constructor(admin());
    assert_eq!(contract.set_minter(admin(), token(), bob(), config()), Ok(()));
    contract
}

fn consumed(contract: &Contract, tick: u32) -> i128 {
    contract.minter(tick, token(), bob()).unwrap().2.consumed_limit
}

#[test]
fn constructor_sets_the_admin() {
    let contract = Contract::__constructor(admin());
    assert_eq!(contract.admin(), admin());
    assert_eq!(contract.minter(0, token(), bob()), Err(Error::NotAuthorizedMinter));
}

#[test]
fn negative_amount_is_refused_and_nothing_changes() {
    let mut contract = with_bob();
    let mut log = IssuanceLog::with_capacity(8);
    assert_eq!(contract.mint(&mut log, 250, bob(), token(), bob(), carol(), 2000), Ok(()));
    for amount in [-1, -1500, i128::MIN] {
        assert_eq!(
            contract.mint(&mut log, 260, bob(), token(), bob(), carol(), amount),
            Err(Rejection::Refused(Error::NegativeAmount))
        );
    }
    assert_eq!(consumed(&contract, 260), 2000);
    assert_eq!(log.entries().len(), 1);
    assert_eq!(contract.admin(), admin());
}

#[test]
fn negative_amount_is_refused_for_the_admin_and_for_strangers() {
    let mut contract = with_bob();
    let mut log = IssuanceLog::with_capacity(8);
    assert_eq!(
        contract.mint(&mut log, 250, admin(), token(), admin(), carol(), -1),
        Err(Rejection::Refused(Error::NegativeAmount))
    );
    assert_eq!(
        contract.mint(&mut log, 250, mallory(), token(), mallory(), carol(), -1),
        Err(Rejection::Refused(Error::NegativeAmount))
    );
    assert!(log.entries().is_empty());
}

#[test]
fn unregistered_delegate_is_refused_until_it_is_registered() {
    let mut contract = Contract::__constructor(admin());
    let mut log = IssuanceLog::with_capacity(8);
    assert_eq!(
        contract.mint(&mut log, 250, bob(), token(), bob(), carol(), 1500),
        Err(Rejection::Refused(Error::NotAuthorizedMinter))
    );
    assert!(log.entries().is_empty());
    assert_eq!(contract.set_minter(admin(), token(), bob(), config()), Ok(()));
    assert_eq!(contract.mint(&mut log, 250, bob(), token(), bob(), carol(), 1500), Ok(()));
    assert_eq!(log.entries().as_slice(), &[Issuance { to: carol(), amount: 1500 }]);
}

#[test]
fn registration_is_per_contract_and_per_delegate() {
    let mut contract = with_bob();
    let mut log = IssuanceLog::with_capacity(8);
    let other_token = Principal::contract(9, 10);
    assert_eq!(
        contract.mint(&mut log, 250, bob(), other_token, bob(), carol(), 1500),
        Err(Rejection::Refused(Error::NotAuthorizedMinter))
    );
    assert_eq!(
        contract.mint(&mut log, 250, carol(), token(), carol(), carol(), 1500),
        Err(Rejection::Refused(Error::NotAuthorizedMinter))
    );
    assert!(log.entries().is_empty());
}

#[test]
fn registered_delegate_is_still_subject_to_the_limit_rule() {
    let mut contract = with_bob();
    let mut log = IssuanceLog::with_capacity(8);
    assert_eq!(
        contract.mint(&mut log, 250, bob(), token(), bob(), carol(), 999),
        Err(Rejection::Refused(Error::DailyLimitInsufficient))
    );
    assert_eq!(consumed(&contract, 250), 0);
    assert!(log.entries().is_empty());
    assert_eq!(contract.mint(&mut log, 250, bob(), token(), bob(), carol(), 1000), Ok(()));
    assert_eq!(consumed(&contract, 250), 1000);
}

#[test]
fn limit_of_a_thousand_accepts_fifteen_hundred() {
    let mut contract = with_bob();
    let mut log = IssuanceLog::with_capacity(8);
    assert_eq!(consumed(&contract, 250), 0);
    assert_eq!(contract.mint(&mut log, 250, bob(), token(), bob(), carol(), 1500), Ok(()));
    assert_eq!(consumed(&contract, 250), 1500);
    assert_eq!(
        contract.minter(250, token(), bob()),
        Ok((config(), 2, MinterStats { consumed_limit: 1500 }))
    );
}

#[test]
fn admin_mints_without_a_quota() {
    let mut contract = Contract::__constructor(admin());
    let mut log = IssuanceLog::with_capacity(8);
    for amount in [0, 1, 999, i128::MAX] {
        assert_eq!(
            contract.mint(&mut log, 250, admin(), token(), admin(), carol(), amount),
            Ok(())
        );
    }
    assert_eq!(
        log.entries().as_slice(),
        &[
            Issuance { to: carol(), amount: 0 },
            Issuance { to: carol(), amount: 1 },
            Issuance { to: carol(), amount: 999 },
            Issuance { to: carol(), amount: i128::MAX },
        ]
    );
    assert_eq!(contract.minter(250, token(), admin()), Err(Error::NotAuthorizedMinter));
}

#[test]
fn admin_with_a_quota_of_its_own_is_not_charged_on_it() {
    let mut contract = Contract::__constructor(admin());
    let mut log = IssuanceLog::with_capacity(8);
    assert_eq!(contract.set_minter(admin(), token(), admin(), config()), Ok(()));
    assert_eq!(contract.mint(&mut log, 250, admin(), token(), admin(), carol(), 5), Ok(()));
    assert_eq!(
        contract.minter(250, token(), admin()),
        Ok((config(), 2, MinterStats { consumed_limit: 0 }))
    );
}

#[test]
fn two_mints_in_one_epoch_add_up() {
    let mut contract = with_bob();
    let mut log = IssuanceLog::with_capacity(8);
    assert_eq!(contract.mint(&mut log, 200, bob(), token(), bob(), carol(), 1200), Ok(()));
    assert_eq!(contract.mint(&mut log, 299, bob(), token(), bob(), carol(), 300), Ok(()));
    assert_eq!(consumed(&contract, 299), 1500);
    assert_eq!(consumed(&contract, 200), 1500);
    assert_eq!(
        log.entries().as_slice(),
        &[Issuance { to: carol(), amount: 1200 }, Issuance { to: carol(), amount: 300 }]
    );
}

#[test]
fn once_the_limit_is_reached_small_amounts_go_through() {
    let mut contract = with_bob();
    let mut log = IssuanceLog::with_capacity(8);
    assert_eq!(
        contract.mint(&mut log, 210, bob(), token(), bob(), carol(), 1),
        Err(Rejection::Refused(Error::DailyLimitInsufficient))
    );
    assert_eq!(contract.mint(&mut log, 210, bob(), token(), bob(), carol(), 1000), Ok(()));
    assert_eq!(contract.mint(&mut log, 211, bob(), token(), bob(), carol(), 1), Ok(()));
    assert_eq!(contract.mint(&mut log, 212, bob(), token(), bob(), carol(), 0), Ok(()));
    assert_eq!(consumed(&contract, 212), 1001);
}

#[test]
fn new_epoch_starts_from_zero() {
    let mut contract = with_bob();
    let mut log = IssuanceLog::with_capacity(8);
    assert_eq!(contract.mint(&mut log, 299, bob(), token(), bob(), carol(), 1500), Ok(()));
    assert_eq!(consumed(&contract, 299), 1500);
    assert_eq!(consumed(&contract, 300), 0);
    assert_eq!(
        contract.mint(&mut log, 300, bob(), token(), bob(), carol(), 500),
        Err(Rejection::Refused(Error::DailyLimitInsufficient))
    );
    assert_eq!(contract.mint(&mut log, 300, bob(), token(), bob(), carol(), 1000), Ok(()));
    assert_eq!(consumed(&contract, 300), 1000);
    assert_eq!(consumed(&contract, 299), 1500);
    assert_eq!(consumed(&contract, 199), 0);
}

#[test]
fn new_epoch_length_starts_from_zero() {
    let mut contract = with_bob();
    let mut log = IssuanceLog::with_capacity(8);
    assert_eq!(contract.mint(&mut log, 250, bob(), token(), bob(), carol(), 1500), Ok(()));
    let wider = MinterConfig { limit: 1000, epoch_length: 125 };
    assert_eq!(contract.set_minter(admin(), token(), bob(), wider), Ok(()));
    assert_eq!(
        contract.minter(250, token(), bob()),
        Ok((wider, 2, MinterStats { consumed_limit: 0 }))
    );
    assert_eq!(contract.set_minter(admin(), token(), bob(), config()), Ok(()));
    assert_eq!(consumed(&contract, 250), 1500);
}

#[test]
fn set_admin_by_another_caller_is_not_authenticated() {
    let mut contract = Contract::__constructor(admin());
    assert_eq!(contract.set_admin(mallory(), mallory()), Err(Rejection::Unauthenticated));
    assert_eq!(contract.admin(), admin());
    assert_eq!(contract.set_admin(bob(), admin()), Err(Rejection::Unauthenticated));
    assert_eq!(contract.admin(), admin());
}

#[test]
fn set_admin_by_the_admin_hands_over() {
    let mut contract = Contract::__constructor(admin());
    let mut log = IssuanceLog::with_capacity(8);
    assert_eq!(contract.set_admin(admin(), bob()), Ok(()));
    assert_eq!(contract.admin(), bob());
    // What only the administrator may do now goes by the new one.
    assert_eq!(
        contract.set_minter(admin(), token(), carol(), config()),
        Err(Rejection::Unauthenticated)
    );
    assert_eq!(contract.minter(0, token(), carol()), Err(Error::NotAuthorizedMinter));
    assert_eq!(contract.set_minter(bob(), token(), carol(), config()), Ok(()));
    assert_eq!(contract.set_admin(admin(), admin()), Err(Rejection::Unauthenticated));
    // And so does minting without a quota.
    assert_eq!(contract.mint(&mut log, 5, bob(), token(), bob(), carol(), 1), Ok(()));
    assert_eq!(
        contract.mint(&mut log, 5, admin(), token(), admin(), carol(), 1),
        Err(Rejection::Refused(Error::NotAuthorizedMinter))
    );
    assert_eq!(contract.set_admin(bob(), admin()), Ok(()));
    assert_eq!(contract.admin(), admin());
}

#[test]
fn set_minter_by_another_caller_is_not_authenticated() {
    let mut contract = Contract::__constructor(admin());
    assert_eq!(
        contract.set_minter(bob(), token(), bob(), config()),
        Err(Rejection::Unauthenticated)
    );
    assert_eq!(contract.minter(250, token(), bob()), Err(Error::NotAuthorizedMinter));
}

#[test]
fn set_minter_reads_back_what_was_written() {
    let mut contract = Contract::__constructor(admin());
    let written = MinterConfig { limit: -12345678901234567890, epoch_length: u32::MAX };
    assert_eq!(contract.set_minter(admin(), token(), bob(), written), Ok(()));
    let (read, epoch, stats) = contract.minter(250, token(), bob()).unwrap();
    assert_eq!(read.limit, -12345678901234567890);
    assert_eq!(read.epoch_length, u32::MAX);
    assert_eq!(epoch, 0);
    assert_eq!(stats, MinterStats { consumed_limit: 0 });
}

#[test]
fn set_minter_replaces_and_does_not_merge() {
    let mut contract = with_bob();
    let next = MinterConfig { limit: 7, epoch_length: 10 };
    assert_eq!(contract.set_minter(admin(), token(), bob(), next), Ok(()));
    assert_eq!(
        contract.minter(250, token(), bob()),
        Ok((next, 25, MinterStats { consumed_limit: 0 }))
    );
}

#[test]
fn minter_reports_config_epoch_and_consumption() {
    let mut contract = with_bob();
    let mut log = IssuanceLog::with_capacity(8);
    assert_eq!(
        contract.minter(199, token(), bob()),
        Ok((config(), 1, MinterStats { consumed_limit: 0 }))
    );
    assert_eq!(contract.mint(&mut log, 199, bob(), token(), bob(), carol(), 1001), Ok(()));
    assert_eq!(
        contract.minter(100, token(), bob()),
        Ok((config(), 1, MinterStats { consumed_limit: 1001 }))
    );
    assert_eq!(
        contract.minter(200, token(), bob()),
        Ok((config(), 2, MinterStats { consumed_limit: 0 }))
    );
    assert_eq!(contract.minter(199, token(), carol()), Err(Error::NotAuthorizedMinter));
}

#[test]
fn mint_signed_by_another_caller_is_not_authenticated() {
    let mut contract = with_bob();
    let mut log = IssuanceLog::with_capacity(8);
    assert_eq!(
        contract.mint(&mut log, 250, mallory(), token(), bob(), carol(), 1500),
        Err(Rejection::Unauthenticated)
    );
    assert_eq!(
        contract.mint(&mut log, 250, mallory(), token(), admin(), carol(), 1500),
        Err(Rejection::Unauthenticated)
    );
    assert_eq!(
        contract.mint(&mut log, 250, mallory(), token(), bob(), carol(), -1),
        Err(Rejection::Unauthenticated)
    );
    assert_eq!(consumed(&contract, 250), 0);
    assert!(log.entries().is_empty());
}

#[test]
fn failed_issuance_takes_the_record_back() {
    let mut contract = with_bob();
    let mut log = IssuanceLog::with_capacity(1);
    assert_eq!(contract.mint(&mut log, 250, bob(), token(), bob(), carol(), 1200), Ok(()));
    assert_eq!(
        contract.mint(&mut log, 260, bob(), token(), bob(), carol(), 300),
        Err(Rejection::IssuanceFailed)
    );
    assert_eq!(consumed(&contract, 260), 1200);
    // The record of the first mint is back with its expiry: it is still
    // read at the last tick of its epoch and no longer in the next.
    assert_eq!(consumed(&contract, 299), 1200);
    assert_eq!(consumed(&contract, 300), 0);
    assert_eq!(log.entries().as_slice(), &[Issuance { to: carol(), amount: 1200 }]);
}

#[test]
fn failed_first_issuance_leaves_no_record() {
    let mut contract = with_bob();
    let mut closed = IssuanceLog::with_capacity(0);
    assert_eq!(
        contract.mint(&mut closed, 250, bob(), token(), bob(), carol(), 1500),
        Err(Rejection::IssuanceFailed)
    );
    assert_eq!(consumed(&contract, 250), 0);
    assert_eq!(
        contract.mint(&mut closed, 250, admin(), token(), admin(), carol(), 1500),
        Err(Rejection::IssuanceFailed)
    );
    assert!(!closed.mint(carol(), 1));
    assert!(closed.entries().is_empty());
    // With nothing recorded, a later request is judged from zero again.
    let mut log = IssuanceLog::with_capacity(1);
    assert_eq!(
        contract.mint(&mut log, 250, bob(), token(), bob(), carol(), 999),
        Err(Rejection::Refused(Error::DailyLimitInsufficient))
    );
}

#[test]
fn refused_request_does_not_reach_the_mint() {
    let mut contract = with_bob();
    let mut log = IssuanceLog::with_capacity(0);
    // A mint that cannot issue is never asked, so each refusal keeps its reason.
    assert_eq!(
        contract.mint(&mut log, 250, bob(), token(), bob(), carol(), 10),
        Err(Rejection::Refused(Error::DailyLimitInsufficient))
    );
    assert_eq!(
        contract.mint(&mut log, 250, carol(), token(), carol(), carol(), 10),
        Err(Rejection::Refused(Error::NotAuthorizedMinter))
    );
    assert_eq!(
        contract.mint(&mut log, 250, bob(), token(), bob(), carol(), -10),
        Err(Rejection::Refused(Error::NegativeAmount))
    );
}

#[test]
fn record_is_kept_to_the_end_of_the_largest_epoch() {
    let mut contract = Contract::__constructor(admin());
    let mut log = IssuanceLog::with_capacity(8);
    // Its last epoch ends one tick after the largest tick.
    let wide = MinterConfig { limit: 1, epoch_length: 4 };
    assert_eq!(contract.set_minter(admin(), token(), bob(), wide), Ok(()));
    assert_eq!(contract.mint(&mut log, u32::MAX - 1, bob(), token(), bob(), carol(), 5), Ok(()));
    assert_eq!(
        contract.minter(u32::MAX, token(), bob()),
        Ok((wide, 1_073_741_823, MinterStats { consumed_limit: 5 }))
    );
    assert_eq!(contract.mint(&mut log, u32::MAX, bob(), token(), bob(), carol(), 6), Ok(()));
    assert_eq!(
        contract.minter(u32::MAX - 1, token(), bob()),
        Ok((wide, 1_073_741_823, MinterStats { consumed_limit: 11 }))
    );
}

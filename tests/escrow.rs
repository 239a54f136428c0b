use bounty_escrow::batch::distinct_depositors;
use bounty_escrow::escrow::BountyEscrowContract;
use bounty_escrow::types::{
    Address, DataKey, Error, EscrowStatus, LockFundsItem, RefundMode, ReleaseFundsItem, Transfer,
};
use std::collections::HashMap;

const CUSTODY: Address = Address(1);

/// Why a call failed: the contract refused it, or the ledger could not carry out a
/// transfer it decided on.
#[derive(Debug, PartialEq)]
enum Failure {
    Contract(Error),
    Token,
}

impl From<Error> for Failure {
    fn from(e: Error) -> Failure {
        Failure::Contract(e)
    }
}

struct Setup {
    escrow: BountyEscrowContract,
    balances: HashMap<Address, i128>,
    admin: Address,
    token: Address,
    depositor: Address,
    contributor: Address,
    now: u64,
}

impl Setup {
    fn bare() -> Setup {
        Setup {
            escrow: BountyEscrowContract::new(CUSTODY),
            balances: HashMap::new(),
            admin: Address(2),
            token: Address(3),
            depositor: Address(4),
            contributor: Address(5),
            now: 0,
        }
    }

    fn new() -> Setup {
        let mut s = Setup::bare();
        s.escrow.init(s.admin, s.token, s.now).unwrap();
        s.mint(s.depositor, 1_000_000);
        s
    }

    fn mint(&mut self, a: Address, amount: i128) {
        *self.balances.entry(a).or_insert(0) += amount;
    }

    fn balance(&self, a: Address) -> i128 {
        *self.balances.get(&a).unwrap_or(&0)
    }

    fn carry_out(&mut self, ts: Vec<Transfer>) -> Result<(), Failure> {
        let mut need: HashMap<Address, i128> = HashMap::new();
        for t in &ts {
            if t.amount < 0 {
                return Err(Failure::Token);
            }
            *need.entry(t.from).or_insert(0) += t.amount;
        }
        for (a, n) in &need {
            if self.balance(*a) < *n {
                return Err(Failure::Token);
            }
        }
        for t in ts {
            *self.balances.entry(t.from).or_insert(0) -= t.amount;
            *self.balances.entry(t.to).or_insert(0) += t.amount;
        }
        Ok(())
    }

    fn lock_from(&mut self, depositor: Address, id: u64, amount: i128, deadline: u64) -> Result<(), Failure> {
        let ts = self.escrow.lock_funds(depositor, id, amount, deadline, self.now)?;
        self.carry_out(ts)
    }

    fn lock(&mut self, id: u64, amount: i128, deadline: u64) -> Result<(), Failure> {
        self.lock_from(self.depositor, id, amount, deadline)
    }

    fn release(&mut self, id: u64) -> Result<(), Failure> {
        let ts = self.escrow.release_funds(self.admin, id, self.contributor, self.now)?;
        self.carry_out(ts)
    }

    fn refund(&mut self, id: u64, amount: Option<i128>, recipient: Option<Address>, mode: RefundMode) -> Result<(), Failure> {
        let held = self.balance(CUSTODY);
        let ts = self.escrow.refund(id, amount, recipient, mode, self.now, held)?;
        self.carry_out(ts)
    }

    fn approve(&mut self, id: u64, amount: i128, recipient: Address, mode: RefundMode) -> Result<(), Failure> {
        self.escrow.approve_refund(self.admin, id, amount, recipient, mode, self.now)?;
        Ok(())
    }

    fn batch_lock(&mut self, items: Vec<LockFundsItem>) -> Result<u32, Failure> {
        let (n, ts) = self.escrow.batch_lock_funds(&items, self.now)?;
        self.carry_out(ts)?;
        Ok(n)
    }

    fn batch_release(&mut self, items: Vec<ReleaseFundsItem>) -> Result<u32, Failure> {
        let (n, ts) = self.escrow.batch_release_funds(self.admin, &items)?;
        self.carry_out(ts)?;
        Ok(n)
    }

    fn status(&self, id: u64) -> EscrowStatus {
        self.escrow.get_escrow_info(id).unwrap().status
    }

    fn remaining(&self, id: u64) -> i128 {
        self.escrow.get_escrow_info(id).unwrap().remaining_amount
    }
}

fn lock_item(id: u64, depositor: Address, amount: i128, deadline: u64) -> LockFundsItem {
    LockFundsItem { bounty_id: id, depositor, amount, deadline }
}

fn release_item(id: u64, contributor: Address) -> ReleaseFundsItem {
    ReleaseFundsItem { bounty_id: id, contributor }
}

// ---- single lock, release, refund ----

#[test]
fn test_lock_funds_success() {
    let mut setup = Setup::new();
    let deadline = setup.now + 1000;
    setup.lock(1, 1000, deadline).unwrap();
    let stored = setup.escrow.get_escrow_info(1).unwrap();
    assert_eq!(stored.depositor, setup.depositor);
    assert_eq!(stored.amount, 1000);
    assert_eq!(stored.status, EscrowStatus::Locked);
    assert_eq!(stored.deadline, deadline);
    assert_eq!(setup.balance(CUSTODY), 1000);
}

#[test]
#[should_panic]
fn test_lock_funds_duplicate() {
    let mut setup = Setup::new();
    let deadline = setup.now + 1000;
    setup.lock(1, 1000, deadline).unwrap();
    setup.lock(1, 1000, deadline).unwrap();
}

#[test]
#[should_panic]
fn test_lock_funds_negative_amount() {
    let mut setup = Setup::new();
    let deadline = setup.now + 1000;
    setup.lock(1, -100, deadline).unwrap();
}

#[test]
fn test_get_escrow_info() {
    let mut setup = Setup::new();
    let deadline = setup.now + 1000;
    setup.lock(1, 1000, deadline).unwrap();
    let escrow = setup.escrow.get_escrow_info(1).unwrap();
    assert_eq!(escrow.amount, 1000);
    assert_eq!(escrow.deadline, deadline);
    assert_eq!(escrow.depositor, setup.depositor);
    assert_eq!(escrow.status, EscrowStatus::Locked);
}

#[test]
fn test_release_funds_success() {
    let mut setup = Setup::new();
    setup.lock(1, 1000, 1000).unwrap();
    assert_eq!(setup.balance(CUSTODY), 1000);
    assert_eq!(setup.balance(setup.contributor), 0);
    setup.release(1).unwrap();
    assert_eq!(setup.status(1), EscrowStatus::Released);
    assert_eq!(setup.remaining(1), 0);
    assert_eq!(setup.balance(CUSTODY), 0);
    assert_eq!(setup.balance(setup.contributor), 1000);
}

#[test]
#[should_panic]
fn test_release_funds_already_released() {
    let mut setup = Setup::new();
    setup.lock(1, 1000, 1000).unwrap();
    setup.release(1).unwrap();
    setup.release(1).unwrap();
}

#[test]
#[should_panic]
fn test_release_funds_not_found() {
    let mut setup = Setup::new();
    setup.release(1).unwrap();
}

#[test]
fn test_refund_success() {
    let mut setup = Setup::new();
    let deadline = setup.now + 1000;
    setup.lock(1, 1000, deadline).unwrap();
    setup.now = deadline + 1;
    let before = setup.balance(setup.depositor);
    setup.refund(1, None, None, RefundMode::Full).unwrap();
    assert_eq!(setup.status(1), EscrowStatus::Refunded);
    assert_eq!(setup.balance(CUSTODY), 0);
    assert_eq!(setup.balance(setup.depositor), before + 1000);
}

#[test]
#[should_panic]
fn test_refund_too_early() {
    let mut setup = Setup::new();
    let deadline = setup.now + 1000;
    setup.lock(1, 1000, deadline).unwrap();
    setup.refund(1, None, None, RefundMode::Full).unwrap();
}

#[test]
#[should_panic]
fn test_anti_abuse_cooldown_panic() {
    let mut setup = Setup::new();
    setup.now = 1000;
    setup.lock(1, 100, 2000).unwrap();
    setup.now = 1030;
    setup.lock(2, 100, 2000).unwrap();
}

#[test]
fn anti_abuse_cooldown_error() {
    let mut setup = Setup::new();
    setup.now = 1000;
    setup.lock(1, 100, 2000).unwrap();
    setup.now = 1030;
    assert_eq!(setup.lock(2, 100, 2000), Err(Failure::Contract(Error::RateLimited)));
    assert!(!setup.escrow.has(DataKey::Escrow(2)));
    setup.now = 1060;
    setup.lock(2, 100, 2000).unwrap();
}

#[test]
#[should_panic]
fn test_anti_abuse_limit_panic() {
    let mut setup = Setup::new();
    setup.now = 1000;
    setup.escrow.update_rate_limit_config(setup.admin, 3600, 1, 0).unwrap();
    setup.lock(1, 100, 2000).unwrap();
    setup.lock(2, 100, 2000).unwrap();
}

#[test]
fn anti_abuse_new_window_resets_count() {
    let mut setup = Setup::new();
    setup.now = 1000;
    setup.escrow.update_rate_limit_config(setup.admin, 3600, 1, 0).unwrap();
    setup.lock(1, 100, 9000).unwrap();
    assert_eq!(setup.lock(2, 100, 9000), Err(Failure::Contract(Error::RateLimited)));
    setup.now = 4600;
    setup.lock(2, 100, 9000).unwrap();
}

#[test]
fn test_anti_abuse_whitelist() {
    let mut setup = Setup::new();
    setup.now = 1000;
    setup.escrow.update_rate_limit_config(setup.admin, 3600, 1, 60).unwrap();
    setup.escrow.set_whitelist(setup.admin, setup.depositor, true).unwrap();
    setup.lock(1, 100, 2000).unwrap();
    setup.lock(2, 100, 2000).unwrap();
}

#[test]
fn test_anti_abuse_config_update() {
    let mut setup = Setup::new();
    setup.escrow.update_rate_limit_config(setup.admin, 7200, 5, 120).unwrap();
    let config = setup.escrow.get_rate_limit_config();
    assert_eq!(config.window_size, 7200);
    assert_eq!(config.max_operations, 5);
    assert_eq!(config.cooldown_period, 120);
}

#[test]
fn rate_limit_settings_are_admin_only() {
    let mut setup = Setup::new();
    let d = setup.depositor;
    assert_eq!(setup.escrow.update_rate_limit_config(d, 1, 1, 1), Err(Error::Unauthorized));
    assert_eq!(setup.escrow.set_whitelist(d, d, true), Err(Error::Unauthorized));
    assert_eq!(setup.escrow.get_rate_limit_config().max_operations, 10);
}

// ---- pause ----

#[test]
fn pause_tests_test_pause() {
    let mut setup = Setup::new();
    setup.escrow.pause(setup.admin).unwrap();
    assert!(setup.escrow.is_paused());
}

#[test]
#[should_panic]
fn pause_tests_test_lock_blocked_when_paused() {
    let mut setup = Setup::new();
    setup.escrow.pause(setup.admin).unwrap();
    let admin = setup.admin;
    setup.mint(admin, 1000);
    setup.lock_from(admin, 1, 1000, 9999).unwrap();
}

#[test]
fn pause_tests_test_unpause() {
    let mut setup = Setup::new();
    setup.escrow.pause(setup.admin).unwrap();
    setup.escrow.unpause(setup.admin).unwrap();
    assert!(!setup.escrow.is_paused());
}

#[test]
fn pause_tests_test_emergency_withdraw() {
    let mut setup = Setup::new();
    let recipient = Address(77);
    setup.escrow.pause(setup.admin).unwrap();
    let ts = setup.escrow.emergency_withdraw(setup.admin, recipient, 0).unwrap();
    assert!(ts.is_empty());
}

#[test]
fn pause_tests_test_pause_state_persists() {
    let mut setup = Setup::new();
    setup.escrow.pause(setup.admin).unwrap();
    assert!(setup.escrow.is_paused());
    assert!(setup.escrow.is_paused());
    assert!(setup.escrow.has(DataKey::IsPaused));
}

#[test]
fn paused_contract_refuses_fund_movements() {
    let mut setup = Setup::new();
    setup.lock(1, 1000, 100).unwrap();
    setup.escrow.pause(setup.admin).unwrap();
    setup.now = 200;
    assert_eq!(setup.release(1), Err(Failure::Contract(Error::ContractPaused)));
    assert_eq!(setup.refund(1, None, None, RefundMode::Full), Err(Failure::Contract(Error::ContractPaused)));
    let d = setup.depositor;
    assert_eq!(setup.batch_lock(vec![lock_item(2, d, 10, 500)]), Err(Failure::Contract(Error::ContractPaused)));
    assert_eq!(setup.batch_release(vec![release_item(1, d)]), Err(Failure::Contract(Error::ContractPaused)));
}

#[test]
fn emergency_withdraw_moves_whole_balance_while_paused() {
    let mut setup = Setup::new();
    setup.lock(1, 1000, 100).unwrap();
    let recipient = Address(77);
    let held = setup.balance(CUSTODY);
    assert_eq!(setup.escrow.emergency_withdraw(setup.admin, recipient, held), Err(Error::Unauthorized));
    setup.escrow.pause(setup.admin).unwrap();
    assert_eq!(setup.escrow.emergency_withdraw(setup.depositor, recipient, held), Err(Error::Unauthorized));
    let ts = setup.escrow.emergency_withdraw(setup.admin, recipient, held).unwrap();
    assert_eq!(ts, vec![Transfer { from: CUSTODY, to: recipient, amount: 1000 }]);
    setup.carry_out(ts).unwrap();
    assert_eq!(setup.balance(recipient), 1000);
}

#[test]
fn admin_operations_need_initialization_and_admin() {
    let mut setup = Setup::bare();
    let a = setup.admin;
    assert_eq!(setup.escrow.pause(a), Err(Error::NotInitialized));
    assert_eq!(setup.escrow.update_fee_config(a, Some(1), None, None, None), Err(Error::NotInitialized));
    assert_eq!(setup.release(1), Err(Failure::Contract(Error::NotInitialized)));
    assert_eq!(setup.batch_release(vec![release_item(1, a)]), Err(Failure::Contract(Error::NotInitialized)));
    assert_eq!(setup.batch_lock(vec![lock_item(1, a, 5, 10)]), Err(Failure::Contract(Error::NotInitialized)));
    let mut setup = Setup::new();
    let d = setup.depositor;
    assert_eq!(setup.escrow.pause(d), Err(Error::Unauthorized));
    assert_eq!(setup.escrow.unpause(d), Err(Error::Unauthorized));
    setup.lock(1, 1000, 100).unwrap();
    assert_eq!(setup.escrow.release_funds(d, 1, d, setup.now), Err(Error::Unauthorized));
    assert_eq!(setup.escrow.approve_refund(d, 1, 10, d, RefundMode::Custom, 0), Err(Error::Unauthorized));
    assert_eq!(setup.escrow.batch_release_funds(d, &vec![release_item(1, d)]).map(|r| r.0), Err(Error::Unauthorized));
    assert_eq!(setup.status(1), EscrowStatus::Locked);
}

// ---- fees ----

#[test]
fn lock_fee_goes_to_recipient_and_remaining_stays_gross() {
    let mut setup = Setup::new();
    let fee_to = Address(88);
    setup.escrow.update_fee_config(setup.admin, Some(100), Some(200), Some(fee_to), Some(true)).unwrap();
    setup.lock(1, 1000, 100).unwrap();
    let e = setup.escrow.get_escrow_info(1).unwrap();
    assert_eq!(e.amount, 990);
    assert_eq!(e.remaining_amount, 1000);
    assert_eq!(setup.balance(CUSTODY), 990);
    assert_eq!(setup.balance(fee_to), 10);
    assert_eq!(setup.balance(setup.depositor), 1_000_000 - 1000);
    setup.release(1).unwrap();
    // release fee: 990 * 200 / 10000 = 19
    assert_eq!(setup.balance(fee_to), 29);
    assert_eq!(setup.balance(setup.contributor), 971);
    assert_eq!(setup.balance(CUSTODY), 0);
}

#[test]
fn fee_config_rejects_out_of_range_rates() {
    let mut setup = Setup::new();
    let a = setup.admin;
    assert_eq!(setup.escrow.update_fee_config(a, Some(1001), None, None, None), Err(Error::InvalidFeeRate));
    assert_eq!(setup.escrow.update_fee_config(a, None, Some(-1), None, None), Err(Error::InvalidFeeRate));
    assert_eq!(setup.escrow.update_fee_config(setup.depositor, Some(5), None, None, None), Err(Error::Unauthorized));
    let cfg = setup.escrow.get_fee_config();
    assert_eq!(cfg.lock_fee_rate, 0);
    assert_eq!(cfg.release_fee_rate, 0);
    assert_eq!(cfg.fee_recipient, a);
    assert!(!cfg.fee_enabled);
    setup.escrow.update_fee_config(a, Some(1000), None, None, None).unwrap();
    let cfg = setup.escrow.get_fee_config();
    assert_eq!(cfg.lock_fee_rate, 1000);
    assert!(!cfg.fee_enabled);
}

#[test]
fn disabled_fees_take_nothing() {
    let mut setup = Setup::new();
    setup.escrow.update_fee_config(setup.admin, Some(500), Some(500), None, Some(false)).unwrap();
    setup.lock(1, 1000, 100).unwrap();
    assert_eq!(setup.balance(CUSTODY), 1000);
    setup.release(1).unwrap();
    assert_eq!(setup.balance(setup.contributor), 1000);
}

// ---- invalid inputs ----

#[test]
fn test_invalid_lock_uninitialized_contract() {
    let mut setup = Setup::bare();
    let d = setup.depositor;
    setup.mint(d, 10000);
    let r = setup.lock(1, 1000, 1000);
    assert!(r.is_err());
    assert_eq!(r, Err(Failure::Contract(Error::NotInitialized)));
}

#[test]
fn test_invalid_lock_zero_amount_variations() {
    let mut setup = Setup::new();
    for amount in [0i128, -0i128] {
        assert!(setup.lock(amount as u64, amount, 1000).is_err());
    }
    assert_eq!(setup.lock(0, 0, 1000), Err(Failure::Contract(Error::InvalidAmount)));
}

#[test]
fn test_invalid_lock_insufficient_balance() {
    let mut setup = Setup::new();
    let poor = Address(66);
    assert!(setup.lock_from(poor, 1, 1000, 1000).is_err());
}

#[test]
fn test_invalid_lock_exact_balance() {
    let mut setup = Setup::new();
    let exact = Address(67);
    setup.mint(exact, 1000);
    assert!(setup.lock_from(exact, 1, 1000, 1000).is_ok());
    assert_eq!(setup.balance(exact), 0);
}

#[test]
fn test_invalid_lock_past_deadline_variations() {
    let mut setup = Setup::new();
    setup.now = 100_000;
    let current = setup.now;
    assert_eq!(setup.lock(1, 1000, current), Err(Failure::Contract(Error::InvalidDeadline)));
    let past = [current - 1, current - 60, current - 3600, current - 86400];
    for (i, p) in past.iter().enumerate() {
        assert!(setup.lock((i + 2) as u64, 1000, *p).is_err());
    }
}

#[test]
fn test_invalid_lock_duplicate_bounty_id_variations() {
    let mut setup = Setup::new();
    setup.lock(1, 1000, 1000).unwrap();
    for amount in [1000i128, 2000, 0, -1000, i128::MAX] {
        assert!(setup.lock(1, amount, 1000).is_err());
    }
    assert_eq!(setup.lock(1, 2000, 1000), Err(Failure::Contract(Error::BountyExists)));
}

#[test]
fn test_invalid_release_unauthorized() {
    let mut setup = Setup::new();
    setup.lock(1, 1000, 1000).unwrap();
    let d = setup.depositor;
    assert_eq!(setup.escrow.release_funds(d, 1, d, 0), Err(Error::Unauthorized));
}

#[test]
fn test_invalid_release_nonexistent_bounty() {
    let mut setup = Setup::new();
    setup.escrow.set_whitelist(setup.admin, setup.admin, true).unwrap();
    for id in [0u64, 1, 999, u64::MAX] {
        assert_eq!(setup.release(id), Err(Failure::Contract(Error::BountyNotFound)));
    }
}

#[test]
fn test_invalid_release_already_released() {
    let mut setup = Setup::new();
    setup.lock(1, 1000, 1000).unwrap();
    setup.release(1).unwrap();
    assert_eq!(setup.release(1), Err(Failure::Contract(Error::FundsNotLocked)));
}

#[test]
fn test_invalid_release_already_refunded() {
    let mut setup = Setup::new();
    setup.lock(1, 1000, 1000).unwrap();
    setup.now += 1001;
    setup.refund(1, None, None, RefundMode::Full).unwrap();
    assert_eq!(setup.release(1), Err(Failure::Contract(Error::FundsNotLocked)));
}

#[test]
fn test_invalid_release_partially_refunded() {
    let mut setup = Setup::new();
    setup.lock(1, 1000, 1000).unwrap();
    setup.now += 1001;
    setup.refund(1, Some(300), None, RefundMode::Partial).unwrap();
    assert_eq!(setup.release(1), Err(Failure::Contract(Error::FundsNotLocked)));
}

#[test]
fn test_invalid_refund_nonexistent_bounty() {
    let mut setup = Setup::new();
    assert_eq!(setup.refund(999, None, None, RefundMode::Full), Err(Failure::Contract(Error::BountyNotFound)));
}

#[test]
fn test_invalid_refund_before_deadline_full() {
    let mut setup = Setup::new();
    let start = setup.now;
    let deadline = start + 1000;
    setup.lock(1, 1000, deadline).unwrap();
    for offset in [0u64, 1, 100, 500, 999] {
        setup.now = start + offset;
        assert_eq!(setup.refund(1, None, None, RefundMode::Full), Err(Failure::Contract(Error::DeadlineNotPassed)));
    }
}

#[test]
fn test_invalid_refund_before_deadline_partial() {
    let mut setup = Setup::new();
    setup.lock(1, 1000, 1000).unwrap();
    setup.now = 500;
    assert_eq!(setup.refund(1, Some(500), None, RefundMode::Partial), Err(Failure::Contract(Error::DeadlineNotPassed)));
}

#[test]
fn test_invalid_refund_custom_without_approval() {
    let mut setup = Setup::new();
    setup.lock(1, 1000, 1000).unwrap();
    assert_eq!(
        setup.refund(1, Some(500), Some(Address(70)), RefundMode::Custom),
        Err(Failure::Contract(Error::RefundNotApproved))
    );
}

#[test]
fn test_invalid_refund_zero_amount() {
    let mut setup = Setup::new();
    setup.lock(1, 1000, 1000).unwrap();
    setup.now += 1001;
    for amount in [0i128, -0i128] {
        assert_eq!(setup.refund(1, Some(amount), None, RefundMode::Partial), Err(Failure::Contract(Error::InvalidAmount)));
    }
}

#[test]
fn test_invalid_refund_negative_amount() {
    let mut setup = Setup::new();
    setup.lock(1, 1000, 1000).unwrap();
    setup.now += 1001;
    for amount in [-1i128, -100, -1000, i128::MIN] {
        assert_eq!(setup.refund(1, Some(amount), None, RefundMode::Partial), Err(Failure::Contract(Error::InvalidAmount)));
    }
}

#[test]
fn test_invalid_refund_exceeds_remaining() {
    let mut setup = Setup::new();
    setup.lock(1, 1000, 1000).unwrap();
    setup.now += 1001;
    for amount in [1001i128, 2000, i128::MAX] {
        assert_eq!(setup.refund(1, Some(amount), None, RefundMode::Partial), Err(Failure::Contract(Error::InvalidAmount)));
    }
}

#[test]
fn test_invalid_refund_custom_missing_fields() {
    let mut setup = Setup::new();
    setup.lock(1, 1000, 1000).unwrap();
    setup.now += 1001;
    let c = setup.contributor;
    assert_eq!(setup.refund(1, None, Some(c), RefundMode::Custom), Err(Failure::Contract(Error::InvalidAmount)));
    assert_eq!(setup.refund(1, Some(500), None, RefundMode::Custom), Err(Failure::Contract(Error::InvalidAmount)));
    assert_eq!(setup.refund(1, None, None, RefundMode::Custom), Err(Failure::Contract(Error::InvalidAmount)));
}

#[test]
fn refund_needs_custody_to_cover_it() {
    let mut setup = Setup::new();
    setup.lock(1, 1000, 1000).unwrap();
    setup.now = 1000;
    assert_eq!(setup.escrow.refund(1, None, None, RefundMode::Full, 1000, 999), Err(Error::InsufficientFunds));
    assert_eq!(setup.remaining(1), 1000);
}

#[test]
fn test_invalid_batch_lock_empty() {
    let mut setup = Setup::new();
    assert_eq!(setup.batch_lock(vec![]), Err(Failure::Contract(Error::InvalidBatchSize)));
}

#[test]
fn test_invalid_batch_release_empty() {
    let mut setup = Setup::new();
    assert_eq!(setup.batch_release(vec![]), Err(Failure::Contract(Error::InvalidBatchSize)));
}

#[test]
fn test_invalid_batch_lock_exceeds_max_size() {
    let mut setup = Setup::new();
    let d = setup.depositor;
    let items: Vec<LockFundsItem> = (0..101u64).map(|i| lock_item(i, d, 100, 1000)).collect();
    assert_eq!(setup.batch_lock(items), Err(Failure::Contract(Error::InvalidBatchSize)));
}

#[test]
fn test_invalid_batch_lock_with_existing_bounty() {
    let mut setup = Setup::new();
    setup.lock(1, 1000, 1000).unwrap();
    let d = setup.depositor;
    let r = setup.batch_lock(vec![lock_item(2, d, 2000, 1000), lock_item(1, d, 3000, 1000)]);
    assert_eq!(r, Err(Failure::Contract(Error::BountyExists)));
    assert!(setup.escrow.get_escrow_info(2).is_err());
}

#[test]
fn test_invalid_batch_lock_with_zero_amount() {
    let mut setup = Setup::new();
    let d = setup.depositor;
    let r = setup.batch_lock(vec![lock_item(1, d, 1000, 1000), lock_item(2, d, 0, 1000)]);
    assert_eq!(r, Err(Failure::Contract(Error::InvalidAmount)));
    assert!(setup.escrow.get_escrow_info(1).is_err());
}

#[test]
fn test_invalid_batch_lock_with_past_deadline() {
    let mut setup = Setup::new();
    setup.now = 5000;
    let d = setup.depositor;
    let r = setup.batch_lock(vec![lock_item(1, d, 1000, 6000), lock_item(2, d, 2000, 4999)]);
    assert_eq!(r, Err(Failure::Contract(Error::InvalidDeadline)));
    assert!(setup.escrow.get_escrow_info(1).is_err());
    assert_eq!(setup.balance(d), 1_000_000);
}

#[test]
fn test_invalid_batch_release_nonexistent_bounty() {
    let mut setup = Setup::new();
    setup.lock(1, 1000, 1000).unwrap();
    let c = setup.contributor;
    let r = setup.batch_release(vec![release_item(1, c), release_item(999, c)]);
    assert_eq!(r, Err(Failure::Contract(Error::BountyNotFound)));
    assert_eq!(setup.status(1), EscrowStatus::Locked);
}

#[test]
fn test_invalid_batch_release_already_released() {
    let mut setup = Setup::new();
    setup.escrow.set_whitelist(setup.admin, setup.depositor, true).unwrap();
    setup.lock(1, 1000, 1000).unwrap();
    setup.release(1).unwrap();
    setup.lock(2, 2000, 1000).unwrap();
    let c = setup.contributor;
    let r = setup.batch_release(vec![release_item(1, c), release_item(2, c)]);
    assert_eq!(r, Err(Failure::Contract(Error::FundsNotLocked)));
    assert_eq!(setup.status(2), EscrowStatus::Locked);
}

#[test]
fn test_invalid_view_nonexistent_escrow() {
    let setup = Setup::new();
    assert_eq!(setup.escrow.get_escrow_info(999).err(), Some(Error::BountyNotFound));
}

#[test]
fn test_invalid_view_refund_history_nonexistent() {
    let setup = Setup::new();
    assert_eq!(setup.escrow.get_refund_history(999).err(), Some(Error::BountyNotFound));
}

#[test]
fn test_invalid_view_refund_eligibility_nonexistent() {
    let setup = Setup::new();
    assert_eq!(setup.escrow.get_refund_eligibility(999, 0).err(), Some(Error::BountyNotFound));
}

#[test]
fn test_invalid_init_already_initialized() {
    let mut setup = Setup::new();
    setup.now = 100;
    assert_eq!(setup.escrow.init(setup.admin, setup.token, setup.now), Err(Error::AlreadyInitialized));
}

#[test]
fn test_invalid_init_different_admin() {
    let mut setup = Setup::new();
    assert_eq!(setup.escrow.init(Address(99), setup.token, 0), Err(Error::AlreadyInitialized));
    assert!(setup.escrow.has(DataKey::Admin));
    assert!(setup.escrow.has(DataKey::Token));
    assert!(setup.escrow.has(DataKey::FeeConfig));
    assert!(!setup.escrow.has(DataKey::ReentrancyGuard));
}

#[test]
fn test_invalid_approval_nonexistent_bounty() {
    let mut setup = Setup::new();
    assert_eq!(setup.approve(999, 500, Address(70), RefundMode::Custom), Err(Failure::Contract(Error::BountyNotFound)));
}

#[test]
fn test_invalid_approval_zero_amount() {
    let mut setup = Setup::new();
    setup.lock(1, 1000, 1000).unwrap();
    assert_eq!(setup.approve(1, 0, Address(70), RefundMode::Custom), Err(Failure::Contract(Error::InvalidAmount)));
}

#[test]
fn test_invalid_approval_exceeds_remaining() {
    let mut setup = Setup::new();
    setup.lock(1, 1000, 1000).unwrap();
    assert_eq!(setup.approve(1, 1001, Address(70), RefundMode::Custom), Err(Failure::Contract(Error::InvalidAmount)));
}

#[test]
fn test_invalid_approval_already_released() {
    let mut setup = Setup::new();
    setup.lock(1, 1000, 1000).unwrap();
    setup.release(1).unwrap();
    assert_eq!(setup.approve(1, 500, Address(70), RefundMode::Custom), Err(Failure::Contract(Error::FundsNotLocked)));
}

// ---- batches ----

#[test]
fn batch_lock_creates_all_escrows_without_fee() {
    let mut setup = Setup::new();
    setup.escrow.update_fee_config(setup.admin, Some(100), None, None, Some(true)).unwrap();
    let d = setup.depositor;
    let other = Address(40);
    setup.mint(other, 500);
    let n = setup.batch_lock(vec![lock_item(1, d, 100, 50), lock_item(2, other, 200, 60), lock_item(3, d, 300, 70)]).unwrap();
    assert_eq!(n, 3);
    assert_eq!(setup.balance(CUSTODY), 600);
    assert_eq!(setup.balance(other), 300);
    let e = setup.escrow.get_escrow_info(2).unwrap();
    assert_eq!(e.depositor, other);
    assert_eq!(e.amount, 200);
    assert_eq!(e.remaining_amount, 200);
    assert_eq!(e.deadline, 60);
    assert_eq!(e.status, EscrowStatus::Locked);
}

#[test]
fn batch_release_pays_each_contributor() {
    let mut setup = Setup::new();
    let d = setup.depositor;
    setup.batch_lock(vec![lock_item(1, d, 100, 50), lock_item(2, d, 200, 60)]).unwrap();
    let (c1, c2) = (Address(50), Address(51));
    let n = setup.batch_release(vec![release_item(2, c2), release_item(1, c1)]).unwrap();
    assert_eq!(n, 2);
    assert_eq!(setup.balance(c1), 100);
    assert_eq!(setup.balance(c2), 200);
    assert_eq!(setup.balance(CUSTODY), 0);
    assert_eq!(setup.status(1), EscrowStatus::Released);
    assert_eq!(setup.remaining(2), 0);
}

#[test]
fn batch_duplicate_ids_fail_whole_batch() {
    let mut setup = Setup::new();
    let d = setup.depositor;
    let r = setup.batch_lock(vec![lock_item(1, d, 100, 50), lock_item(2, d, 100, 50), lock_item(1, d, 100, 50)]);
    assert_eq!(r, Err(Failure::Contract(Error::DuplicateBountyId)));
    assert!(!setup.escrow.has(DataKey::Escrow(1)));
    assert!(!setup.escrow.has(DataKey::Escrow(2)));
    setup.batch_lock(vec![lock_item(1, d, 100, 50), lock_item(2, d, 100, 50)]).unwrap();
    let c = setup.contributor;
    let r = setup.batch_release(vec![release_item(1, c), release_item(1, c)]);
    assert_eq!(r, Err(Failure::Contract(Error::DuplicateBountyId)));
    assert_eq!(setup.status(1), EscrowStatus::Locked);
}

#[test]
fn batch_lock_then_single_lock_same_id_fails() {
    let mut setup = Setup::new();
    let d = setup.depositor;
    setup.batch_lock(vec![lock_item(7, d, 100, 50)]).unwrap();
    assert_eq!(setup.lock(7, 100, 50), Err(Failure::Contract(Error::BountyExists)));
    setup.lock(8, 100, 50).unwrap();
    assert_eq!(setup.batch_lock(vec![lock_item(8, d, 100, 50)]), Err(Failure::Contract(Error::BountyExists)));
}

#[test]
fn depositors_are_authorized_once_each() {
    let (a, b) = (Address(10), Address(11));
    let items = vec![lock_item(1, a, 1, 9), lock_item(2, b, 1, 9), lock_item(3, a, 1, 9), lock_item(4, b, 1, 9)];
    assert_eq!(distinct_depositors(&items), vec![a, b]);
    assert_eq!(distinct_depositors(&vec![]), Vec::<Address>::new());
}

// ---- refunds ----

#[test]
fn deadline_scenario_partial_then_final_refund() {
    let mut setup = Setup::new();
    setup.lock(1, 1000, 1000).unwrap();
    setup.now = 500;
    assert_eq!(setup.refund(1, None, None, RefundMode::Full), Err(Failure::Contract(Error::DeadlineNotPassed)));
    setup.now = 1000;
    setup.refund(1, Some(300), None, RefundMode::Partial).unwrap();
    assert_eq!(setup.remaining(1), 700);
    assert_eq!(setup.status(1), EscrowStatus::PartiallyRefunded);
    setup.refund(1, Some(700), None, RefundMode::Partial).unwrap();
    assert_eq!(setup.remaining(1), 0);
    assert_eq!(setup.status(1), EscrowStatus::Refunded);
    assert_eq!(setup.release(1), Err(Failure::Contract(Error::FundsNotLocked)));
    assert_eq!(setup.refund(1, Some(1), None, RefundMode::Partial), Err(Failure::Contract(Error::FundsNotLocked)));
    let history = setup.escrow.get_refund_history(1).unwrap();
    assert_eq!(history.len(), 2);
    assert_eq!(history[0].amount, 300);
    assert_eq!(history[1].amount, 700);
    assert_eq!(history[1].recipient, setup.depositor);
    assert_eq!(history[1].mode, RefundMode::Partial);
    assert_eq!(history[1].timestamp, 1000);
    assert_eq!(setup.balance(setup.depositor), 1_000_000);
}

#[test]
fn refunded_plus_remaining_is_conserved() {
    let mut setup = Setup::new();
    setup.lock(1, 1000, 10).unwrap();
    setup.now = 10;
    for amount in [100i128, 250, 1, 49] {
        setup.refund(1, Some(amount), None, RefundMode::Partial).unwrap();
        let e = setup.escrow.get_escrow_info(1).unwrap();
        let refunded: i128 = e.refund_history.iter().map(|r| r.amount).sum();
        assert_eq!(e.amount - e.remaining_amount, refunded);
    }
    assert_eq!(setup.remaining(1), 600);
    assert_eq!(setup.balance(CUSTODY), 600);
}

#[test]
fn custom_refund_approval_is_single_use() {
    let mut setup = Setup::new();
    setup.lock(1, 1000, 1000).unwrap();
    let r = Address(70);
    setup.approve(1, 400, r, RefundMode::Custom).unwrap();
    let (can, passed, remaining, approval) = setup.escrow.get_refund_eligibility(1, 10).unwrap();
    assert!(can);
    assert!(!passed);
    assert_eq!(remaining, 1000);
    assert_eq!(approval.unwrap().amount, 400);
    assert_eq!(setup.refund(1, Some(300), Some(r), RefundMode::Custom), Err(Failure::Contract(Error::RefundNotApproved)));
    assert_eq!(setup.refund(1, Some(400), Some(Address(71)), RefundMode::Custom), Err(Failure::Contract(Error::RefundNotApproved)));
    setup.refund(1, Some(400), Some(r), RefundMode::Custom).unwrap();
    assert_eq!(setup.balance(r), 400);
    assert!(!setup.escrow.has(DataKey::RefundApproval(1)));
    assert_eq!(setup.refund(1, Some(400), Some(r), RefundMode::Custom), Err(Failure::Contract(Error::RefundNotApproved)));
    assert_eq!(setup.remaining(1), 600);
    let (can, _, _, approval) = setup.escrow.get_refund_eligibility(1, 10).unwrap();
    assert!(!can);
    assert!(approval.is_none());
}

#[test]
fn custom_refund_after_deadline_needs_no_approval() {
    let mut setup = Setup::new();
    setup.lock(1, 1000, 1000).unwrap();
    setup.now = 1000;
    let r = Address(70);
    setup.refund(1, Some(1000), Some(r), RefundMode::Custom).unwrap();
    assert_eq!(setup.balance(r), 1000);
    assert_eq!(setup.status(1), EscrowStatus::Refunded);
}

#[test]
fn partial_refund_without_amount_takes_everything() {
    let mut setup = Setup::new();
    setup.lock(1, 1000, 1000).unwrap();
    setup.now = 2000;
    let (can, passed, _, _) = setup.escrow.get_refund_eligibility(1, setup.now).unwrap();
    assert!(can && passed);
    setup.refund(1, None, None, RefundMode::Partial).unwrap();
    assert_eq!(setup.status(1), EscrowStatus::Refunded);
    assert_eq!(setup.balance(CUSTODY), 0);
}

#[test]
fn failed_call_changes_nothing() {
    let mut setup = Setup::new();
    setup.lock(1, 1000, 1000).unwrap();
    let r = Address(70);
    setup.approve(1, 400, r, RefundMode::Custom).unwrap();
    // the approval matches, but custody holds too little: the approval must survive
    assert_eq!(setup.escrow.refund(1, Some(400), Some(r), RefundMode::Custom, 0, 10), Err(Error::InsufficientFunds));
    assert!(setup.escrow.has(DataKey::RefundApproval(1)));
    assert!(setup.escrow.get_refund_history(1).unwrap().is_empty());
}

#[test]
fn error_codes_are_stable() {
    assert_eq!(Error::AlreadyInitialized.code(), 1);
    assert_eq!(Error::FundsNotLocked.code(), 5);
    assert_eq!(Error::InsufficientFunds.code(), 16);
    assert_eq!(Error::RefundNotApproved.code(), 17);
}

// ---- edge cases ----

#[test]
fn test_edge_zero_partial_refund() {
    let mut setup = Setup::new();
    setup.lock(1, 1000, 1000).unwrap();
    setup.now += 1001;
    assert!(setup.refund(1, Some(0), None, RefundMode::Partial).is_err());
}

#[test]
fn test_edge_very_large_batch() {
    let mut setup = Setup::new();
    let d = setup.depositor;
    let items: Vec<LockFundsItem> = (0..100u64).map(|i| lock_item(i, d, 100, 10000)).collect();
    setup.mint(d, 100 * 100);
    assert_eq!(setup.batch_lock(items), Ok(100));
}

#[test]
fn test_edge_batch_size_exceeds_limit() {
    let mut setup = Setup::new();
    let d = setup.depositor;
    let items: Vec<LockFundsItem> = (0..101u64).map(|i| lock_item(i, d, 100, 10000)).collect();
    assert!(setup.batch_lock(items).is_err());
}

#[test]
fn test_edge_batch_amount_overflow() {
    let mut setup = Setup::new();
    let d = setup.depositor;
    let large = i128::MAX / 8;
    setup.mint(d, large * 2);
    let result = setup.batch_lock(vec![lock_item(1, d, large, 10000), lock_item(2, d, large, 10000)]);
    if let Ok(count) = result {
        assert_eq!(count, 2);
    }
}

#[test]
fn batch_release_total_overflow_is_rejected() {
    let mut setup = Setup::new();
    let d = setup.depositor;
    let big = i128::MAX / 2 + 1;
    setup.mint(d, big);
    setup.lock(1, big, 10000).unwrap();
    setup.mint(Address(41), big);
    setup.lock_from(Address(41), 2, big, 10000).unwrap();
    let c = setup.contributor;
    assert_eq!(
        setup.batch_release(vec![release_item(1, c), release_item(2, c)]),
        Err(Failure::Contract(Error::InvalidAmount))
    );
    assert_eq!(setup.status(1), EscrowStatus::Locked);
}

#[test]
fn test_edge_partial_refund_sum_overflow() {
    let mut setup = Setup::new();
    let amount = i128::MAX / 2;
    let d = setup.depositor;
    setup.mint(d, amount);
    setup.lock(1, amount, 1000).unwrap();
    setup.now += 1001;
    assert!(setup.refund(1, Some(amount), None, RefundMode::Partial).is_ok());
}

#[test]
fn test_edge_negative_partial_refund() {
    let mut setup = Setup::new();
    setup.lock(1, 1000, 1000).unwrap();
    setup.now += 1001;
    assert!(setup.refund(1, Some(-100), None, RefundMode::Partial).is_err());
}

#[test]
fn test_edge_refund_exactly_at_deadline() {
    let mut setup = Setup::new();
    let deadline = setup.now + 1000;
    setup.lock(1, 1000, deadline).unwrap();
    setup.now = deadline;
    assert!(setup.refund(1, None, None, RefundMode::Full).is_ok());
}

#[test]
fn test_edge_refund_one_second_before_deadline() {
    let mut setup = Setup::new();
    let deadline = setup.now + 1000;
    setup.lock(1, 1000, deadline).unwrap();
    setup.now = deadline - 1;
    assert!(setup.refund(1, None, None, RefundMode::Full).is_err());
}

#[test]
fn test_edge_custom_refund_without_amount() {
    let mut setup = Setup::new();
    setup.lock(1, 1000, 1000).unwrap();
    setup.now += 1001;
    assert!(setup.refund(1, None, Some(Address(70)), RefundMode::Custom).is_err());
}

#[test]
fn test_edge_custom_refund_without_recipient() {
    let mut setup = Setup::new();
    setup.lock(1, 1000, 1000).unwrap();
    setup.now += 1001;
    assert!(setup.refund(1, Some(500), None, RefundMode::Custom).is_err());
}

#[test]
fn test_edge_partial_refund_exceeds_remaining() {
    let mut setup = Setup::new();
    setup.lock(1, 1000, 1000).unwrap();
    setup.now += 1001;
    assert!(setup.refund(1, Some(1001), None, RefundMode::Partial).is_err());
}

#[test]
fn test_edge_refund_after_partial_release() {
    let mut setup = Setup::new();
    setup.lock(1, 1000, 1000).unwrap();
    setup.now += 1001;
    setup.refund(1, Some(300), None, RefundMode::Partial).unwrap();
    assert!(setup.release(1).is_err());
}

#[test]
fn test_edge_multiple_partial_refunds_exact() {
    let mut setup = Setup::new();
    setup.lock(1, 1000, 1000).unwrap();
    setup.now += 1001;
    setup.refund(1, Some(300), None, RefundMode::Partial).unwrap();
    setup.refund(1, Some(700), None, RefundMode::Partial).unwrap();
    let e = setup.escrow.get_escrow_info(1).unwrap();
    assert_eq!(e.remaining_amount, 0);
    assert_eq!(e.status, EscrowStatus::Refunded);
}

#[test]
fn test_edge_partial_refund_one_more_than_remaining() {
    let mut setup = Setup::new();
    setup.lock(1, 1000, 1000).unwrap();
    setup.now += 1001;
    setup.refund(1, Some(500), None, RefundMode::Partial).unwrap();
    assert!(setup.refund(1, Some(501), None, RefundMode::Partial).is_err());
}

#[test]
fn test_edge_double_init() {
    let mut setup = Setup::new();
    assert!(setup.escrow.init(setup.admin, setup.token, 0).is_err());
}

#[test]
fn test_edge_init_with_zero_address() {
    let mut escrow = BountyEscrowContract::new(CUSTODY);
    assert!(escrow.init(Address(0), Address(0), 0).is_ok());
    assert!(escrow.has(DataKey::Admin));
}

#[test]
fn test_edge_empty_batch_lock() {
    let mut setup = Setup::new();
    assert!(setup.batch_lock(vec![]).is_err());
}

#[test]
fn test_edge_empty_batch_release() {
    let mut setup = Setup::new();
    assert!(setup.batch_release(vec![]).is_err());
}

#[test]
fn test_edge_single_item_batch() {
    let mut setup = Setup::new();
    let d = setup.depositor;
    assert!(setup.batch_lock(vec![lock_item(1, d, 1000, 1000)]).is_ok());
}

#[test]
fn test_edge_duplicate_bounty_id_in_batch() {
    let mut setup = Setup::new();
    let d = setup.depositor;
    assert!(setup.batch_lock(vec![lock_item(1, d, 1000, 1000), lock_item(1, d, 2000, 1000)]).is_err());
}

#[test]
fn test_edge_duplicate_bounty_id_across_batches() {
    let mut setup = Setup::new();
    let d = setup.depositor;
    setup.batch_lock(vec![lock_item(1, d, 1000, 1000)]).unwrap();
    assert!(setup.batch_lock(vec![lock_item(1, d, 2000, 1000)]).is_err());
}

// ---- properties ----

#[test]
fn test_property_fund_conservation_single_lock_release() {
    let mut setup = Setup::new();
    let total = |s: &Setup| s.balance(s.depositor) + s.balance(CUSTODY) + s.balance(s.contributor) + s.balance(s.admin);
    let before = total(&setup);
    setup.lock(1, 1000, 1000).unwrap();
    assert_eq!(before, total(&setup));
    setup.release(1).unwrap();
    assert_eq!(before, total(&setup));
}

#[test]
fn test_property_balance_conservation() {
    let mut setup = Setup::new();
    let total = |s: &Setup| s.balance(s.depositor) + s.balance(CUSTODY) + s.balance(s.contributor);
    let before = total(&setup);
    setup.lock(1, 1000, 1000).unwrap();
    assert_eq!(before, total(&setup));
    setup.release(1).unwrap();
    assert_eq!(before, total(&setup));
}

#[test]
fn balance_conservation_with_fees() {
    let mut setup = Setup::new();
    let fee_to = Address(88);
    setup.escrow.update_fee_config(setup.admin, Some(250), Some(1000), Some(fee_to), Some(true)).unwrap();
    let total = |s: &Setup| s.balance(s.depositor) + s.balance(CUSTODY) + s.balance(s.contributor) + s.balance(fee_to);
    let before = total(&setup);
    setup.lock(1, 4000, 1000).unwrap();
    assert_eq!(before, total(&setup));
    setup.release(1).unwrap();
    assert_eq!(before, total(&setup));
}

#[test]
#[should_panic]
fn test_property_no_transition_from_released() {
    let mut setup = Setup::new();
    setup.lock(1, 1000, 1000).unwrap();
    setup.release(1).unwrap();
    setup.release(1).unwrap();
}

#[test]
#[should_panic]
fn test_property_no_transition_from_refunded() {
    let mut setup = Setup::new();
    setup.lock(1, 1000, 1000).unwrap();
    setup.now += 1001;
    setup.refund(1, None, None, RefundMode::Full).unwrap();
    setup.release(1).unwrap();
}

#[test]
fn test_property_valid_state_transitions() {
    let mut setup = Setup::new();
    setup.lock(1, 1000, 1000).unwrap();
    assert_eq!(setup.status(1), EscrowStatus::Locked);
    setup.lock(2, 1000, 1000).unwrap();
    setup.release(2).unwrap();
    assert_eq!(setup.status(2), EscrowStatus::Released);
    setup.lock(3, 1000, 1000).unwrap();
    setup.now += 1001;
    setup.refund(3, Some(300), None, RefundMode::Partial).unwrap();
    assert_eq!(setup.status(3), EscrowStatus::PartiallyRefunded);
    setup.refund(3, Some(700), None, RefundMode::Partial).unwrap();
    assert_eq!(setup.status(3), EscrowStatus::Refunded);
}

#[test]
fn test_property_amount_consistency_partial_refunds() {
    let mut setup = Setup::new();
    setup.lock(1, 1000, 1000).unwrap();
    setup.now += 1001;
    setup.refund(1, Some(300), None, RefundMode::Partial).unwrap();
    assert_eq!(setup.remaining(1), 700);
    setup.refund(1, Some(200), None, RefundMode::Partial).unwrap();
    assert_eq!(setup.remaining(1), 500);
    setup.refund(1, Some(500), None, RefundMode::Partial).unwrap();
    assert_eq!(setup.remaining(1), 0);
    assert_eq!(setup.status(1), EscrowStatus::Refunded);
    let history = setup.escrow.get_refund_history(1).unwrap();
    let total: i128 = history.iter().map(|r| r.amount).sum();
    assert_eq!(total, 1000);
}

#[test]
fn test_property_deadline_enforcement_full_refund() {
    let mut setup = Setup::new();
    let deadline = setup.now + 1000;
    setup.lock(1, 1000, deadline).unwrap();
    assert!(setup.refund(1, None, None, RefundMode::Full).is_err());
    setup.now = deadline;
    assert!(setup.refund(1, None, None, RefundMode::Full).is_ok());
}

#[test]
fn test_property_deadline_enforcement_partial_refund() {
    let mut setup = Setup::new();
    setup.lock(1, 1000, 1000).unwrap();
    assert!(setup.refund(1, Some(500), None, RefundMode::Partial).is_err());
    setup.now += 1001;
    assert!(setup.refund(1, Some(500), None, RefundMode::Partial).is_ok());
}

#[test]
fn test_property_batch_lock_atomicity() {
    let mut setup = Setup::new();
    setup.lock(1, 1000, 1000).unwrap();
    let d = setup.depositor;
    assert!(setup.batch_lock(vec![lock_item(2, d, 2000, 1000), lock_item(1, d, 3000, 1000)]).is_err());
    assert!(setup.escrow.get_escrow_info(2).is_err());
}

#[test]
fn test_property_batch_release_atomicity() {
    let mut setup = Setup::new();
    setup.lock(1, 1000, 1000).unwrap();
    setup.lock(2, 2000, 1000).unwrap();
    setup.release(1).unwrap();
    let c = setup.contributor;
    assert!(setup.batch_release(vec![release_item(1, c), release_item(2, c)]).is_err());
    assert_eq!(setup.status(2), EscrowStatus::Locked);
}

#[test]
#[should_panic]
fn test_property_bounty_id_uniqueness() {
    let mut setup = Setup::new();
    setup.lock(1, 1000, 1000).unwrap();
    setup.lock(1, 2000, 1000).unwrap();
}

#[test]
fn test_property_refund_approval_single_use() {
    let mut setup = Setup::new();
    setup.lock(1, 1000, 1000).unwrap();
    let r = Address(70);
    setup.approve(1, 500, r, RefundMode::Custom).unwrap();
    setup.refund(1, Some(500), Some(r), RefundMode::Custom).unwrap();
    let (_, _, _, approval) = setup.escrow.get_refund_eligibility(1, setup.now).unwrap();
    assert!(approval.is_none());
}

#[test]
fn test_property_nonexistent_bounty_error() {
    let mut setup = Setup::new();
    assert!(setup.escrow.get_escrow_info(999).is_err());
    assert!(setup.release(999).is_err());
    assert!(setup.refund(999, None, None, RefundMode::Full).is_err());
}

#[test]
fn fee_formula_values() {
    assert_eq!(BountyEscrowContract::calculate_fee(1000, 0), 0);
    assert_eq!(BountyEscrowContract::calculate_fee(1000, 100), 10);
    assert_eq!(BountyEscrowContract::calculate_fee(999, 1000), 99);
    assert_eq!(BountyEscrowContract::calculate_fee(1, 1000), 0);
    assert_eq!(BountyEscrowContract::calculate_fee(-1000, 100), -10);
    // the product overflows: no fee rather than an error
    assert_eq!(BountyEscrowContract::calculate_fee(i128::MAX, 2), 0);
}

#[test]
fn test_edge_zero_amount_lock() {
    let mut setup = Setup::new();
    assert!(setup.lock(1, 0, 1000).is_err());
}

#[test]
fn test_edge_zero_bounty_id() {
    let mut setup = Setup::new();
    assert!(setup.lock(0, 1000, 1000).is_ok());
    assert_eq!(setup.escrow.get_escrow_info(0).unwrap().amount, 1000);
}

#[test]
fn test_edge_zero_deadline_offset() {
    let mut setup = Setup::new();
    let now = setup.now;
    assert!(setup.lock(1, 1000, now).is_err());
}

#[test]
fn test_edge_max_u64_bounty_id() {
    let mut setup = Setup::new();
    assert!(setup.lock(u64::MAX, 1000, 1000).is_ok());
    assert_eq!(setup.escrow.get_escrow_info(u64::MAX).unwrap().amount, 1000);
}

#[test]
fn test_edge_max_i128_amount() {
    let mut setup = Setup::new();
    let amount = i128::MAX / 4;
    let d = setup.depositor;
    setup.mint(d, amount);
    if setup.lock(1, amount, 1000).is_ok() {
        assert_eq!(setup.escrow.get_escrow_info(1).unwrap().amount, amount);
    }
}

#[test]
fn test_edge_max_u64_deadline() {
    let mut setup = Setup::new();
    assert!(setup.lock(1, 1000, u64::MAX).is_ok());
}

#[test]
fn test_edge_negative_amount_lock() {
    let mut setup = Setup::new();
    assert!(setup.lock(1, -1000, 1000).is_err());
}

#[test]
fn test_edge_very_long_deadline() {
    let mut setup = Setup::new();
    let deadline = setup.now + 365 * 24 * 60 * 60;
    assert!(setup.lock(1, 1000, deadline).is_ok());
}

#[test]
fn test_edge_release_to_same_address_as_depositor() {
    let mut setup = Setup::new();
    setup.lock(1, 1000, 1000).unwrap();
    let d = setup.depositor;
    let ts = setup.escrow.release_funds(setup.admin, 1, d, setup.now).unwrap();
    setup.carry_out(ts).unwrap();
    assert_eq!(setup.status(1), EscrowStatus::Released);
    assert_eq!(setup.balance(d), 1_000_000);
}

#[test]
fn test_edge_release_to_contract_address() {
    let mut setup = Setup::new();
    setup.lock(1, 1000, 1000).unwrap();
    let ts = setup.escrow.release_funds(setup.admin, 1, CUSTODY, setup.now).unwrap();
    assert!(setup.carry_out(ts).is_ok());
    assert_eq!(setup.balance(CUSTODY), 1000);
}

#[test]
fn test_property_amount_consistency_full_release() {
    let mut setup = Setup::new();
    setup.lock(1, 1000, 1000).unwrap();
    let before = setup.escrow.get_escrow_info(1).unwrap();
    assert_eq!(before.amount, 1000);
    assert_eq!(before.remaining_amount, 1000);
    setup.release(1).unwrap();
    assert_eq!(setup.status(1), EscrowStatus::Released);
}

#[test]
fn test_property_release_requires_admin() {
    let mut setup = Setup::new();
    setup.lock(1, 1000, 1000).unwrap();
    let c = setup.contributor;
    assert_eq!(setup.escrow.release_funds(c, 1, c, 0), Err(Error::Unauthorized));
}

#[test]
fn test_property_lock_requires_depositor_auth() {
    let mut setup = Setup::new();
    setup.lock(1, 1000, 1000).unwrap();
    assert_eq!(setup.escrow.get_escrow_info(1).unwrap().depositor, setup.depositor);
}

#[test]
fn test_property_view_function_consistency() {
    let mut setup = Setup::new();
    setup.lock(1, 1000, 1000).unwrap();
    let a = setup.escrow.get_escrow_info(1).unwrap();
    let b = setup.escrow.get_escrow_info(1).unwrap();
    assert_eq!(a.depositor, b.depositor);
    assert_eq!(a.amount, b.amount);
    assert_eq!(a.status, b.status);
    assert_eq!(a.deadline, b.deadline);
    assert_eq!(a.remaining_amount, b.remaining_amount);
}

#[test]
fn test_property_zero_amount_rejected() {
    let mut setup = Setup::new();
    assert!(setup.lock(1, 0, 1000).is_err());
}

#[test]
fn test_property_negative_amount_rejected() {
    let mut setup = Setup::new();
    assert!(setup.lock(1, -1000, 1000).is_err());
}

#[test]
fn test_property_past_deadline_rejected() {
    let mut setup = Setup::new();
    setup.now = 50;
    let now = setup.now;
    assert!(setup.lock(1, 1000, now).is_err());
    assert!(setup.lock(2, 1000, now.saturating_sub(1)).is_err());
}

#[test]
fn test_property_large_amount_handling() {
    let mut setup = Setup::new();
    let amount = i128::MAX / 2;
    let d = setup.depositor;
    setup.mint(d, amount);
    if setup.lock(1, amount, 1000).is_ok() {
        assert_eq!(setup.escrow.get_escrow_info(1).unwrap().amount, amount);
    }
}

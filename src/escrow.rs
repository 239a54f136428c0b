use vstd::prelude::*;
use std::collections::HashMap;
use crate::anti_abuse::{AntiAbuseConfig, RateLimiter};
use crate::fee::{fee_of, lemma_fee_bounded, FeeConfig, BASIS_POINTS, MAX_FEE_RATE};
use crate::model::{
    approve_outcome, emergency_outcome, rate_config_outcome, whitelist_outcome, init_outcome, lock_outcome, refund_outcome,
    release_outcome, set_paused_outcome, update_fee_outcome, ContractModel, Outcome,
};
use crate::types::{
    Address, DataKey, Error, Escrow, EscrowStatus, RefundApproval, RefundMode,
    RefundRecord, Transfer,
};

verus! {

broadcast use vstd::std_specs::hash::group_hash_axioms;

/// The escrow contract's whole state.
pub struct BountyEscrowContract {
    /// The account that holds the escrowed tokens.
    pub custody: Address,
    pub admin: Option<Address>,
    pub token: Option<Address>,
    pub fee_config: FeeConfig,
    pub paused: bool,
    pub escrows: HashMap<u64, Escrow>,
    pub approvals: HashMap<u64, RefundApproval>,
    /// Set while a fund-moving operation runs; clear between operations.
    pub reentrancy_guard: bool,
    pub limiter: RateLimiter,
}

impl View for BountyEscrowContract {
    type V = ContractModel;

    open spec fn view(&self) -> ContractModel {
        ContractModel {
            custody: self.custody,
            admin: self.admin,
            token: self.token,
            fee_config: self.fee_config,
            paused: self.paused,
            escrows: self.escrows@.map_values(|e: Escrow| e@),
            approvals: self.approvals@,
            limiter: self.limiter@,
        }
    }
}

/// Whether `r`, returned by an operation that moved from `pre` to `post`, is the
/// outcome `o`: on success the next state and the transfers, on failure the error and
/// no change at all.
pub open spec fn follows(o: Outcome, pre: ContractModel, post: ContractModel, r: Result<Vec<Transfer>, Error>) -> bool {
    match r {
        Ok(ts) => o == Ok::<(ContractModel, Seq<Transfer>), Error>((post, ts@)),
        Err(e) => o == Err::<(ContractModel, Seq<Transfer>), Error>(e) && post == pre,
    }
}

/// The same for an operation that moves no funds.
pub open spec fn follows_state(o: Result<ContractModel, Error>, pre: ContractModel, post: ContractModel, r: Result<(), Error>) -> bool {
    match r {
        Ok(_) => o == Ok::<ContractModel, Error>(post),
        Err(e) => o == Err::<ContractModel, Error>(e) && post == pre,
    }
}

impl BountyEscrowContract {
    /// The invariant: no operation is running and the abstract state is well formed.
    pub open spec fn wf(&self) -> bool {
        &&& !self.reentrancy_guard
        &&& self@.wf()
    }

    /// An uninitialized contract whose tokens are held by `custody`.
    pub fn new(custody: Address) -> (r: BountyEscrowContract)
        ensures
            r.wf(),
            r@.custody == custody,
            r@.admin is None,
            r@.token is None,
            !r@.paused,
            r@.escrows.is_empty(),
            r@.approvals.is_empty(),
            r@.limiter.config == crate::anti_abuse::default_config_spec(),
            r@.limiter.states.is_empty(),
            r@.limiter.whitelist.is_empty(),
    {
        let r = BountyEscrowContract {
            custody,
            admin: None,
            token: None,
            fee_config: FeeConfig {
                lock_fee_rate: 0,
                release_fee_rate: 0,
                fee_recipient: custody,
                fee_enabled: false,
            },
            paused: false,
            escrows: HashMap::new(),
            approvals: HashMap::new(),
            reentrancy_guard: false,
            limiter: RateLimiter::new(),
        };
        assert(r@.escrows =~= Map::empty());
        r
    }

    /// Computes the fee on `amount` at `fee_rate` basis points with checked arithmetic;
    /// an overflow yields a zero fee rather than an error.
    pub fn calculate_fee(amount: i128, fee_rate: i128) -> (r: i128)
        ensures
            r == fee_of(amount as int, fee_rate as int),
    {
        if fee_rate == 0 {
            return 0;
        }
        match amount.checked_mul(fee_rate) {
            Some(product) => match product.checked_div(BASIS_POINTS) {
                Some(fee) => fee,
                None => 0,
            },
            None => 0,
        }
    }

    /// Marks the start of a fund-moving operation.
    pub(crate) fn acquire_guard(&mut self)
        requires
            !old(self).reentrancy_guard,
        ensures
            final(self).reentrancy_guard,
            final(self)@ == old(self)@,
    {
        self.reentrancy_guard = true;
    }

    /// Marks the end of a fund-moving operation.
    pub(crate) fn release_guard(&mut self)
        ensures
            !final(self).reentrancy_guard,
            final(self)@ == old(self)@,
    {
        self.reentrancy_guard = false;
    }

    /// One-time setup: the admin and the token. Fees start disabled, going to the admin.
    pub fn init(&mut self, admin: Address, token: Address, now: u64) -> (r: Result<(), Error>)
        requires
            old(self).wf(),
        ensures
            final(self).wf(),
            follows_state(init_outcome(old(self)@, admin, token, now), old(self)@, final(self)@, r),
    {
        let decision = match self.limiter.evaluate(admin, now) {
            Ok(d) => d,
            Err(_) => return Err(Error::RateLimited),
        };
        if self.admin.is_some() {
            return Err(Error::AlreadyInitialized);
        }
        self.limiter.record(admin, decision);
        self.admin = Some(admin);
        self.token = Some(token);
        self.fee_config = FeeConfig {
            lock_fee_rate: 0,
            release_fee_rate: 0,
            fee_recipient: admin,
            fee_enabled: false,
        };
        Ok(())
    }

    /// Checks that the contract is initialized and `caller` is its admin.
    fn check_admin(&self, caller: Address) -> (r: Result<(), Error>)
        ensures
            match crate::model::admin_error(self@, caller) {
                Some(e) => r == Err::<(), Error>(e),
                None => r is Ok,
            },
    {
        match self.admin {
            None => Err(Error::NotInitialized),
            Some(a) => if a == caller {
                Ok(())
            } else {
                Err(Error::Unauthorized)
            },
        }
    }

    /// Changes the given fee settings (admin only); each given rate must lie in
    /// `[0, MAX_FEE_RATE]`.
    pub fn update_fee_config(
        &mut self,
        caller: Address,
        lock_fee_rate: Option<i128>,
        release_fee_rate: Option<i128>,
        fee_recipient: Option<Address>,
        fee_enabled: Option<bool>,
    ) -> (r: Result<(), Error>)
        requires
            old(self).wf(),
        ensures
            final(self).wf(),
            follows_state(
                update_fee_outcome(
                    old(self)@,
                    caller,
                    lock_fee_rate,
                    release_fee_rate,
                    fee_recipient,
                    fee_enabled,
                ),
                old(self)@,
                final(self)@,
                r,
            ),
    {
        self.check_admin(caller)?;
        let mut cfg = self.fee_config;
        if let Some(rate) = lock_fee_rate {
            if rate < 0 || rate > MAX_FEE_RATE {
                return Err(Error::InvalidFeeRate);
            }
            cfg.lock_fee_rate = rate;
        }
        if let Some(rate) = release_fee_rate {
            if rate < 0 || rate > MAX_FEE_RATE {
                return Err(Error::InvalidFeeRate);
            }
            cfg.release_fee_rate = rate;
        }
        if let Some(recipient) = fee_recipient {
            cfg.fee_recipient = recipient;
        }
        if let Some(enabled) = fee_enabled {
            cfg.fee_enabled = enabled;
        }
        self.fee_config = cfg;
        Ok(())
    }

    /// The current fee settings.
    pub fn get_fee_config(&self) -> (r: FeeConfig)
        ensures
            r == self@.fee_config,
    {
        self.fee_config
    }

    /// Whether fund-moving operations are suspended.
    pub fn is_paused(&self) -> (r: bool)
        ensures
            r == self@.paused,
    {
        self.paused
    }

    /// Suspends locks, releases and refunds (admin only); pausing twice is harmless.
    pub fn pause(&mut self, caller: Address) -> (r: Result<(), Error>)
        requires
            old(self).wf(),
        ensures
            final(self).wf(),
            follows_state(set_paused_outcome(old(self)@, caller, true), old(self)@, final(self)@, r),
    {
        self.check_admin(caller)?;
        self.paused = true;
        Ok(())
    }

    /// Lifts a pause (admin only); unpausing twice is harmless.
    pub fn unpause(&mut self, caller: Address) -> (r: Result<(), Error>)
        requires
            old(self).wf(),
        ensures
            final(self).wf(),
            follows_state(set_paused_outcome(old(self)@, caller, false), old(self)@, final(self)@, r),
    {
        self.check_admin(caller)?;
        self.paused = false;
        Ok(())
    }

    /// The rate limiter's settings.
    pub fn get_rate_limit_config(&self) -> (r: AntiAbuseConfig)
        ensures
            r == self@.limiter.config,
    {
        self.limiter.get_config()
    }

    /// Replaces the rate limiter's settings (admin only).
    pub fn update_rate_limit_config(
        &mut self,
        caller: Address,
        window_size: u64,
        max_operations: u32,
        cooldown_period: u64,
    ) -> (r: Result<(), Error>)
        requires
            old(self).wf(),
        ensures
            final(self).wf(),
            follows_state(
                rate_config_outcome(old(self)@, caller, AntiAbuseConfig { window_size, max_operations, cooldown_period }),
                old(self)@,
                final(self)@,
                r,
            ),
    {
        self.check_admin(caller)?;
        self.limiter.set_config(AntiAbuseConfig { window_size, max_operations, cooldown_period });
        Ok(())
    }

    /// Lets `address` bypass the rate limiter, or stops it doing so (admin only).
    pub fn set_whitelist(&mut self, caller: Address, address: Address, whitelisted: bool) -> (r: Result<(), Error>)
        requires
            old(self).wf(),
        ensures
            final(self).wf(),
            follows_state(whitelist_outcome(old(self)@, caller, address, whitelisted), old(self)@, final(self)@, r),
    {
        self.check_admin(caller)?;
        self.limiter.set_whitelist(address, whitelisted);
        Ok(())
    }

    /// While paused, sends the whole custody balance to `recipient` (admin only).
    pub fn emergency_withdraw(&mut self, caller: Address, recipient: Address, custody_balance: i128) -> (r: Result<Vec<Transfer>, Error>)
        requires
            old(self).wf(),
        ensures
            final(self).wf(),
            follows(emergency_outcome(old(self)@, caller, recipient, custody_balance), old(self)@, final(self)@, r),
    {
        self.check_admin(caller)?;
        if !self.paused {
            return Err(Error::Unauthorized);
        }
        let mut transfers: Vec<Transfer> = Vec::new();
        if custody_balance > 0 {
            transfers.push(Transfer { from: self.custody, to: recipient, amount: custody_balance });
        }
        Ok(transfers)
    }

    /// Locks `amount` from `depositor` for `bounty_id` until `deadline`. The lock fee, if
    /// enabled, is taken out of `amount`: custody receives the rest and the fee recipient
    /// the fee.
    pub fn lock_funds(
        &mut self,
        depositor: Address,
        bounty_id: u64,
        amount: i128,
        deadline: u64,
        now: u64,
    ) -> (r: Result<Vec<Transfer>, Error>)
        requires
            old(self).wf(),
        ensures
            final(self).wf(),
            follows(lock_outcome(old(self)@, depositor, bounty_id, amount, deadline, now), old(self)@, final(self)@, r),
    {
        let decision = match self.limiter.evaluate(depositor, now) {
            Ok(d) => d,
            Err(_) => return Err(Error::RateLimited),
        };
        if self.paused {
            return Err(Error::ContractPaused);
        }
        if amount <= 0 {
            return Err(Error::InvalidAmount);
        }
        if deadline <= now {
            return Err(Error::InvalidDeadline);
        }
        if self.admin.is_none() {
            return Err(Error::NotInitialized);
        }
        if self.escrows.contains_key(&bounty_id) {
            return Err(Error::BountyExists);
        }
        let cfg = self.fee_config;
        let fee = if cfg.fee_enabled && cfg.lock_fee_rate > 0 {
            Self::calculate_fee(amount, cfg.lock_fee_rate)
        } else {
            0
        };
        proof {
            lemma_fee_bounded(amount as int, cfg.lock_fee_rate as int);
        }
        let net = amount - fee;
        self.acquire_guard();
        self.limiter.record(depositor, decision);
        let escrow = Escrow {
            depositor,
            amount: net,
            status: EscrowStatus::Locked,
            deadline,
            refund_history: Vec::new(),
            remaining_amount: amount,
        };
        let ghost old_escrows = self.escrows@;
        self.escrows.insert(bounty_id, escrow);
        proof {
            assert(self.escrows@.map_values(|e: Escrow| e@) =~= old_escrows.map_values(
                |e: Escrow| e@,
            ).insert(bounty_id, escrow@));
        }
        let mut transfers: Vec<Transfer> = Vec::new();
        transfers.push(Transfer { from: depositor, to: self.custody, amount: net });
        if fee > 0 {
            transfers.push(Transfer { from: depositor, to: cfg.fee_recipient, amount: fee });
        }
        self.release_guard();
        assert(transfers@ =~= crate::model::payment(depositor, self.custody, net as int, cfg.fee_recipient, fee as int));
        Ok(transfers)
    }

    /// Pays a locked escrow to `contributor` (admin only): the release fee, if enabled,
    /// goes to the fee recipient and the rest to the contributor. The escrow becomes
    /// `Released` with nothing remaining.
    pub fn release_funds(&mut self, caller: Address, bounty_id: u64, contributor: Address, now: u64) -> (r: Result<Vec<Transfer>, Error>)
        requires
            old(self).wf(),
        ensures
            final(self).wf(),
            follows(release_outcome(old(self)@, caller, bounty_id, contributor, now), old(self)@, final(self)@, r),
    {
        let admin = match self.admin {
            None => return Err(Error::NotInitialized),
            Some(a) => a,
        };
        if self.paused {
            return Err(Error::ContractPaused);
        }
        let decision = match self.limiter.evaluate(admin, now) {
            Ok(d) => d,
            Err(_) => return Err(Error::RateLimited),
        };
        if caller != admin {
            return Err(Error::Unauthorized);
        }
        let (amount, status) = match self.escrows.get(&bounty_id) {
            None => return Err(Error::BountyNotFound),
            Some(e) => (e.amount, e.status),
        };
        if status != EscrowStatus::Locked {
            return Err(Error::FundsNotLocked);
        }
        let cfg = self.fee_config;
        let fee = if cfg.fee_enabled && cfg.release_fee_rate > 0 {
            Self::calculate_fee(amount, cfg.release_fee_rate)
        } else {
            0
        };
        proof {
            lemma_fee_bounded(amount as int, cfg.release_fee_rate as int);
        }
        let net = amount - fee;
        self.acquire_guard();
        self.limiter.record(admin, decision);
        let ghost old_escrows = self.escrows@;
        let mut escrow = match self.escrows.remove(&bounty_id) {
            Some(e) => e,
            None => {
                proof {
                    assert(false);
                }
                return Err(Error::BountyNotFound);
            },
        };
        escrow.status = EscrowStatus::Released;
        escrow.remaining_amount = 0;
        let ghost new_model = escrow@;
        self.escrows.insert(bounty_id, escrow);
        proof {
            assert(self.escrows@ =~= old_escrows.insert(bounty_id, self.escrows@[bounty_id]));
            assert(self.escrows@.map_values(|e: Escrow| e@) =~= old_escrows.map_values(
                |e: Escrow| e@,
            ).insert(bounty_id, new_model));
        }
        let mut transfers: Vec<Transfer> = Vec::new();
        transfers.push(Transfer { from: self.custody, to: contributor, amount: net });
        if fee > 0 {
            transfers.push(Transfer { from: self.custody, to: cfg.fee_recipient, amount: fee });
        }
        self.release_guard();
        assert(transfers@ =~= crate::model::payment(self.custody, contributor, net as int, cfg.fee_recipient, fee as int));
        Ok(transfers)
    }

    /// Allows one custom refund of `amount` to `recipient` before the deadline (admin
    /// only); replaces any earlier approval for the bounty.
    pub fn approve_refund(
        &mut self,
        caller: Address,
        bounty_id: u64,
        amount: i128,
        recipient: Address,
        mode: RefundMode,
        now: u64,
    ) -> (r: Result<(), Error>)
        requires
            old(self).wf(),
        ensures
            final(self).wf(),
            follows_state(approve_outcome(old(self)@, caller, bounty_id, amount, recipient, mode, now), old(self)@, final(self)@, r),
    {
        self.check_admin(caller)?;
        let (status, remaining) = match self.escrows.get(&bounty_id) {
            None => return Err(Error::BountyNotFound),
            Some(e) => (e.status, e.remaining_amount),
        };
        if status != EscrowStatus::Locked && status != EscrowStatus::PartiallyRefunded {
            return Err(Error::FundsNotLocked);
        }
        if amount <= 0 || amount > remaining {
            return Err(Error::InvalidAmount);
        }
        let approval = RefundApproval {
            bounty_id,
            amount,
            recipient,
            mode,
            approved_by: caller,
            approved_at: now,
        };
        self.approvals.insert(bounty_id, approval);
        Ok(())
    }

    /// Refunds from an escrow that is `Locked` or `PartiallyRefunded`.
    ///
    /// `Full` and `Partial` pay the depositor and need the deadline to have passed;
    /// `Custom` pays `recipient` and, before the deadline, consumes a matching approval.
    /// `custody_balance` is what custody holds; the refund must be covered by it.
    pub fn refund(
        &mut self,
        bounty_id: u64,
        amount: Option<i128>,
        recipient: Option<Address>,
        mode: RefundMode,
        now: u64,
        custody_balance: i128,
    ) -> (r: Result<Vec<Transfer>, Error>)
        requires
            old(self).wf(),
        ensures
            final(self).wf(),
            follows(refund_outcome(old(self)@, bounty_id, amount, recipient, mode, now, custody_balance), old(self)@, final(self)@, r),
    {
        if self.paused {
            return Err(Error::ContractPaused);
        }
        let (status, deadline, remaining, depositor) = match self.escrows.get(&bounty_id) {
            None => return Err(Error::BountyNotFound),
            Some(e) => (e.status, e.deadline, e.remaining_amount, e.depositor),
        };
        if status != EscrowStatus::Locked && status != EscrowStatus::PartiallyRefunded {
            return Err(Error::FundsNotLocked);
        }
        let before = now < deadline;
        let mut consume = false;
        let (refund_amount, to) = match mode {
            RefundMode::Full => {
                if before {
                    return Err(Error::DeadlineNotPassed);
                }
                (remaining, depositor)
            },
            RefundMode::Partial => {
                if before {
                    return Err(Error::DeadlineNotPassed);
                }
                (
                    match amount {
                        Some(a) => a,
                        None => remaining,
                    },
                    depositor,
                )
            },
            RefundMode::Custom => {
                let a = match amount {
                    Some(a) => a,
                    None => return Err(Error::InvalidAmount),
                };
                let to = match recipient {
                    Some(t) => t,
                    None => return Err(Error::InvalidAmount),
                };
                if before {
                    match self.approvals.get(&bounty_id) {
                        None => return Err(Error::RefundNotApproved),
                        Some(ap) => {
                            if ap.amount != a || ap.recipient != to || ap.mode != mode {
                                return Err(Error::RefundNotApproved);
                            }
                        },
                    }
                    consume = true;
                }
                (a, to)
            },
        };
        if refund_amount <= 0 || refund_amount > remaining {
            return Err(Error::InvalidAmount);
        }
        if custody_balance < refund_amount {
            return Err(Error::InsufficientFunds);
        }
        self.acquire_guard();
        if consume {
            self.approvals.remove(&bounty_id);
        }
        let ghost old_escrows = self.escrows@;
        let mut escrow = match self.escrows.remove(&bounty_id) {
            Some(e) => e,
            None => {
                proof {
                    assert(false);
                }
                return Err(Error::BountyNotFound);
            },
        };
        let rem = remaining - refund_amount;
        escrow.remaining_amount = rem;
        escrow.refund_history.push(
            RefundRecord { amount: refund_amount, recipient: to, mode, timestamp: now },
        );
        escrow.status = if rem == 0 {
            EscrowStatus::Refunded
        } else {
            EscrowStatus::PartiallyRefunded
        };
        let ghost new_model = escrow@;
        self.escrows.insert(bounty_id, escrow);
        proof {
            assert(self.escrows@ =~= old_escrows.insert(bounty_id, self.escrows@[bounty_id]));
            assert(self.escrows@.map_values(|e: Escrow| e@) =~= old_escrows.map_values(
                |e: Escrow| e@,
            ).insert(bounty_id, new_model));
            let h = new_model.refund_history;
            assert forall|i: int| 0 <= i < h.len() implies #[trigger] h[i].amount > 0 by {
                if i < h.len() - 1 {
                    assert(h[i] == old_escrows[bounty_id]@.refund_history[i]);
                }
            }
        }
        self.release_guard();
        let mut transfers: Vec<Transfer> = Vec::new();
        transfers.push(Transfer { from: self.custody, to, amount: refund_amount });
        assert(transfers@ =~= seq![Transfer { from: self.custody, to, amount: refund_amount }]);
        Ok(transfers)
    }

    /// The record of `bounty_id`.
    pub fn get_escrow_info(&self, bounty_id: u64) -> (r: Result<Escrow, Error>)
        ensures
            match r {
                Ok(e) => self@.escrows.contains_key(bounty_id) && e@ == self@.escrows[bounty_id],
                Err(err) => !self@.escrows.contains_key(bounty_id) && err == Error::BountyNotFound,
            },
    {
        match self.escrows.get(&bounty_id) {
            Some(e) => Ok(e.duplicate()),
            None => Err(Error::BountyNotFound),
        }
    }

    /// The refunds made from `bounty_id`, oldest first.
    pub fn get_refund_history(&self, bounty_id: u64) -> (r: Result<Vec<RefundRecord>, Error>)
        ensures
            match r {
                Ok(h) => self@.escrows.contains_key(bounty_id) && h@ == self@.escrows[bounty_id].refund_history,
                Err(err) => !self@.escrows.contains_key(bounty_id) && err == Error::BountyNotFound,
            },
    {
        match self.escrows.get(&bounty_id) {
            Some(e) => Ok(e.duplicate().refund_history),
            None => Err(Error::BountyNotFound),
        }
    }

    /// For `bounty_id` at `now`: whether a refund can proceed (the escrow is live and the
    /// deadline has passed or an approval exists), whether the deadline has passed, the
    /// remaining amount, and the live approval if any.
    pub fn get_refund_eligibility(&self, bounty_id: u64, now: u64) -> (r: Result<(bool, bool, i128, Option<RefundApproval>), Error>)
        ensures
            match r {
                Ok((can_refund, deadline_passed, remaining, approval)) => {
                    let e = self@.escrows[bounty_id];
                    &&& self@.escrows.contains_key(bounty_id)
                    &&& deadline_passed == (now >= e.deadline)
                    &&& remaining == e.remaining_amount
                    &&& approval == (if self@.approvals.contains_key(bounty_id) {
                        Some(self@.approvals[bounty_id])
                    } else {
                        None
                    })
                    &&& can_refund == (crate::model::is_refundable(e.status) && (deadline_passed
                        || approval is Some))
                },
                Err(err) => !self@.escrows.contains_key(bounty_id) && err == Error::BountyNotFound,
            },
    {
        let (status, deadline, remaining) = match self.escrows.get(&bounty_id) {
            None => return Err(Error::BountyNotFound),
            Some(e) => (e.status, e.deadline, e.remaining_amount),
        };
        let deadline_passed = now >= deadline;
        let approval = match self.approvals.get(&bounty_id) {
            Some(a) => Some(*a),
            None => None,
        };
        let can_refund = (status == EscrowStatus::Locked || status == EscrowStatus::PartiallyRefunded)
            && (deadline_passed || approval.is_some());
        Ok((can_refund, deadline_passed, remaining, approval))
    }

    /// Whether the persisted state holds a value under `key`. The reentrancy flag is held
    /// only while an operation runs, and `IsPaused` while the contract is paused.
    pub fn has(&self, key: DataKey) -> (r: bool)
        ensures
            r == match key {
                DataKey::Admin => self@.admin is Some,
                DataKey::Token => self@.token is Some,
                DataKey::Escrow(id) => self@.escrows.contains_key(id),
                DataKey::FeeConfig => self@.admin is Some,
                DataKey::RefundApproval(id) => self@.approvals.contains_key(id),
                DataKey::ReentrancyGuard => self.reentrancy_guard,
                DataKey::IsPaused => self@.paused,
            },
    {
        match key {
            DataKey::Admin => self.admin.is_some(),
            DataKey::Token => self.token.is_some(),
            DataKey::Escrow(id) => self.escrows.contains_key(&id),
            DataKey::FeeConfig => self.admin.is_some(),
            DataKey::RefundApproval(id) => self.approvals.contains_key(&id),
            DataKey::ReentrancyGuard => self.reentrancy_guard,
            DataKey::IsPaused => self.paused,
        }
    }
}

} // verus!

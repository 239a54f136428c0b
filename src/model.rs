use vstd::prelude::*;
use crate::anti_abuse::{apply_decision, rate_decision, AntiAbuseConfig, RateLimiterModel};
use crate::fee::{fee_of, FeeConfig};
use crate::types::{
    Address, Error, EscrowModel, EscrowStatus, LockFundsItem, RefundApproval, RefundMode,
    RefundRecord, ReleaseFundsItem, Transfer,
};

verus! {

/// The abstract state of the escrow contract.
pub struct ContractModel {
    /// The account that holds the escrowed tokens.
    pub custody: Address,
    pub admin: Option<Address>,
    pub token: Option<Address>,
    pub fee_config: FeeConfig,
    pub paused: bool,
    pub escrows: Map<u64, EscrowModel>,
    pub approvals: Map<u64, RefundApproval>,
    pub limiter: RateLimiterModel,
}

/// The result of a fund-moving operation: the next state and the transfers to carry out.
pub type Outcome = Result<(ContractModel, Seq<Transfer>), Error>;

/// Largest number of items in one batch.
pub const MAX_BATCH_SIZE: usize = 100;

/// The sum of the amounts of a refund history.
pub open spec fn refunded_total(h: Seq<RefundRecord>) -> int
    decreases h.len(),
{
    if h.len() == 0 {
        0
    } else {
        refunded_total(h.drop_last()) + h.last().amount
    }
}

/// The sum of the amounts of a list of transfers.
pub open spec fn transfer_total(ts: Seq<Transfer>) -> int
    decreases ts.len(),
{
    if ts.len() == 0 {
        0
    } else {
        transfer_total(ts.drop_last()) + ts.last().amount
    }
}

/// Whether refunds or a release can still act on an escrow in this status.
pub open spec fn is_refundable(status: EscrowStatus) -> bool {
    status is Locked || status is PartiallyRefunded
}

/// Whether the status is one that nothing leaves.
pub open spec fn is_terminal(status: EscrowStatus) -> bool {
    status is Released || status is Refunded
}

/// The invariant of one escrow record.
pub open spec fn escrow_wf(e: EscrowModel) -> bool {
    &&& e.amount > 0
    &&& e.remaining_amount >= 0
    &&& is_terminal(e.status) ==> e.remaining_amount == 0
    &&& e.status is Locked ==> e.remaining_amount > 0 && e.refund_history.len() == 0
    &&& e.status is PartiallyRefunded ==> e.remaining_amount > 0 && e.refund_history.len() > 0
    &&& forall|i: int|
        0 <= i < e.refund_history.len() ==> #[trigger] e.refund_history[i].amount > 0
}

impl ContractModel {
    /// The invariant of the contract state.
    pub open spec fn wf(self) -> bool {
        &&& self.fee_config.wf()
        &&& self.admin is Some <==> self.token is Some
        &&& self.admin is None ==> self.escrows.is_empty()
        &&& forall|id: u64| #[trigger] self.escrows.contains_key(id) ==> escrow_wf(self.escrows[id])
        &&& forall|id: u64| #[trigger]
            self.approvals.contains_key(id) ==> self.approvals[id].bounty_id == id
                && self.approvals[id].amount > 0
    }
}

/// The transfers that pay `net` from `from` to `to` and a positive `fee` to `fee_to`.
pub open spec fn payment(from: Address, to: Address, net: int, fee_to: Address, fee: int) -> Seq<
    Transfer,
> {
    seq![Transfer { from, to, amount: net as i128 }] + if fee > 0 {
        seq![Transfer { from, to: fee_to, amount: fee as i128 }]
    } else {
        Seq::<Transfer>::empty()
    }
}

/// The fee that locking `amount` costs under `cfg`.
pub open spec fn lock_fee(cfg: FeeConfig, amount: i128) -> int {
    if cfg.fee_enabled && cfg.lock_fee_rate > 0 {
        fee_of(amount as int, cfg.lock_fee_rate as int)
    } else {
        0
    }
}

/// The fee that releasing `amount` costs under `cfg`.
pub open spec fn release_fee(cfg: FeeConfig, amount: i128) -> int {
    if cfg.fee_enabled && cfg.release_fee_rate > 0 {
        fee_of(amount as int, cfg.release_fee_rate as int)
    } else {
        0
    }
}

/// A new escrow: locked, with an empty history.
pub open spec fn new_escrow(depositor: Address, net: int, deadline: u64, gross: i128) -> EscrowModel {
    EscrowModel {
        depositor,
        amount: net as i128,
        status: EscrowStatus::Locked,
        deadline,
        refund_history: Seq::empty(),
        remaining_amount: gross,
    }
}

/// `init`: records the admin and the token, with fees off and going to the admin.
pub open spec fn init_outcome(s: ContractModel, admin: Address, token: Address, now: u64) -> Result<
    ContractModel,
    Error,
> {
    match rate_decision(s.limiter, admin, now) {
        Err(_) => Err(Error::RateLimited),
        Ok(d) => if s.admin is Some {
            Err(Error::AlreadyInitialized)
        } else {
            Ok(
                ContractModel {
                    admin: Some(admin),
                    token: Some(token),
                    fee_config: FeeConfig {
                        lock_fee_rate: 0,
                        release_fee_rate: 0,
                        fee_recipient: admin,
                        fee_enabled: false,
                    },
                    limiter: apply_decision(s.limiter, admin, d),
                    ..s
                },
            )
        },
    }
}

/// The error of an admin-only operation called by `caller`, if any.
pub open spec fn admin_error(s: ContractModel, caller: Address) -> Option<Error> {
    if s.admin is None {
        Some(Error::NotInitialized)
    } else if s.admin != Some(caller) {
        Some(Error::Unauthorized)
    } else {
        None
    }
}

/// Whether a fee rate may be configured.
pub open spec fn valid_rate(rate: i128) -> bool {
    0 <= rate <= crate::fee::MAX_FEE_RATE
}

/// `update_fee_config`: each given setting replaces the current one.
pub open spec fn update_fee_outcome(
    s: ContractModel,
    caller: Address,
    lock_fee_rate: Option<i128>,
    release_fee_rate: Option<i128>,
    fee_recipient: Option<Address>,
    fee_enabled: Option<bool>,
) -> Result<ContractModel, Error> {
    if let Some(e) = admin_error(s, caller) {
        Err(e)
    } else if lock_fee_rate is Some && !valid_rate(lock_fee_rate->0) {
        Err(Error::InvalidFeeRate)
    } else if release_fee_rate is Some && !valid_rate(release_fee_rate->0) {
        Err(Error::InvalidFeeRate)
    } else {
        let c = s.fee_config;
        Ok(
            ContractModel {
                fee_config: FeeConfig {
                    lock_fee_rate: match lock_fee_rate {
                        Some(r) => r,
                        None => c.lock_fee_rate,
                    },
                    release_fee_rate: match release_fee_rate {
                        Some(r) => r,
                        None => c.release_fee_rate,
                    },
                    fee_recipient: match fee_recipient {
                        Some(r) => r,
                        None => c.fee_recipient,
                    },
                    fee_enabled: match fee_enabled {
                        Some(b) => b,
                        None => c.fee_enabled,
                    },
                },
                ..s
            },
        )
    }
}

/// `pause` (`paused == true`) and `unpause`: set the flag; idempotent.
pub open spec fn set_paused_outcome(s: ContractModel, caller: Address, paused: bool) -> Result<
    ContractModel,
    Error,
> {
    if let Some(e) = admin_error(s, caller) {
        Err(e)
    } else {
        Ok(ContractModel { paused, ..s })
    }
}

/// `update_rate_limit_config` (admin only): replaces the rate limiter's settings.
pub open spec fn rate_config_outcome(s: ContractModel, caller: Address, config: AntiAbuseConfig) -> Result<
    ContractModel,
    Error,
> {
    if let Some(e) = admin_error(s, caller) {
        Err(e)
    } else {
        Ok(ContractModel { limiter: RateLimiterModel { config, ..s.limiter }, ..s })
    }
}

/// `set_whitelist` (admin only): puts `address` on the rate limiter's whitelist or
/// takes it off.
pub open spec fn whitelist_outcome(s: ContractModel, caller: Address, address: Address, whitelisted: bool) -> Result<
    ContractModel,
    Error,
> {
    if let Some(e) = admin_error(s, caller) {
        Err(e)
    } else {
        Ok(
            ContractModel {
                limiter: RateLimiterModel {
                    whitelist: if whitelisted {
                        s.limiter.whitelist.insert(address.0)
                    } else {
                        s.limiter.whitelist.remove(address.0)
                    },
                    ..s.limiter
                },
                ..s
            },
        )
    }
}

/// `emergency_withdraw`: while paused, the whole custody balance goes to `recipient`.
pub open spec fn emergency_outcome(
    s: ContractModel,
    caller: Address,
    recipient: Address,
    custody_balance: i128,
) -> Outcome {
    if let Some(e) = admin_error(s, caller) {
        Err(e)
    } else if !s.paused {
        Err(Error::Unauthorized)
    } else if custody_balance <= 0 {
        Ok((s, Seq::empty()))
    } else {
        Ok((s, seq![Transfer { from: s.custody, to: recipient, amount: custody_balance }]))
    }
}

/// `lock_funds`: `depositor` locks `amount` for `bounty_id` until `deadline`.
pub open spec fn lock_outcome(
    s: ContractModel,
    depositor: Address,
    bounty_id: u64,
    amount: i128,
    deadline: u64,
    now: u64,
) -> Outcome {
    match rate_decision(s.limiter, depositor, now) {
        Err(_) => Err(Error::RateLimited),
        Ok(d) => if s.paused {
            Err(Error::ContractPaused)
        } else if amount <= 0 {
            Err(Error::InvalidAmount)
        } else if deadline <= now {
            Err(Error::InvalidDeadline)
        } else if s.admin is None {
            Err(Error::NotInitialized)
        } else if s.escrows.contains_key(bounty_id) {
            Err(Error::BountyExists)
        } else {
            let fee = lock_fee(s.fee_config, amount);
            let net = amount - fee;
            Ok(
                (
                    ContractModel {
                        limiter: apply_decision(s.limiter, depositor, d),
                        escrows: s.escrows.insert(
                            bounty_id,
                            new_escrow(depositor, net, deadline, amount),
                        ),
                        ..s
                    },
                    payment(depositor, s.custody, net, s.fee_config.fee_recipient, fee),
                ),
            )
        },
    }
}

/// `release_funds`: the admin pays a locked escrow, less the release fee, to `contributor`.
pub open spec fn release_outcome(
    s: ContractModel,
    caller: Address,
    bounty_id: u64,
    contributor: Address,
    now: u64,
) -> Outcome {
    if s.admin is None {
        Err(Error::NotInitialized)
    } else if s.paused {
        Err(Error::ContractPaused)
    } else {
        let admin = s.admin->0;
        match rate_decision(s.limiter, admin, now) {
            Err(_) => Err(Error::RateLimited),
            Ok(d) => if caller != admin {
                Err(Error::Unauthorized)
            } else if !s.escrows.contains_key(bounty_id) {
                Err(Error::BountyNotFound)
            } else if !(s.escrows[bounty_id].status is Locked) {
                Err(Error::FundsNotLocked)
            } else {
                let e = s.escrows[bounty_id];
                let fee = release_fee(s.fee_config, e.amount);
                Ok(
                    (
                        ContractModel {
                            limiter: apply_decision(s.limiter, admin, d),
                            escrows: s.escrows.insert(
                                bounty_id,
                                EscrowModel {
                                    status: EscrowStatus::Released,
                                    remaining_amount: 0,
                                    ..e
                                },
                            ),
                            ..s
                        },
                        payment(s.custody, contributor, e.amount - fee, s.fee_config.fee_recipient, fee),
                    ),
                )
            },
        }
    }
}

/// `approve_refund`: the admin allows one custom refund of `amount` to `recipient`,
/// replacing any earlier approval for the bounty.
pub open spec fn approve_outcome(
    s: ContractModel,
    caller: Address,
    bounty_id: u64,
    amount: i128,
    recipient: Address,
    mode: RefundMode,
    now: u64,
) -> Result<ContractModel, Error> {
    if let Some(e) = admin_error(s, caller) {
        Err(e)
    } else if !s.escrows.contains_key(bounty_id) {
        Err(Error::BountyNotFound)
    } else if !is_refundable(s.escrows[bounty_id].status) {
        Err(Error::FundsNotLocked)
    } else if amount <= 0 || amount > s.escrows[bounty_id].remaining_amount {
        Err(Error::InvalidAmount)
    } else {
        Ok(
            ContractModel {
                approvals: s.approvals.insert(
                    bounty_id,
                    RefundApproval {
                        bounty_id,
                        amount,
                        recipient,
                        mode,
                        approved_by: caller,
                        approved_at: now,
                    },
                ),
                ..s
            },
        )
    }
}

/// The last step of a refund, once amount and recipient are settled: checks the amount
/// and the custody balance, then records the refund.
pub open spec fn finish_refund(
    s: ContractModel,
    approvals: Map<u64, RefundApproval>,
    bounty_id: u64,
    refund_amount: i128,
    to: Address,
    mode: RefundMode,
    now: u64,
    custody_balance: i128,
) -> Outcome {
    let e = s.escrows[bounty_id];
    if refund_amount <= 0 || refund_amount > e.remaining_amount {
        Err(Error::InvalidAmount)
    } else if custody_balance < refund_amount {
        Err(Error::InsufficientFunds)
    } else {
        let rem = e.remaining_amount - refund_amount;
        Ok(
            (
                ContractModel {
                    escrows: s.escrows.insert(
                        bounty_id,
                        EscrowModel {
                            remaining_amount: rem as i128,
                            refund_history: e.refund_history.push(
                                RefundRecord { amount: refund_amount, recipient: to, mode, timestamp: now },
                            ),
                            status: if rem == 0 {
                                EscrowStatus::Refunded
                            } else {
                                EscrowStatus::PartiallyRefunded
                            },
                            ..e
                        },
                    ),
                    approvals,
                    ..s
                },
                seq![Transfer { from: s.custody, to, amount: refund_amount }],
            ),
        )
    }
}

/// `refund` in one of its three modes.
pub open spec fn refund_outcome(
    s: ContractModel,
    bounty_id: u64,
    amount: Option<i128>,
    recipient: Option<Address>,
    mode: RefundMode,
    now: u64,
    custody_balance: i128,
) -> Outcome {
    if s.paused {
        Err(Error::ContractPaused)
    } else if !s.escrows.contains_key(bounty_id) {
        Err(Error::BountyNotFound)
    } else if !is_refundable(s.escrows[bounty_id].status) {
        Err(Error::FundsNotLocked)
    } else {
        let e = s.escrows[bounty_id];
        let before = now < e.deadline;
        match mode {
            RefundMode::Full => if before {
                Err(Error::DeadlineNotPassed)
            } else {
                finish_refund(
                    s,
                    s.approvals,
                    bounty_id,
                    e.remaining_amount,
                    e.depositor,
                    mode,
                    now,
                    custody_balance,
                )
            },
            RefundMode::Partial => if before {
                Err(Error::DeadlineNotPassed)
            } else {
                finish_refund(
                    s,
                    s.approvals,
                    bounty_id,
                    match amount {
                        Some(a) => a,
                        None => e.remaining_amount,
                    },
                    e.depositor,
                    mode,
                    now,
                    custody_balance,
                )
            },
            RefundMode::Custom => match (amount, recipient) {
                (Some(a), Some(r)) => if before {
                    if !s.approvals.contains_key(bounty_id) {
                        Err(Error::RefundNotApproved)
                    } else if s.approvals[bounty_id].amount != a
                        || s.approvals[bounty_id].recipient != r
                        || s.approvals[bounty_id].mode != mode {
                        Err(Error::RefundNotApproved)
                    } else {
                        finish_refund(
                            s,
                            s.approvals.remove(bounty_id),
                            bounty_id,
                            a,
                            r,
                            mode,
                            now,
                            custody_balance,
                        )
                    }
                } else {
                    finish_refund(s, s.approvals, bounty_id, a, r, mode, now, custody_balance)
                },
                _ => Err(Error::InvalidAmount),
            },
        }
    }
}

/// Whether another item of a lock batch carries the bounty id of item `j`.
pub open spec fn lock_item_duplicated(items: Seq<LockFundsItem>, j: int) -> bool {
    exists|k: int| 0 <= k < items.len() && k != j && #[trigger] items[k].bounty_id == items[j].bounty_id
}

/// What is wrong with item `j` of a lock batch, if anything.
pub open spec fn lock_item_error(s: ContractModel, items: Seq<LockFundsItem>, now: u64, j: int) -> Option<Error> {
    let it = items[j];
    if s.escrows.contains_key(it.bounty_id) {
        Some(Error::BountyExists)
    } else if it.amount <= 0 {
        Some(Error::InvalidAmount)
    } else if it.deadline <= now {
        Some(Error::InvalidDeadline)
    } else if lock_item_duplicated(items, j) {
        Some(Error::DuplicateBountyId)
    } else {
        None
    }
}

/// The error of the first faulty item among the first `n` of a lock batch.
pub open spec fn first_lock_error(s: ContractModel, items: Seq<LockFundsItem>, now: u64, n: int) -> Option<Error>
    decreases n,
{
    if n <= 0 {
        None
    } else {
        match first_lock_error(s, items, now, n - 1) {
            Some(e) => Some(e),
            None => lock_item_error(s, items, now, n - 1),
        }
    }
}

/// The escrows after the first `n` items of a lock batch were locked.
pub open spec fn lock_all(escrows: Map<u64, EscrowModel>, items: Seq<LockFundsItem>, n: int) -> Map<u64, EscrowModel>
    decreases n,
{
    if n <= 0 {
        escrows
    } else {
        let it = items[n - 1];
        lock_all(escrows, items, n - 1).insert(
            it.bounty_id,
            new_escrow(it.depositor, it.amount as int, it.deadline, it.amount),
        )
    }
}

/// The transfers of a lock batch: each item's amount from its depositor to custody.
pub open spec fn lock_batch_transfers(custody: Address, items: Seq<LockFundsItem>) -> Seq<Transfer> {
    Seq::new(items.len(), |i: int| Transfer { from: items[i].depositor, to: custody, amount: items[i].amount })
}

/// `batch_lock_funds`: every item is checked before any is locked; one faulty item
/// fails the whole batch.
pub open spec fn batch_lock_outcome(s: ContractModel, items: Seq<LockFundsItem>, now: u64) -> Outcome {
    if items.len() == 0 || items.len() > MAX_BATCH_SIZE {
        Err(Error::InvalidBatchSize)
    } else if s.paused {
        Err(Error::ContractPaused)
    } else if s.admin is None {
        Err(Error::NotInitialized)
    } else {
        match first_lock_error(s, items, now, items.len() as int) {
            Some(e) => Err(e),
            None => Ok(
                (
                    ContractModel { escrows: lock_all(s.escrows, items, items.len() as int), ..s },
                    lock_batch_transfers(s.custody, items),
                ),
            ),
        }
    }
}

/// Whether another item of a release batch carries the bounty id of item `j`.
pub open spec fn release_item_duplicated(items: Seq<ReleaseFundsItem>, j: int) -> bool {
    exists|k: int| 0 <= k < items.len() && k != j && #[trigger] items[k].bounty_id == items[j].bounty_id
}

/// The sum of the escrowed amounts of the first `n` items of a release batch.
pub open spec fn release_sum(escrows: Map<u64, EscrowModel>, items: Seq<ReleaseFundsItem>, n: int) -> int
    decreases n,
{
    if n <= 0 {
        0
    } else {
        release_sum(escrows, items, n - 1) + escrows[items[n - 1].bounty_id].amount
    }
}

/// What is wrong with item `j` of a release batch, if anything; the running total of
/// the amounts must fit in an `i128`.
pub open spec fn release_item_error(s: ContractModel, items: Seq<ReleaseFundsItem>, j: int) -> Option<Error> {
    let id = items[j].bounty_id;
    if !s.escrows.contains_key(id) {
        Some(Error::BountyNotFound)
    } else if !(s.escrows[id].status is Locked) {
        Some(Error::FundsNotLocked)
    } else if release_item_duplicated(items, j) {
        Some(Error::DuplicateBountyId)
    } else if release_sum(s.escrows, items, j + 1) > i128::MAX {
        Some(Error::InvalidAmount)
    } else {
        None
    }
}

/// The error of the first faulty item among the first `n` of a release batch.
pub open spec fn first_release_error(s: ContractModel, items: Seq<ReleaseFundsItem>, n: int) -> Option<Error>
    decreases n,
{
    if n <= 0 {
        None
    } else {
        match first_release_error(s, items, n - 1) {
            Some(e) => Some(e),
            None => release_item_error(s, items, n - 1),
        }
    }
}

/// An escrow once released: nothing remains.
pub open spec fn released(e: EscrowModel) -> EscrowModel {
    EscrowModel { status: EscrowStatus::Released, remaining_amount: 0, ..e }
}

/// The escrows after the first `n` items of a release batch were released.
pub open spec fn release_all(escrows: Map<u64, EscrowModel>, items: Seq<ReleaseFundsItem>, n: int) -> Map<u64, EscrowModel>
    decreases n,
{
    if n <= 0 {
        escrows
    } else {
        let id = items[n - 1].bounty_id;
        release_all(escrows, items, n - 1).insert(id, released(escrows[id]))
    }
}

/// The transfers of a release batch: each escrowed amount from custody to its contributor.
pub open spec fn release_batch_transfers(s: ContractModel, items: Seq<ReleaseFundsItem>) -> Seq<Transfer> {
    Seq::new(
        items.len(),
        |i: int| Transfer { from: s.custody, to: items[i].contributor, amount: s.escrows[items[i].bounty_id].amount },
    )
}

/// `batch_release_funds` (admin only): every item is checked before any is released;
/// one faulty item fails the whole batch.
pub open spec fn batch_release_outcome(s: ContractModel, caller: Address, items: Seq<ReleaseFundsItem>) -> Outcome {
    if items.len() == 0 || items.len() > MAX_BATCH_SIZE {
        Err(Error::InvalidBatchSize)
    } else if s.paused {
        Err(Error::ContractPaused)
    } else if let Some(e) = admin_error(s, caller) {
        Err(e)
    } else {
        match first_release_error(s, items, items.len() as int) {
            Some(e) => Err(e),
            None => Ok(
                (
                    ContractModel { escrows: release_all(s.escrows, items, items.len() as int), ..s },
                    release_batch_transfers(s, items),
                ),
            ),
        }
    }
}

/// Among the first `n` items of a lock batch none is faulty exactly when the first
/// faulty one is not among them.
pub proof fn lemma_first_lock_error(s: ContractModel, items: Seq<LockFundsItem>, now: u64, n: int)
    requires
        0 <= n <= items.len(),
    ensures
        first_lock_error(s, items, now, n) is None <==> forall|j: int|
            0 <= j < n ==> #[trigger] lock_item_error(s, items, now, j) is None,
    decreases n,
{
    if n > 0 {
        lemma_first_lock_error(s, items, now, n - 1);
    }
}

/// The same for a release batch.
pub proof fn lemma_first_release_error(s: ContractModel, items: Seq<ReleaseFundsItem>, n: int)
    requires
        0 <= n <= items.len(),
    ensures
        first_release_error(s, items, n) is None <==> forall|j: int|
            0 <= j < n ==> #[trigger] release_item_error(s, items, j) is None,
    decreases n,
{
    if n > 0 {
        lemma_first_release_error(s, items, n - 1);
    }
}

/// Locking the first `n` items adds exactly their ids, each with a well-formed escrow
/// when its amount is positive, and leaves every other id as it was.
pub proof fn lemma_lock_all(escrows: Map<u64, EscrowModel>, items: Seq<LockFundsItem>, n: int, id: u64)
    requires
        0 <= n <= items.len(),
    ensures
        lock_all(escrows, items, n).contains_key(id) <==> (escrows.contains_key(id) || exists|k: int|
            0 <= k < n && #[trigger] items[k].bounty_id == id),
        (forall|k: int| 0 <= k < n ==> #[trigger] items[k].bounty_id != id) ==> lock_all(escrows, items, n).contains_key(id)
            == escrows.contains_key(id) && lock_all(escrows, items, n)[id] == escrows[id],
        (exists|k: int| 0 <= k < n && #[trigger] items[k].bounty_id == id) && (forall|k: int|
            0 <= k < n ==> #[trigger] items[k].amount > 0) ==> escrow_wf(lock_all(escrows, items, n)[id]),
    decreases n,
{
    if n > 0 {
        lemma_lock_all(escrows, items, n - 1, id);
        if items[n - 1].bounty_id != id {
            if exists|k: int| 0 <= k < n && #[trigger] items[k].bounty_id == id {
                let k = choose|k: int| 0 <= k < n && #[trigger] items[k].bounty_id == id;
                assert(k < n - 1);
            }
        }
    }
}

/// Releasing the first `n` items leaves every id that none of them carries as it was,
/// and releases every id that one of them carries.
pub proof fn lemma_release_all(escrows: Map<u64, EscrowModel>, items: Seq<ReleaseFundsItem>, n: int, id: u64)
    requires
        0 <= n <= items.len(),
    ensures
        (forall|k: int| 0 <= k < n ==> #[trigger] items[k].bounty_id != id) ==> release_all(escrows, items, n).contains_key(id)
            == escrows.contains_key(id) && release_all(escrows, items, n)[id] == escrows[id],
        (exists|k: int| 0 <= k < n && #[trigger] items[k].bounty_id == id) ==> release_all(escrows, items, n).contains_key(id)
            && release_all(escrows, items, n)[id] == released(escrows[id]),
    decreases n,
{
    if n > 0 {
        lemma_release_all(escrows, items, n - 1, id);
        if items[n - 1].bounty_id != id {
            if exists|k: int| 0 <= k < n && #[trigger] items[k].bounty_id == id {
                let k = choose|k: int| 0 <= k < n && #[trigger] items[k].bounty_id == id;
                assert(k < n - 1);
            }
        }
    }
}


/// Once an item of a lock batch is faulty, the batch fails with the first such error
/// however many items follow.
pub proof fn lemma_first_lock_error_stable(s: ContractModel, items: Seq<LockFundsItem>, now: u64, m: int, n: int)
    requires
        m <= n,
    ensures
        first_lock_error(s, items, now, m) is Some ==> first_lock_error(s, items, now, n) == first_lock_error(s, items, now, m),
    decreases n - m,
{
    if m < n {
        lemma_first_lock_error_stable(s, items, now, m, n - 1);
    }
}

/// The same for a release batch.
pub proof fn lemma_first_release_error_stable(s: ContractModel, items: Seq<ReleaseFundsItem>, m: int, n: int)
    requires
        m <= n,
    ensures
        first_release_error(s, items, m) is Some ==> first_release_error(s, items, n) == first_release_error(s, items, m),
    decreases n - m,
{
    if m < n {
        lemma_first_release_error_stable(s, items, m, n - 1);
    }
}

} // verus!

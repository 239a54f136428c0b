use vstd::prelude::*;
use crate::anti_abuse::rate_decision;
use crate::model::{
    batch_lock_outcome, batch_release_outcome,
    is_refundable, is_terminal, lemma_first_lock_error, lemma_first_release_error, lock_fee,
    lock_item_duplicated, lock_item_error, lock_outcome, refund_outcome, refunded_total,
    release_item_duplicated, release_item_error, release_outcome, transfer_total, ContractModel,
};
use crate::types::{Address, Error, LockFundsItem, RefundMode, ReleaseFundsItem, Transfer};

verus! {

/// What an escrow has given back so far is exactly what its amount lost:
/// `amount - remaining_amount == sum of the refund history`.
pub open spec fn conserved(e: crate::types::EscrowModel) -> bool {
    e.amount - e.remaining_amount == refunded_total(e.refund_history)
}

/// The refund history grows by one record.
proof fn lemma_refunded_total_push(h: Seq<crate::types::RefundRecord>, r: crate::types::RefundRecord)
    ensures
        refunded_total(h.push(r)) == refunded_total(h) + r.amount,
{
    assert(h.push(r).drop_last() =~= h);
}

/// The total of one or two transfers.
proof fn lemma_transfer_total_small(ts: Seq<Transfer>)
    ensures
        ts.len() == 0 ==> transfer_total(ts) == 0,
        ts.len() == 1 ==> transfer_total(ts) == ts[0].amount,
        ts.len() == 2 ==> transfer_total(ts) == ts[0].amount + ts[1].amount,
{
    reveal_with_fuel(transfer_total, 3);
    if ts.len() == 2 {
        assert(ts.drop_last() =~= seq![ts[0]]);
        assert(ts.drop_last().drop_last() =~= Seq::<Transfer>::empty());
    } else if ts.len() == 1 {
        assert(ts.drop_last() =~= Seq::<Transfer>::empty());
    }
}

/// Conservation under locking: a new escrow owes its whole gross amount, the transfers
/// take exactly that amount from the depositor (custody gets the net, the fee recipient
/// the fee), and with no lock fee the escrow starts conserved.
pub proof fn lemma_lock_conservation(
    s: ContractModel,
    depositor: Address,
    bounty_id: u64,
    amount: i128,
    deadline: u64,
    now: u64,
)
    requires
        s.wf(),
        lock_outcome(s, depositor, bounty_id, amount, deadline, now) is Ok,
    ensures
        ({
            let (s2, ts) = lock_outcome(s, depositor, bounty_id, amount, deadline, now)->Ok_0;
            let e = s2.escrows[bounty_id];
            &&& e.remaining_amount + refunded_total(e.refund_history) == amount
            &&& transfer_total(ts) == amount
            &&& forall|i: int| 0 <= i < ts.len() ==> #[trigger] ts[i].from == depositor
            &&& ts[0].to == s.custody && ts[0].amount == e.amount
            &&& lock_fee(s.fee_config, amount) == 0 ==> conserved(e)
            &&& forall|id: u64| id != bounty_id ==> (#[trigger] s2.escrows.contains_key(id) <==> s.escrows.contains_key(id))
            &&& forall|id: u64| id != bounty_id && s.escrows.contains_key(id) ==> #[trigger] s2.escrows[id] == s.escrows[id]
        }),
{
    let (s2, ts) = lock_outcome(s, depositor, bounty_id, amount, deadline, now)->Ok_0;
    crate::fee::lemma_fee_bounded(amount as int, s.fee_config.lock_fee_rate as int);
    lemma_transfer_total_small(ts);
}

/// Conservation under refunds: a refund moves value from what remains to the history
/// and nothing else; `amount` stays, so a conserved escrow stays conserved. The single
/// transfer pays the refunded amount out of custody. Other escrows are untouched.
pub proof fn lemma_refund_conservation(
    s: ContractModel,
    bounty_id: u64,
    amount: Option<i128>,
    recipient: Option<Address>,
    mode: RefundMode,
    now: u64,
    custody_balance: i128,
)
    requires
        s.wf(),
        refund_outcome(s, bounty_id, amount, recipient, mode, now, custody_balance) is Ok,
    ensures
        ({
            let (s2, ts) = refund_outcome(s, bounty_id, amount, recipient, mode, now, custody_balance)->Ok_0;
            let e = s.escrows[bounty_id];
            let e2 = s2.escrows[bounty_id];
            &&& e2.remaining_amount + refunded_total(e2.refund_history) == e.remaining_amount
                + refunded_total(e.refund_history)
            &&& e2.amount == e.amount
            &&& conserved(e) ==> conserved(e2)
            &&& ts.len() == 1 && ts[0].from == s.custody
            &&& transfer_total(ts) == refunded_total(e2.refund_history) - refunded_total(e.refund_history)
            &&& forall|id: u64| id != bounty_id ==> (#[trigger] s2.escrows.contains_key(id) <==> s.escrows.contains_key(id))
            &&& forall|id: u64| id != bounty_id && s.escrows.contains_key(id) ==> #[trigger] s2.escrows[id] == s.escrows[id]
        }),
{
    let (s2, ts) = refund_outcome(s, bounty_id, amount, recipient, mode, now, custody_balance)->Ok_0;
    let e = s.escrows[bounty_id];
    let e2 = s2.escrows[bounty_id];
    lemma_refunded_total_push(e.refund_history, e2.refund_history.last());
    assert(e2.refund_history =~= e.refund_history.push(e2.refund_history.last()));
    lemma_transfer_total_small(ts);
}

/// Conservation under release: the contributor and the fee recipient together receive
/// exactly the escrowed amount, out of custody; nothing remains afterwards.
pub proof fn lemma_release_conservation(
    s: ContractModel,
    caller: Address,
    bounty_id: u64,
    contributor: Address,
    now: u64,
)
    requires
        s.wf(),
        release_outcome(s, caller, bounty_id, contributor, now) is Ok,
    ensures
        ({
            let (s2, ts) = release_outcome(s, caller, bounty_id, contributor, now)->Ok_0;
            let e2 = s2.escrows[bounty_id];
            &&& transfer_total(ts) == s.escrows[bounty_id].amount
            &&& forall|i: int| 0 <= i < ts.len() ==> #[trigger] ts[i].from == s.custody
            &&& e2.status is Released && e2.remaining_amount == 0
            &&& e2.refund_history == s.escrows[bounty_id].refund_history
            &&& forall|id: u64| id != bounty_id ==> (#[trigger] s2.escrows.contains_key(id) <==> s.escrows.contains_key(id))
            &&& forall|id: u64| id != bounty_id && s.escrows.contains_key(id) ==> #[trigger] s2.escrows[id] == s.escrows[id]
        }),
{
    let (s2, ts) = release_outcome(s, caller, bounty_id, contributor, now)->Ok_0;
    let e = s.escrows[bounty_id];
    crate::fee::lemma_fee_bounded(e.amount as int, s.fee_config.release_fee_rate as int);
    lemma_transfer_total_small(ts);
}

/// Terminal states are final: on a released or refunded escrow every release and every
/// refund fails, with `FundsNotLocked` once the checks that come first have passed.
pub proof fn lemma_terminal_is_final(
    s: ContractModel,
    bounty_id: u64,
    caller: Address,
    contributor: Address,
    amount: Option<i128>,
    recipient: Option<Address>,
    mode: RefundMode,
    now: u64,
    custody_balance: i128,
)
    requires
        s.wf(),
        s.escrows.contains_key(bounty_id),
        is_terminal(s.escrows[bounty_id].status),
    ensures
        release_outcome(s, caller, bounty_id, contributor, now) is Err,
        refund_outcome(s, bounty_id, amount, recipient, mode, now, custody_balance) is Err,
        !s.paused ==> refund_outcome(s, bounty_id, amount, recipient, mode, now, custody_balance)
            == Err::<(ContractModel, Seq<Transfer>), Error>(Error::FundsNotLocked),
        !s.paused && s.admin == Some(caller) && rate_decision(s.limiter, caller, now) is Ok ==> release_outcome(
            s,
            caller,
            bounty_id,
            contributor,
            now,
        ) == Err::<(ContractModel, Seq<Transfer>), Error>(Error::FundsNotLocked),
{
}

/// Bounty ids are never reused: locking an id that has an escrow fails, with
/// `BountyExists` once the checks that come first have passed, and a batch that holds
/// such an id fails as a whole.
pub proof fn lemma_lock_existing_fails(
    s: ContractModel,
    depositor: Address,
    bounty_id: u64,
    amount: i128,
    deadline: u64,
    now: u64,
    items: Seq<LockFundsItem>,
)
    requires
        s.wf(),
        s.escrows.contains_key(bounty_id),
    ensures
        lock_outcome(s, depositor, bounty_id, amount, deadline, now) is Err,
        rate_decision(s.limiter, depositor, now) is Ok && !s.paused && amount > 0 && deadline > now
            ==> lock_outcome(s, depositor, bounty_id, amount, deadline, now)
            == Err::<(ContractModel, Seq<Transfer>), Error>(Error::BountyExists),
        (exists|k: int| 0 <= k < items.len() && #[trigger] items[k].bounty_id == bounty_id)
            ==> batch_lock_outcome(s, items, now) is Err,
{
    if exists|k: int| 0 <= k < items.len() && #[trigger] items[k].bounty_id == bounty_id {
        let k = choose|k: int| 0 <= k < items.len() && #[trigger] items[k].bounty_id == bounty_id;
        assert(lock_item_error(s, items, now, k) is Some);
        lemma_first_lock_error(s, items, now, items.len() as int);
    }
}

/// After a lock succeeds, through either path, its bounty ids have escrows; so
/// locking any of them again, alone or in a batch, fails.
pub proof fn lemma_locked_ids_exist(
    s: ContractModel,
    depositor: Address,
    bounty_id: u64,
    amount: i128,
    deadline: u64,
    now: u64,
    items: Seq<LockFundsItem>,
)
    ensures
        lock_outcome(s, depositor, bounty_id, amount, deadline, now) is Ok ==> lock_outcome(s, depositor, bounty_id, amount, deadline, now)->Ok_0.0.escrows.contains_key(bounty_id),
        batch_lock_outcome(s, items, now) is Ok ==> forall|k: int| 0 <= k < items.len() ==>
            batch_lock_outcome(s, items, now)->Ok_0.0.escrows.contains_key(#[trigger] items[k].bounty_id),
{
    if batch_lock_outcome(s, items, now) is Ok {
        assert forall|k: int| 0 <= k < items.len() implies batch_lock_outcome(s, items, now)->Ok_0.0.escrows.contains_key(#[trigger] items[k].bounty_id) by {
            crate::model::lemma_lock_all(s.escrows, items, items.len() as int, items[k].bounty_id);
        }
    }
}

/// Deadline gating: a `Full` or `Partial` refund of a live escrow fails with
/// `DeadlineNotPassed` before the deadline, and from the deadline on it succeeds whenever
/// the amount it asks for is positive, within what remains, and covered by custody.
pub proof fn lemma_deadline_gating(
    s: ContractModel,
    bounty_id: u64,
    amount: Option<i128>,
    mode: RefundMode,
    now: u64,
    custody_balance: i128,
)
    requires
        s.wf(),
        !s.paused,
        s.escrows.contains_key(bounty_id),
        is_refundable(s.escrows[bounty_id].status),
        mode is Full || mode is Partial,
    ensures
        ({
            let e = s.escrows[bounty_id];
            let asked = if mode is Full {
                e.remaining_amount
            } else {
                match amount {
                    Some(a) => a,
                    None => e.remaining_amount,
                }
            };
            &&& now < e.deadline ==> refund_outcome(s, bounty_id, amount, None, mode, now, custody_balance)
                == Err::<(ContractModel, Seq<Transfer>), Error>(Error::DeadlineNotPassed)
            &&& now >= e.deadline && 0 < asked <= e.remaining_amount && custody_balance >= asked
                ==> refund_outcome(s, bounty_id, amount, None, mode, now, custody_balance) is Ok
        }),
{
}

/// Approvals are single-use: a custom refund before the deadline succeeds only on a
/// live approval that matches it exactly, consumes that approval, and the same refund
/// asked for again before the deadline then fails.
pub proof fn lemma_approval_single_use(
    s: ContractModel,
    bounty_id: u64,
    amount: i128,
    recipient: Address,
    now: u64,
    custody_balance: i128,
    later: u64,
    later_balance: i128,
)
    requires
        s.wf(),
        s.escrows.contains_key(bounty_id),
        now < s.escrows[bounty_id].deadline,
        later < s.escrows[bounty_id].deadline,
        refund_outcome(s, bounty_id, Some(amount), Some(recipient), RefundMode::Custom, now, custody_balance) is Ok,
    ensures
        s.approvals.contains_key(bounty_id),
        s.approvals[bounty_id].amount == amount,
        s.approvals[bounty_id].recipient == recipient,
        s.approvals[bounty_id].mode == RefundMode::Custom,
        ({
            let s2 = refund_outcome(s, bounty_id, Some(amount), Some(recipient), RefundMode::Custom, now, custody_balance)->Ok_0.0;
            &&& !s2.approvals.contains_key(bounty_id)
            &&& refund_outcome(s2, bounty_id, Some(amount), Some(recipient), RefundMode::Custom, later, later_balance) is Err
        }),
{
}

/// Batch atomicity for locks: one faulty item (an id that exists or repeats, an amount
/// that is not positive, a deadline that is not in the future) fails the whole batch.
pub proof fn lemma_batch_lock_atomic(s: ContractModel, items: Seq<LockFundsItem>, now: u64, j: int)
    requires
        0 <= j < items.len(),
        s.escrows.contains_key(items[j].bounty_id) || items[j].amount <= 0 || items[j].deadline <= now
            || lock_item_duplicated(items, j),
    ensures
        batch_lock_outcome(s, items, now) is Err,
{
    assert(lock_item_error(s, items, now, j) is Some);
    lemma_first_lock_error(s, items, now, items.len() as int);
}

/// Batch atomicity for releases: one faulty item (an id without an escrow, an escrow
/// that is not locked, a repeated id) fails the whole batch.
pub proof fn lemma_batch_release_atomic(s: ContractModel, caller: Address, items: Seq<ReleaseFundsItem>, j: int)
    requires
        0 <= j < items.len(),
        !s.escrows.contains_key(items[j].bounty_id) || !(s.escrows[items[j].bounty_id].status is Locked)
            || release_item_duplicated(items, j),
    ensures
        batch_release_outcome(s, caller, items) is Err,
{
    assert(release_item_error(s, items, j) is Some);
    lemma_first_release_error(s, items, items.len() as int);
}

/// One call on a bounty, as part of a run of calls.
pub enum EscrowCall {
    Lock { depositor: Address, amount: i128, deadline: u64, now: u64 },
    Release { caller: Address, contributor: Address, now: u64 },
    Refund {
        amount: Option<i128>,
        recipient: Option<Address>,
        mode: RefundMode,
        now: u64,
        custody_balance: i128,
    },
}

/// The state after `c` on `bounty_id`: the next state if the call succeeds, the same
/// state if it fails.
pub open spec fn apply_call(s: ContractModel, bounty_id: u64, c: EscrowCall) -> ContractModel {
    let o = match c {
        EscrowCall::Lock { depositor, amount, deadline, now } => lock_outcome(
            s,
            depositor,
            bounty_id,
            amount,
            deadline,
            now,
        ),
        EscrowCall::Release { caller, contributor, now } => release_outcome(
            s,
            caller,
            bounty_id,
            contributor,
            now,
        ),
        EscrowCall::Refund { amount, recipient, mode, now, custody_balance } => refund_outcome(
            s,
            bounty_id,
            amount,
            recipient,
            mode,
            now,
            custody_balance,
        ),
    };
    match o {
        Ok((s2, _)) => s2,
        Err(_) => s,
    }
}

/// The state after the calls, in order, on `bounty_id`.
pub open spec fn run_calls(s: ContractModel, bounty_id: u64, calls: Seq<EscrowCall>) -> ContractModel
    decreases calls.len(),
{
    if calls.len() == 0 {
        s
    } else {
        apply_call(run_calls(s, bounty_id, calls.drop_last()), bounty_id, calls.last())
    }
}

/// The escrow of `bounty_id`, unless absent or released, is conserved.
pub open spec fn accounted(s: ContractModel, bounty_id: u64) -> bool {
    s.escrows.contains_key(bounty_id) && !(s.escrows[bounty_id].status is Released) ==> conserved(
        s.escrows[bounty_id],
    )
}

/// One call keeps an escrow accounted for while locking costs no fee.
proof fn lemma_call_keeps_accounted(s: ContractModel, bounty_id: u64, c: EscrowCall)
    requires
        accounted(s, bounty_id),
        !s.fee_config.fee_enabled || s.fee_config.lock_fee_rate == 0,
    ensures
        accounted(apply_call(s, bounty_id, c), bounty_id),
        apply_call(s, bounty_id, c).fee_config == s.fee_config,
{
    match c {
        EscrowCall::Refund { amount, recipient, mode, now, custody_balance } => {
            let o = refund_outcome(s, bounty_id, amount, recipient, mode, now, custody_balance);
            if o is Ok {
                let e = s.escrows[bounty_id];
                let e2 = o->Ok_0.0.escrows[bounty_id];
                lemma_refunded_total_push(e.refund_history, e2.refund_history.last());
                assert(e2.refund_history =~= e.refund_history.push(e2.refund_history.last()));
            }
        },
        _ => {},
    }
}

/// Conservation over any run of lock, release and refund calls on one bounty: while
/// locking costs no fee, at every point the escrow, once locked and until released,
/// has given back exactly what its amount lost (`amount - remaining_amount` equals
/// the sum of its refund history).
pub proof fn lemma_conservation_over_calls(s: ContractModel, bounty_id: u64, calls: Seq<EscrowCall>)
    requires
        accounted(s, bounty_id),
        !s.fee_config.fee_enabled || s.fee_config.lock_fee_rate == 0,
    ensures
        accounted(run_calls(s, bounty_id, calls), bounty_id),
        run_calls(s, bounty_id, calls).fee_config == s.fee_config,
    decreases calls.len(),
{
    if calls.len() > 0 {
        lemma_conservation_over_calls(s, bounty_id, calls.drop_last());
        lemma_call_keeps_accounted(run_calls(s, bounty_id, calls.drop_last()), bounty_id, calls.last());
    }
}

/// Terminal states are final over any run: once the escrow of `bounty_id` is released
/// or refunded, every later lock, release or refund call on it fails, so the state
/// stays as it is.
pub proof fn lemma_terminal_over_calls(s: ContractModel, bounty_id: u64, calls: Seq<EscrowCall>)
    requires
        s.escrows.contains_key(bounty_id),
        is_terminal(s.escrows[bounty_id].status),
    ensures
        run_calls(s, bounty_id, calls) == s,
    decreases calls.len(),
{
    if calls.len() > 0 {
        lemma_terminal_over_calls(s, bounty_id, calls.drop_last());
    }
}

} // verus!

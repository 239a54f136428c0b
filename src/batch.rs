use vstd::prelude::*;
use crate::escrow::BountyEscrowContract;
use crate::model::{
    batch_lock_outcome, batch_release_outcome, escrow_wf, first_lock_error, first_release_error,
    lemma_first_lock_error, lemma_first_release_error, lemma_lock_all, lemma_release_all,
    lock_all, lock_batch_transfers, lock_item_duplicated, release_all, release_batch_transfers,
    release_item_duplicated, release_sum, released, ContractModel, MAX_BATCH_SIZE,
};
use crate::types::{
    Address, Error, Escrow, EscrowStatus, LockFundsItem, ReleaseFundsItem, Transfer,
};

verus! {

broadcast use vstd::std_specs::hash::group_hash_axioms;

/// The depositors of a batch, each once, in the order of their first item: the
/// addresses whose authorization a batch lock needs.
pub fn distinct_depositors(items: &Vec<LockFundsItem>) -> (r: Vec<Address>)
    ensures
        r@.no_duplicates(),
        forall|a: Address| r@.contains(a) <==> exists|k: int| 0 <= k < items@.len() && #[trigger] items@[k].depositor == a,
{
    let mut seen: Vec<Address> = Vec::new();
    let mut i: usize = 0;
    while i < items.len()
        invariant
            i <= items@.len(),
            seen@.no_duplicates(),
            forall|a: Address| seen@.contains(a) <==> exists|k: int| 0 <= k < i && #[trigger] items@[k].depositor == a,
        decreases items@.len() - i,
    {
        let d = items[i].depositor;
        let mut found = false;
        let mut j: usize = 0;
        while j < seen.len()
            invariant
                j <= seen@.len(),
                found <==> exists|m: int| 0 <= m < j && seen@[m] == d,
            decreases seen@.len() - j,
        {
            if seen[j] == d {
                found = true;
            }
            j += 1;
        }
        let ghost before = seen@;
        if !found {
            seen.push(d);
        }
        proof {
            assert(found <==> before.contains(d));
            assert forall|a: Address| seen@.contains(a) <==> exists|k: int| 0 <= k < i + 1 && #[trigger] items@[k].depositor == a by {
                if a == d {
                    assert(items@[i as int].depositor == a);
                    if !found {
                        assert(seen@[seen@.len() - 1] == d);
                    }
                } else {
                    if seen@.contains(a) {
                        let m = choose|m: int| 0 <= m < seen@.len() && seen@[m] == a;
                        assert(before[m] == a);
                        assert(before.contains(a));
                    }
                    if before.contains(a) {
                        let m = choose|m: int| 0 <= m < before.len() && before[m] == a;
                        assert(seen@[m] == a);
                    }
                    if exists|k: int| 0 <= k < i + 1 && #[trigger] items@[k].depositor == a {
                        let k = choose|k: int| 0 <= k < i + 1 && #[trigger] items@[k].depositor == a;
                        assert(k < i);
                    }
                }
            }
        }
        i += 1;
    }
    seen
}

impl BountyEscrowContract {
    /// The first faulty item of a lock batch, if any.
    fn validate_lock_batch(&self, items: &Vec<LockFundsItem>, now: u64) -> (r: Option<Error>)
        ensures
            r == first_lock_error(self@, items@, now, items@.len() as int),
    {
        let mut j: usize = 0;
        while j < items.len()
            invariant
                j <= items@.len(),
                first_lock_error(self@, items@, now, j as int) is None,
            decreases items@.len() - j,
        {
            let it = items[j];
            proof {
                crate::model::lemma_first_lock_error_stable(self@, items@, now, j as int + 1, items@.len() as int);
            }
            if self.escrows.contains_key(&it.bounty_id) {
                return Some(Error::BountyExists);
            }
            if it.amount <= 0 {
                return Some(Error::InvalidAmount);
            }
            if it.deadline <= now {
                return Some(Error::InvalidDeadline);
            }
            let mut dup = false;
            let mut k: usize = 0;
            while k < items.len()
                invariant
                    k <= items@.len(),
                    j < items@.len(),
                    it == items@[j as int],
                    dup <==> exists|m: int| 0 <= m < k && m != j && #[trigger] items@[m].bounty_id == items@[j as int].bounty_id,
                decreases items@.len() - k,
            {
                if k != j && items[k].bounty_id == it.bounty_id {
                    dup = true;
                    assert(items@[k as int].bounty_id == items@[j as int].bounty_id);
                }
                k += 1;
            }
            assert(dup == lock_item_duplicated(items@, j as int));
            if dup {
                return Some(Error::DuplicateBountyId);
            }
            j += 1;
        }
        None
    }

    /// Locks every item of a batch, or none: all items are checked first (no existing
    /// or repeated bounty id, positive amount, deadline in the future). Batch locks take
    /// no fee. Returns the number of escrows created and the transfers to carry out.
    pub fn batch_lock_funds(&mut self, items: &Vec<LockFundsItem>, now: u64) -> (r: Result<(u32, Vec<Transfer>), Error>)
        requires
            old(self).wf(),
        ensures
            final(self).wf(),
            match r {
                Ok((count, ts)) => count == items@.len() && batch_lock_outcome(old(self)@, items@, now) == Ok::<(ContractModel, Seq<Transfer>), Error>((final(self)@, ts@)),
                Err(e) => batch_lock_outcome(old(self)@, items@, now) == Err::<(ContractModel, Seq<Transfer>), Error>(e) && final(self)@ == old(self)@,
            },
    {
        let n = items.len();
        if n == 0 || n > MAX_BATCH_SIZE {
            return Err(Error::InvalidBatchSize);
        }
        if self.paused {
            return Err(Error::ContractPaused);
        }
        if self.admin.is_none() {
            return Err(Error::NotInitialized);
        }
        if let Some(e) = self.validate_lock_batch(items, now) {
            return Err(e);
        }
        let ghost s0 = self@;
        proof {
            lemma_first_lock_error(s0, items@, now, n as int);
        }
        self.acquire_guard();
        let mut transfers: Vec<Transfer> = Vec::new();
        let mut i: usize = 0;
        while i < n
            invariant
                n == items@.len(),
                i <= n,
                self.reentrancy_guard,
                self@ == (ContractModel { escrows: lock_all(s0.escrows, items@, i as int), ..s0 }),
                transfers@ =~= lock_batch_transfers(s0.custody, items@).subrange(0, i as int),
            decreases n - i,
        {
            let it = items[i];
            let escrow = Escrow {
                depositor: it.depositor,
                amount: it.amount,
                status: EscrowStatus::Locked,
                deadline: it.deadline,
                refund_history: Vec::new(),
                remaining_amount: it.amount,
            };
            let ghost before = self.escrows@;
            self.escrows.insert(it.bounty_id, escrow);
            proof {
                assert(self.escrows@.map_values(|e: Escrow| e@) =~= before.map_values(|e: Escrow| e@).insert(it.bounty_id, escrow@));
            }
            transfers.push(Transfer { from: it.depositor, to: self.custody, amount: it.amount });
            i += 1;
        }
        self.release_guard();
        proof {
            assert(transfers@ =~= lock_batch_transfers(s0.custody, items@));
            assert forall|id: u64| #[trigger] self@.escrows.contains_key(id) implies escrow_wf(self@.escrows[id]) by {
                lemma_lock_all(s0.escrows, items@, n as int, id);
                if !s0.escrows.contains_key(id) {
                    let k = choose|k: int| 0 <= k < n && #[trigger] items@[k].bounty_id == id;
                    assert forall|m: int| 0 <= m < n implies #[trigger] items@[m].amount > 0 by {
                        assert(crate::model::lock_item_error(s0, items@, now, m) is None);
                    }
                } else {
                    assert forall|m: int| 0 <= m < n implies #[trigger] items@[m].bounty_id != id by {
                        assert(crate::model::lock_item_error(s0, items@, now, m) is None);
                    }
                }
            }
        }
        Ok((n as u32, transfers))
    }

    /// The first faulty item of a release batch, if any.
    fn validate_release_batch(&self, items: &Vec<ReleaseFundsItem>) -> (r: Option<Error>)
        requires
            self.wf(),
        ensures
            r == first_release_error(self@, items@, items@.len() as int),
    {
        let mut total: i128 = 0;
        let mut j: usize = 0;
        while j < items.len()
            invariant
                self.wf(),
                j <= items@.len(),
                first_release_error(self@, items@, j as int) is None,
                total == release_sum(self@.escrows, items@, j as int),
                total >= 0,
            decreases items@.len() - j,
        {
            let it = items[j];
            proof {
                crate::model::lemma_first_release_error_stable(self@, items@, j as int + 1, items@.len() as int);
            }
            let (amount, status) = match self.escrows.get(&it.bounty_id) {
                None => return Some(Error::BountyNotFound),
                Some(e) => (e.amount, e.status),
            };
            if status != EscrowStatus::Locked {
                return Some(Error::FundsNotLocked);
            }
            let mut dup = false;
            let mut k: usize = 0;
            while k < items.len()
                invariant
                    k <= items@.len(),
                    j < items@.len(),
                    it == items@[j as int],
                    dup <==> exists|m: int| 0 <= m < k && m != j && #[trigger] items@[m].bounty_id == items@[j as int].bounty_id,
                decreases items@.len() - k,
            {
                if k != j && items[k].bounty_id == it.bounty_id {
                    dup = true;
                    assert(items@[k as int].bounty_id == items@[j as int].bounty_id);
                }
                k += 1;
            }
            assert(dup == release_item_duplicated(items@, j as int));
            if dup {
                return Some(Error::DuplicateBountyId);
            }
            total = match total.checked_add(amount) {
                Some(t) => t,
                None => return Some(Error::InvalidAmount),
            };
            j += 1;
        }
        None
    }

    /// Releases every item of a batch to its contributor, or none (admin only): all items
    /// are checked first (existing, locked, no repeated bounty id). Batch releases take no
    /// fee. Returns the number of escrows released and the transfers to carry out.
    pub fn batch_release_funds(&mut self, caller: Address, items: &Vec<ReleaseFundsItem>) -> (r: Result<(u32, Vec<Transfer>), Error>)
        requires
            old(self).wf(),
        ensures
            final(self).wf(),
            match r {
                Ok((count, ts)) => count == items@.len() && batch_release_outcome(old(self)@, caller, items@) == Ok::<(ContractModel, Seq<Transfer>), Error>((final(self)@, ts@)),
                Err(e) => batch_release_outcome(old(self)@, caller, items@) == Err::<(ContractModel, Seq<Transfer>), Error>(e) && final(self)@ == old(self)@,
            },
    {
        let n = items.len();
        if n == 0 || n > MAX_BATCH_SIZE {
            return Err(Error::InvalidBatchSize);
        }
        if self.paused {
            return Err(Error::ContractPaused);
        }
        match self.admin {
            None => return Err(Error::NotInitialized),
            Some(a) => if a != caller {
                return Err(Error::Unauthorized);
            },
        }
        if let Some(e) = self.validate_release_batch(items) {
            return Err(e);
        }
        let ghost s0 = self@;
        proof {
            lemma_first_release_error(s0, items@, n as int);
        }
        self.acquire_guard();
        let mut transfers: Vec<Transfer> = Vec::new();
        let mut i: usize = 0;
        while i < n
            invariant
                n == items@.len(),
                i <= n,
                self.reentrancy_guard,
                self@ == (ContractModel { escrows: release_all(s0.escrows, items@, i as int), ..s0 }),
                transfers@ =~= release_batch_transfers(s0, items@).subrange(0, i as int),
                forall|j: int| 0 <= j < n ==> (#[trigger] crate::model::release_item_error(s0, items@, j)) is None,
            decreases n - i,
        {
            let it = items[i];
            let ghost before = self.escrows@;
            proof {
                lemma_release_all(s0.escrows, items@, i as int, it.bounty_id);
                assert(crate::model::release_item_error(s0, items@, i as int) is None);
                assert forall|k: int| 0 <= k < i implies #[trigger] items@[k].bounty_id != it.bounty_id by {
                    assert(!release_item_duplicated(items@, i as int));
                }
            }
            let mut escrow = match self.escrows.remove(&it.bounty_id) {
                Some(e) => e,
                None => {
                    proof {
                        assert(false);
                    }
                    return Err(Error::BountyNotFound);
                },
            };
            let amount = escrow.amount;
            escrow.status = EscrowStatus::Released;
            escrow.remaining_amount = 0;
            let ghost new_model = escrow@;
            self.escrows.insert(it.bounty_id, escrow);
            proof {
                assert(new_model == released(s0.escrows[it.bounty_id]));
                assert(self.escrows@ =~= before.insert(it.bounty_id, self.escrows@[it.bounty_id]));
                assert(self.escrows@.map_values(|e: Escrow| e@) =~= before.map_values(|e: Escrow| e@).insert(it.bounty_id, new_model));
            }
            transfers.push(Transfer { from: self.custody, to: it.contributor, amount });
            i += 1;
        }
        self.release_guard();
        proof {
            assert(transfers@ =~= release_batch_transfers(s0, items@));
            assert forall|id: u64| #[trigger] self@.escrows.contains_key(id) implies escrow_wf(self@.escrows[id]) by {
                lemma_release_all(s0.escrows, items@, n as int, id);
                if exists|k: int| 0 <= k < n && #[trigger] items@[k].bounty_id == id {
                    let k = choose|k: int| 0 <= k < n && #[trigger] items@[k].bounty_id == id;
                    assert(crate::model::release_item_error(s0, items@, k) is None);
                }
            }
        }
        Ok((n as u32, transfers))
    }
}

} // verus!

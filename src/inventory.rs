//! The inventory ledger: for each commodity the quantity held and the unit
//! cost it was last bought at.

use vstd::prelude::*;

use crate::drugs::{lemma_at_index, lemma_index_bijective, Drug, DRUG_COUNT};

verus! {

/// Why a removal from the ledger failed.
#[derive(Debug, PartialEq, Eq, Structural)]
pub enum InventoryError {
    /// The ledger holds less of the commodity than was asked for.
    InsufficientAmount,
    /// The ledger has no entry for the commodity.
    DrugNotFound,
}

/// A quantity held of one commodity.
#[derive(Debug, Clone, Copy)]
pub struct Amount(u32);

/// The unit cost recorded for one commodity.
#[derive(Debug, Clone, Copy)]
pub struct Cost(u32);

impl View for Amount {
    type V = u32;

    closed spec fn view(&self) -> u32 {
        self.0
    }
}

impl View for Cost {
    type V = u32;

    closed spec fn view(&self) -> u32 {
        self.0
    }
}

impl Amount {
    pub fn new(value: u32) -> (r: Self)
        ensures
            r@ == value,
    {
        Amount(value)
    }

    pub fn add(&mut self, value: u32)
        requires
            old(self)@ + value <= u32::MAX,
        ensures
            final(self)@ == old(self)@ + value,
    {
        self.0 = self.0 + value;
    }

    /// Takes `value` away if at least that much is held; reports whether it did.
    pub fn sub(&mut self, value: u32) -> (r: bool)
        ensures
            r == (old(self)@ >= value),
            r ==> final(self)@ == old(self)@ - value,
            !r ==> final(self)@ == old(self)@,
    {
        if self.0 >= value {
            self.0 = self.0 - value;
            true
        } else {
            false
        }
    }

    pub fn get(&self) -> (r: u32)
        ensures
            r == self@,
    {
        self.0
    }
}

impl Cost {
    pub fn new(value: u32) -> (r: Self)
        ensures
            r@ == value,
    {
        Cost(value)
    }

    pub fn get(&self) -> (r: u32)
        ensures
            r == self@,
    {
        self.0
    }
}

/// One call on the ledger: `add(drug, amount, cost)` or `remove(drug, amount)`.
pub enum LedgerOp {
    Add(Drug, u32, u32),
    Remove(Drug, u32),
}

/// Quantity and unit cost per commodity. A commodity that was never added
/// has no entry at all, which is told apart from an entry of quantity zero.
#[derive(Debug, Clone, Copy)]
pub struct Inventory {
    items: [Option<(Amount, Cost)>; 7],
}

impl View for Inventory {
    type V = Map<Drug, (u32, u32)>;

    /// Each commodity with an entry, mapped to its (quantity, unit cost).
    closed spec fn view(&self) -> Map<Drug, (u32, u32)> {
        Map::new(
            |d: Drug| self.items@[d.index()] is Some,
            |d: Drug| ((self.items@[d.index()]->0).0@, (self.items@[d.index()]->0).1@),
        )
    }
}

impl Inventory {
    /// Quantity held of `d`; zero where there is no entry.
    pub open spec fn amount_of(self, d: Drug) -> nat {
        if self@.contains_key(d) {
            self@[d].0 as nat
        } else {
            0
        }
    }

    /// Whether some commodity is held in a positive quantity.
    pub open spec fn holds_any(self) -> bool {
        exists|d: Drug| self@.contains_key(d) && #[trigger] self@[d].0 > 0
    }

    /// `after` is the ledger that `add(drug, amount, cost)` leaves.
    pub open spec fn add_post(self, drug: Drug, amount: u32, cost: u32, after: Inventory) -> bool {
        if amount == 0 {
            after@ == self@
        } else {
            after@ == self@.insert(drug, ((self.amount_of(drug) + amount) as u32, cost))
        }
    }

    /// A removal of `amount` of `drug` goes through: it has an entry holding
    /// at least that much.
    pub open spec fn remove_ok(self, drug: Drug, amount: u32) -> bool {
        self@.contains_key(drug) && self@[drug].0 >= amount
    }

    /// `after` is the ledger that `remove(drug, amount)` leaves: the quantity
    /// drops where the removal goes through, and nothing changes otherwise.
    pub open spec fn remove_post(self, drug: Drug, amount: u32, after: Inventory) -> bool {
        if self.remove_ok(drug, amount) {
            after@ == self@.insert(drug, ((self@[drug].0 - amount) as u32, self@[drug].1))
        } else {
            after@ == self@
        }
    }

    /// `after` is the ledger that performing `op` on `self` leaves, where the
    /// step is allowed.
    pub open spec fn step(self, op: LedgerOp, after: Inventory) -> bool {
        match op {
            LedgerOp::Add(d, a, c) => self.amount_of(d) + a <= u32::MAX && self.add_post(
                d,
                a,
                c,
                after,
            ),
            LedgerOp::Remove(d, a) => self.remove_post(d, a, after),
        }
    }

    /// An empty ledger.
    pub fn new() -> (r: Self)
        ensures
            r@ == Map::<Drug, (u32, u32)>::empty(),
    {
        let r = Inventory { items: [None; 7] };
        assert(r@ =~= Map::<Drug, (u32, u32)>::empty()) by {
            assert forall|d: Drug| !r@.contains_key(d) by {
                lemma_index_bijective(d);
            }
        }
        r
    }

    /// Adds `amount` of `drug` and records `cost` as its unit cost, replacing
    /// any cost recorded before. Adding nothing leaves the ledger as it is.
    pub fn add(&mut self, drug: Drug, amount: u32, cost: u32)
        requires
            old(self).amount_of(drug) + amount <= u32::MAX,
        ensures
            old(self).add_post(drug, amount, cost, *final(self)),
    {
        proof {
            lemma_index_bijective(drug);
        }
        if amount == 0 {
            return;
        }
        let i = drug.as_index();
        let held: u32 = match self.items[i] {
            Some((a, _)) => a.get(),
            None => 0,
        };
        let ghost before = *self;
        self.items[i] = Some((Amount::new(held + amount), Cost::new(cost)));
        proof {
            assert forall|d: Drug| d != drug implies #[trigger] self.items@[d.index()]
                == before.items@[d.index()] by {
                lemma_index_bijective(d);
            }
            assert(self@ =~= before@.insert(drug, ((before.amount_of(drug) + amount) as u32, cost)));
        }
    }

    /// Takes `amount` of `drug` out of the ledger. The recorded cost stays,
    /// also where the quantity drops to zero: see `reset_cost`.
    pub fn remove(&mut self, drug: Drug, amount: u32) -> (r: Result<(), InventoryError>)
        ensures
            !old(self)@.contains_key(drug) ==> r == Err::<(), InventoryError>(
                InventoryError::DrugNotFound,
            ),
            old(self)@.contains_key(drug) && old(self)@[drug].0 < amount ==> r == Err::<
                (),
                InventoryError,
            >(InventoryError::InsufficientAmount),
            r is Ok <==> old(self).remove_ok(drug, amount),
            old(self).remove_post(drug, amount, *final(self)),
    {
        proof {
            lemma_index_bijective(drug);
        }
        let i = drug.as_index();
        match self.items[i] {
            None => Err(InventoryError::DrugNotFound),
            Some((a, c)) => {
                let mut a = a;
                if a.sub(amount) {
                    let ghost before = *self;
                    self.items[i] = Some((a, c));
                    proof {
                        assert forall|d: Drug| d != drug implies #[trigger] self.items@[d.index()]
                            == before.items@[d.index()] by {
                            lemma_index_bijective(d);
                        }
                        assert(self@ =~= before@.insert(
                            drug,
                            ((before@[drug].0 - amount) as u32, before@[drug].1),
                        ));
                    }
                    Ok(())
                } else {
                    Err(InventoryError::InsufficientAmount)
                }
            },
        }
    }

    /// Quantity held of `drug`, if it has an entry.
    pub fn get_amount(&self, drug: Drug) -> (r: Option<u32>)
        ensures
            r == (if self@.contains_key(drug) {
                Some(self@[drug].0)
            } else {
                None
            }),
    {
        match self.items[drug.as_index()] {
            Some((a, _)) => Some(a.get()),
            None => None,
        }
    }

    /// Unit cost recorded for `drug`, if it has an entry.
    pub fn get_cost(&self, drug: Drug) -> (r: Option<u32>)
        ensures
            r == (if self@.contains_key(drug) {
                Some(self@[drug].1)
            } else {
                None
            }),
    {
        match self.items[drug.as_index()] {
            Some((_, c)) => Some(c.get()),
            None => None,
        }
    }

    /// Sets the recorded cost of `drug` to zero, keeping its quantity.
    pub fn reset_cost(&mut self, drug: Drug)
        ensures
            old(self)@.contains_key(drug) ==> final(self)@ == old(self)@.insert(
                drug,
                (old(self)@[drug].0, 0),
            ),
            !old(self)@.contains_key(drug) ==> final(self)@ == old(self)@,
    {
        proof {
            lemma_index_bijective(drug);
        }
        let i = drug.as_index();
        if let Some((a, _)) = self.items[i] {
            let ghost before = *self;
            self.items[i] = Some((a, Cost::new(0)));
            proof {
                assert forall|d: Drug| d != drug implies #[trigger] self.items@[d.index()]
                    == before.items@[d.index()] by {
                    lemma_index_bijective(d);
                }
                assert(self@ =~= before@.insert(drug, (before@[drug].0, 0)));
            }
        }
    }

    /// Whether some commodity is held in a positive quantity.
    pub fn has_items(&self) -> (r: bool)
        ensures
            r == self.holds_any(),
    {
        let mut i: usize = 0;
        while i < DRUG_COUNT
            invariant
                i <= DRUG_COUNT,
                self.items@.len() == DRUG_COUNT,
                forall|j: int|
                    0 <= j < i ==> !(#[trigger] self.items@[j] is Some && (self.items@[j]->0).0@
                        > 0),
            decreases DRUG_COUNT - i,
        {
            if let Some((a, _)) = self.items[i] {
                if a.get() > 0 {
                    proof {
                        lemma_at_index(i as int);
                        let d = Drug::at(i as int);
                        assert(self@.contains_key(d) && self@[d].0 > 0);
                    }
                    return true;
                }
            }
            i = i + 1;
        }
        proof {
            assert forall|d: Drug| !(self@.contains_key(d) && #[trigger] self@[d].0 > 0) by {
                lemma_index_bijective(d);
            }
        }
        false
    }
}

impl Default for Inventory {
    fn default() -> (r: Self)
        ensures
            r@ == Map::<Drug, (u32, u32)>::empty(),
    {
        Inventory::new()
    }
}

/// Net quantity of `d` that the first `n` steps of a history put in: what
/// was added, less what the removals that went through took out.
pub open spec fn net_added(states: Seq<Inventory>, ops: Seq<LedgerOp>, d: Drug, n: int) -> int
    decreases n,
{
    if n <= 0 {
        0
    } else {
        net_added(states, ops, d, n - 1) + match ops[n - 1] {
            LedgerOp::Add(e, a, _) => if e == d {
                a as int
            } else {
                0
            },
            LedgerOp::Remove(e, a) => if e == d && states[n - 1].remove_ok(e, a) {
                -(a as int)
            } else {
                0
            },
        }
    }
}

proof fn lemma_history_prefix(states: Seq<Inventory>, ops: Seq<LedgerOp>, d: Drug, n: int)
    requires
        states.len() == ops.len() + 1,
        states[0]@ == Map::<Drug, (u32, u32)>::empty(),
        forall|i: int| 0 <= i < ops.len() ==> #[trigger] states[i].step(ops[i], states[i + 1]),
        0 <= n <= ops.len(),
    ensures
        states[n].amount_of(d) == net_added(states, ops, d, n),
    decreases n,
{
    if n > 0 {
        lemma_history_prefix(states, ops, d, n - 1);
        let i = n - 1;
        assert(states[i].step(ops[i], states[i + 1]));
    }
}

/// Over any history of adds and removes from an empty ledger, the quantity
/// held of each commodity is what was added less what the successful removals
/// took out, and so never negative: a removal beyond what is held fails and
/// changes nothing.
pub proof fn lemma_ledger_history(states: Seq<Inventory>, ops: Seq<LedgerOp>)
    requires
        states.len() == ops.len() + 1,
        states[0]@ == Map::<Drug, (u32, u32)>::empty(),
        forall|i: int| 0 <= i < ops.len() ==> #[trigger] states[i].step(ops[i], states[i + 1]),
    ensures
        forall|d: Drug|
            #[trigger] states.last().amount_of(d) == net_added(states, ops, d, ops.len() as int),
        forall|d: Drug| net_added(states, ops, d, ops.len() as int) >= 0,
{
    assert forall|d: Drug|
        #[trigger] states.last().amount_of(d) == net_added(states, ops, d, ops.len() as int) by {
        lemma_history_prefix(states, ops, d, ops.len() as int);
    }
    assert forall|d: Drug| net_added(states, ops, d, ops.len() as int) >= 0 by {
        lemma_history_prefix(states, ops, d, ops.len() as int);
    }
}

} // verus!

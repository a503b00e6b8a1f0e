//! The table of adapters: one record per hci that was mentioned, kept in the
//! order of the hci indices.
use crate::adapter::{AdapterState, RESET_ON_RESTART_COUNT};
use crate::transitions::{adapters_in_order, is_lowest_present, lowest_present};
use std::collections::BTreeMap;
use vstd::prelude::*;
use vstd::std_specs::btree::increasing_seq;
use vstd::std_specs::cmp::OrdSpec;
use vstd::std_specs::iter::IteratorSpec;

verus! {

/// Whether `adapters` lists exactly the present adapters of `table`, lowest hci first.
pub open spec fn lists_present(table: Map<i32, AdapterState>, adapters: Seq<AdapterState>) -> bool {
    &&& forall|i: int|
        0 <= i < adapters.len() ==> {
            &&& table.contains_key((#[trigger] adapters[i]).hci)
            &&& table[adapters[i].hci] == adapters[i]
            &&& adapters[i].present
        }
    &&& forall|i: int, j: int|
        0 <= i < j < adapters.len() ==> (#[trigger] adapters[i]).hci < (#[trigger] adapters[j]).hci
    &&& forall|hci: i32|
        table.contains_key(hci) && table[hci].present ==> adapters.contains(#[trigger] table[hci])
}

/// The records of the adapters, by hci.
pub struct AdapterTable {
    /// The records. The order of the keys decides which adapter is the lowest present one.
    state: BTreeMap<i32, AdapterState>,
}

impl View for AdapterTable {
    type V = Map<i32, AdapterState>;

    closed spec fn view(&self) -> Map<i32, AdapterState> {
        self.state@
    }
}

impl AdapterTable {
    /// What every table keeps to, from the moment it is made.
    #[verifier::type_invariant]
    spec fn in_order_always(&self) -> bool {
        adapters_in_order(self.state@)
    }

    /// A table is in order at all times: every record sits under its own hci,
    /// and every restart count lies between zero and the number of restarts
    /// that are tried before a reset.
    pub fn in_order(&self)
        ensures
            adapters_in_order(self@),
    {
        proof {
            use_type_invariant(self);
        }
    }

    /// A table without records.
    pub fn new() -> (table: AdapterTable)
        ensures
            table@ == Map::<i32, AdapterState>::empty(),
    {
        AdapterTable { state: BTreeMap::new() }
    }

    /// Whether there is a record of `hci`.
    pub fn contains(&self, hci: i32) -> (known: bool)
        ensures
            known == self@.contains_key(hci),
    {
        self.state.contains_key(&hci)
    }

    /// The record of `hci`, if there is one.
    pub fn get(&self, hci: i32) -> (adapter: Option<AdapterState>)
        ensures
            adapter == if self@.contains_key(hci) {
                Some(self@[hci])
            } else {
                None::<AdapterState>
            },
    {
        match self.state.get(&hci) {
            Some(a) => Some(*a),
            None => None,
        }
    }

    /// Makes `adapter` the record of its hci.
    pub(crate) fn put(&mut self, adapter: AdapterState)
        requires
            0 <= adapter.restart_count <= RESET_ON_RESTART_COUNT,
        ensures
            final(self)@ == old(self)@.insert(adapter.hci, adapter),
    {
        proof {
            use_type_invariant(&*self);
        }
        // The records leave the table while they change, and come back in order.
        let mut records: BTreeMap<i32, AdapterState> = BTreeMap::new();
        std::mem::swap(&mut self.state, &mut records);
        records.insert(adapter.hci, adapter);
        std::mem::swap(&mut self.state, &mut records);
    }

    /// The hci of the first adapter that is present.
    pub fn lowest_present(&self) -> (lowest: Option<i32>)
        ensures
            lowest == lowest_present(self@),
    {
        proof {
            use_type_invariant(self);
        }
        lowest_present_adapter(&self.state)
    }

    /// The adapters that are present, lowest hci first.
    pub fn present(&self) -> (adapters: Vec<AdapterState>)
        ensures
            lists_present(self@, adapters@),
    {
        proof {
            use_type_invariant(self);
        }
        present_adapters(&self.state)
    }
}

/// The hci of the first adapter in `table` that is present.
fn lowest_present_adapter(table: &BTreeMap<i32, AdapterState>) -> (lowest: Option<i32>)
    requires
        forall|hci: i32| #[trigger] table@.contains_key(hci) ==> table@[hci].hci == hci,
    ensures
        lowest == lowest_present(table@),
{
    broadcast use vstd::std_specs::btree::group_btree_axioms;
    broadcast use vstd::laws_cmp::group_laws_cmp;

    let ghost all = table.iter().remaining();
    let ghost mut seen: int = 0;
    for entry in it: table.iter()
        invariant
            it.seq() == all,
            it.index() == seen,
            increasing_seq(all.map_values(|kv: (&i32, &AdapterState)| *kv.0)),
            forall|hci: i32| #[trigger] table@.contains_key(hci) ==> table@[hci].hci == hci,
            forall|j: int| 0 <= j < seen ==> !(#[trigger] all[j]).1.present,
    {
        let (_, a) = entry;
        proof {
            seen = seen + 1;
        }
        if a.present {
            proof {
                let keys = all.map_values(|kv: (&i32, &AdapterState)| *kv.0);
                let i = seen - 1;
                assert(all[i] == entry);
                assert(table@.contains_key(*entry.0));
                assert forall|k: i32| table@.contains_key(k) && table@[k].present implies a.hci
                    <= k by {
                    let pair = (&k, &table@[k]);
                    assert(all.contains(pair));
                    let j = choose|j: int| 0 <= j < all.len() && all[j] == pair;
                    assert(keys[j] == k);
                    assert(keys[i] == a.hci);
                    if j < i {
                        assert(!all[j].1.present);
                    } else if j > i {
                        assert(keys[i].cmp_spec(&keys[j]) is Less);
                    }
                }
                assert(is_lowest_present(table@, a.hci));
                let chosen = choose|hci: i32| is_lowest_present(table@, hci);
                assert(is_lowest_present(table@, chosen));
            }
            return Some(a.hci);
        }
    }
    proof {
        assert forall|hci: i32| !is_lowest_present(table@, hci) by {
            if table@.contains_key(hci) {
                let pair = (&hci, &table@[hci]);
                assert(all.contains(pair));
            }
        }
    }
    None
}

/// The adapters in `table` that are present, lowest hci first.
fn present_adapters(table: &BTreeMap<i32, AdapterState>) -> (adapters: Vec<AdapterState>)
    requires
        forall|hci: i32| #[trigger] table@.contains_key(hci) ==> table@[hci].hci == hci,
    ensures
        lists_present(table@, adapters@),
{
    broadcast use vstd::std_specs::btree::group_btree_axioms;
    broadcast use vstd::laws_cmp::group_laws_cmp;

    let mut adapters: Vec<AdapterState> = Vec::new();
    let ghost mut origin: Seq<int> = Seq::empty();
    let ghost all = table.iter().remaining();
    let ghost mut seen: int = 0;
    for entry in it: table.iter()
        invariant
            it.seq() == all,
            it.index() == seen,
            increasing_seq(all.map_values(|kv: (&i32, &AdapterState)| *kv.0)),
            forall|hci: i32| #[trigger] table@.contains_key(hci) ==> table@[hci].hci == hci,
            origin.len() == adapters.len(),
            forall|i: int|
                0 <= i < adapters.len() ==> {
                    &&& 0 <= #[trigger] origin[i] < seen
                    &&& *all[origin[i]].1 == adapters[i]
                    &&& adapters[i].present
                },
            forall|i: int, j: int|
                0 <= i < j < adapters.len() ==> #[trigger] origin[i] < #[trigger] origin[j],
            forall|j: int|
                0 <= j < seen && (#[trigger] all[j]).1.present ==> adapters@.contains(*all[j].1),
    {
        let (_, a) = entry;
        proof {
            assert(all[seen] == entry);
        }
        if a.present {
            let ghost before = adapters@;
            adapters.push(*a);
            proof {
                origin = origin.push(seen);
                assert forall|j: int|
                    0 <= j < seen + 1 && (#[trigger] all[j]).1.present implies adapters@.contains(
                    *all[j].1,
                ) by {
                    if j < seen {
                        let at = choose|at: int| 0 <= at < before.len() && before[at] == *all[j].1;
                        assert(adapters@[at] == *all[j].1);
                    } else {
                        assert(adapters@.last() == *all[j].1);
                    }
                }
            }
        }
        proof {
            seen = seen + 1;
        }
    }
    proof {
        let keys = all.map_values(|kv: (&i32, &AdapterState)| *kv.0);
        assert forall|i: int| 0 <= i < adapters.len() implies {
            &&& table@.contains_key((#[trigger] adapters[i]).hci)
            &&& table@[adapters[i].hci] == adapters[i]
            &&& keys[origin[i]] == adapters[i].hci
        } by {
            let pair = all[origin[i]];
            assert(table@.contains_key(*pair.0));
        }
        assert forall|i: int, j: int| 0 <= i < j < adapters.len() implies (#[trigger] adapters[i]).hci
            < (#[trigger] adapters[j]).hci by {
            assert(origin[i] < origin[j]);
            assert(keys[origin[i]].cmp_spec(&keys[origin[j]]) is Less);
        }
        assert forall|hci: i32| table@.contains_key(hci) && table@[hci].present implies adapters@.contains(
            #[trigger] table@[hci],
        ) by {
            let pair = (&hci, &table@[hci]);
            assert(all.contains(pair));
            let j = choose|j: int| 0 <= j < all.len() && all[j] == pair;
            assert(all[j].1.present);
        }
    }
    adapters
}

} // verus!

//! The cost table: three tables of tiers, each from the start of a tier to
//! the unit cost that holds from there on.

use vstd::prelude::*;
use std::collections::BTreeMap;
use vstd::std_specs::btree::{increasing_seq, spec_btree_map_iter};
use vstd::std_specs::cmp::OrdSpec;
use vstd::std_specs::iter::IteratorSpec;

verus! {

/// The tiered costs of one gas schedule. Each table maps the start of a tier
/// (an instruction count, a stack height, a stack size in bytes) to the unit
/// cost that holds from that start up to the next one.
#[derive(Debug, PartialEq, Eq)]
pub struct CostTable {
    pub instruction_tiers: BTreeMap<u64, u64>,
    pub stack_height_tiers: BTreeMap<u64, u64>,
    pub stack_size_tiers: BTreeMap<u64, u64>,
}

/// The three tables of a [`CostTable`] as maps.
pub ghost struct CostTableView {
    pub instruction_tiers: Map<u64, u64>,
    pub stack_height_tiers: Map<u64, u64>,
    pub stack_size_tiers: Map<u64, u64>,
}

impl View for CostTable {
    type V = CostTableView;

    open spec fn view(&self) -> CostTableView {
        CostTableView {
            instruction_tiers: self.instruction_tiers@,
            stack_height_tiers: self.stack_height_tiers@,
            stack_size_tiers: self.stack_size_tiers@,
        }
    }
}

impl CostTableView {
    /// A table is well formed when in each of its three tables the costs
    /// never fall as the keys rise.
    pub open spec fn well_formed(self) -> bool {
        &&& costs_never_fall(self.instruction_tiers)
        &&& costs_never_fall(self.stack_height_tiers)
        &&& costs_never_fall(self.stack_size_tiers)
    }
}

impl Clone for CostTable {
    fn clone(&self) -> (copy: Self)
        ensures
            copy@ == self@,
    {
        CostTable {
            instruction_tiers: self.instruction_tiers.clone(),
            stack_height_tiers: self.stack_height_tiers.clone(),
            stack_size_tiers: self.stack_size_tiers.clone(),
        }
    }
}

impl CostTable {
    /// Whether the costs of each of the three tables never fall as the keys
    /// rise.
    pub fn is_well_formed(&self) -> (well_formed: bool)
        ensures
            well_formed == self@.well_formed(),
    {
        costs_rise(&self.instruction_tiers) && costs_rise(&self.stack_height_tiers) && costs_rise(
            &self.stack_size_tiers,
        )
    }

    /// The unit cost at `instruction_count` executed instructions: that of
    /// the last tier that starts at or below the count, if there is one.
    pub fn instruction_tier(&self, instruction_count: u64) -> (cost: Option<u64>)
        ensures
            cost == tier_cost(self@.instruction_tiers, instruction_count),
            is_cost_at(self@.instruction_tiers, instruction_count, cost),
    {
        floor_cost(&self.instruction_tiers, instruction_count)
    }

    /// The unit cost at a stack of `stack_height` slots.
    pub fn stack_height_tier(&self, stack_height: u64) -> (cost: Option<u64>)
        ensures
            cost == tier_cost(self@.stack_height_tiers, stack_height),
            is_cost_at(self@.stack_height_tiers, stack_height, cost),
    {
        floor_cost(&self.stack_height_tiers, stack_height)
    }

    /// The unit cost at a stack of `stack_size` bytes.
    pub fn stack_size_tier(&self, stack_size: u64) -> (cost: Option<u64>)
        ensures
            cost == tier_cost(self@.stack_size_tiers, stack_size),
            is_cost_at(self@.stack_size_tiers, stack_size, cost),
    {
        floor_cost(&self.stack_size_tiers, stack_size)
    }
}

/// Whether `key` is the tier that `value` falls into: the largest key of
/// `tiers` that is not above `value`.
pub open spec fn is_tier_of(tiers: Map<u64, u64>, value: u64, key: u64) -> bool {
    &&& tiers.contains_key(key)
    &&& key <= value
    &&& forall|other: u64| tiers.contains_key(other) && other <= value ==> other <= key
}

/// The unit cost of the tier that `value` falls into, if it falls into one.
pub open spec fn tier_cost(tiers: Map<u64, u64>, value: u64) -> Option<u64> {
    if exists|key: u64| is_tier_of(tiers, value, key) {
        Some(tiers[choose|key: u64| is_tier_of(tiers, value, key)])
    } else {
        None
    }
}

/// Whether `value` falls into a tier of `tiers`: whether a key of the table
/// is not above it.
pub open spec fn has_tier(tiers: Map<u64, u64>, value: u64) -> bool {
    exists|key: u64| tiers.contains_key(key) && key <= value
}

/// Whether `cost` is what `value` costs by `tiers`: the cost at the largest
/// key that is not above `value`, or nothing where every key is above it.
pub open spec fn is_cost_at(tiers: Map<u64, u64>, value: u64, cost: Option<u64>) -> bool {
    match cost {
        Some(cost) => exists|key: u64| is_tier_of(tiers, value, key) && tiers[key] == cost,
        None => forall|key: u64| tiers.contains_key(key) ==> value < key,
    }
}

/// A value falls into at most one tier, whose cost is then its cost.
pub proof fn lemma_tier_is_unique(tiers: Map<u64, u64>, value: u64, key: u64)
    requires
        is_tier_of(tiers, value, key),
    ensures
        tier_cost(tiers, value) == Some(tiers[key]),
        forall|other: u64| is_tier_of(tiers, value, other) ==> other == key,
{
}

fn floor_cost(tiers: &BTreeMap<u64, u64>, value: u64) -> (cost: Option<u64>)
    ensures
        cost == tier_cost(tiers@, value),
        is_cost_at(tiers@, value, cost),
{
    let mut best: Option<(u64, u64)> = None;
    for entry in it: tiers.iter()
        invariant
            match best {
                Some((key, cost)) => {
                    &&& tiers@.contains_key(key)
                    &&& tiers@[key] == cost
                    &&& key <= value
                    &&& forall|i: int| 0 <= i < it.index() && *it.seq()[i].0 <= value ==> *it.seq()[i].0 <= key
                },
                None => forall|i: int| 0 <= i < it.index() ==> *it.seq()[i].0 > value,
            },
    {
        let (key, cost) = entry;
        if *key <= value {
            let better = match best {
                Some((found, _)) => found <= *key,
                None => true,
            };
            if better {
                best = Some((*key, *cost));
            }
        }
    }
    proof {
        lemma_cost_where_tier(tiers@, value);
    }
    match best {
        Some((key, cost)) => {
            proof {
                lemma_tier_is_unique(tiers@, value, key);
            }
            Some(cost)
        },
        None => None,
    }
}

/// A value falls into a tier as soon as one key of the table is not above it.
pub proof fn lemma_tier_exists(tiers: Map<u64, u64>, value: u64, witness: u64)
    requires
        tiers.contains_key(witness),
        witness <= value,
    ensures
        exists|key: u64| is_tier_of(tiers, value, key),
        tier_cost(tiers, value) is Some,
    decreases value - witness,
{
    if tiers.contains_key(value) {
        assert(is_tier_of(tiers, value, value));
    } else {
        let below = (value - 1) as u64;
        lemma_tier_exists(tiers, below, witness);
        let key = choose|key: u64| is_tier_of(tiers, below, key);
        assert(is_tier_of(tiers, value, key));
    }
}

/// A value has a cost exactly when it falls into a tier.
pub proof fn lemma_cost_where_tier(tiers: Map<u64, u64>, value: u64)
    ensures
        tier_cost(tiers, value) is Some <==> has_tier(tiers, value),
{
    if has_tier(tiers, value) {
        let witness = choose|key: u64| tiers.contains_key(key) && key <= value;
        lemma_tier_exists(tiers, value, witness);
    }
}

/// Whether the costs of `tiers` never fall as the keys rise.
pub open spec fn costs_never_fall(tiers: Map<u64, u64>) -> bool {
    forall|low: u64, high: u64|
        tiers.contains_key(low) && tiers.contains_key(high) && low <= high ==> tiers[low]
            <= tiers[high]
}

/// The entries of a map that come out in increasing order have keys that rise.
proof fn lemma_keys_rise(entries: Seq<(&u64, &u64)>)
    requires
        increasing_seq(entries.map_values(|kv: (&u64, &u64)| *kv.0)),
    ensures
        forall|i: int, j: int| 0 <= i < j < entries.len() ==> *entries[i].0 < *entries[j].0,
{
    let keys = entries.map_values(|kv: (&u64, &u64)| *kv.0);
    assert forall|i: int, j: int| 0 <= i < j < entries.len() implies *entries[i].0
        < *entries[j].0 by {
        assert(keys[i].cmp_spec(&keys[j]) is Less);
    }
}

fn costs_rise(tiers: &BTreeMap<u64, u64>) -> (rising: bool)
    ensures
        rising == costs_never_fall(tiers@),
{
    let mut previous: Option<u64> = None;
    let ghost entries = spec_btree_map_iter(tiers).remaining();
    for entry in it: tiers.iter()
        invariant
            it.seq() == entries,
            increasing_seq(entries.map_values(|kv: (&u64, &u64)| *kv.0)),
            it.index() == 0 ==> previous is None,
            it.index() > 0 ==> previous == Some(*it.seq()[it.index() - 1].1),
            forall|i: int, j: int| 0 <= i <= j < it.index() ==> *it.seq()[i].1 <= *it.seq()[j].1,
    {
        let (_, cost) = entry;
        if let Some(before) = previous {
            if *cost < before {
                proof {
                    lemma_keys_rise(entries);
                    let low = *it.seq()[it.index() - 1].0;
                    let high = *it.seq()[it.index() as int].0;
                    assert(tiers@.contains_key(low) && tiers@[low] == before);
                    assert(tiers@.contains_key(high) && tiers@[high] == *cost);
                }
                return false;
            }
        }
        previous = Some(*cost);
    }
    proof {
        lemma_keys_rise(entries);
        assert forall|low: u64, high: u64|
            tiers@.contains_key(low) && tiers@.contains_key(high) && low <= high implies tiers@[low]
            <= tiers@[high] by {
            assert(entries.contains((&low, &tiers@[low])));
            assert(entries.contains((&high, &tiers@[high])));
            let i = choose|i: int| 0 <= i < entries.len() && entries[i] == (&low, &tiers@[low]);
            let j = choose|j: int| 0 <= j < entries.len() && entries[j] == (&high, &tiers@[high]);
            assert(i <= j);
        }
    }
    true
}

/// Read along any rising run of its keys, the costs of a table whose costs
/// never fall do not fall.
pub proof fn lemma_costs_rise_along_keys(tiers: Map<u64, u64>, keys: Seq<u64>)
    requires
        costs_never_fall(tiers),
        forall|i: int| 0 <= i < keys.len() ==> tiers.contains_key(#[trigger] keys[i]),
        forall|i: int, j: int| 0 <= i < j < keys.len() ==> keys[i] < keys[j],
    ensures
        forall|i: int, j: int| 0 <= i <= j < keys.len() ==> tiers[keys[i]] <= tiers[keys[j]],
{
    assert forall|i: int, j: int| 0 <= i <= j < keys.len() implies tiers[keys[i]]
        <= tiers[keys[j]] by {
        assert(tiers.contains_key(keys[i]) && tiers.contains_key(keys[j]));
        assert(keys[i] <= keys[j]);
    }
}

/// In a table whose costs never fall, a larger value never has the smaller
/// cost: where `low` falls into a tier, so does `high`, at no lower a cost.
pub proof fn lemma_tier_cost_rises(tiers: Map<u64, u64>, low: u64, high: u64)
    requires
        costs_never_fall(tiers),
        low <= high,
        tier_cost(tiers, low) is Some,
    ensures
        tier_cost(tiers, high) is Some,
        tier_cost(tiers, low)->0 <= tier_cost(tiers, high)->0,
{
    let low_key = choose|key: u64| is_tier_of(tiers, low, key);
    lemma_tier_exists(tiers, high, low_key);
    let high_key = choose|key: u64| is_tier_of(tiers, high, key);
    assert(low_key <= high_key);
}

} // verus!

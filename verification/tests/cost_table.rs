use rooch_core::gas::cost_table::CostTable;
use std::collections::BTreeMap;

fn tiers(entries: &[(u64, u64)]) -> BTreeMap<u64, u64> {
    let mut map = BTreeMap::new();
    for (key, cost) in entries {
        map.insert(*key, *cost);
    }
    map
}

fn table(instruction: &[(u64, u64)], height: &[(u64, u64)], size: &[(u64, u64)]) -> CostTable {
    CostTable {
        instruction_tiers: tiers(instruction),
        stack_height_tiers: tiers(height),
        stack_size_tiers: tiers(size),
    }
}

#[test]
fn instruction_tiers_resolve_to_the_tier_at_or_below() {
    let table = table(&[(0, 1), (100, 2), (1000, 5)], &[], &[]);
    assert_eq!(table.instruction_tier(50), Some(1));
    assert_eq!(table.instruction_tier(150), Some(2));
    assert_eq!(table.instruction_tier(1000), Some(5));
}

#[test]
fn tier_boundaries() {
    let table = table(&[(0, 1), (100, 2), (1000, 5)], &[], &[]);
    assert_eq!(table.instruction_tier(0), Some(1));
    assert_eq!(table.instruction_tier(99), Some(1));
    assert_eq!(table.instruction_tier(100), Some(2));
    assert_eq!(table.instruction_tier(999), Some(2));
    assert_eq!(table.instruction_tier(1001), Some(5));
    assert_eq!(table.instruction_tier(u64::MAX), Some(5));
}

#[test]
fn below_the_first_tier_there_is_no_cost() {
    let table = table(&[(10, 1), (20, 2)], &[(5, 9)], &[(u64::MAX, 4)]);
    assert_eq!(table.instruction_tier(0), None);
    assert_eq!(table.instruction_tier(9), None);
    assert_eq!(table.instruction_tier(10), Some(1));
    assert_eq!(table.stack_height_tier(4), None);
    assert_eq!(table.stack_height_tier(5), Some(9));
    assert_eq!(table.stack_size_tier(u64::MAX - 1), None);
    assert_eq!(table.stack_size_tier(u64::MAX), Some(4));
}

#[test]
fn an_empty_table_has_no_tier() {
    let table = table(&[], &[], &[]);
    assert_eq!(table.instruction_tier(0), None);
    assert_eq!(table.stack_height_tier(17), None);
    assert_eq!(table.stack_size_tier(u64::MAX), None);
    assert!(table.is_well_formed());
}

#[test]
fn each_lookup_reads_its_own_table() {
    let table = table(&[(0, 1)], &[(0, 2), (8, 3)], &[(0, 4), (64, 6)]);
    assert_eq!(table.instruction_tier(100), Some(1));
    assert_eq!(table.stack_height_tier(7), Some(2));
    assert_eq!(table.stack_height_tier(8), Some(3));
    assert_eq!(table.stack_size_tier(63), Some(4));
    assert_eq!(table.stack_size_tier(64), Some(6));
}

#[test]
fn a_table_whose_costs_never_fall_is_well_formed() {
    assert!(table(&[(0, 1), (100, 2), (1000, 5)], &[], &[]).is_well_formed());
    assert!(table(&[(0, 1), (100, 1), (1000, 1)], &[(3, 3)], &[(1, 0), (2, 0)]).is_well_formed());
    assert!(table(&[(7, 0)], &[(0, 1), (1, 2), (2, 3), (3, u64::MAX)], &[]).is_well_formed());
}

#[test]
fn a_table_with_a_falling_cost_is_not_well_formed() {
    assert!(!table(&[(0, 2), (100, 1)], &[], &[]).is_well_formed());
    assert!(!table(&[], &[(0, 1), (5, 3), (9, 2)], &[]).is_well_formed());
    assert!(!table(&[(0, 1)], &[(0, 1)], &[(0, 1), (1, 2), (2, 1), (3, 4)]).is_well_formed());
    assert!(!table(&[(0, u64::MAX), (u64::MAX, 0)], &[], &[]).is_well_formed());
}

#[test]
fn in_a_well_formed_table_costs_rise_with_the_keys() {
    let table = table(&[(0, 1), (100, 2), (1000, 5), (5000, 5), (9000, 8)], &[], &[]);
    assert!(table.is_well_formed());
    let mut last = 0;
    for cost in table.instruction_tiers.values() {
        assert!(last <= *cost);
        last = *cost;
    }
    let mut last = 0;
    for count in 0..10_000u64 {
        let cost = table.instruction_tier(count).unwrap();
        assert!(last <= cost);
        last = cost;
    }
    assert_eq!(last, 8);
}

#[test]
fn a_copy_has_the_same_tiers() {
    let table = table(&[(0, 1), (100, 2)], &[(0, 3)], &[(0, 4)]);
    let copy = table.clone();
    assert_eq!(copy, table);
    assert_eq!(copy.instruction_tier(100), Some(2));
    assert_eq!(copy.stack_height_tier(0), Some(3));
    assert_eq!(copy.stack_size_tier(0), Some(4));
}

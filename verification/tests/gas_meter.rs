use rooch_core::gas::cost_table::CostTable;
use rooch_core::gas::instruction::{SimpleInstruction, TypeSizes};
use rooch_core::gas::meter::{GasError, MoveOSGasMeter};
use std::collections::BTreeMap;

fn unit_sizes() -> TypeSizes {
    TypeSizes {
        bool_size: 1,
        u8_size: 1,
        u16_size: 1,
        u32_size: 1,
        u64_size: 1,
        u128_size: 1,
        u256_size: 1,
        address_size: 1,
    }
}

fn no_tiers() -> CostTable {
    CostTable {
        instruction_tiers: BTreeMap::new(),
        stack_height_tiers: BTreeMap::new(),
        stack_size_tiers: BTreeMap::new(),
    }
}

fn meter(budget: u64, charge: bool) -> MoveOSGasMeter {
    MoveOSGasMeter::with_budget(1, no_tiers(), unit_sizes(), budget, 1, charge)
}

/// Every charge that is priced by the stack alone, one after the other.
fn charge_for_every_stack_operation(meter: &mut MoveOSGasMeter) -> Vec<Result<(), GasError>> {
    vec![
        meter.charge(1, 2, 3, 4, 5),
        meter.charge_simple_instr(SimpleInstruction::Add),
        meter.charge_simple_instr(SimpleInstruction::Abort),
        meter.charge_pop(9),
        meter.charge_call("transfer", &[1, 2, 3], 4),
        meter.charge_call_generic("swap", &[u64::MAX, 1], 2),
        meter.charge_ld_const(32),
        meter.charge_ld_const_after_deserialization(),
        meter.charge_copy_loc(8),
        meter.charge_move_loc(8),
        meter.charge_store_loc(8),
        meter.charge_pack(false, 3),
        meter.charge_unpack(true, 3),
        meter.charge_read_ref(16),
        meter.charge_write_ref(16, 24),
        meter.charge_eq(5, 6),
        meter.charge_neq(u64::MAX, u64::MAX),
        meter.charge_borrow_global(true, false, true),
        meter.charge_exists(false, true),
        meter.charge_move_from(false, Some(40)),
        meter.charge_move_from(true, None),
        meter.charge_move_to(false, true),
        meter.charge_vec_pack(10),
        meter.charge_vec_len(),
        meter.charge_vec_borrow(false, true),
        meter.charge_vec_push_back(),
        meter.charge_vec_pop_back(),
        meter.charge_vec_unpack(10),
        meter.charge_vec_swap(),
        meter.charge_load_resource(Some(128)),
        meter.charge_load_resource(None),
        meter.charge_native_function_before_execution(&[7, 7]),
        meter.charge_drop_frame(),
    ]
}

#[test]
fn a_new_meter_does_not_charge() {
    let mut meter = MoveOSGasMeter::new(unit_sizes());
    assert_eq!(meter.gas_model_version, 0);
    assert_eq!(meter.balance_internal(), 0);
    assert_eq!(meter.type_sizes(), unit_sizes());
    // Nothing is left, and still no deduction fails.
    assert_eq!(meter.deduct_gas(1), Ok(()));
    assert_eq!(meter.deduct_gas(u64::MAX), Ok(()));
    assert_eq!(meter.balance_internal(), 0);
}

#[test]
fn a_meter_starts_with_its_budget() {
    let meter = MoveOSGasMeter::with_budget(3, no_tiers(), unit_sizes(), 10_000_000, 1, true);
    assert_eq!(meter.gas_model_version, 3);
    assert_eq!(meter.balance_internal(), 10_000_000);
    assert_eq!(meter.type_sizes(), unit_sizes());
}

#[test]
fn an_add_is_free_and_a_native_function_costs_what_it_reports() {
    let mut meter = meter(10_000_000, true);
    assert_eq!(meter.charge_simple_instr(SimpleInstruction::Add), Ok(()));
    assert_eq!(meter.balance_internal(), 10_000_000);
    assert_eq!(meter.charge_native_function(1_500, Some(&[8, 8])), Ok(()));
    assert_eq!(meter.balance_internal(), 9_998_500);
}

#[test]
fn asking_for_more_than_is_left_empties_the_meter() {
    let mut meter = meter(50, true);
    assert_eq!(meter.deduct_gas(75), Err(GasError::OutOfGas));
    assert_eq!(meter.balance_internal(), 0);
}

#[test]
fn without_charging_a_deduction_changes_nothing() {
    let mut meter = meter(50, false);
    for amount in [1, 49, 50, 51, 75, 1_000_000, u64::MAX] {
        assert_eq!(meter.deduct_gas(amount), Ok(()));
        assert_eq!(meter.balance_internal(), 50);
    }
}

#[test]
fn without_charging_no_charge_changes_anything() {
    let mut meter = meter(50, false);
    for result in charge_for_every_stack_operation(&mut meter) {
        assert_eq!(result, Ok(()));
    }
    assert_eq!(meter.charge_native_function(75, Some(&[1])), Ok(()));
    assert_eq!(meter.charge_native_function(u64::MAX, None), Ok(()));
    assert_eq!(meter.balance_internal(), 50);
}

#[test]
fn a_deduction_takes_its_amount() {
    let mut meter = meter(100, true);
    assert_eq!(meter.deduct_gas(30), Ok(()));
    assert_eq!(meter.balance_internal(), 70);
    assert_eq!(meter.deduct_gas(0), Ok(()));
    assert_eq!(meter.balance_internal(), 70);
    assert_eq!(meter.deduct_gas(69), Ok(()));
    assert_eq!(meter.balance_internal(), 1);
}

#[test]
fn all_that_is_left_can_be_spent() {
    let mut meter = meter(100, true);
    assert_eq!(meter.deduct_gas(100), Ok(()));
    assert_eq!(meter.balance_internal(), 0);
    // Nothing can still be had for nothing.
    assert_eq!(meter.deduct_gas(0), Ok(()));
    assert_eq!(meter.deduct_gas(1), Err(GasError::OutOfGas));
    assert_eq!(meter.balance_internal(), 0);
}

#[test]
fn one_unit_too_many_is_out_of_gas() {
    let mut meter = meter(100, true);
    assert_eq!(meter.deduct_gas(101), Err(GasError::OutOfGas));
    assert_eq!(meter.balance_internal(), 0);
    let mut meter = self::meter(0, true);
    assert_eq!(meter.deduct_gas(u64::MAX), Err(GasError::OutOfGas));
    assert_eq!(meter.balance_internal(), 0);
    let mut meter = self::meter(u64::MAX - 1, true);
    assert_eq!(meter.deduct_gas(u64::MAX), Err(GasError::OutOfGas));
    assert_eq!(meter.balance_internal(), 0);
}

#[test]
fn an_exhausted_meter_stays_exhausted() {
    let mut meter = meter(10, true);
    assert_eq!(meter.deduct_gas(11), Err(GasError::OutOfGas));
    for amount in [1, 5, 10, u64::MAX] {
        assert_eq!(meter.deduct_gas(amount), Err(GasError::OutOfGas));
        assert_eq!(meter.balance_internal(), 0);
    }
    assert_eq!(meter.charge_native_function(1, None), Err(GasError::OutOfGas));
    assert_eq!(meter.balance_internal(), 0);
    for result in charge_for_every_stack_operation(&mut meter) {
        assert_eq!(result, Ok(()));
    }
    assert_eq!(meter.balance_internal(), 0);
}

#[test]
fn gas_left_never_rises() {
    let mut meter = meter(1_000, true);
    let mut before = meter.balance_internal();
    for amount in [0, 1, 10, 100, 0, 400, 488, 1] {
        let result = meter.deduct_gas(amount);
        let after = meter.balance_internal();
        assert!(after <= before);
        if result.is_ok() {
            assert_eq!(after, before - amount);
        } else {
            assert_eq!(after, 0);
        }
        before = after;
    }
    assert_eq!(before, 0);
}

#[test]
fn stack_operations_are_free() {
    let mut meter = meter(1_000, true);
    for result in charge_for_every_stack_operation(&mut meter) {
        assert_eq!(result, Ok(()));
        assert_eq!(meter.balance_internal(), 1_000);
    }
    assert_eq!(meter.balance_internal(), 1_000);
}

#[test]
fn every_simple_instruction_is_charged_without_failure() {
    let mut meter = meter(5, true);
    for instr in [
        SimpleInstruction::Nop,
        SimpleInstruction::Ret,
        SimpleInstruction::BrTrue,
        SimpleInstruction::LdU256,
        SimpleInstruction::FreezeRef,
        SimpleInstruction::CastU8,
        SimpleInstruction::CastU256,
        SimpleInstruction::Shl,
        SimpleInstruction::Not,
        SimpleInstruction::Ge,
        SimpleInstruction::Abort,
    ] {
        assert_eq!(meter.charge_simple_instr(instr), Ok(()));
        assert_eq!(meter.balance_internal(), 5);
    }
}

#[test]
fn a_native_function_pays_in_two_steps() {
    let mut meter = meter(2_000, true);
    assert_eq!(meter.charge_native_function_before_execution(&[8, 16]), Ok(()));
    assert_eq!(meter.balance_internal(), 2_000);
    assert_eq!(meter.charge_native_function(1_500, Some(&[4])), Ok(()));
    assert_eq!(meter.balance_internal(), 500);
    assert_eq!(meter.charge_native_function(500, None), Ok(()));
    assert_eq!(meter.balance_internal(), 0);
}

#[test]
fn a_native_function_can_run_out_of_gas() {
    let mut meter = meter(1_000, true);
    assert_eq!(meter.charge_native_function(1_500, Some(&[4])), Err(GasError::OutOfGas));
    assert_eq!(meter.balance_internal(), 0);
    assert_eq!(meter.charge_native_function(0, Some(&[])), Ok(()));
    assert_eq!(meter.balance_internal(), 0);
}

#[test]
fn the_version_can_be_set() {
    let mut meter = meter(10, true);
    meter.gas_model_version = 7;
    assert_eq!(meter.gas_model_version, 7);
    assert_eq!(meter.deduct_gas(3), Ok(()));
    assert_eq!(meter.gas_model_version, 7);
    assert_eq!(meter.balance_internal(), 7);
}

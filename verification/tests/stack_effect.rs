use rooch_core::gas::instruction::{
    get_simple_instruction_stack_change, SimpleInstruction, TypeSizes,
};
use rooch_core::gas::size::{total_size, REFERENCE_SIZE, STRUCT_SIZE, VEC_SIZE};

/// Sizes that differ from type to type, so that a wrong one shows.
fn sizes() -> TypeSizes {
    TypeSizes {
        bool_size: 3,
        u8_size: 5,
        u16_size: 7,
        u32_size: 11,
        u64_size: 13,
        u128_size: 17,
        u256_size: 19,
        address_size: 23,
    }
}

fn change(instr: SimpleInstruction) -> (u64, u64, u64, u64) {
    get_simple_instruction_stack_change(instr, &sizes())
}

#[test]
fn fixed_sizes() {
    assert_eq!(REFERENCE_SIZE, 8);
    assert_eq!(STRUCT_SIZE, 2);
    assert_eq!(VEC_SIZE, 8);
}

#[test]
fn casts_pop_the_smallest_integer_and_push_their_target() {
    assert_eq!(change(SimpleInstruction::CastU8), (1, 1, 5, 5));
    assert_eq!(change(SimpleInstruction::CastU16), (1, 1, 5, 7));
    assert_eq!(change(SimpleInstruction::CastU32), (1, 1, 5, 11));
    assert_eq!(change(SimpleInstruction::CastU64), (1, 1, 5, 13));
    assert_eq!(change(SimpleInstruction::CastU128), (1, 1, 5, 17));
    assert_eq!(change(SimpleInstruction::CastU256), (1, 1, 5, 19));
}

#[test]
fn what_does_nothing_to_the_stack() {
    assert_eq!(change(SimpleInstruction::Nop), (0, 0, 0, 0));
    assert_eq!(change(SimpleInstruction::Ret), (0, 0, 0, 0));
    assert_eq!(change(SimpleInstruction::Branch), (0, 0, 0, 0));
}

#[test]
fn conditional_branches_pop_a_boolean() {
    assert_eq!(change(SimpleInstruction::BrTrue), (1, 0, 3, 0));
    assert_eq!(change(SimpleInstruction::BrFalse), (1, 0, 3, 0));
}

#[test]
fn loads_push_a_value_of_their_type() {
    assert_eq!(change(SimpleInstruction::LdU8), (0, 1, 0, 5));
    assert_eq!(change(SimpleInstruction::LdU16), (0, 1, 0, 7));
    assert_eq!(change(SimpleInstruction::LdU32), (0, 1, 0, 11));
    assert_eq!(change(SimpleInstruction::LdU64), (0, 1, 0, 13));
    assert_eq!(change(SimpleInstruction::LdU128), (0, 1, 0, 17));
    assert_eq!(change(SimpleInstruction::LdU256), (0, 1, 0, 19));
    assert_eq!(change(SimpleInstruction::LdTrue), (0, 1, 0, 3));
    assert_eq!(change(SimpleInstruction::LdFalse), (0, 1, 0, 3));
}

#[test]
fn references_have_one_size() {
    assert_eq!(change(SimpleInstruction::FreezeRef), (1, 1, 8, 8));
    assert_eq!(change(SimpleInstruction::ImmBorrowLoc), (0, 1, 0, 8));
    assert_eq!(change(SimpleInstruction::MutBorrowLoc), (0, 1, 0, 8));
    assert_eq!(change(SimpleInstruction::ImmBorrowField), (1, 1, 8, 8));
    assert_eq!(change(SimpleInstruction::MutBorrowField), (1, 1, 8, 8));
    assert_eq!(change(SimpleInstruction::ImmBorrowFieldGeneric), (1, 1, 8, 8));
    assert_eq!(change(SimpleInstruction::MutBorrowFieldGeneric), (1, 1, 8, 8));
}

#[test]
fn arithmetic_pops_two_smallest_and_pushes_the_largest() {
    let instrs = [
        SimpleInstruction::Add,
        SimpleInstruction::Sub,
        SimpleInstruction::Mul,
        SimpleInstruction::Mod,
        SimpleInstruction::Div,
        SimpleInstruction::BitOr,
        SimpleInstruction::BitAnd,
        SimpleInstruction::Xor,
        SimpleInstruction::Shl,
        SimpleInstruction::Shr,
    ];
    for instr in instrs {
        assert_eq!(change(instr), (2, 1, 10, 19));
    }
}

#[test]
fn logic_and_comparisons() {
    assert_eq!(change(SimpleInstruction::Or), (2, 1, 6, 3));
    assert_eq!(change(SimpleInstruction::And), (2, 1, 6, 3));
    assert_eq!(change(SimpleInstruction::Not), (1, 1, 3, 3));
    assert_eq!(change(SimpleInstruction::Lt), (2, 1, 10, 3));
    assert_eq!(change(SimpleInstruction::Gt), (2, 1, 10, 3));
    assert_eq!(change(SimpleInstruction::Le), (2, 1, 10, 3));
    assert_eq!(change(SimpleInstruction::Ge), (2, 1, 10, 3));
}

#[test]
fn abort_pops_its_code() {
    assert_eq!(change(SimpleInstruction::Abort), (1, 0, 13, 0));
}

#[test]
fn with_every_primitive_of_size_one() {
    let ones = TypeSizes {
        bool_size: 1,
        u8_size: 1,
        u16_size: 1,
        u32_size: 1,
        u64_size: 1,
        u128_size: 1,
        u256_size: 1,
        address_size: 1,
    };
    assert_eq!(get_simple_instruction_stack_change(SimpleInstruction::Add, &ones), (2, 1, 2, 1));
    assert_eq!(get_simple_instruction_stack_change(SimpleInstruction::CastU8, &ones), (1, 1, 1, 1));
    assert_eq!(get_simple_instruction_stack_change(SimpleInstruction::CastU256, &ones), (1, 1, 1, 1));
    assert_eq!(get_simple_instruction_stack_change(SimpleInstruction::And, &ones), (2, 1, 2, 1));
}

#[test]
fn the_size_of_two_operands_saturates() {
    let mut large = sizes();
    large.u8_size = u64::MAX - 1;
    large.bool_size = u64::MAX;
    assert_eq!(
        get_simple_instruction_stack_change(SimpleInstruction::Add, &large),
        (2, 1, u64::MAX, 19)
    );
    assert_eq!(
        get_simple_instruction_stack_change(SimpleInstruction::Or, &large),
        (2, 1, u64::MAX, u64::MAX)
    );
    assert_eq!(
        get_simple_instruction_stack_change(SimpleInstruction::CastU16, &large),
        (1, 1, u64::MAX - 1, 7)
    );
}

#[test]
fn every_instruction_pops_at_most_two_and_pushes_at_most_one() {
    let all = [
        SimpleInstruction::Nop,
        SimpleInstruction::Ret,
        SimpleInstruction::BrTrue,
        SimpleInstruction::BrFalse,
        SimpleInstruction::Branch,
        SimpleInstruction::LdU8,
        SimpleInstruction::LdU16,
        SimpleInstruction::LdU32,
        SimpleInstruction::LdU64,
        SimpleInstruction::LdU128,
        SimpleInstruction::LdU256,
        SimpleInstruction::LdTrue,
        SimpleInstruction::LdFalse,
        SimpleInstruction::FreezeRef,
        SimpleInstruction::MutBorrowLoc,
        SimpleInstruction::ImmBorrowLoc,
        SimpleInstruction::ImmBorrowField,
        SimpleInstruction::MutBorrowField,
        SimpleInstruction::ImmBorrowFieldGeneric,
        SimpleInstruction::MutBorrowFieldGeneric,
        SimpleInstruction::CastU8,
        SimpleInstruction::CastU16,
        SimpleInstruction::CastU32,
        SimpleInstruction::CastU64,
        SimpleInstruction::CastU128,
        SimpleInstruction::CastU256,
        SimpleInstruction::Add,
        SimpleInstruction::Sub,
        SimpleInstruction::Mul,
        SimpleInstruction::Mod,
        SimpleInstruction::Div,
        SimpleInstruction::BitOr,
        SimpleInstruction::BitAnd,
        SimpleInstruction::Xor,
        SimpleInstruction::Shl,
        SimpleInstruction::Shr,
        SimpleInstruction::Or,
        SimpleInstruction::And,
        SimpleInstruction::Not,
        SimpleInstruction::Lt,
        SimpleInstruction::Gt,
        SimpleInstruction::Le,
        SimpleInstruction::Ge,
        SimpleInstruction::Abort,
    ];
    assert_eq!(all.len(), 44);
    for instr in all {
        let (pops, pushes, pop_size, push_size) = change(instr);
        assert!(pops <= 2);
        assert!(pushes <= 1);
        assert_eq!(pops == 0, pop_size == 0);
        assert_eq!(pushes == 0, push_size == 0);
        // The same instruction has the same effect every time.
        assert_eq!(change(instr), (pops, pushes, pop_size, push_size));
    }
}

#[test]
fn total_size_adds_to_the_seed() {
    assert_eq!(total_size(0, &[]), 0);
    assert_eq!(total_size(7, &[]), 7);
    assert_eq!(total_size(0, &[3, 4]), 7);
    assert_eq!(total_size(2, &[3, 4]), 9);
    assert_eq!(total_size(0, &[1, 2, 3, 4, 5]), 15);
}

#[test]
fn total_size_saturates() {
    assert_eq!(total_size(0, &[u64::MAX, 1]), u64::MAX);
    assert_eq!(total_size(1, &[u64::MAX]), u64::MAX);
    assert_eq!(total_size(0, &[u64::MAX - 1, 1]), u64::MAX);
    assert_eq!(total_size(0, &[u64::MAX - 2, 1]), u64::MAX - 1);
    assert_eq!(total_size(u64::MAX, &[0, 0]), u64::MAX);
    assert_eq!(total_size(0, &[u64::MAX, u64::MAX, u64::MAX]), u64::MAX);
}

//! The simple instructions and what each does to the operand stack.
//!
//! A simple instruction has no operand of its own, so its effect on the stack
//! is known from the opcode: which slots it pops and which it pushes. The
//! widths of integer operands are not known here; arithmetic is therefore taken
//! to pop the smallest integers and push the largest.

use vstd::prelude::*;
use crate::gas::size::{size_sum, REFERENCE_SIZE};

verus! {

/// The instructions that take no operand.
#[derive(Clone, Copy, Debug, PartialEq, Eq, Structural)]
pub enum SimpleInstruction {
    Nop,
    Ret,
    BrTrue,
    BrFalse,
    Branch,
    LdU8,
    LdU16,
    LdU32,
    LdU64,
    LdU128,
    LdU256,
    LdTrue,
    LdFalse,
    FreezeRef,
    MutBorrowLoc,
    ImmBorrowLoc,
    ImmBorrowField,
    MutBorrowField,
    ImmBorrowFieldGeneric,
    MutBorrowFieldGeneric,
    CastU8,
    CastU16,
    CastU32,
    CastU64,
    CastU128,
    CastU256,
    Add,
    Sub,
    Mul,
    Mod,
    Div,
    BitOr,
    BitAnd,
    Xor,
    Shl,
    Shr,
    Or,
    And,
    Not,
    Lt,
    Gt,
    Le,
    Ge,
    Abort,
}

/// The abstract memory size of a value of each primitive type, as the virtual
/// machine's type introspection reports it. The meter consumes these sizes and
/// fixes none of them.
#[derive(Clone, Copy, Debug, PartialEq, Eq, Structural)]
pub struct TypeSizes {
    pub bool_size: u64,
    pub u8_size: u64,
    pub u16_size: u64,
    pub u32_size: u64,
    pub u64_size: u64,
    pub u128_size: u64,
    pub u256_size: u64,
    pub address_size: u64,
}

/// What one slot of the operand stack holds, as far as its size goes.
pub ghost enum Slot {
    Bool,
    U8,
    U16,
    U32,
    U64,
    U128,
    U256,
    Reference,
}

/// The slots that one instruction moves in one direction: none, one, or two.
pub ghost enum Slots {
    Zero,
    One(Slot),
    Two(Slot, Slot),
}

impl Slots {
    /// How many slots these are.
    pub open spec fn count(self) -> u64 {
        match self {
            Slots::Zero => 0,
            Slots::One(_) => 1,
            Slots::Two(_, _) => 2,
        }
    }

    /// The size of the slots together, a saturating sum.
    pub open spec fn size(self, sizes: TypeSizes) -> u64 {
        match self {
            Slots::Zero => 0,
            Slots::One(slot) => sizes.slot_size(slot),
            Slots::Two(first, second) => size_sum(sizes.slot_size(first), sizes.slot_size(second)),
        }
    }
}

impl TypeSizes {
    /// The size of one slot: that of its primitive type, or the fixed size of
    /// a reference, whatever it refers to.
    pub open spec fn slot_size(self, slot: Slot) -> u64 {
        match slot {
            Slot::Bool => self.bool_size,
            Slot::U8 => self.u8_size,
            Slot::U16 => self.u16_size,
            Slot::U32 => self.u32_size,
            Slot::U64 => self.u64_size,
            Slot::U128 => self.u128_size,
            Slot::U256 => self.u256_size,
            Slot::Reference => REFERENCE_SIZE,
        }
    }
}

impl SimpleInstruction {
    /// The slots that the instruction takes off the stack.
    pub open spec fn popped(self) -> Slots {
        match self {
            // The pops of `Ret` are accounted for by the call.
            SimpleInstruction::Nop | SimpleInstruction::Ret | SimpleInstruction::Branch => {
                Slots::Zero
            },
            SimpleInstruction::BrTrue | SimpleInstruction::BrFalse => Slots::One(Slot::Bool),
            SimpleInstruction::LdU8
            | SimpleInstruction::LdU16
            | SimpleInstruction::LdU32
            | SimpleInstruction::LdU64
            | SimpleInstruction::LdU128
            | SimpleInstruction::LdU256
            | SimpleInstruction::LdTrue
            | SimpleInstruction::LdFalse => Slots::Zero,
            SimpleInstruction::ImmBorrowLoc | SimpleInstruction::MutBorrowLoc => Slots::Zero,
            SimpleInstruction::FreezeRef
            | SimpleInstruction::ImmBorrowField
            | SimpleInstruction::MutBorrowField
            | SimpleInstruction::ImmBorrowFieldGeneric
            | SimpleInstruction::MutBorrowFieldGeneric => Slots::One(Slot::Reference),
            // The width of the value that is cast is not known: the smallest.
            SimpleInstruction::CastU8
            | SimpleInstruction::CastU16
            | SimpleInstruction::CastU32
            | SimpleInstruction::CastU64
            | SimpleInstruction::CastU128
            | SimpleInstruction::CastU256 => Slots::One(Slot::U8),
            SimpleInstruction::Add
            | SimpleInstruction::Sub
            | SimpleInstruction::Mul
            | SimpleInstruction::Mod
            | SimpleInstruction::Div
            | SimpleInstruction::BitOr
            | SimpleInstruction::BitAnd
            | SimpleInstruction::Xor
            | SimpleInstruction::Shl
            | SimpleInstruction::Shr => Slots::Two(Slot::U8, Slot::U8),
            SimpleInstruction::Or | SimpleInstruction::And => Slots::Two(Slot::Bool, Slot::Bool),
            SimpleInstruction::Lt
            | SimpleInstruction::Gt
            | SimpleInstruction::Le
            | SimpleInstruction::Ge => Slots::Two(Slot::U8, Slot::U8),
            SimpleInstruction::Not => Slots::One(Slot::Bool),
            SimpleInstruction::Abort => Slots::One(Slot::U64),
        }
    }

    /// The slots that the instruction puts on the stack: at most one.
    pub open spec fn pushed(self) -> Slots {
        match self {
            SimpleInstruction::Nop | SimpleInstruction::Ret | SimpleInstruction::Branch => {
                Slots::Zero
            },
            SimpleInstruction::BrTrue | SimpleInstruction::BrFalse => Slots::Zero,
            SimpleInstruction::LdU8 | SimpleInstruction::CastU8 => Slots::One(Slot::U8),
            SimpleInstruction::LdU16 | SimpleInstruction::CastU16 => Slots::One(Slot::U16),
            SimpleInstruction::LdU32 | SimpleInstruction::CastU32 => Slots::One(Slot::U32),
            SimpleInstruction::LdU64 | SimpleInstruction::CastU64 => Slots::One(Slot::U64),
            SimpleInstruction::LdU128 | SimpleInstruction::CastU128 => Slots::One(Slot::U128),
            SimpleInstruction::LdU256 | SimpleInstruction::CastU256 => Slots::One(Slot::U256),
            SimpleInstruction::LdTrue | SimpleInstruction::LdFalse => Slots::One(Slot::Bool),
            SimpleInstruction::FreezeRef
            | SimpleInstruction::ImmBorrowLoc
            | SimpleInstruction::MutBorrowLoc
            | SimpleInstruction::ImmBorrowField
            | SimpleInstruction::MutBorrowField
            | SimpleInstruction::ImmBorrowFieldGeneric
            | SimpleInstruction::MutBorrowFieldGeneric => Slots::One(Slot::Reference),
            // The width of the operands is not known: the largest result.
            SimpleInstruction::Add
            | SimpleInstruction::Sub
            | SimpleInstruction::Mul
            | SimpleInstruction::Mod
            | SimpleInstruction::Div
            | SimpleInstruction::BitOr
            | SimpleInstruction::BitAnd
            | SimpleInstruction::Xor
            | SimpleInstruction::Shl
            | SimpleInstruction::Shr => Slots::One(Slot::U256),
            SimpleInstruction::Or
            | SimpleInstruction::And
            | SimpleInstruction::Not
            | SimpleInstruction::Lt
            | SimpleInstruction::Gt
            | SimpleInstruction::Le
            | SimpleInstruction::Ge => Slots::One(Slot::Bool),
            SimpleInstruction::Abort => Slots::Zero,
        }
    }

    /// The stack effect of the instruction: how many slots it pops, how many
    /// it pushes, and the sizes of what is popped and of what is pushed.
    pub open spec fn stack_change(self, sizes: TypeSizes) -> (u64, u64, u64, u64) {
        (
            self.popped().count(),
            self.pushed().count(),
            self.popped().size(sizes),
            self.pushed().size(sizes),
        )
    }
}

/// Every simple instruction has one stack effect, by which it pops at most
/// two slots and pushes at most one. What pops or pushes nothing takes or
/// adds no bytes.
pub proof fn lemma_stack_change_is_small(instr: SimpleInstruction, sizes: TypeSizes)
    ensures
        0 <= instr.stack_change(sizes).0 <= 2,
        0 <= instr.stack_change(sizes).1 <= 1,
        instr.stack_change(sizes).0 == 0 ==> instr.stack_change(sizes).2 == 0,
        instr.stack_change(sizes).1 == 0 ==> instr.stack_change(sizes).3 == 0,
{
}

/// The pops, the pushes, the size popped and the size pushed of one simple
/// instruction.
pub fn get_simple_instruction_stack_change(instr: SimpleInstruction, sizes: &TypeSizes) -> (change:
    (u64, u64, u64, u64))
    ensures
        change == instr.stack_change(*sizes),
{
    match instr {
        // The pops of `Ret` are accounted for by the call.
        SimpleInstruction::Nop | SimpleInstruction::Ret => (0, 0, 0, 0),
        SimpleInstruction::BrTrue | SimpleInstruction::BrFalse => (1, 0, sizes.bool_size, 0),
        SimpleInstruction::Branch => (0, 0, 0, 0),
        SimpleInstruction::LdU8 => (0, 1, 0, sizes.u8_size),
        SimpleInstruction::LdU16 => (0, 1, 0, sizes.u16_size),
        SimpleInstruction::LdU32 => (0, 1, 0, sizes.u32_size),
        SimpleInstruction::LdU64 => (0, 1, 0, sizes.u64_size),
        SimpleInstruction::LdU128 => (0, 1, 0, sizes.u128_size),
        SimpleInstruction::LdU256 => (0, 1, 0, sizes.u256_size),
        SimpleInstruction::LdTrue | SimpleInstruction::LdFalse => (0, 1, 0, sizes.bool_size),
        SimpleInstruction::FreezeRef => (1, 1, REFERENCE_SIZE, REFERENCE_SIZE),
        SimpleInstruction::ImmBorrowLoc | SimpleInstruction::MutBorrowLoc => (
            0,
            1,
            0,
            REFERENCE_SIZE,
        ),
        SimpleInstruction::ImmBorrowField
        | SimpleInstruction::MutBorrowField
        | SimpleInstruction::ImmBorrowFieldGeneric
        | SimpleInstruction::MutBorrowFieldGeneric => (1, 1, REFERENCE_SIZE, REFERENCE_SIZE),
        // The size of the value that is cast is not known here: it is taken to
        // be cast from the smallest integer type.
        SimpleInstruction::CastU8 => (1, 1, sizes.u8_size, sizes.u8_size),
        SimpleInstruction::CastU16 => (1, 1, sizes.u8_size, sizes.u16_size),
        SimpleInstruction::CastU32 => (1, 1, sizes.u8_size, sizes.u32_size),
        SimpleInstruction::CastU64 => (1, 1, sizes.u8_size, sizes.u64_size),
        SimpleInstruction::CastU128 => (1, 1, sizes.u8_size, sizes.u128_size),
        SimpleInstruction::CastU256 => (1, 1, sizes.u8_size, sizes.u256_size),
        // The integers at hand are not known either: pop the smallest, push
        // the largest.
        SimpleInstruction::Add
        | SimpleInstruction::Sub
        | SimpleInstruction::Mul
        | SimpleInstruction::Mod
        | SimpleInstruction::Div => (
            2,
            1,
            sizes.u8_size.saturating_add(sizes.u8_size),
            sizes.u256_size,
        ),
        SimpleInstruction::BitOr | SimpleInstruction::BitAnd | SimpleInstruction::Xor => (
            2,
            1,
            sizes.u8_size.saturating_add(sizes.u8_size),
            sizes.u256_size,
        ),
        SimpleInstruction::Shl | SimpleInstruction::Shr => (
            2,
            1,
            sizes.u8_size.saturating_add(sizes.u8_size),
            sizes.u256_size,
        ),
        SimpleInstruction::Or | SimpleInstruction::And => (
            2,
            1,
            sizes.bool_size.saturating_add(sizes.bool_size),
            sizes.bool_size,
        ),
        SimpleInstruction::Lt
        | SimpleInstruction::Gt
        | SimpleInstruction::Le
        | SimpleInstruction::Ge => (
            2,
            1,
            sizes.u8_size.saturating_add(sizes.u8_size),
            sizes.bool_size,
        ),
        SimpleInstruction::Not => (1, 1, sizes.bool_size, sizes.bool_size),
        SimpleInstruction::Abort => (1, 0, sizes.u64_size, 0),
    }
}

} // verus!

//! One charge per operation of the virtual machine.
//!
//! Each method works out what its operation does to the operand stack (the
//! slots pushed and popped, the bytes by which the stack grows and shrinks),
//! counts the instruction, and hands the five numbers to
//! [`MoveOSGasMeter::charge`]. Values come in as their abstract memory sizes;
//! the sizes of primitive types are those the meter was made with.

use vstd::prelude::*;
use crate::gas::instruction::{get_simple_instruction_stack_change, SimpleInstruction};
use crate::gas::meter::{GasError, MoveOSGasMeter};
use crate::gas::size::{
    saturating_total, size_sum, total_size, REFERENCE_SIZE, STRUCT_SIZE, VEC_SIZE,
};

verus! {

/// The number of values in `sizes`, none where there are no values at all.
pub open spec fn count_of(sizes: Option<&[u64]>) -> u64 {
    match sizes {
        Some(sizes) => sizes@.len() as u64,
        None => 0,
    }
}

/// The saturating sum of `sizes`, zero where there are no values at all.
pub open spec fn total_of(sizes: Option<&[u64]>) -> u64 {
    match sizes {
        Some(sizes) => saturating_total(0, sizes@),
        None => 0,
    }
}

impl MoveOSGasMeter {
    /// Charges for a simple instruction by its stack effect.
    pub fn charge_simple_instr(&mut self, instr: SimpleInstruction) -> (result: Result<
        (),
        GasError,
    >)
        ensures
            old(self)@.charges_to(
                final(self)@,
                result,
                1,
                instr.stack_change(old(self)@.type_sizes).1,
                instr.stack_change(old(self)@.type_sizes).0,
                instr.stack_change(old(self)@.type_sizes).3,
                instr.stack_change(old(self)@.type_sizes).2,
            ),
    {
        let sizes = self.type_sizes();
        let (pops, pushes, pop_size, push_size) = get_simple_instruction_stack_change(instr, &sizes);
        self.charge(1, pushes, pops, push_size, pop_size)
    }

    /// Charges for popping a value of size `popped_size` off the stack.
    pub fn charge_pop(&mut self, popped_size: u64) -> (result: Result<(), GasError>)
        ensures
            old(self)@.charges_to(final(self)@, result, 1, 0, 1, 0, popped_size),
    {
        self.charge(1, 0, 1, 0, popped_size)
    }

    /// Charges for a call: every argument is popped, and the stack shrinks by
    /// the sum of their sizes. The size as a whole stays the same, since the
    /// arguments only move from the operand stack to the locals.
    pub fn charge_call(&mut self, _func_name: &str, arg_sizes: &[u64], _num_locals: u64) -> (result:
        Result<(), GasError>)
        ensures
            old(self)@.charges_to(
                final(self)@,
                result,
                1,
                0,
                arg_sizes@.len() as u64,
                0,
                saturating_total(0, arg_sizes@),
            ),
    {
        // We will have to perform this many pops for the call.
        let pops = arg_sizes.len() as u64;
        let stack_reduction_size = total_size(0, arg_sizes);
        self.charge(1, 0, pops, 0, stack_reduction_size)
    }

    /// Charges for a call of a generic function, as for any other call.
    pub fn charge_call_generic(
        &mut self,
        _func_name: &str,
        arg_sizes: &[u64],
        _num_locals: u64,
    ) -> (result: Result<(), GasError>)
        ensures
            old(self)@.charges_to(
                final(self)@,
                result,
                1,
                0,
                arg_sizes@.len() as u64,
                0,
                saturating_total(0, arg_sizes@),
            ),
    {
        // We have to perform this many pops from the operand stack for this function call.
        let pops = arg_sizes.len() as u64;
        // The size reduction on the operand stack.
        let stack_reduction_size = total_size(0, arg_sizes);
        // Charge for the pops, no pushes, and account for the stack size decrease.
        self.charge(1, 0, pops, 0, stack_reduction_size)
    }

    /// Charges for loading a constant of `size` bytes onto the stack.
    pub fn charge_ld_const(&mut self, size: u64) -> (result: Result<(), GasError>)
        ensures
            old(self)@.charges_to(final(self)@, result, 1, 1, 0, size, 0),
    {
        self.charge(1, 1, 0, size, 0)
    }

    /// Free: the constant was charged for by the bytes that were loaded.
    pub fn charge_ld_const_after_deserialization(&mut self) -> (result: Result<(), GasError>)
        ensures
            result is Ok,
            final(self)@ == old(self)@,
    {
        Ok(())
    }

    /// Charges for the copy of a local of size `val_size` onto the stack.
    pub fn charge_copy_loc(&mut self, val_size: u64) -> (result: Result<(), GasError>)
        ensures
            old(self)@.charges_to(final(self)@, result, 1, 1, 0, val_size, 0),
    {
        self.charge(1, 1, 0, val_size, 0)
    }

    /// Charges for the move of a local of size `val_size` onto the stack. The
    /// sizes of locals are not tracked, so the move counts as growth.
    pub fn charge_move_loc(&mut self, val_size: u64) -> (result: Result<(), GasError>)
        ensures
            old(self)@.charges_to(final(self)@, result, 1, 1, 0, val_size, 0),
    {
        self.charge(1, 1, 0, val_size, 0)
    }

    /// Charges for storing the value of size `val_size` on top of the stack
    /// into a local.
    pub fn charge_store_loc(&mut self, val_size: u64) -> (result: Result<(), GasError>)
        ensures
            old(self)@.charges_to(final(self)@, result, 1, 0, 1, 0, val_size),
    {
        self.charge(1, 0, 1, 0, val_size)
    }

    /// Charges for packing `num_fields` values into a struct: the fields are
    /// popped, the struct is pushed, and the stack grows by the size of a
    /// struct alone.
    pub fn charge_pack(&mut self, _is_generic: bool, num_fields: u64) -> (result: Result<
        (),
        GasError,
    >)
        ensures
            old(self)@.charges_to(final(self)@, result, 1, 1, num_fields, STRUCT_SIZE, 0),
    {
        self.charge(1, 1, num_fields, STRUCT_SIZE, 0)
    }

    /// Charges for unpacking a struct into its `num_fields` fields.
    pub fn charge_unpack(&mut self, _is_generic: bool, num_fields: u64) -> (result: Result<
        (),
        GasError,
    >)
        ensures
            old(self)@.charges_to(final(self)@, result, 1, num_fields, 1, 0, STRUCT_SIZE),
    {
        self.charge(1, num_fields, 1, 0, STRUCT_SIZE)
    }

    /// Charges for reading through a reference: the reference leaves the
    /// stack and the value read, of size `ref_val_size`, comes onto it.
    pub fn charge_read_ref(&mut self, ref_val_size: u64) -> (result: Result<(), GasError>)
        ensures
            old(self)@.charges_to(final(self)@, result, 1, 1, 1, ref_val_size, REFERENCE_SIZE),
    {
        self.charge(1, 1, 1, ref_val_size, REFERENCE_SIZE)
    }

    /// Charges for writing through a reference a value of size
    /// `new_val_size` over one of size `old_val_size`.
    pub fn charge_write_ref(&mut self, new_val_size: u64, old_val_size: u64) -> (result: Result<
        (),
        GasError,
    >)
        ensures
            old(self)@.charges_to(final(self)@, result, 1, 1, 2, new_val_size, old_val_size),
    {
        self.charge(1, 1, 2, new_val_size, old_val_size)
    }

    /// Charges for comparing two values for equality.
    pub fn charge_eq(&mut self, lhs_size: u64, rhs_size: u64) -> (result: Result<(), GasError>)
        ensures
            old(self)@.charges_to(
                final(self)@,
                result,
                1,
                1,
                2,
                size_sum(old(self)@.type_sizes.bool_size, size_sum(lhs_size, rhs_size)),
                size_sum(lhs_size, rhs_size),
            ),
    {
        let size_reduction = lhs_size.saturating_add(rhs_size);
        let bool_size = self.type_sizes().bool_size;
        self.charge(1, 1, 2, bool_size.saturating_add(size_reduction), size_reduction)
    }

    /// Charges for comparing two values for inequality.
    pub fn charge_neq(&mut self, lhs_size: u64, rhs_size: u64) -> (result: Result<(), GasError>)
        ensures
            old(self)@.charges_to(
                final(self)@,
                result,
                1,
                1,
                2,
                old(self)@.type_sizes.bool_size,
                size_sum(lhs_size, rhs_size),
            ),
    {
        let size_reduction = lhs_size.saturating_add(rhs_size);
        let bool_size = self.type_sizes().bool_size;
        self.charge(1, 1, 2, bool_size, size_reduction)
    }

    /// Charges for borrowing a resource from global storage: an address is
    /// popped and a reference pushed.
    pub fn charge_borrow_global(
        &mut self,
        _is_mut: bool,
        _is_generic: bool,
        _is_success: bool,
    ) -> (result: Result<(), GasError>)
        ensures
            old(self)@.charges_to(
                final(self)@,
                result,
                1,
                1,
                1,
                REFERENCE_SIZE,
                old(self)@.type_sizes.address_size,
            ),
    {
        let address_size = self.type_sizes().address_size;
        self.charge(1, 1, 1, REFERENCE_SIZE, address_size)
    }

    /// Charges for asking whether a resource exists: an address is popped and
    /// a boolean pushed.
    pub fn charge_exists(&mut self, _is_generic: bool, _exists: bool) -> (result: Result<
        (),
        GasError,
    >)
        ensures
            old(self)@.charges_to(
                final(self)@,
                result,
                1,
                1,
                1,
                old(self)@.type_sizes.bool_size,
                old(self)@.type_sizes.address_size,
            ),
    {
        let sizes = self.type_sizes();
        self.charge(1, 1, 1, sizes.bool_size, sizes.address_size)
    }

    /// Charges for moving a resource out of global storage: an address is
    /// popped and the resource, of size `val_size` if there was one, pushed.
    pub fn charge_move_from(&mut self, _is_generic: bool, val_size: Option<u64>) -> (result:
        Result<(), GasError>)
        ensures
            old(self)@.charges_to(
                final(self)@,
                result,
                1,
                1,
                1,
                match val_size {
                    Some(size) => size,
                    None => 0,
                },
                old(self)@.type_sizes.address_size,
            ),
    {
        let size = match val_size {
            Some(size) => size,
            None => 0,
        };
        let address_size = self.type_sizes().address_size;
        self.charge(1, 1, 1, size, address_size)
    }

    /// Charges for moving a resource into global storage: the signer and the
    /// resource are popped.
    pub fn charge_move_to(&mut self, _is_generic: bool, _is_success: bool) -> (result: Result<
        (),
        GasError,
    >)
        ensures
            old(self)@.charges_to(
                final(self)@,
                result,
                1,
                0,
                2,
                0,
                old(self)@.type_sizes.address_size,
            ),
    {
        let address_size = self.type_sizes().address_size;
        self.charge(1, 0, 2, 0, address_size)
    }

    /// Charges for packing `num_args` values into a vector: the data on the
    /// stack stays, and the vector's own size comes on top.
    pub fn charge_vec_pack(&mut self, num_args: u64) -> (result: Result<(), GasError>)
        ensures
            old(self)@.charges_to(final(self)@, result, 1, 1, num_args, VEC_SIZE, 0),
    {
        self.charge(1, 1, num_args, VEC_SIZE, 0)
    }

    /// Charges for taking the length of a vector.
    pub fn charge_vec_len(&mut self) -> (result: Result<(), GasError>)
        ensures
            old(self)@.charges_to(
                final(self)@,
                result,
                1,
                1,
                1,
                old(self)@.type_sizes.u64_size,
                REFERENCE_SIZE,
            ),
    {
        let u64_size = self.type_sizes().u64_size;
        self.charge(1, 1, 1, u64_size, REFERENCE_SIZE)
    }

    /// Charges for borrowing an element of a vector: the vector's reference
    /// and the index are popped, the element's reference is pushed.
    pub fn charge_vec_borrow(&mut self, _is_mut: bool, _is_success: bool) -> (result: Result<
        (),
        GasError,
    >)
        ensures
            old(self)@.charges_to(
                final(self)@,
                result,
                1,
                1,
                2,
                REFERENCE_SIZE,
                size_sum(REFERENCE_SIZE, old(self)@.type_sizes.u64_size),
            ),
    {
        let u64_size = self.type_sizes().u64_size;
        self.charge(1, 1, 2, REFERENCE_SIZE, REFERENCE_SIZE.saturating_add(u64_size))
    }

    /// Charges for pushing onto a vector. The value was on the stack before,
    /// so only the reference goes.
    pub fn charge_vec_push_back(&mut self) -> (result: Result<(), GasError>)
        ensures
            old(self)@.charges_to(final(self)@, result, 1, 0, 2, 0, REFERENCE_SIZE),
    {
        self.charge(1, 0, 2, 0, REFERENCE_SIZE)
    }

    /// Charges for popping from a vector.
    pub fn charge_vec_pop_back(&mut self) -> (result: Result<(), GasError>)
        ensures
            old(self)@.charges_to(final(self)@, result, 1, 1, 1, 0, REFERENCE_SIZE),
    {
        self.charge(1, 1, 1, 0, REFERENCE_SIZE)
    }

    /// Charges for unpacking a vector into `expect_num_elements` values.
    pub fn charge_vec_unpack(&mut self, expect_num_elements: u64) -> (result: Result<
        (),
        GasError,
    >)
        ensures
            old(self)@.charges_to(final(self)@, result, 1, expect_num_elements, 1, 0, VEC_SIZE),
    {
        // Charge for the pushes
        let pushes = expect_num_elements;
        // The stack size stays pretty much the same modulo the additional vector size
        self.charge(1, pushes, 1, 0, VEC_SIZE)
    }

    /// Charges for swapping two elements of a vector: the reference and the
    /// two indices are popped.
    pub fn charge_vec_swap(&mut self) -> (result: Result<(), GasError>)
        ensures
            old(self)@.charges_to(
                final(self)@,
                result,
                1,
                1,
                1,
                0,
                size_sum(
                    size_sum(REFERENCE_SIZE, old(self)@.type_sizes.u64_size),
                    old(self)@.type_sizes.u64_size,
                ),
            ),
    {
        let u64_size = self.type_sizes().u64_size;
        let size_decrease = REFERENCE_SIZE.saturating_add(u64_size).saturating_add(u64_size);
        self.charge(1, 1, 1, 0, size_decrease)
    }

    /// Free: resource loading is not priced here.
    pub fn charge_load_resource(&mut self, _loaded: Option<u64>) -> (result: Result<(), GasError>)
        ensures
            result is Ok,
            final(self)@ == old(self)@,
    {
        Ok(())
    }

    /// Charges for what a native function hands back, then deducts the
    /// `amount` that the function itself reported as its cost. The values
    /// returned are pushed; no instruction is counted, since the call was
    /// counted before the function ran. Either step can run out of gas.
    pub fn charge_native_function(&mut self, amount: u64, ret_val_sizes: Option<&[u64]>) -> (result:
        Result<(), GasError>)
        ensures
            (final(self)@, result) == old(self)@.charged_then_deducted(
                0,
                count_of(ret_val_sizes),
                0,
                total_of(ret_val_sizes),
                0,
                amount,
            ),
            (final(self)@, result) == old(self)@.deducted(amount),
    {
        // The pushes on to the stack that the return of this function is going to cause.
        let pushes = match ret_val_sizes {
            Some(sizes) => sizes.len() as u64,
            None => 0,
        };
        // The number of bytes that are getting pushed onto the stack.
        let size_increase = match ret_val_sizes {
            Some(sizes) => total_size(0, sizes),
            None => 0,
        };
        self.charge(0, pushes, 0, size_increase, 0)?;
        // Now charge the gas that the native function told us to charge.
        self.deduct_gas(amount)
    }

    /// Charges for the call of a native function before it runs: the
    /// arguments are popped, and the call is counted as one instruction.
    pub fn charge_native_function_before_execution(&mut self, arg_sizes: &[u64]) -> (result: Result<
        (),
        GasError,
    >)
        ensures
            old(self)@.charges_to(
                final(self)@,
                result,
                1,
                0,
                arg_sizes@.len() as u64,
                0,
                saturating_total(arg_sizes@.len() as u64, arg_sizes@),
            ),
    {
        // The number of pops that are going to be needed for this function call.
        let pops = arg_sizes.len() as u64;
        // The size decrease of the stack from the above pops.
        let stack_reduction_size = total_size(pops, arg_sizes);
        self.charge(1, 0, pops, 0, stack_reduction_size)
    }

    /// Free: dropping the locals of a frame is not priced.
    pub fn charge_drop_frame(&mut self) -> (result: Result<(), GasError>)
        ensures
            result is Ok,
            final(self)@ == old(self)@,
    {
        Ok(())
    }
}

} // verus!

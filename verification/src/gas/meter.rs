//! The gas meter: the budget of one execution and the two primitives that
//! every charge goes through.
//!
//! A meter is active while gas is left or while charging is switched off. A
//! deduction that asks for more than is left empties the meter and fails; an
//! empty meter that charges stays empty for good.

use vstd::prelude::*;
use crate::gas::cost_table::{CostTable, CostTableView};
use crate::gas::instruction::TypeSizes;
use std::collections::BTreeMap;

verus! {

/// Why a charge failed.
#[derive(Clone, Copy, Debug, PartialEq, Eq, Structural)]
pub enum GasError {
    /// The charge asked for more gas than was left. The execution that owns
    /// the meter is over: nothing is retried and nothing is refunded.
    OutOfGas,
}

/// The gas meter of one execution. It is made with a budget, and every
/// operation of the virtual machine is charged to it.
#[derive(Debug)]
pub struct MoveOSGasMeter {
    pub gas_model_version: u64,
    cost_table: CostTable,
    type_sizes: TypeSizes,
    gas_left: u64,
    gas_price: u64,
    initial_budget: u64,
    charge: bool,
}

/// The state of a meter.
pub ghost struct GasMeterView {
    pub gas_model_version: u64,
    pub cost_table: CostTableView,
    pub type_sizes: TypeSizes,
    /// The gas that is left, in internal gas units.
    pub gas_left: u64,
    pub gas_price: u64,
    /// The budget that the meter was made with.
    pub initial_budget: u64,
    /// Whether deductions take effect.
    pub charging: bool,
}

impl View for MoveOSGasMeter {
    type V = GasMeterView;

    closed spec fn view(&self) -> GasMeterView {
        GasMeterView {
            gas_model_version: self.gas_model_version,
            cost_table: self.cost_table@,
            type_sizes: self.type_sizes,
            gas_left: self.gas_left,
            gas_price: self.gas_price,
            initial_budget: self.initial_budget,
            charging: self.charge,
        }
    }
}

impl GasMeterView {
    /// The meter after a deduction of `amount`, and whether the deduction
    /// succeeded. A meter that does not charge is left as it is. One that
    /// charges pays the amount if it has it; if not, it is emptied and the
    /// deduction fails.
    pub open spec fn deducted(self, amount: u64) -> (GasMeterView, Result<(), GasError>) {
        if !self.charging {
            (self, Ok(()))
        } else if amount <= self.gas_left {
            (GasMeterView { gas_left: (self.gas_left - amount) as u64, ..self }, Ok(()))
        } else {
            (GasMeterView { gas_left: 0, ..self }, Err(GasError::OutOfGas))
        }
    }

    /// The meter after the charge for one operation, and whether the charge
    /// succeeded. The operation is given by the instructions it counts for,
    /// the slots it pushes and pops, and the bytes by which it grows and
    /// shrinks the stack.
    pub closed spec fn charged(
        self,
        num_instructions: u64,
        pushes: u64,
        pops: u64,
        incr_size: u64,
        decr_size: u64,
    ) -> (GasMeterView, Result<(), GasError>) {
        (self, Ok(()))
    }

    /// Whether `after` and `result` are what the charge for one operation
    /// makes of this meter. What an operation does to the stack is priced at
    /// nothing: the charge succeeds and the meter is as it was.
    pub open spec fn charges_to(
        self,
        after: GasMeterView,
        result: Result<(), GasError>,
        num_instructions: u64,
        pushes: u64,
        pops: u64,
        incr_size: u64,
        decr_size: u64,
    ) -> bool {
        &&& (after, result) == self.charged(num_instructions, pushes, pops, incr_size, decr_size)
        &&& after == self
        &&& result is Ok
    }

    /// The meter after the charge for one operation and then, if the charge
    /// succeeded, a deduction of `amount`; and whether both succeeded.
    pub open spec fn charged_then_deducted(
        self,
        num_instructions: u64,
        pushes: u64,
        pops: u64,
        incr_size: u64,
        decr_size: u64,
        amount: u64,
    ) -> (GasMeterView, Result<(), GasError>) {
        let charged = self.charged(num_instructions, pushes, pops, incr_size, decr_size);
        if charged.1 is Err {
            charged
        } else {
            charged.0.deducted(amount)
        }
    }

    /// Whether the meter charges and has nothing left.
    pub open spec fn is_exhausted(self) -> bool {
        self.charging && self.gas_left == 0
    }
}

impl MoveOSGasMeter {
    /// A meter that does not charge: no gas left, an empty cost table, and an
    /// initial budget of ten million units.
    pub fn new(type_sizes: TypeSizes) -> (meter: Self)
        ensures
            meter@ == (GasMeterView {
                gas_model_version: 0,
                cost_table: CostTableView {
                    instruction_tiers: Map::empty(),
                    stack_height_tiers: Map::empty(),
                    stack_size_tiers: Map::empty(),
                },
                type_sizes,
                gas_left: 0,
                gas_price: 0,
                initial_budget: 10000000,
                charging: false,
            }),
    {
        Self {
            gas_model_version: 0,
            cost_table: CostTable {
                instruction_tiers: BTreeMap::new(),
                stack_height_tiers: BTreeMap::new(),
                stack_size_tiers: BTreeMap::new(),
            },
            type_sizes,
            gas_left: 0,
            gas_price: 0,
            initial_budget: 10000000,
            charge: false,
        }
    }

    /// A meter for one execution: `budget` units of gas to spend under the
    /// schedule of `cost_table`, charged for if `charge` is set.
    pub fn with_budget(
        gas_model_version: u64,
        cost_table: CostTable,
        type_sizes: TypeSizes,
        budget: u64,
        gas_price: u64,
        charge: bool,
    ) -> (meter: Self)
        ensures
            meter@ == (GasMeterView {
                gas_model_version,
                cost_table: cost_table@,
                type_sizes,
                gas_left: budget,
                gas_price,
                initial_budget: budget,
                charging: charge,
            }),
    {
        Self {
            gas_model_version,
            cost_table,
            type_sizes,
            gas_left: budget,
            gas_price,
            initial_budget: budget,
            charge,
        }
    }

    /// The gas that is left.
    pub fn balance_internal(&self) -> (balance: u64)
        ensures
            balance == self@.gas_left,
    {
        self.gas_left
    }

    /// The sizes of the primitive types that the meter prices with.
    pub fn type_sizes(&self) -> (sizes: TypeSizes)
        ensures
            sizes == self@.type_sizes,
    {
        self.type_sizes
    }

    /// Charges for one operation: `num_instructions` executed instructions,
    /// `pushes` slots put on the stack and `pops` taken off it, the stack
    /// grown by `incr_size` bytes and shrunk by `decr_size`. The charge is
    /// free: it succeeds and leaves the meter as it was.
    pub fn charge(
        &mut self,
        num_instructions: u64,
        pushes: u64,
        pops: u64,
        incr_size: u64,
        decr_size: u64,
    ) -> (result: Result<(), GasError>)
        ensures
            old(self)@.charges_to(
                final(self)@,
                result,
                num_instructions,
                pushes,
                pops,
                incr_size,
                decr_size,
            ),
    {
        Ok(())
    }

    /// Takes `amount` off the gas that is left. Without charging this does
    /// nothing and succeeds. Where less than `amount` is left, the meter is
    /// emptied and the deduction fails with [`GasError::OutOfGas`].
    pub fn deduct_gas(&mut self, amount: u64) -> (result: Result<(), GasError>)
        ensures
            (final(self)@, result) == old(self)@.deducted(amount),
    {
        if !self.charge {
            return Ok(());
        }
        match self.gas_left.checked_sub(amount) {
            Some(gas_left) => {
                self.gas_left = gas_left;
                Ok(())
            },
            None => {
                self.gas_left = 0;
                Err(GasError::OutOfGas)
            },
        }
    }
}

/// The charge for an operation is free, whatever the operation does to the
/// stack.
pub proof fn lemma_stack_charge_is_free(
    meter: GasMeterView,
    num_instructions: u64,
    pushes: u64,
    pops: u64,
    incr_size: u64,
    decr_size: u64,
)
    ensures
        meter.charged(num_instructions, pushes, pops, incr_size, decr_size) == (
            meter,
            Ok::<(), GasError>(()),
        ),
{
}

} // verus!

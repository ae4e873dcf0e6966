//! What holds of a meter over any run of charges.
//!
//! A charge is one call of a charging method, told by what it hands to the
//! meter's two primitives. The laws speak of the meter's state before and
//! after such charges.

use vstd::prelude::*;
use crate::gas::meter::{lemma_stack_charge_is_free, GasError, GasMeterView};

verus! {

/// One charge against a meter.
pub ghost enum Charge {
    /// The charge for an operation by what it does to the stack.
    Stack { num_instructions: u64, pushes: u64, pops: u64, incr_size: u64, decr_size: u64 },
    /// A deduction of an amount of gas.
    Deduction { amount: u64 },
    /// The charge for what a native function returns, then the deduction of
    /// the cost that it reported.
    Native { pushes: u64, incr_size: u64, amount: u64 },
    /// An operation that is not priced.
    Free,
}

impl GasMeterView {
    /// The meter after `charge`, and whether the charge succeeded.
    pub open spec fn after(self, charge: Charge) -> (GasMeterView, Result<(), GasError>) {
        match charge {
            Charge::Stack { num_instructions, pushes, pops, incr_size, decr_size } => self.charged(
                num_instructions,
                pushes,
                pops,
                incr_size,
                decr_size,
            ),
            Charge::Deduction { amount } => self.deducted(amount),
            Charge::Native { pushes, incr_size, amount } => self.charged_then_deducted(
                0,
                pushes,
                0,
                incr_size,
                0,
                amount,
            ),
            Charge::Free => (self, Ok(())),
        }
    }

    /// The meter after `charges`, one after the other.
    pub open spec fn after_all(self, charges: Seq<Charge>) -> GasMeterView
        decreases charges.len(),
    {
        if charges.len() == 0 {
            self
        } else {
            self.after_all(charges.drop_last()).after(charges.last()).0
        }
    }
}

/// One charge never raises the gas that is left and changes nothing else of
/// the meter. A meter that does not charge is left as it is. The charge fails
/// exactly when the meter charges and is asked for more gas than it has; the
/// failure is out of gas, and the meter is then empty. A charge that succeeds
/// on a charging meter takes exactly what it asks.
pub proof fn lemma_one_charge(meter: GasMeterView, charge: Charge)
    ensures
        !meter.charging ==> meter.after(charge) == (meter, Ok::<(), GasError>(())),
        meter.after(charge).0.gas_left <= meter.gas_left,
        meter.after(charge).0 == (GasMeterView {
            gas_left: meter.after(charge).0.gas_left,
            ..meter
        }),
        meter.after(charge).1 is Err <==> meter.charging && asked(charge) > meter.gas_left,
        meter.after(charge).1 is Err ==> meter.after(charge).1 == Err::<(), GasError>(
            GasError::OutOfGas,
        ) && meter.after(charge).0.gas_left == 0,
        meter.after(charge).1 is Ok && meter.charging ==> meter.after(charge).0.gas_left
            == meter.gas_left - asked(charge),
{
    match charge {
        Charge::Stack { num_instructions, pushes, pops, incr_size, decr_size } => {
            lemma_stack_charge_is_free(meter, num_instructions, pushes, pops, incr_size, decr_size);
        },
        Charge::Native { pushes, incr_size, amount } => {
            lemma_stack_charge_is_free(meter, 0, pushes, 0, incr_size, 0);
        },
        _ => {},
    }
}

/// The gas that `charge` asks of a meter.
pub open spec fn asked(charge: Charge) -> u64 {
    match charge {
        Charge::Stack { .. } => 0,
        Charge::Deduction { amount } => amount,
        Charge::Native { amount, .. } => amount,
        Charge::Free => 0,
    }
}

/// Over any run of charges the gas that is left never rises: after more of
/// them there is at most as much as after fewer.
pub proof fn lemma_gas_left_never_rises(
    meter: GasMeterView,
    charges: Seq<Charge>,
    fewer: int,
    more: int,
)
    requires
        0 <= fewer <= more <= charges.len(),
    ensures
        meter.after_all(charges.take(more)).gas_left <= meter.after_all(
            charges.take(fewer),
        ).gas_left,
    decreases more - fewer,
{
    if fewer < more {
        lemma_gas_left_never_rises(meter, charges, fewer, more - 1);
        assert(charges.take(more).drop_last() =~= charges.take(more - 1));
        lemma_one_charge(meter.after_all(charges.take(more - 1)), charges[more - 1]);
    }
}

/// A meter that does not charge is the same after any run of charges, and
/// no further charge fails.
pub proof fn lemma_disabled_charging_changes_nothing(
    meter: GasMeterView,
    charges: Seq<Charge>,
    next: Charge,
)
    requires
        !meter.charging,
    ensures
        meter.after_all(charges) == meter,
        meter.after_all(charges).after(next) == (meter, Ok::<(), GasError>(())),
    decreases charges.len(),
{
    if charges.len() > 0 {
        lemma_disabled_charging_changes_nothing(meter, charges.drop_last(), charges.last());
    }
    lemma_one_charge(meter, next);
}

/// A deduction of more than is left fails with out of gas and leaves nothing.
pub proof fn lemma_out_of_gas(meter: GasMeterView, amount: u64)
    requires
        meter.charging,
        amount > meter.gas_left,
    ensures
        meter.deducted(amount) == (
            GasMeterView { gas_left: 0, ..meter },
            Err::<(), GasError>(GasError::OutOfGas),
        ),
{
}

/// An exhausted meter is the same after any run of charges: there is no way
/// back from exhaustion.
pub proof fn lemma_exhausted_is_final(meter: GasMeterView, charges: Seq<Charge>)
    requires
        meter.is_exhausted(),
    ensures
        meter.after_all(charges) == meter,
    decreases charges.len(),
{
    if charges.len() > 0 {
        lemma_exhausted_is_final(meter, charges.drop_last());
        lemma_one_charge(meter, charges.last());
    }
}

} // verus!

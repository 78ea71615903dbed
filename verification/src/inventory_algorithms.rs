//! Inventory computations timed by the number of allocations they read.

use vstd::prelude::*;
use crate::event_replay::{Timed};
use crate::foundation::{DomainResult, Nat, Quantity, ValidationError, sum_nat, total_result};
use crate::inventory::{Allocation, allocations_total, allocations_total_value};

verus! {

/// The allocation total together with the number of allocations summed.
pub fn timed_allocations_total(allocations: &[Allocation]) -> (r: DomainResult<Timed<Quantity>>)
    ensures
        match r {
            Ok(t) => total_result(sum_nat(allocations@, allocations_total_value()) as int, "allocations_total") == Ok::<u128, ValidationError>(t.spec_ret())
                && t.spec_time() == allocations.len(),
            Err(e) => total_result(sum_nat(allocations@, allocations_total_value()) as int, "allocations_total") == Err::<u128, ValidationError>(e),
        },
{
    match allocations_total(allocations) {
        Err(e) => Err(e),
        Ok(total) => Ok(Timed::new(total, allocations.len() as Nat)),
    }
}

} // verus!

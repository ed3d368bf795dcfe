//! Simulation of genotype data: random genotype matrices of allele dosages,
//! with column standardization and correlation left to floating-point callers.

use vstd::prelude::*;

pub mod comp;
pub mod sim;

verus! {

/// Errors raised by the simulation and statistics routines.
#[derive(Clone, Copy, Debug, PartialEq, Eq, Structural)]
pub enum SimError {
    /// A requested dimension is zero, or a distribution parameter lies
    /// outside its valid domain.
    InvalidParameter,
    /// Fewer than two samples were supplied to an operation that needs a
    /// sample variance.
    InsufficientSamples,
}

/// Decides whether `n` samples suffice for a sample-variance computation:
/// column standardization and correlation divide by `n - 1`, so they need at
/// least two rows.
pub fn enough_samples(n: usize) -> (res: Result<(), SimError>)
    ensures
        res is Ok <==> n >= 2,
        res matches Err(e) ==> e == SimError::InsufficientSamples,
{
    if n >= 2 {
        Ok(())
    } else {
        Err(SimError::InsufficientSamples)
    }
}

} // verus!

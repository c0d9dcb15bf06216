//! The interfaces shared by the indicators and the numbers they compute with.
use crate::error::Result;
use vstd::prelude::*;

verus! {

/// A number type that indicators and kernels compute with (for example a 64-bit or a
/// 32-bit float, chosen once for a whole program).
///
/// Each operation has a spec function of the same name that stands for the exact result
/// of the implementation, rounding included: an implementation meets these contracts as
/// long as its operations are deterministic and free of side effects. Contracts of the
/// library are stated over these spec functions, so they describe the exact sequence of
/// operations performed, not an idealised real-number result.
///
/// Generic code treats every one of these spec functions as unknown, so what it proves
/// holds of every such implementation. Their default bodies take no part in any proof;
/// they only spare implementations outside verified code from spelling them out.
pub trait Sample: Copy + Sized {
    /// The additive identity.
    closed spec fn zero_spec() -> Self {
        arbitrary()
    }

    /// The result of `plus`.
    closed spec fn plus_spec(self, other: Self) -> Self {
        arbitrary()
    }

    /// The result of `minus`.
    closed spec fn minus_spec(self, other: Self) -> Self {
        arbitrary()
    }

    /// The result of `times`.
    closed spec fn times_spec(self, other: Self) -> Self {
        arbitrary()
    }

    /// The result of `div_count`.
    closed spec fn div_count_spec(self, n: nat) -> Self {
        arbitrary()
    }

    /// Whether the value is finite (neither NaN nor infinite).
    closed spec fn finite_spec(self) -> bool {
        arbitrary()
    }

    /// The result of `kernel_sum`: the total of `data` as computed by the kernel family
    /// selected for this process.
    closed spec fn kernel_sum_spec(data: Seq<Self>) -> Self {
        arbitrary()
    }

    /// The additive identity.
    fn zero() -> (r: Self)
        ensures
            r == Self::zero_spec(),
    ;

    /// `self + other`.
    fn plus(self, other: Self) -> (r: Self)
        ensures
            r == self.plus_spec(other),
    ;

    /// `self - other`.
    fn minus(self, other: Self) -> (r: Self)
        ensures
            r == self.minus_spec(other),
    ;

    /// `self * other`.
    fn times(self, other: Self) -> (r: Self)
        ensures
            r == self.times_spec(other),
    ;

    /// `self / n`.
    fn div_count(self, n: usize) -> (r: Self)
        requires
            n > 0,
        ensures
            r == self.div_count_spec(n as nat),
    ;

    /// Whether the value is finite.
    fn is_finite(self) -> (r: bool)
        ensures
            r == self.finite_spec(),
    ;

    /// The total of `data`, through the kernel family selected for this process.
    fn kernel_sum(data: &[Self]) -> (r: Self)
        ensures
            r == Self::kernel_sum_spec(data@),
    ;
}

/// The interface of every indicator: batch computation into a caller's buffer or a new
/// vector, and streaming computation one input at a time.
///
/// `N` is the number of values an indicator produces per step.
pub trait Indicator<const N: usize> {
    /// The type of one input.
    type Input;

    /// The type of one output.
    type Output;

    /// How many leading inputs are consumed before the first output.
    fn lookback(&self) -> usize;

    /// Writes the outputs for `inputs` to the front of `outputs` and returns how many
    /// were written.
    fn compute(&self, inputs: &[Self::Input], outputs: &mut [Self::Output]) -> Result<usize>;

    /// The outputs for `inputs` in a new vector.
    fn compute_to_vec(&self, inputs: &[Self::Input]) -> Result<Vec<Self::Output>>;

    /// Takes one input; returns an output once enough inputs have been seen.
    fn next(&mut self, input: Self::Input) -> Option<Self::Output>;

    /// Applies `next` to each input in order and returns every result.
    fn stream(&mut self, inputs: &[Self::Input]) -> Vec<Option<Self::Output>>;
}

/// Indicators whose accumulated state can be discarded.
pub trait Resettable {
    /// Returns the indicator to the state it had right after construction.
    fn reset(&mut self);
}

} // verus!

//! Rolling-window technical-analysis indicators with a verified core.
//!
//! Indicators compute in batch (a whole slice at once) and in streaming mode (one input
//! at a time). They are generic over the number type they compute with ([`Sample`]),
//! which is chosen once for a whole program; their contracts describe the exact
//! sequence of operations performed on those numbers. The kernel family used for the
//! expensive reductions is chosen once per process from what the processor offers
//! ([`simd`]).
//!
//! The crate is organised as follows:
//! - [`error`]: the error taxonomy and its human-readable messages;
//! - [`decimal`]: decimal rendering of unsigned integers used in messages;
//! - [`simd`]: instruction-set families and the choice of kernels;
//! - [`traits`]: the number interface and the indicator interface;
//! - [`scalar`]: the portable kernels;
//! - [`sma`]: the simple moving average.
pub mod decimal;
pub mod error;
pub mod scalar;
pub mod simd;
pub mod sma;
pub mod traits;

pub use error::{Result, TalibError};
pub use sma::Sma;
pub use traits::{Indicator, Resettable, Sample};

//! The error taxonomy of the library and the text of each error.
use crate::decimal::{decimal, push_decimal};
use vstd::prelude::*;

verus! {

/// Every way in which an operation of this library can fail.
#[derive(Debug, Clone, PartialEq, Eq)]
pub enum TalibError {
    /// A value consumed by a batch computation is not finite.
    InvalidInput {
        /// What was wrong with the input.
        message: String,
    },
    /// A period parameter cannot be used (for example zero).
    InvalidPeriod {
        /// The rejected period.
        period: usize,
        /// Why it was rejected.
        reason: String,
    },
    /// A caller-supplied buffer or data set is shorter than needed.
    InsufficientData {
        /// The length that was needed.
        required: usize,
        /// The length that was supplied.
        actual: usize,
    },
    /// A named parameter holds a value outside its domain.
    InvalidParameter {
        /// The parameter's name.
        name: String,
        /// The rejected value, as text.
        value: String,
        /// What was expected instead.
        expected: String,
    },
    /// An internal numerical failure not covered by the other kinds.
    ComputationError {
        /// What went wrong.
        message: String,
    },
    /// A feature or indicator variant that is not available yet.
    NotImplemented {
        /// The missing feature.
        feature: String,
    },
}

/// Outcome of a fallible operation of this library.
pub type Result<T> = core::result::Result<T, TalibError>;

/// The message that describes an error to a person.
pub open spec fn error_text(e: TalibError) -> Seq<char> {
    match e {
        TalibError::InvalidInput { message } => "Invalid input: "@ + message@,
        TalibError::InvalidPeriod { period, reason } => "Invalid period "@ + decimal(period as nat)
            + ": "@ + reason@,
        TalibError::InsufficientData { required, actual } => "Insufficient data: required "@
            + decimal(required as nat) + " data points, got "@ + decimal(actual as nat),
        TalibError::InvalidParameter { name, value, expected } => "Invalid parameter '"@ + name@
            + "': got '"@ + value@ + "', expected "@ + expected@,
        TalibError::ComputationError { message } => "Computation error: "@ + message@,
        TalibError::NotImplemented { feature } => "Feature not implemented: "@ + feature@,
    }
}

fn joined(head: &str, tail: &str) -> (r: String)
    ensures
        r@ == head@ + tail@,
{
    let mut s = String::from_str(head);
    s.append(tail);
    s
}

impl TalibError {
    /// An `InvalidInput` error with the given message.
    pub fn invalid_input(message: &str) -> (r: TalibError)
        ensures
            r matches TalibError::InvalidInput { message: m } && m@ == message@,
    {
        TalibError::InvalidInput { message: String::from_str(message) }
    }

    /// An `InvalidPeriod` error for `period`, with the reason it was rejected.
    pub fn invalid_period(period: usize, reason: &str) -> (r: TalibError)
        ensures
            r matches TalibError::InvalidPeriod { period: p, reason: m } && p == period && m@
                == reason@,
    {
        TalibError::InvalidPeriod { period, reason: String::from_str(reason) }
    }

    /// An `InsufficientData` error: `required` items were needed, `actual` were given.
    pub fn insufficient_data(required: usize, actual: usize) -> (r: TalibError)
        ensures
            r == (TalibError::InsufficientData { required, actual }),
    {
        TalibError::InsufficientData { required, actual }
    }

    /// An `InvalidParameter` error for the parameter `name`.
    pub fn invalid_parameter(name: &str, value: &str, expected: &str) -> (r: TalibError)
        ensures
            r matches TalibError::InvalidParameter { name: n, value: v, expected: x } && n@
                == name@ && v@ == value@ && x@ == expected@,
    {
        TalibError::InvalidParameter {
            name: String::from_str(name),
            value: String::from_str(value),
            expected: String::from_str(expected),
        }
    }

    /// A `ComputationError` with the given message.
    pub fn computation_error(message: &str) -> (r: TalibError)
        ensures
            r matches TalibError::ComputationError { message: m } && m@ == message@,
    {
        TalibError::ComputationError { message: String::from_str(message) }
    }

    /// A `NotImplemented` error naming the missing feature.
    pub fn not_implemented(feature: &str) -> (r: TalibError)
        ensures
            r matches TalibError::NotImplemented { feature: f } && f@ == feature@,
    {
        TalibError::NotImplemented { feature: String::from_str(feature) }
    }

    /// The message that describes this error to a person.
    pub fn to_string(&self) -> (r: String)
        ensures
            r@ == error_text(*self),
    {
        match self {
            TalibError::InvalidInput { message } => joined("Invalid input: ", message.as_str()),
            TalibError::InvalidPeriod { period, reason } => {
                let mut s = String::from_str("Invalid period ");
                push_decimal(&mut s, *period);
                s.append(": ");
                s.append(reason.as_str());
                s
            },
            TalibError::InsufficientData { required, actual } => {
                let mut s = String::from_str("Insufficient data: required ");
                push_decimal(&mut s, *required);
                s.append(" data points, got ");
                push_decimal(&mut s, *actual);
                s
            },
            TalibError::InvalidParameter { name, value, expected } => {
                let mut s = String::from_str("Invalid parameter '");
                s.append(name.as_str());
                s.append("': got '");
                s.append(value.as_str());
                s.append("', expected ");
                s.append(expected.as_str());
                s
            },
            TalibError::ComputationError { message } => joined(
                "Computation error: ",
                message.as_str(),
            ),
            TalibError::NotImplemented { feature } => joined(
                "Feature not implemented: ",
                feature.as_str(),
            ),
        }
    }
}

/// Declares std's `ParseFloatError` so that the conversion below can take it. Nothing
/// is assumed of its contents; its text comes from its `Display` impl through `to_string`.
#[verifier::external_type_specification]
#[verifier::external_body]
pub struct ExParseFloatError(core::num::ParseFloatError);

/// Declares std's `ParseIntError` so that the conversion below can take it. Nothing is
/// assumed of its contents; its text comes from its `Display` impl through `to_string`.
#[verifier::external_type_specification]
#[verifier::external_body]
pub struct ExParseIntError(core::num::ParseIntError);

/// Text that failed to parse as a number is an invalid input; the message keeps std's
/// description of the failure.
impl From<core::num::ParseFloatError> for TalibError {
    fn from(err: core::num::ParseFloatError) -> (r: TalibError) {
        let detail = err.to_string();
        TalibError::InvalidInput { message: joined("Failed to parse float: ", detail.as_str()) }
    }
}

impl vstd::std_specs::convert::FromSpecImpl<core::num::ParseFloatError> for TalibError {
    open spec fn obeys_from_spec() -> bool {
        false
    }

    open spec fn from_spec(v: core::num::ParseFloatError) -> TalibError {
        arbitrary()
    }
}

/// Text that failed to parse as an integer is an invalid input; the message keeps std's
/// description of the failure.
impl From<core::num::ParseIntError> for TalibError {
    fn from(err: core::num::ParseIntError) -> (r: TalibError) {
        let detail = err.to_string();
        TalibError::InvalidInput { message: joined("Failed to parse integer: ", detail.as_str()) }
    }
}

impl vstd::std_specs::convert::FromSpecImpl<core::num::ParseIntError> for TalibError {
    open spec fn obeys_from_spec() -> bool {
        false
    }

    open spec fn from_spec(v: core::num::ParseIntError) -> TalibError {
        arbitrary()
    }
}

} // verus!

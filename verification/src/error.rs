//! The one error type of erased bodies and services.

use core::convert::Infallible;
use vstd::prelude::*;
use vstd::std_specs::convert::FromSpecImpl;

verus! {

/// The failure that hides which body or service failed. Errors of other
/// types are converted into it where a concrete type is erased.
#[derive(Debug)]
pub enum BoxError {
    /// A body carried more content bytes than its budget allowed.
    DataTooLarge,
    /// Any other failure, by its description.
    Other(String),
}

impl BoxError {
    /// A failure with the description `message`.
    pub fn other(message: String) -> (error: Self)
        ensures
            error == BoxError::Other(message),
    {
        BoxError::Other(message)
    }

    /// The description of the failure.
    pub fn message(&self) -> (text: String)
        ensures
            match self {
                BoxError::DataTooLarge => text@ == "data too large"@,
                BoxError::Other(message) => text@ == message@,
            },
    {
        match self {
            BoxError::DataTooLarge => DataTooLarge.message(),
            BoxError::Other(message) => message.clone(),
        }
    }

    /// Whether this is the failure of a byte budget.
    pub fn is_data_too_large(&self) -> (b: bool)
        ensures
            b == (*self is DataTooLarge),
    {
        match self {
            BoxError::DataTooLarge => true,
            BoxError::Other(_) => false,
        }
    }
}

/// The error of a body that went over its byte budget.
#[derive(Debug, Clone, Copy)]
pub struct DataTooLarge;

impl DataTooLarge {
    /// The description of the error: `data too large`.
    pub fn message(&self) -> (text: String)
        ensures
            text@ == "data too large"@,
    {
        "data too large".to_string()
    }
}

impl From<DataTooLarge> for BoxError {
    fn from(error: DataTooLarge) -> (boxed: BoxError) {
        BoxError::DataTooLarge
    }
}

impl FromSpecImpl<DataTooLarge> for BoxError {
    open spec fn obeys_from_spec() -> bool {
        true
    }

    open spec fn from_spec(error: DataTooLarge) -> BoxError {
        BoxError::DataTooLarge
    }
}

impl From<String> for BoxError {
    fn from(message: String) -> (boxed: BoxError) {
        BoxError::Other(message)
    }
}

impl FromSpecImpl<String> for BoxError {
    open spec fn obeys_from_spec() -> bool {
        true
    }

    open spec fn from_spec(message: String) -> BoxError {
        BoxError::Other(message)
    }
}

impl From<Infallible> for BoxError {
    /// No value of `Infallible` exists, so this never runs; it is here for
    /// bodies and services that cannot fail.
    fn from(error: Infallible) -> (boxed: BoxError) {
        BoxError::DataTooLarge
    }
}

impl FromSpecImpl<Infallible> for BoxError {
    open spec fn obeys_from_spec() -> bool {
        true
    }

    open spec fn from_spec(error: Infallible) -> BoxError {
        BoxError::DataTooLarge
    }
}

} // verus!

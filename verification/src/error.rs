//! The typed error taxonomy and the translation of raw outcome codes.
//!
//! A call returns a signed 64-bit code together with a second payload word.
//! Code zero is success with the payload as the result, a positive code is an
//! extension-defined non-error result passed through as the result itself,
//! and every negative code maps to exactly one member of [`Error`].

use vstd::prelude::*;

use crate::consts::{SBI_ERR_DENIED, SBI_ERR_INVALID_ADDRESS, SBI_ERR_INVALID_PARAM};

verus! {

/// Errors raised while decoding a register frame or translating the raw
/// outcome of a call.
#[derive(Clone, Copy, Debug, PartialEq, Eq, Structural)]
pub enum Error {
    /// The extension identifier in the frame is not recognized.
    UnsupportedExtension,
    /// The function selector is not recognized for the extension.
    UnsupportedFunction,
    /// A field value lies outside its legal domain.
    InvalidParam,
    /// The operation was rejected by policy.
    Denied,
    /// An address or length argument fails alignment or ownership
    /// requirements.
    InvalidAddress,
    /// Residual bucket: a negative outcome code with no specific mapping,
    /// carried through unchanged.
    NotSupported(i64),
}

impl Error {
    /// The taxonomy member a negative raw outcome code translates to.
    pub open spec fn spec_from_code(code: i64) -> Error {
        if code == SBI_ERR_INVALID_PARAM {
            Error::InvalidParam
        } else if code == SBI_ERR_DENIED {
            Error::Denied
        } else if code == SBI_ERR_INVALID_ADDRESS {
            Error::InvalidAddress
        } else {
            Error::NotSupported(code)
        }
    }

    /// Translates a negative raw outcome code into its taxonomy member.
    pub fn from_code(code: i64) -> (r: Error)
        requires
            code < 0,
        ensures
            r == Error::spec_from_code(code),
    {
        if code == SBI_ERR_INVALID_PARAM {
            Error::InvalidParam
        } else if code == SBI_ERR_DENIED {
            Error::Denied
        } else if code == SBI_ERR_INVALID_ADDRESS {
            Error::InvalidAddress
        } else {
            Error::NotSupported(code)
        }
    }
}

/// The typed result that a raw `(code, value)` outcome pair translates to.
pub open spec fn spec_outcome_to_result(code: i64, value: u64) -> Result<u64, Error> {
    if code == 0 {
        Ok(value)
    } else if code < 0 {
        Err(Error::spec_from_code(code))
    } else {
        Ok(code as u64)
    }
}

/// Translates the two raw result words of a call into a typed result: code
/// zero is success carrying the payload word, a negative code is a typed
/// error, and a positive code is an extension-defined result passed through
/// uninterpreted.
pub fn outcome_to_result(code: i64, value: u64) -> (r: Result<u64, Error>)
    ensures
        r == spec_outcome_to_result(code, value),
{
    if code == 0 {
        Ok(value)
    } else if code < 0 {
        Err(Error::from_code(code))
    } else {
        Ok(code as u64)
    }
}

/// Law: a zero code always translates to success, and every negative code
/// translates to exactly the one taxonomy member given by its fixed mapping,
/// whatever the payload word holds.
pub proof fn lemma_outcome_translation(code: i64, value: u64)
    ensures
        code == 0 ==> spec_outcome_to_result(code, value) == Ok::<u64, Error>(value),
        code < 0 ==> spec_outcome_to_result(code, value) == Err::<u64, Error>(
            Error::spec_from_code(code),
        ),
{
}

} // verus!

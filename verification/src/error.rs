use vstd::prelude::*;

use crate::win_ffi::HRESULT;
use crate::win_ffi::PROPVARIANTConversionError;

verus! {

/// The errors of calls into 7-Zip: a failure code, or a property of an
/// unexpected type.
#[derive(Debug, Clone, Copy, PartialEq, Eq, Structural)]
pub enum FFIError {
    HResultError(HRESULT),
    PropVariantConversionError(PROPVARIANTConversionError),
}

/// Result type whose error is an [`FFIError`].
pub type FFIResult<T> = Result<T, FFIError>;

impl From<HRESULT> for FFIError {
    fn from(value: HRESULT) -> (r: FFIError) {
        FFIError::HResultError(value)
    }
}

impl vstd::std_specs::convert::FromSpecImpl<HRESULT> for FFIError {
    open spec fn obeys_from_spec() -> bool {
        true
    }

    open spec fn from_spec(value: HRESULT) -> FFIError {
        FFIError::HResultError(value)
    }
}

impl From<PROPVARIANTConversionError> for FFIError {
    fn from(value: PROPVARIANTConversionError) -> (r: FFIError) {
        FFIError::PropVariantConversionError(value)
    }
}

impl vstd::std_specs::convert::FromSpecImpl<PROPVARIANTConversionError> for FFIError {
    open spec fn obeys_from_spec() -> bool {
        true
    }

    open spec fn from_spec(value: PROPVARIANTConversionError) -> FFIError {
        FFIError::PropVariantConversionError(value)
    }
}

impl FFIError {
    /// The message of the wrapped error.
    pub fn to_string(&self) -> (r: String)
        ensures
            match self {
                FFIError::HResultError(h) => r@ == crate::win_ffi::hresult::spec_display(h.0),
                FFIError::PropVariantConversionError(e) => r@ == "unexpected PROPVARIANT type: expected "@
                    + e.spec_expected().spec_name() + ", got "@ + e.spec_got().spec_name(),
            },
    {
        match self {
            FFIError::HResultError(h) => h.to_string(),
            FFIError::PropVariantConversionError(e) => e.to_string(),
        }
    }
}

} // verus!

//! Windows data types used across the 7-Zip ABI.
pub mod hresult;

pub use hresult::HRESULT;
pub use hresult::HrResult;
pub mod filetime;

pub use filetime::FILETIME;
pub mod bstr;

pub use bstr::BSTR;
pub mod propvariant;

pub use propvariant::PROPVARIANTConversionError;
pub use propvariant::STATPROPSTG;
pub use propvariant::VARTYPE;
pub use propvariant::VT_BOOL;
pub use propvariant::PROPVARIANT;
pub use propvariant::PropVariantData;
pub mod propvalue;

pub use propvalue::PropValue;

//! Safe, verified building blocks for talking to the 7-Zip library:
//! HRESULT codes, FILETIME arithmetic, BSTR and PROPVARIANT values,
//! COM interface identifiers and the small state machines behind the
//! progress callbacks.
#![allow(non_snake_case)]
#![allow(non_camel_case_types)]
#![allow(non_upper_case_globals)]

pub mod win_ffi;
pub mod ffi;
pub mod codecs;
pub mod IStream;
pub mod IProgress;
pub mod ICoder;
pub mod IArchive;
pub mod handlers;
mod error;

pub use error::FFIError;
pub use error::FFIResult;

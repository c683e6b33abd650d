//! Error type shared by every fallible operation of the library.

use vstd::prelude::*;

verus! {

/// Failure of a driver operation.
#[derive(Debug, Clone)]
pub enum RtlsdrError {
    /// The USB transport reported an error; the payload describes it.
    Usb(String),
    /// A driver-level failure: invalid parameter, missing device,
    /// unsolvable PLL request, or an unexpected device response.
    RtlsdrErr(String),
}

impl RtlsdrError {
    /// Human-readable description of this error.
    pub fn message(&self) -> String {
        match self {
            RtlsdrError::Usb(s) => s.clone(),
            RtlsdrError::RtlsdrErr(s) => s.clone(),
        }
    }
}

} // verus!

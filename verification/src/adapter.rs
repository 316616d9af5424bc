//! The adapter-acquisition outcome. Requesting an adapter is the backend's
//! negotiation with the OS and driver; the application performs it and
//! reports here whether a compatible adapter was obtained.

use vstd::prelude::*;

verus! {

/// Failure to obtain a physical GPU adapter compatible with the surface.
#[derive(Clone, Copy, Debug, PartialEq, Eq, Structural)]
pub enum AdapterError {
    NotObtained,
}

/// Turns the outcome of the application's adapter request into the
/// engine's own error type: an adapter was either obtained, or assembling
/// a renderer must abort.
pub fn confirm_adapter(adapter_found: bool) -> (r: Result<(), AdapterError>)
    ensures
        r is Ok <==> adapter_found,
        !adapter_found ==> r == Result::<(), AdapterError>::Err(AdapterError::NotObtained),
{
    if adapter_found {
        Ok(())
    } else {
        Err(AdapterError::NotObtained)
    }
}

} // verus!

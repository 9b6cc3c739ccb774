use vstd::prelude::*;

verus! {

/// Signed 32-bit status codes of the binary convention: a non-negative value
/// denotes success (`NOERROR`, zero, is unqualified success) and a negative
/// value denotes failure, with fixed well-known failure values.
pub const NOERROR: i32 = 0;

/// The requested interface is not implemented by the object.
pub const E_NOINTERFACE: i32 = -2147467262;

/// An interface pointer does not address a live object.
pub const E_POINTER: i32 = -2147467261;

/// An argument is malformed, such as an interface pointer whose offset does
/// not address a dispatch-pointer field, or an interface definition whose
/// inheritance chain does not terminate at the universal root.
pub const E_INVALIDARG: i32 = -2147024809;

/// Whether a status code denotes success.
pub fn succeeded(status: i32) -> (r: bool)
    ensures
        r <==> status >= 0,
{
    status >= 0
}

} // verus!

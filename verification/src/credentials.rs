//! The authenticated users a scenario acts as.
//!
//! Loading credentials — reading them from disk or prompting for them — is
//! interactive work outside the library; it hands back plain `AuthUser`
//! values.

use vstd::prelude::*;
use vstd::string::StrSliceExecFns;

verus! {

/// One authenticated user: its address on the service and the token its
/// requests are authenticated with.
#[derive(Clone, Debug)]
pub struct AuthUser {
    pub address: String,
    pub token: String,
}

/// The short display form of an address: its last four characters, or the
/// whole address where it has fewer or is not plain ASCII.
pub fn address_suffix(address: &str) -> (r: &str)
    ensures
        vstd::string::is_ascii(address) && address@.len() >= 4 ==> r@ == address@.subrange(
            address@.len() - 4,
            address@.len() as int,
        ),
        !(vstd::string::is_ascii(address) && address@.len() >= 4) ==> r@ == address@,
{
    if address.is_ascii() {
        let n = address.unicode_len();
        if n >= 4 {
            return address.substring_ascii(n - 4, n);
        }
    }
    address
}

} // verus!

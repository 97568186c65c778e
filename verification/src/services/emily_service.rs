//! The companion "emily" service.

use vstd::prelude::*;

verus! {

/// The greeting that says this module is linked in.
pub fn connect_check() -> (s: String)
    ensures
        s@ == "connect complete emily_service"@,
{
    let s: String = String::from_str("connect complete emily_service");
    s
}

} // verus!

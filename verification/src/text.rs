//! Small text builders used by the routes and examples around the
//! server core.

use vstd::prelude::*;
use vstd::string::StringExecFns;

verus! {

/// The fixed greeting of the root route.
pub fn hello_world() -> (s: String)
    ensures
        s@ == "Hello, World!"@,
{
    "Hello, World!".to_owned()
}

/// The greeting of the named route: `Hello, ` + name + `!`.
pub fn hello(name: &str) -> (s: String)
    ensures
        s@ == "Hello, "@ + name@ + "!"@,
{
    let mut s = "Hello, ".to_owned();
    s.append(name);
    s.append("!");
    s
}

/// Appends the fixed postal code suffix to an address, in place.
pub fn add_postal_code(address: &mut String)
    ensures
        final(address)@ == old(address)@ + ", 1234 Kingston"@,
{
    address.append(", 1234 Kingston");
}

} // verus!

use vstd::prelude::*;
use vstd::string::StringExecFns;

verus! {

/// The start-up greeting for `name`: `"Hello "` followed by it.
pub fn greeting(name: &str) -> (r: String)
    ensures
        r@ == "Hello "@ + name@,
{
    let mut r = String::from_str("Hello ");
    r.append(name);
    r
}

} // verus!

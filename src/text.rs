use vstd::prelude::*;
use vstd::string::StringExecFns;

verus! {

/// A new string that holds `head` followed by `tail`.
pub fn joined(head: &str, tail: &str) -> (r: String)
    ensures
        r@ == head@ + tail@,
{
    String::from_str(head).concat(tail)
}

} // verus!

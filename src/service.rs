use vstd::prelude::*;

verus! {

/// Answer of the health endpoint: the service is running.
pub fn health() -> (r: String)
    ensures
        r@ == "true"@,
{
    String::from_str("true")
}

/// Handler of every OPTIONS request; the response headers are added elsewhere.
pub fn all_options() {
}

} // verus!

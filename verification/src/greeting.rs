//! The greeting that the web front end shows.

use vstd::prelude::*;

verus! {

/// Returns "Hello, World!".
pub fn say_hello() -> (s: String)
    ensures
        s@ == "Hello, World!"@,
{
    "Hello, World!".to_owned()
}

} // verus!

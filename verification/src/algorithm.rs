//! The default algorithm of a new Rust algorithm: it greets its input.

use vstd::prelude::*;
use vstd::string::*;

verus! {

/// Greets `input`: `Hello <input>`. It never fails.
pub fn apply(input: &str) -> (r: Result<String, String>)
    ensures
        r matches Ok(greeting) && greeting@ == "Hello "@ + input@,
{
    let mut greeting = "Hello ".to_owned();
    greeting.append(input);
    Ok(greeting)
}

} // verus!

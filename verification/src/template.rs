//! The default algorithm of a new Rust algorithm built on the request
//! handler: it takes a name and greets it.

use vstd::prelude::*;
use vstd::string::*;

verus! {

/// The algorithm's input: a name.
pub struct Input {
    pub name: String,
}

/// The algorithm's output: a message.
pub struct Output {
    pub msg: String,
}

/// Greets the name given: `Hello <name>`. It never fails.
pub fn apply(input: Input) -> (r: Result<Output, String>)
    ensures
        r matches Ok(out) && out.msg@ == "Hello "@ + input.name@,
{
    let mut msg = "Hello ".to_owned();
    msg.append(input.name.as_str());
    Ok(Output { msg })
}

} // verus!

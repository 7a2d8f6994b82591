//! The echo-style test operation: the input text framed by fixed markers.

use vstd::prelude::*;
use vstd::string::StringExecFns;

verus! {

/// The text the echo operation returns for input `s`: the input framed
/// as `test [<s>] other_test`.
pub open spec fn echo_spec(s: Seq<char>) -> Seq<char> {
    "test ["@ + s + "] other_test"@
}

/// Builds exactly `test [<input>] other_test` for any input text.
pub fn echo_test(input: &str) -> (r: String)
    ensures
        r@ == echo_spec(input@),
{
    let mut out = String::from_str("test [");
    out.append(input);
    out.append("] other_test");
    out
}

} // verus!

//! Building greeting lines.
//!
//! The library constructs the text that the greeter program writes: one line
//! `Hi {name}` per name, terminated by a newline. Writing the text to
//! standard output is left to the caller.

use vstd::prelude::*;
use vstd::string::StringExecFns;

verus! {

/// The greeting line for `name`: `"Hi "`, then the name, then a newline.
pub open spec fn spec_greeting(name: Seq<char>) -> Seq<char> {
    "Hi "@ + name + "\n"@
}

/// Builds the greeting line for `name`.
///
/// Any text is accepted, including the empty string, which yields the line
/// `"Hi \n"` (with its trailing space kept).
pub fn greeting(name: &str) -> (r: String)
    ensures
        r@ == spec_greeting(name@),
{
    let mut out = String::from_str("Hi ");
    out.append(name);
    out.append("\n");
    out
}

/// Builds the whole output of the greeter program: the greeting lines for
/// `"world"` and `"rust"`, in that order.
pub fn program_output() -> (r: String)
    ensures
        r@ == spec_greeting("world"@) + spec_greeting("rust"@),
{
    let mut out = greeting("world");
    let second = greeting("rust");
    out.append(second.as_str());
    out
}

/// The two greeting lines of the program, in order, are exactly the text
/// `"Hi world\nHi rust\n"`: nothing stands before, between or after them.
pub proof fn lemma_program_output_text()
    ensures
        spec_greeting("world"@) + spec_greeting("rust"@) == "Hi world\nHi rust\n"@,
{
    reveal_strlit("Hi ");
    reveal_strlit("\n");
    reveal_strlit("world");
    reveal_strlit("rust");
    reveal_strlit("Hi world\nHi rust\n");
    assert(spec_greeting("world"@) + spec_greeting("rust"@) =~= "Hi world\nHi rust\n"@);
}

/// The greeting line for the empty name is exactly `"Hi \n"`: the prefix with
/// its trailing space, then the line terminator, and nothing else.
pub proof fn lemma_empty_name_greeting()
    ensures
        spec_greeting(Seq::<char>::empty()) == "Hi \n"@,
{
    reveal_strlit("Hi ");
    reveal_strlit("\n");
    reveal_strlit("Hi \n");
    assert(spec_greeting(Seq::<char>::empty()) =~= "Hi \n"@);
}

} // verus!

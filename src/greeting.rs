use vstd::prelude::*;
use vstd::string::StringExecFns;

verus! {

/// Text placed before the name in a greeting.
pub open spec fn greeting_head() -> Seq<char> {
    "Hello, "@
}

/// Text placed after the name in a greeting.
pub open spec fn greeting_tail() -> Seq<char> {
    "! You've been greeted from Rust!"@
}

/// The greeting for `name`: the name, verbatim, between the fixed head and tail.
pub open spec fn greeting_of(name: Seq<char>) -> Seq<char> {
    greeting_head() + name + greeting_tail()
}

/// Builds the greeting shown to the user. It never fails and does not
/// escape or validate the name.
pub fn greet(name: &str) -> (r: String)
    ensures
        r@ == greeting_of(name@),
{
    let mut r = String::from_str("Hello, ");
    r.append(name);
    r.append("! You've been greeted from Rust!");
    r
}

/// A greeting starts with the fixed head, ends with the fixed tail, and holds
/// the name verbatim between the two, for every name.
pub proof fn lemma_greeting_frames_name(name: Seq<char>)
    ensures
        greeting_of(name).len() == greeting_head().len() + name.len() + greeting_tail().len(),
        greeting_of(name).subrange(0, greeting_head().len() as int) == greeting_head(),
        greeting_of(name).subrange(
            greeting_head().len() as int,
            (greeting_head().len() + name.len()) as int,
        ) == name,
        greeting_of(name).subrange(
            (greeting_head().len() + name.len()) as int,
            greeting_of(name).len() as int,
        ) == greeting_tail(),
{
    let g = greeting_of(name);
    let h = greeting_head().len() as int;
    let n = name.len() as int;
    assert(g.subrange(0, h) =~= greeting_head());
    assert(g.subrange(h, h + n) =~= name);
    assert(g.subrange(h + n, g.len() as int) =~= greeting_tail());
}

} // verus!

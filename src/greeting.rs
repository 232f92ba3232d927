use vstd::prelude::*;

verus! {

/// The text placed before the name in a greeting.
pub open spec fn greeting_head() -> Seq<char> {
    "Hello, "@
}

/// The text placed after the name in a greeting.
pub open spec fn greeting_tail() -> Seq<char> {
    "! You've been greeted from Rust!"@
}

/// The greeting for `name`: the name verbatim between the fixed head and tail.
pub open spec fn greeting_of(name: Seq<char>) -> Seq<char> {
    greeting_head() + name + greeting_tail()
}

/// A greeting holds the name verbatim, right after the head.
pub proof fn lemma_greeting_holds_name(name: Seq<char>)
    ensures
        greeting_of(name).subrange(
            greeting_head().len() as int,
            (greeting_head().len() + name.len()) as int,
        ) == name,
{
    assert(greeting_of(name).subrange(
        greeting_head().len() as int,
        (greeting_head().len() + name.len()) as int,
    ) =~= name);
}

/// Greets `name`. The result depends on the name alone.
pub fn greet(name: &str) -> (r: String)
    ensures
        r@ == greeting_of(name@),
{
    let mut r = String::from_str("Hello, ");
    r.append(name);
    r.append("! You've been greeted from Rust!");
    proof {
        reveal_strlit("Hello, ");
        reveal_strlit("! You've been greeted from Rust!");
    }
    r
}

} // verus!

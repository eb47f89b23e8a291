//! The greeting formatter: builds `"Hello {name}!"` from a name, and resolves
//! an absent name to the default `"stranger"`.

use vstd::prelude::*;
use vstd::string::StringExecFns;

verus! {

/// The name greeted when none is supplied.
pub open spec fn default_name() -> Seq<char> {
    "stranger"@
}

/// The greeting built from a name: `"Hello "`, the name, `"!"`.
pub open spec fn greeting_seq(name: Seq<char>) -> Seq<char> {
    "Hello "@ + name + "!"@
}

/// The name that a call with the given optional input greets: the input if
/// present, the default otherwise.
pub open spec fn resolved_name(name: Option<Seq<char>>) -> Seq<char> {
    match name {
        Some(s) => s,
        None => default_name(),
    }
}

/// The character sequences held by an optional owned string.
pub open spec fn option_view(name: Option<String>) -> Option<Seq<char>> {
    match name {
        Some(s) => Some(s@),
        None => None,
    }
}

/// Builds the greeting for a name. Total: any sequence of characters,
/// including the empty one, is accepted.
pub fn make_greeting(name: &str) -> (r: String)
    ensures
        r@ == greeting_seq(name@),
{
    let mut r: String = String::from_str("Hello ");
    r.append(name);
    r.append("!");
    r
}

/// Resolves an optional name: the name itself if present, `"stranger"` if not.
pub fn resolve_name(name: Option<String>) -> (r: String)
    ensures
        r@ == resolved_name(option_view(name)),
{
    match name {
        Some(s) => s,
        None => String::from_str("stranger"),
    }
}

/// The greeting that a call with the given optional name produces:
/// resolve the name, then format it.
pub fn greeting_for(name: Option<String>) -> (r: String)
    ensures
        r@ == greeting_seq(resolved_name(option_view(name))),
{
    let resolved = resolve_name(name);
    make_greeting(resolved.as_str())
}

/// A greeting is never empty: it always holds at least the fixed
/// `"Hello "` and `"!"` around the name.
pub proof fn lemma_greeting_nonempty(name: Seq<char>)
    ensures
        greeting_seq(name).len() > 0,
{
    reveal_strlit("Hello ");
    reveal_strlit("!");
}

} // verus!

//! Greeting bodies for the hello routes.

use vstd::prelude::*;

use crate::auth::opt_string_view;

verus! {

/// Name greeted by the query-parameter route: the given one, or "World".
pub open spec fn hello_name(name: Option<Seq<char>>) -> Seq<char> {
    match name {
        Some(n) => n,
        None => "World"@,
    }
}

/// Body of the query-parameter hello route.
pub open spec fn hello_message(name: Option<Seq<char>>) -> Seq<char> {
    "Hello <strong>"@ + hello_name(name) + "!!!</strong>"@
}

/// Body of the path-parameter hello route.
pub open spec fn hello2_message(name: Seq<char>) -> Seq<char> {
    "Hello2 <strong>"@ + name + "!!!</strong>"@
}

/// Greeting for `GET /hello?name=<name>`; the name defaults to "World".
pub fn hello_greeting(name: Option<&String>) -> (r: String)
    ensures
        r@ == hello_message(opt_string_view(name)),
{
    let mut s = String::from_str("Hello <strong>");
    match name {
        Some(n) => s.append(n.as_str()),
        None => s.append("World"),
    }
    s.append("!!!</strong>");
    proof {
        assert(s@ =~= hello_message(opt_string_view(name)));
    }
    s
}

/// Greeting for `GET /hello2/<name>`.
pub fn hello2_greeting(name: &str) -> (r: String)
    ensures
        r@ == hello2_message(name@),
{
    let mut s = String::from_str("Hello2 <strong>");
    s.append(name);
    s.append("!!!</strong>");
    proof {
        assert(s@ =~= hello2_message(name@));
    }
    s
}

} // verus!

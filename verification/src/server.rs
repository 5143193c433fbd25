//! A greeting endpoint: what it answers, given the name it
//! was asked with.
use vstd::prelude::*;

verus! {

/// The greeting API.
pub struct Api;

/// The greeting for an optional name.
pub open spec fn greeting(name: Option<Seq<char>>) -> Seq<char> {
    match name {
        Some(n) => "hello, "@ + n + "!"@,
        None => "hello!"@,
    }
}

impl Api {
    /// The greeting for `name`: `hello, name!`, or `hello!` where no name was given.
    pub fn index(&self, name: Option<String>) -> (r: String)
        ensures
            r@ == greeting(
                match name {
                    Some(n) => Some(n@),
                    None => None,
                },
            ),
    {
        match name {
            Some(n) => {
                let mut s = String::from_str("hello, ");
                s.append(n.as_str());
                s.append("!");
                s
            },
            None => String::from_str("hello!"),
        }
    }
}

} // verus!

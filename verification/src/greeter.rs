//! A greeting, the smallest service there is.

use vstd::prelude::*;
use vstd::string::StringExecFns;

verus! {

/// The greeting for somebody called `name`, or for a stranger.
pub open spec fn greeting(name: Option<Seq<char>>) -> Seq<char> {
    match name {
        Some(name) => "Hello, "@ + name + "!"@,
        None => "Hello, stranger."@,
    }
}

/// Greets `name` by name, or a stranger where no name is given.
pub fn get_greeting(name: Option<&str>) -> (text: String)
    ensures
        text@ == greeting(name.deep_view()),
{
    match name {
        Some(name) => {
            let mut text = "Hello, ".to_owned();
            text.append(name);
            text.append("!");
            text
        },
        None => "Hello, stranger.".to_owned(),
    }
}

} // verus!

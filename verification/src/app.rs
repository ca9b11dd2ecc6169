//! The page routes of the in-browser application.

use vstd::prelude::*;
use vstd::string::StringExecFns;

verus! {

/// The paths mounted under the application's pages, in mount order.
pub fn get_app_routes() -> (r: Vec<String>)
    ensures
        r@.len() == 7,
        r@[0]@ == "/"@,
        r@[1]@ == "/register"@,
        r@[2]@ == "/login"@,
        r@[3]@ == "/create-post"@,
        r@[4]@ == "/friends"@,
        r@[5]@ == "/random"@,
        r@[6]@ == "/profile"@,
{
    let mut r: Vec<String> = Vec::new();
    r.push(String::from_str("/"));
    r.push(String::from_str("/register"));
    r.push(String::from_str("/login"));
    r.push(String::from_str("/create-post"));
    r.push(String::from_str("/friends"));
    r.push(String::from_str("/random"));
    r.push(String::from_str("/profile"));
    r
}

} // verus!

//! The throwaway inspection endpoints' data and routes.

use vstd::prelude::*;
use vstd::string::StringExecFns;

verus! {

/// The payload posted to the user inspection endpoint.
#[derive(Clone, Copy, Debug)]
pub struct CreateUser<'r> {
    pub username: &'r str,
    pub password: &'r str,
}

/// The paths mounted under the inspection interface, in mount order; the
/// user path is mounted twice, once to read and once to create.
pub fn get_debug_routes() -> (r: Vec<String>)
    ensures
        r@.len() == 3,
        r@[0]@ == "/test-user"@,
        r@[1]@ == "/test-user"@,
        r@[2]@ == "/test-post"@,
{
    let mut r: Vec<String> = Vec::new();
    r.push(String::from_str("/test-user"));
    r.push(String::from_str("/test-user"));
    r.push(String::from_str("/test-post"));
    r
}

} // verus!

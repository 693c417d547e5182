//! Cross-origin headers added to every HTTP response.
use vstd::prelude::*;

verus! {

/// Adds the cross-origin headers to each response.
pub struct CORS;

/// The header names and values, in the order they are set.
pub open spec fn cors_headers() -> Seq<(Seq<char>, Seq<char>)> {
    seq![
        ("Access-Control-Allow-Origin"@, "*"@),
        ("Access-Control-Allow-Methods"@, "POST, GET, PATCH, OPTIONS"@),
        ("Access-Control-Allow-Headers"@, "*"@),
        ("Access-Control-Allow-Credentials"@, "true"@),
    ]
}

impl CORS {
    /// Name under which the response hook is announced.
    pub fn name(&self) -> (r: String)
        ensures
            r@ == "Add CORS headers to responses"@,
    {
        String::from_str("Add CORS headers to responses")
    }

    /// The headers to set on a response.
    pub fn headers(&self) -> (r: Vec<(String, String)>)
        ensures
            r@.len() == cors_headers().len(),
            forall|i: int|
                0 <= i < r@.len() ==> (#[trigger] r@[i]).0@ == cors_headers()[i].0 && r@[i].1@
                    == cors_headers()[i].1,
    {
        let mut r: Vec<(String, String)> = Vec::new();
        r.push(
            (String::from_str("Access-Control-Allow-Origin"), String::from_str("*")),
        );
        r.push(
            (
                String::from_str("Access-Control-Allow-Methods"),
                String::from_str("POST, GET, PATCH, OPTIONS"),
            ),
        );
        r.push(
            (String::from_str("Access-Control-Allow-Headers"), String::from_str("*")),
        );
        r.push(
            (String::from_str("Access-Control-Allow-Credentials"), String::from_str("true")),
        );
        r
    }
}

} // verus!

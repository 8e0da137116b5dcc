//! Headers that every response carries.
use vstd::prelude::*;

verus! {

/// A response header.
#[derive(Debug, Clone, Copy)]
pub struct Header {
    pub name: &'static str,
    pub value: &'static str,
}

/// The headers to set on every response, in place of any that it has under
/// the same names. Responses may hold tokens, so nothing may keep them.
pub fn security_headers() -> (r: Vec<Header>)
    ensures
        r@.len() == 4,
        r@[0].name@ == "x-content-type-options"@ && r@[0].value@ == "nosniff"@,
        r@[1].name@ == "cache-control"@ && r@[1].value@ == "no-store"@,
        r@[2].name@ == "referrer-policy"@ && r@[2].value@ == "no-referrer"@,
        r@[3].name@ == "strict-transport-security"@ && r@[3].value@
            == "max-age=63072000; includeSubDomains"@,
{
    vec![
        Header { name: "x-content-type-options", value: "nosniff" },
        Header { name: "cache-control", value: "no-store" },
        Header { name: "referrer-policy", value: "no-referrer" },
        Header {
            name: "strict-transport-security",
            value: "max-age=63072000; includeSubDomains",
        },
    ]
}

} // verus!

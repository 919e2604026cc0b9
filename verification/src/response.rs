//! The response envelope metadata the boundary wraps every payload in.

use vstd::prelude::*;
use vstd::string::StringExecFns;

verus! {

/// Status and human-readable message accompanying every response.
#[derive(Debug)]
pub struct Meta {
    pub status: String,
    pub message: String,
}

impl Meta {
    /// The metadata of a successful response.
    pub fn success(message: String) -> (m: Meta)
        ensures
            m.status@ == "success"@,
            m.message@ == message@,
    {
        Meta { status: String::from_str("success"), message }
    }

    /// The metadata of a failed response.
    pub fn error(message: String) -> (m: Meta)
        ensures
            m.status@ == "error"@,
            m.message@ == message@,
    {
        Meta { status: String::from_str("error"), message }
    }
}

} // verus!

//! The error that a failed language-server request reports.

use vstd::prelude::*;

verus! {

/// A failed request: its protocol error code and message.
#[derive(Debug)]
pub struct LspError {
    pub code: i32,
    pub message: String,
}

impl LspError {
    pub fn new(code: i32, message: String) -> (r: LspError)
        ensures
            r.code == code,
            r.message@ == message@,
    {
        LspError { code, message }
    }
}

} // verus!

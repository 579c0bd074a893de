use vstd::prelude::*;

verus! {

/// The status code sent to the client on a hard failure.
pub const SERVER_ERROR_STATUS: u16 = 500;

/// The fixed body sent with a hard failure; it carries no detail.
pub open spec fn server_error_body() -> Seq<char> {
    "UNHANDLED_SERVER_ERROR"@
}

/// A failure that is surfaced to the client.
#[derive(Debug, Clone, Copy, PartialEq, Eq, Structural)]
pub enum Error {
    /// The requested directory could not be opened.
    Fail,
}

impl Error {
    /// The status code of the reply for this error.
    pub fn status_code(&self) -> (r: u16)
        ensures
            r == SERVER_ERROR_STATUS,
    {
        SERVER_ERROR_STATUS
    }

    /// The body of the reply for this error: an opaque, fixed text.
    pub fn body(&self) -> (r: String)
        ensures
            r@ == server_error_body(),
    {
        String::from_str("UNHANDLED_SERVER_ERROR")
    }
}

} // verus!

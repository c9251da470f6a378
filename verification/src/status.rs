//! HTTP status codes.

use vstd::prelude::*;

verus! {

/// The number of the status "OK".
pub const OK: u16 = 200;

/// The number of the status "Not Found".
pub const NOT_FOUND: u16 = 404;

/// The number of the status "Method Not Allowed".
pub const METHOD_NOT_ALLOWED: u16 = 405;

/// The number of the status "Internal Server Error".
pub const INTERNAL_SERVER_ERROR: u16 = 500;

/// The number of the status "Not Implemented".
pub const NOT_IMPLEMENTED: u16 = 501;

/// An HTTP status code: a number from 100 to 999.
///
/// The view of a status is its number.
#[derive(Clone, Copy, Debug, PartialEq, Eq, Hash, Structural)]
pub struct StatusCode {
    code: u16,
}

impl View for StatusCode {
    type V = int;

    closed spec fn view(&self) -> int {
        self.code as int
    }
}

impl StatusCode {
    #[verifier::type_invariant]
    spec fn in_range(self) -> bool {
        100 <= self.code < 1000
    }

    /// The status with the given number, if the number is one that a status
    /// line can carry.
    pub fn from_u16(code: u16) -> (res: Option<StatusCode>)
        ensures
            res is Some <==> 100 <= code < 1000,
            res matches Some(status) ==> status@ == code,
    {
        if 100 <= code && code < 1000 {
            Some(StatusCode { code })
        } else {
            None
        }
    }

    /// The status as a number.
    pub fn as_u16(&self) -> (code: u16)
        ensures
            code == self@,
            100 <= code < 1000,
    {
        proof {
            use_type_invariant(self);
        }
        self.code
    }

    /// 200 OK
    pub fn ok() -> (status: StatusCode)
        ensures
            status@ == OK,
    {
        StatusCode { code: OK }
    }

    /// 404 Not Found
    pub fn not_found() -> (status: StatusCode)
        ensures
            status@ == NOT_FOUND,
    {
        StatusCode { code: NOT_FOUND }
    }

    /// 405 Method Not Allowed
    pub fn method_not_allowed() -> (status: StatusCode)
        ensures
            status@ == METHOD_NOT_ALLOWED,
    {
        StatusCode { code: METHOD_NOT_ALLOWED }
    }

    /// 500 Internal Server Error
    pub fn internal_server_error() -> (status: StatusCode)
        ensures
            status@ == INTERNAL_SERVER_ERROR,
    {
        StatusCode { code: INTERNAL_SERVER_ERROR }
    }

    /// 501 Not Implemented
    pub fn not_implemented() -> (status: StatusCode)
        ensures
            status@ == NOT_IMPLEMENTED,
    {
        StatusCode { code: NOT_IMPLEMENTED }
    }

    /// A status is its number: two statuses with the same number are the
    /// same status.
    pub proof fn lemma_number_identifies(a: StatusCode, b: StatusCode)
        requires
            a@ == b@,
        ensures
            a == b,
    {
    }
}

} // verus!

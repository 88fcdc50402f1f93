//! HTTP status classes, the first thing every reply is judged by.

use vstd::prelude::*;

verus! {

/// The family an HTTP status code belongs to.
#[derive(Clone, Copy, Debug, PartialEq, Eq, Structural)]
pub enum StatusClass {
    /// 200 to 299.
    Success,
    /// 400 to 499.
    ClientError,
    /// 500 to 599.
    ServerError,
    /// Every other code, informational and redirection codes included.
    Other,
}

/// The class of `code`, as a function of the code alone.
pub open spec fn class_of(code: u16) -> StatusClass {
    if 200 <= code < 300 {
        StatusClass::Success
    } else if 400 <= code < 500 {
        StatusClass::ClientError
    } else if 500 <= code < 600 {
        StatusClass::ServerError
    } else {
        StatusClass::Other
    }
}

/// Sorts a status code into its class.
pub fn classify(code: u16) -> (class: StatusClass)
    ensures
        class == class_of(code),
{
    if 200 <= code && code < 300 {
        StatusClass::Success
    } else if 400 <= code && code < 500 {
        StatusClass::ClientError
    } else if 500 <= code && code < 600 {
        StatusClass::ServerError
    } else {
        StatusClass::Other
    }
}

/// The classes partition the codes by their hundreds: a code is a success
/// exactly when it is at least 200 and below 300, and likewise for the two
/// error classes.
pub proof fn class_by_hundreds(code: u16)
    ensures
        class_of(code) == StatusClass::Success <==> code / 100 == 2,
        class_of(code) == StatusClass::ClientError <==> code / 100 == 4,
        class_of(code) == StatusClass::ServerError <==> code / 100 == 5,
{
}

} // verus!

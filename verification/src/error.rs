//! The error type of the helpers.
use vstd::prelude::*;

verus! {

/// What went wrong in a helper: a rejected input or a missing piece of the
/// API's discovery document.
#[derive(Debug)]
pub enum GwsError {
    /// An input (flag, configuration, file, API reply) was rejected.
    Validation(String),
    /// The discovery document lacks a resource or method the helper needs.
    Discovery(String),
}

impl GwsError {
    /// The text of the error.
    pub open spec fn text(&self) -> Seq<char> {
        match self {
            GwsError::Validation(m) => m@,
            GwsError::Discovery(m) => m@,
        }
    }

    /// The human-readable message of the error.
    pub fn message(&self) -> (r: String)
        ensures
            r@ == self.text(),
    {
        match self {
            GwsError::Validation(m) => m.clone(),
            GwsError::Discovery(m) => m.clone(),
        }
    }
}

/// A validation error with the message `a`.
pub fn validation_error(a: &str) -> (e: GwsError)
    ensures
        e == GwsError::Validation(e->Validation_0),
        e.text() == a@,
{
    GwsError::Validation(String::from_str(a))
}

/// A validation error whose message is `a` followed by `b`.
pub fn validation_error2(a: &str, b: &str) -> (e: GwsError)
    ensures
        e == GwsError::Validation(e->Validation_0),
        e.text() == a@ + b@,
{
    let mut m = String::from_str(a);
    m.append(b);
    GwsError::Validation(m)
}

/// A validation error whose message is `a`, `b` and `c` in a row.
pub fn validation_error3(a: &str, b: &str, c: &str) -> (e: GwsError)
    ensures
        e == GwsError::Validation(e->Validation_0),
        e.text() == a@ + b@ + c@,
{
    let mut m = String::from_str(a);
    m.append(b);
    m.append(c);
    GwsError::Validation(m)
}

} // verus!

//! A simulated remote API call that either succeeds or fails with a message.
use vstd::prelude::*;

verus! {

/// Error returned by the remote API.
pub enum SncfAPIError {
    ApiError(String),
}

/// Which outcome a simulated call has.
#[derive(Clone, Copy, PartialEq, Eq, Structural)]
pub enum Call {
    Okay,
    Ko,
}

/// Message carried by a failed call.
pub open spec fn failure_message() -> Seq<char> {
    "This call fails"@
}

/// Text shown for an error: `API error: ` followed by its message.
pub open spec fn error_text(e: SncfAPIError) -> Seq<char> {
    match e {
        SncfAPIError::ApiError(m) => "API error: "@ + m@,
    }
}

/// Whether a call with this argument succeeds.
pub open spec fn call_succeeds(arg: Call) -> bool {
    arg == Call::Okay
}

impl SncfAPIError {
    /// The error rendered as text.
    pub fn to_string(&self) -> (r: String)
        ensures
            r@ == error_text(*self),
    {
        match self {
            SncfAPIError::ApiError(m) => {
                let mut s = String::from_str("API error: ");
                s.append(m.as_str());
                s
            },
        }
    }
}

/// Performs one simulated call.
pub fn call_me(arg: Call) -> (r: Result<(), SncfAPIError>)
    ensures
        r.is_ok() == call_succeeds(arg),
        r matches Err(SncfAPIError::ApiError(m)) ==> m@ == failure_message(),
{
    match arg {
        Call::Okay => Ok(()),
        Call::Ko => Err(SncfAPIError::ApiError(String::from_str("This call fails"))),
    }
}

/// Performs the simulated call twice, stopping at the first failure.
pub fn call_me_twice(arg: Call) -> (r: Result<(), SncfAPIError>)
    ensures
        r.is_ok() == call_succeeds(arg),
        r matches Err(SncfAPIError::ApiError(m)) ==> m@ == failure_message(),
{
    match call_me(arg) {
        Ok(()) => call_me(arg),
        Err(e) => Err(e),
    }
}

} // verus!

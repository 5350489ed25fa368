use vstd::prelude::*;

verus! {

/// A failure of one authentication attempt, with a message for the operator.
#[derive(Debug)]
pub struct ScanError {
    pub msg: String,
}

impl ScanError {
    /// Builds an error that carries the given message.
    pub fn with_msg(s: &str) -> (r: Box<ScanError>)
        ensures
            r.msg@ == s@,
    {
        Box::new(ScanError { msg: s.to_string() })
    }
}

/// The terminal classification of one attempt's proximity check.
#[derive(Clone, Copy, Debug, PartialEq, Eq, Structural)]
pub enum Outcome {
    Present,
    Absent,
    NotPaired,
    Timeout,
    AdapterError,
    ConfigError,
}

/// What the authentication hook is told: allow or deny, never the reason.
#[derive(Clone, Copy, Debug, PartialEq, Eq, Structural)]
pub enum AuthResult {
    Success,
    Failure,
}

/// The fail-closed reduction of an outcome to the hook's answer.
pub open spec fn auth_of(o: Outcome) -> AuthResult {
    if o == Outcome::Present {
        AuthResult::Success
    } else {
        AuthResult::Failure
    }
}

/// Maps an outcome to the hook's answer: only presence authenticates.
pub fn auth_result(o: Outcome) -> (r: AuthResult)
    ensures
        r == auth_of(o),
        (r == AuthResult::Success) <==> (o == Outcome::Present),
{
    match o {
        Outcome::Present => AuthResult::Success,
        _ => AuthResult::Failure,
    }
}

} // verus!

use vstd::prelude::*;

verus! {

/// The error taxonomy of the library.
///
/// `Unauthorized` reports a policy rejection, `InvalidArgs` a malformed
/// request, a duplicate identifier or an invalid state transition attempt,
/// `DeliveryError` a failed delivery (providers report it; the scheduler loop
/// absorbs such failures and retries), and `Internal` a store consistency
/// violation such as an allocation vanishing mid-schedule.
#[derive(Debug)]
pub enum PencallError {
    Unauthorized,
    InvalidArgs(String),
    DeliveryError(String),
    Internal(String),
}

impl PencallError {
    /// A short human-readable description of the error.
    pub fn describe(&self) -> (r: String)
        ensures
            r@.len() > 0,
    {
        let r = match self {
            PencallError::Unauthorized => "authorization failed".to_owned(),
            PencallError::InvalidArgs(_) => "invalid arguments".to_owned(),
            PencallError::DeliveryError(_) => "delivery error".to_owned(),
            PencallError::Internal(_) => "internal error".to_owned(),
        };
        proof {
            reveal_strlit("authorization failed");
            reveal_strlit("invalid arguments");
            reveal_strlit("delivery error");
            reveal_strlit("internal error");
        }
        r
    }
}

} // verus!

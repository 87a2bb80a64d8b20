use vstd::prelude::*;

verus! {

/// A remote call that could not be completed, or whose reply was not the
/// one the operation expects.
#[derive(Debug)]
pub struct TransportError {
    /// Short name of the failing operation, such as `<reset>`.
    pub operation: String,
    /// What went wrong underneath.
    pub cause: String,
}

/// The message of a failure: `<operation> has failed: <cause>`.
pub open spec fn failure_message(operation: Seq<char>, cause: Seq<char>) -> Seq<char> {
    operation + " has failed: "@ + cause
}

impl TransportError {
    pub fn new(operation: &str, cause: String) -> (r: TransportError)
        ensures
            r.operation@ == operation@,
            r.cause@ == cause@,
    {
        TransportError { operation: String::from_str(operation), cause }
    }

    /// The human-readable message, naming the operation and its cause.
    pub fn message(&self) -> (r: String)
        ensures
            r@ == failure_message(self.operation@, self.cause@),
    {
        let mut m = self.operation.clone();
        m.append(" has failed: ");
        m.append(self.cause.as_str());
        m
    }
}

} // verus!

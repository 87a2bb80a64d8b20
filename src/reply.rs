use vstd::prelude::*;
use crate::proxy::Proxy;
use crate::error::TransportError;
use crate::toxic::Toxic;

verus! {

/// What came back from carrying out a command, as the caller decoded it.
#[derive(Debug)]
pub enum Reply {
    /// The proxies of a listing.
    Proxies(Vec<Proxy>),
    /// The toxics of one proxy.
    Toxics(Vec<Toxic>),
    /// A raw text body.
    Text(String),
    /// The request completed with nothing to decode.
    Done,
    /// The request could not be completed; the cause.
    Failed(String),
}

impl Reply {
    /// The proxies of a listing, or the failure of `operation`.
    pub fn into_proxies(self, operation: &str) -> (r: Result<Vec<Proxy>, TransportError>)
        ensures
            match self {
                Reply::Proxies(ps) => r == Ok::<Vec<Proxy>, TransportError>(ps),
                Reply::Failed(cause) => r matches Err(e) && e.operation@ == operation@ && e.cause@
                    == cause@,
                _ => r matches Err(e) && e.operation@ == operation@ && e.cause@
                    == "unexpected reply"@,
            },
    {
        match self {
            Reply::Proxies(ps) => Ok(ps),
            Reply::Failed(cause) => Err(TransportError::new(operation, cause)),
            _ => Err(TransportError::new(operation, String::from_str("unexpected reply"))),
        }
    }

    /// The toxics of a proxy, or the failure of `operation`.
    pub fn into_toxics(self, operation: &str) -> (r: Result<Vec<Toxic>, TransportError>)
        ensures
            match self {
                Reply::Toxics(ts) => r == Ok::<Vec<Toxic>, TransportError>(ts),
                Reply::Failed(cause) => r matches Err(e) && e.operation@ == operation@ && e.cause@
                    == cause@,
                _ => r matches Err(e) && e.operation@ == operation@ && e.cause@
                    == "unexpected reply"@,
            },
    {
        match self {
            Reply::Toxics(ts) => Ok(ts),
            Reply::Failed(cause) => Err(TransportError::new(operation, cause)),
            _ => Err(TransportError::new(operation, String::from_str("unexpected reply"))),
        }
    }

    /// The raw body of a reply, or the failure of `operation`.
    pub fn into_text(self, operation: &str) -> (r: Result<String, TransportError>)
        ensures
            match self {
                Reply::Text(t) => r == Ok::<String, TransportError>(t),
                Reply::Failed(cause) => r matches Err(e) && e.operation@ == operation@ && e.cause@
                    == cause@,
                _ => r matches Err(e) && e.operation@ == operation@ && e.cause@
                    == "unexpected reply"@,
            },
    {
        match self {
            Reply::Text(t) => Ok(t),
            Reply::Failed(cause) => Err(TransportError::new(operation, cause)),
            _ => Err(TransportError::new(operation, String::from_str("unexpected reply"))),
        }
    }

    /// Success of a command whose reply carries nothing the caller reads;
    /// any reply but a failure counts as success.
    pub fn into_unit(self, operation: &str) -> (r: Result<(), TransportError>)
        ensures
            match self {
                Reply::Failed(cause) => r matches Err(e) && e.operation@ == operation@ && e.cause@
                    == cause@,
                _ => r is Ok,
            },
    {
        match self {
            Reply::Failed(cause) => Err(TransportError::new(operation, cause)),
            _ => Ok(()),
        }
    }
}

} // verus!

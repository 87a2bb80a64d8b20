use vstd::prelude::*;

verus! {

/// The authority (`host:port`) that `http::Uri` finds in a text, or none
/// where the text is no URI or has no authority.
pub uninterp spec fn uri_authority(uri: Seq<char>) -> Option<Seq<char>>;

/// Relies on `http::Uri`'s `FromStr` and `Uri::authority`: parses `uri` and
/// hands back its authority component as text.
#[verifier::external_body]
fn parse_authority(uri: &str) -> (r: Option<String>)
    ensures
        match r {
            Some(a) => uri_authority(uri@) == Some(a@),
            None => uri_authority(uri@) is None,
        },
{
    match uri.parse::<http::Uri>() {
        Ok(u) => u.authority().map(|a| a.as_str().to_string()),
        Err(_) => None,
    }
}

/// Where the control service listens.
#[derive(Debug)]
pub struct Endpoint {
    pub base_uri: String,
}

impl Endpoint {
    pub fn new(base_uri: String) -> (r: Endpoint)
        ensures
            r.base_uri == base_uri,
    {
        Endpoint { base_uri }
    }

    /// The full URI of a request path.
    pub fn uri_with_path(&self, path: &str) -> (r: String)
        ensures
            r@ == self.base_uri@ + path@,
    {
        let mut full = self.base_uri.clone();
        full.append(path);
        full
    }

    /// The `host:port` that a liveness probe connects to, or none where the
    /// base URI names no authority; such an endpoint is never reachable.
    pub fn probe_address(&self) -> (r: Option<String>)
        ensures
            match r {
                Some(a) => uri_authority(self.base_uri@) == Some(a@),
                None => uri_authority(self.base_uri@) is None,
            },
    {
        parse_authority(self.base_uri.as_str())
    }
}

} // verus!

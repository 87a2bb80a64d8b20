use vstd::prelude::*;
use crate::command::Command;
use crate::endpoint::{uri_authority, Endpoint};
use crate::lookup::Lookup;
use crate::proxy::Proxy;

verus! {

/// Where the service listens unless told otherwise.
pub const DEFAULT_URI: &'static str = "http://127.0.0.1:8474";

/// Entry point bound to one control service: it plans the registry-wide
/// commands.
#[derive(Debug)]
pub struct Toxiproxy {
    pub endpoint: Endpoint,
}

impl Toxiproxy {
    pub fn new(base_uri: String) -> (r: Toxiproxy)
        ensures
            r.endpoint.base_uri == base_uri,
    {
        Toxiproxy { endpoint: Endpoint::new(base_uri) }
    }

    /// The registry of the service at its default address.
    pub fn local() -> (r: Toxiproxy)
        ensures
            r.endpoint.base_uri@ == DEFAULT_URI@,
    {
        Toxiproxy::new(String::from_str(DEFAULT_URI))
    }

    /// Creates or replaces all of `proxies` at once.
    pub fn populate(&self, proxies: Vec<Proxy>) -> (r: Command)
        ensures
            r matches Command::Populate { proxies: p } && p == proxies,
    {
        Command::Populate { proxies }
    }

    /// Enables every proxy and removes every toxic.
    pub fn reset(&self) -> (r: Command)
        ensures
            r is Reset,
    {
        Command::Reset
    }

    /// Lists every proxy with its toxics.
    pub fn all(&self) -> (r: Command)
        ensures
            r is ListProxies,
    {
        Command::ListProxies
    }

    /// Asks for the service's version string.
    pub fn version(&self) -> (r: Command)
        ensures
            r is Version,
    {
        Command::Version
    }

    /// The `host:port` whose reachability says whether the service runs;
    /// none where the base URI names no authority, and then it does not run.
    pub fn is_running(&self) -> (r: Option<String>)
        ensures
            match r {
                Some(a) => uri_authority(self.endpoint.base_uri@) == Some(a@),
                None => uri_authority(self.endpoint.base_uri@) is None,
            },
    {
        self.endpoint.probe_address()
    }

    /// Starts looking up the proxy `name`; see `Lookup`.
    pub fn find_proxy(&self, name: String) -> (r: (Lookup, Command))
        ensures
            r.0.wf(),
            r.0.name == name,
            r.0.phase is Listing,
            r.1 is ListProxies,
    {
        Lookup::new(name)
    }
}

} // verus!

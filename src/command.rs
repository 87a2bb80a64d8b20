use vstd::prelude::*;
use crate::proxy::Proxy;
use crate::toxic::Toxic;

verus! {

/// The HTTP verb of a command.
#[derive(PartialEq, Eq, Structural, Clone, Copy, Debug)]
pub enum Method {
    Get,
    Post,
    Delete,
}

/// One request of the control-plane protocol.
#[derive(Debug)]
pub enum Command {
    /// `GET /proxies`: every proxy with its toxics.
    ListProxies,
    /// `POST /populate`: create or replace the given proxies.
    Populate { proxies: Vec<Proxy> },
    /// `POST /reset`: enable every proxy and remove every toxic.
    Reset,
    /// `GET /version`: the service's version string.
    Version,
    /// `POST /proxies/{proxy}`: a partial update with a raw JSON payload.
    UpdateProxy { proxy: String, payload: String },
    /// `DELETE /proxies/{proxy}`.
    DeleteProxy { proxy: String },
    /// `GET /proxies/{proxy}/toxics`.
    ListToxics { proxy: String },
    /// `POST /proxies/{proxy}/toxics`: attach a toxic.
    CreateToxic { proxy: String, toxic: Toxic },
    /// `DELETE /proxies/{proxy}/toxics/{toxic}`.
    DeleteToxic { proxy: String, name: String },
}

pub open spec fn proxy_path(proxy: Seq<char>) -> Seq<char> {
    "/proxies/"@ + proxy
}

pub open spec fn toxics_path(proxy: Seq<char>) -> Seq<char> {
    "/proxies/"@ + proxy + "/toxics"@
}

pub open spec fn toxic_path(proxy: Seq<char>, toxic: Seq<char>) -> Seq<char> {
    "/proxies/"@ + proxy + "/toxics/"@ + toxic
}

impl Command {
    pub open spec fn spec_method(&self) -> Method {
        match self {
            Command::ListProxies | Command::Version | Command::ListToxics { .. } => Method::Get,
            Command::DeleteProxy { .. } | Command::DeleteToxic { .. } => Method::Delete,
            _ => Method::Post,
        }
    }

    pub open spec fn spec_path(&self) -> Seq<char> {
        match self {
            Command::ListProxies => "/proxies"@,
            Command::Populate { .. } => "/populate"@,
            Command::Reset => "/reset"@,
            Command::Version => "/version"@,
            Command::UpdateProxy { proxy, .. } => proxy_path(proxy@),
            Command::DeleteProxy { proxy } => proxy_path(proxy@),
            Command::ListToxics { proxy } => toxics_path(proxy@),
            Command::CreateToxic { proxy, .. } => toxics_path(proxy@),
            Command::DeleteToxic { proxy, name } => toxic_path(proxy@, name@),
        }
    }

    pub fn method(&self) -> (r: Method)
        ensures
            r == self.spec_method(),
    {
        match self {
            Command::ListProxies | Command::Version | Command::ListToxics { .. } => Method::Get,
            Command::DeleteProxy { .. } | Command::DeleteToxic { .. } => Method::Delete,
            _ => Method::Post,
        }
    }

    /// The path of the command under the service's base URI.
    pub fn path(&self) -> (r: String)
        ensures
            r@ == self.spec_path(),
    {
        match self {
            Command::ListProxies => String::from_str("/proxies"),
            Command::Populate { .. } => String::from_str("/populate"),
            Command::Reset => String::from_str("/reset"),
            Command::Version => String::from_str("/version"),
            Command::UpdateProxy { proxy, .. } => {
                let mut p = String::from_str("/proxies/");
                p.append(proxy.as_str());
                p
            },
            Command::DeleteProxy { proxy } => {
                let mut p = String::from_str("/proxies/");
                p.append(proxy.as_str());
                p
            },
            Command::ListToxics { proxy } | Command::CreateToxic { proxy, .. } => {
                let mut p = String::from_str("/proxies/");
                p.append(proxy.as_str());
                p.append("/toxics");
                p
            },
            Command::DeleteToxic { proxy, name } => {
                let mut p = String::from_str("/proxies/");
                p.append(proxy.as_str());
                p.append("/toxics/");
                p.append(name.as_str());
                p
            },
        }
    }
}

} // verus!

use vstd::prelude::*;
use crate::cleanup::Cleanup;
use crate::command::Command;
use crate::error::TransportError;
use crate::json::{flag_object, flag_text, plain_key};
use crate::toxic::{toxic_name, Toxic, TOXICITY_SCALE};

verus! {

/// A proxy of the remote service: it listens on `listen` and forwards to
/// `upstream`, subject to the toxics attached to it.
#[derive(Debug)]
pub struct Proxy {
    /// Unique identifier and routing key of the proxy.
    pub name: String,
    pub listen: String,
    pub upstream: String,
    /// A disabled proxy refuses connections without being deleted.
    pub enabled: bool,
    /// Snapshot of the attached toxics; the service holds the authoritative list.
    pub toxics: Vec<Toxic>,
}

/// The partial update that sets `enabled` to `value`:
/// `{"enabled":true}` or `{"enabled":false}`.
pub open spec fn enabled_payload(value: bool) -> Seq<char> {
    flag_text("enabled"@, value)
}

/// The two updates differ, so the service can tell them apart.
pub proof fn lemma_enabled_payloads_differ()
    ensures
        enabled_payload(true) != enabled_payload(false),
{
    reveal_strlit("true");
    reveal_strlit("false");
    assert(enabled_payload(true).len() != enabled_payload(false).len());
}

impl Proxy {
    /// A declarative proxy, enabled and without toxics, for populating.
    pub fn new(name: String, listen: String, upstream: String) -> (r: Proxy)
        ensures
            r.name == name,
            r.listen == listen,
            r.upstream == upstream,
            r.enabled,
            r.toxics@.len() == 0,
    {
        Proxy { name, listen, upstream, enabled: true, toxics: Vec::new() }
    }

    /// Sends `payload` as a partial update of this proxy.
    pub fn update(&self, payload: String) -> (r: Command)
        ensures
            r matches Command::UpdateProxy { proxy, payload: p } && proxy@ == self.name@ && p
                == payload,
    {
        Command::UpdateProxy { proxy: self.name.clone(), payload }
    }

    fn set_enabled(&self, value: bool, operation: &str) -> (r: Result<Command, TransportError>)
        ensures
            r matches Ok(c) && c matches Command::UpdateProxy { proxy, payload } && proxy@
                == self.name@ && payload@ == enabled_payload(value),
    {
        proof {
            reveal_strlit("enabled");
            assert(plain_key("enabled"@));
        }
        match flag_object("enabled", value) {
            Ok(body) => Ok(self.update(body)),
            Err(_) => Err(TransportError::new(operation, String::from_str("JSON serialization failed"))),
        }
    }

    /// Makes the proxy refuse connections; doing it twice changes nothing more.
    pub fn disable(&self) -> (r: Result<Command, TransportError>)
        ensures
            r matches Ok(c) && c matches Command::UpdateProxy { proxy, payload } && proxy@
                == self.name@ && payload@ == enabled_payload(false),
    {
        self.set_enabled(false, "<disable>")
    }

    /// Makes the proxy accept connections again; doing it twice changes nothing more.
    pub fn enable(&self) -> (r: Result<Command, TransportError>)
        ensures
            r matches Ok(c) && c matches Command::UpdateProxy { proxy, payload } && proxy@
                == self.name@ && payload@ == enabled_payload(true),
    {
        self.set_enabled(true, "<enable>")
    }

    /// Takes the proxy down at once: the same update as `disable`.
    pub fn down(&self) -> (r: Result<Command, TransportError>)
        ensures
            r matches Ok(c) && c matches Command::UpdateProxy { proxy, payload } && proxy@
                == self.name@ && payload@ == enabled_payload(false),
    {
        self.disable()
    }

    /// Removes the proxy from the service.
    pub fn delete(&self) -> (r: Command)
        ensures
            r matches Command::DeleteProxy { proxy } && proxy@ == self.name@,
    {
        Command::DeleteProxy { proxy: self.name.clone() }
    }

    /// Fetches the authoritative list of this proxy's toxics.
    pub fn list_toxics(&self) -> (r: Command)
        ensures
            r matches Command::ListToxics { proxy } && proxy@ == self.name@,
    {
        Command::ListToxics { proxy: self.name.clone() }
    }

    /// Attaches a latency toxic named `latency_<stream>` with attributes
    /// `latency` and `jitter`, in milliseconds.
    pub fn with_latency(&self, stream: String, latency: u32, jitter: u32, toxicity: u32) -> (r:
        Command)
        requires
            toxicity <= TOXICITY_SCALE,
        ensures
            r matches Command::CreateToxic { proxy, toxic } && proxy@ == self.name@ && toxic.wf()
                && toxic.kind@ == "latency"@ && toxic.name@ == toxic_name("latency"@, stream@)
                && toxic.stream@ == stream@ && toxic.toxicity == toxicity
                && toxic.attributes@.len() == 2 && toxic.attributes@[0].key@ == "latency"@
                && toxic.attributes@[0].value == latency && toxic.attributes@[1].key@ == "jitter"@
                && toxic.attributes@[1].value == jitter,
    {
        let toxic = Toxic::latency(stream, latency, jitter, toxicity);
        Command::CreateToxic { proxy: self.name.clone(), toxic }
    }

    /// Removes every toxic attached to this proxy; see `Cleanup`.
    pub fn delete_all_toxics(&self) -> (r: (Cleanup, Command))
        ensures
            r.0.wf(),
            r.0.proxy@ == self.name@,
            r.0.phase is Listing,
            r.1 matches Command::ListToxics { proxy } && proxy@ == self.name@,
    {
        Cleanup::new(self.name.clone())
    }

    /// The cleanup that follows a scenario run under this proxy's toxics:
    /// the caller runs the scenario, then carries the cleanup through to its
    /// end whether the scenario returned or failed.
    pub fn apply(&self) -> (r: (Cleanup, Command))
        ensures
            r.0.wf(),
            r.0.proxy@ == self.name@,
            r.0.phase is Listing,
            r.1 matches Command::ListToxics { proxy } && proxy@ == self.name@,
    {
        self.delete_all_toxics()
    }
}

} // verus!

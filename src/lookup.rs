use vstd::prelude::*;
use crate::cleanup::{Cleanup, Phase};
use crate::command::Command;
use crate::error::TransportError;
use crate::proxy::Proxy;
use crate::reply::Reply;
use crate::server::{after_deletes, first_named, Remote};

verus! {

/// Index of the first proxy of `listing` named `name`.
pub fn position_of(listing: &Vec<Proxy>, name: &String) -> (r: Option<usize>)
    ensures
        match first_named(listing@, name@) {
            Some(j) => r == Some(j as usize),
            None => r is None,
        },
{
    proof {
        crate::server::lemma_first_named(listing@, name@);
    }
    let mut i: usize = 0;
    while i < listing.len()
        invariant
            i <= listing@.len(),
            forall|k: int| 0 <= k < i ==> listing@[k].name@ != name@,
        decreases listing@.len() - i,
    {
        if listing[i].name == *name {
            assert(first_named(listing@, name@) == Some(i as int)) by {
                crate::server::lemma_first_named(listing@, name@);
                if let Some(j) = first_named(listing@, name@) {
                    if j > i {
                        assert(listing@[i as int].name@ != name@);
                    }
                    if j < i {
                        assert(listing@[j].name@ != name@);
                    }
                }
            }
            return Some(i);
        }
        i = i + 1;
    }
    None
}

/// The first proxy of `listing` named `name`, taken out of the list.
pub fn select_proxy(listing: &mut Vec<Proxy>, name: &String) -> (r: Option<Proxy>)
    ensures
        match first_named(old(listing)@, name@) {
            Some(j) => r == Some(old(listing)@[j]) && final(listing)@ == old(listing)@.remove(j),
            None => r is None && final(listing)@ == old(listing)@,
        },
{
    proof {
        crate::server::lemma_first_named(listing@, name@);
    }
    match position_of(listing, name) {
        Some(i) => Some(listing.remove(i)),
        None => None,
    }
}

/// Where a lookup stands.
#[derive(Debug)]
pub enum LookupPhase {
    /// The listing of all proxies has been asked for.
    Listing,
    /// The proxy was found; its toxics are being removed.
    Cleaning { proxy: Proxy, cleanup: Cleanup },
    /// Nothing more is sent.
    Finished { outcome: Result<Option<Proxy>, TransportError> },
}

/// Finding one proxy by name and leaving it without toxics.
#[derive(Debug)]
pub struct Lookup {
    pub name: String,
    pub phase: LookupPhase,
}

pub open spec fn listing_failure() -> Seq<char> {
    "<proxies>"@
}

/// The outcome a lookup holding `p0` reaches when its cleanup ends as `c`:
/// the proxy, without toxics, on success; the cleanup's error otherwise.
pub open spec fn finished_with(c: Cleanup, p0: Proxy, outcome: Result<Option<Proxy>, TransportError>) -> bool {
    match c.phase {
        Phase::Finished { outcome: Ok(()) } => outcome matches Ok(Some(p)) && p.name == p0.name
            && p.listen == p0.listen && p.upstream == p0.upstream && p.enabled == p0.enabled
            && p.toxics@.len() == 0,
        Phase::Finished { outcome: Err(e) } => outcome matches Err(e2) && e2.operation@
            == e.operation@ && e2.cause@ == e.cause@,
        _ => false,
    }
}

impl Lookup {
    pub open spec fn wf(&self) -> bool {
        match self.phase {
            LookupPhase::Listing => true,
            LookupPhase::Cleaning { proxy, cleanup } => {
                &&& cleanup.wf()
                &&& !(cleanup.phase is Finished)
                &&& proxy.name@ == self.name@
                &&& cleanup.proxy@ == self.name@
            },
            LookupPhase::Finished { outcome } => outcome matches Ok(Some(p)) ==> p.name@
                == self.name@ && p.toxics@.len() == 0,
        }
    }

    /// Starts looking for `name`; the command returned lists every proxy.
    pub fn new(name: String) -> (r: (Lookup, Command))
        ensures
            r.0.wf(),
            r.0.name == name,
            r.0.phase is Listing,
            r.1 is ListProxies,
    {
        (Lookup { name, phase: LookupPhase::Listing }, Command::ListProxies)
    }

    /// Takes the reply to the last command sent and hands back the next
    /// command to send, or none once the lookup is finished. A proxy is
    /// handed out only after all of its toxics were removed.
    pub fn step(self, reply: Reply) -> (r: (Lookup, Option<Command>))
        requires
            self.wf(),
        ensures
            r.0.wf(),
            r.0.name == self.name,
            r.1 is None <==> r.0.phase is Finished,
            self.phase is Finished ==> r.0 == self,
            self.phase is Listing ==> match reply {
                Reply::Proxies(ps) => match first_named(ps@, self.name@) {
                    None => r.0.phase matches LookupPhase::Finished {
                        outcome: Ok(None),
                    },
                    Some(j) => (r.0.phase matches LookupPhase::Cleaning { proxy, cleanup }
                        && proxy == ps@[j] && cleanup.phase is Listing) && (r.1 matches Some(
                        Command::ListToxics { proxy },
                    ) && proxy@ == self.name@),
                },
                Reply::Failed(cause) => r.0.phase matches LookupPhase::Finished {
                    outcome: Err(e),
                } && e.operation@ == listing_failure() && e.cause@ == cause@,
                _ => r.0.phase matches LookupPhase::Finished { outcome: Err(e) }
                    && e.operation@ == listing_failure() && e.cause@ == "unexpected reply"@,
            },
            self.phase matches LookupPhase::Cleaning { proxy: p0, .. } ==> (
            r.0.phase matches LookupPhase::Finished { outcome: Ok(Some(p)) } ==> p.name
                == p0.name && p.listen == p0.listen && p.upstream == p0.upstream && p.enabled
                == p0.enabled && p.toxics@.len() == 0),
            r.0.phase matches LookupPhase::Finished { outcome: Ok(Some(p)) } ==> p.name@
                == self.name@ && p.toxics@.len() == 0,
            self.phase matches LookupPhase::Cleaning { cleanup: c0, .. } ==> (
            (r.0.phase matches LookupPhase::Finished { outcome: Ok(Some(_)) }) <==> ((c0.phase is Listing
                && (reply matches Reply::Toxics(ts) && ts@.len() == 0)) || (c0.phase is Deleting
                && reply is Done && c0.next + 1 == c0.names@.len()))),
            self.phase matches LookupPhase::Cleaning { proxy: p0, cleanup: c0 } ==> match r.0.phase {
                LookupPhase::Cleaning { proxy, cleanup } => proxy == p0 && Cleanup::steps_to(
                    c0,
                    reply,
                    cleanup,
                    r.1,
                ),
                LookupPhase::Listing => false,
                LookupPhase::Finished { outcome } => exists|c1: Cleanup|
                    #[trigger] Cleanup::steps_to(c0, reply, c1, None) && finished_with(c1, p0, outcome),
            },
            self.phase is Cleaning ==> (reply matches Reply::Failed(cause) ==> (r.0.phase matches LookupPhase::Finished { outcome: Err(e) } && e.cause@ == cause@)),
    {
        let name = self.name;
        match self.phase {
            LookupPhase::Finished { outcome } => {
                (Lookup { name, phase: LookupPhase::Finished { outcome } }, None)
            },
            LookupPhase::Listing => match reply {
                Reply::Proxies(mut ps) => {
                    proof {
                        crate::server::lemma_first_named(ps@, name@);
                    }
                    match select_proxy(&mut ps, &name) {
                    None => (Lookup { name, phase: LookupPhase::Finished { outcome: Ok(None) } }, None),
                    Some(proxy) => {
                        let (cleanup, c) = Cleanup::new(proxy.name.clone());
                        (Lookup { name, phase: LookupPhase::Cleaning { proxy, cleanup } }, Some(c))
                    },
                }},
                Reply::Failed(cause) => {
                    let e = TransportError::new("<proxies>", cause);
                    (Lookup { name, phase: LookupPhase::Finished { outcome: Err(e) } }, None)
                },
                _ => {
                    let e = TransportError::new("<proxies>", String::from_str("unexpected reply"));
                    (Lookup { name, phase: LookupPhase::Finished { outcome: Err(e) } }, None)
                },
            },
            LookupPhase::Cleaning { proxy, mut cleanup } => {
                let next = cleanup.step(reply);
                match next {
                    Some(c) => (Lookup { name, phase: LookupPhase::Cleaning { proxy, cleanup } }, Some(c)),
                    None => {
                        let outcome = match cleanup.outcome() {
                            Some(Ok(())) => Ok(
                                Some(
                                    Proxy {
                                        name: proxy.name,
                                        listen: proxy.listen,
                                        upstream: proxy.upstream,
                                        enabled: proxy.enabled,
                                        toxics: Vec::new(),
                                    },
                                ),
                            ),
                            Some(Err(e)) => Err(e),
                            None => Err(
                                TransportError::new("<proxies>", String::from_str("unexpected reply")),
                            ),
                        };
                        (Lookup { name, phase: LookupPhase::Finished { outcome } }, None)
                    },
                }
            },
        }
    }

    /// The result of the lookup, once it is finished.
    pub fn outcome(self) -> (r: Option<Result<Option<Proxy>, TransportError>>)
        ensures
            match self.phase {
                LookupPhase::Finished { outcome } => r == Some(outcome),
                _ => r is None,
            },
    {
        match self.phase {
            LookupPhase::Finished { outcome } => Some(outcome),
            _ => None,
        }
    }
}

/// A proxy that a lookup hands out is the one asked for, and carries no
/// toxic: it leaves only after every toxic listed for it was deleted.
pub proof fn lemma_found_proxy_is_clean(l: Lookup)
    requires
        l.wf(),
    ensures
        l.phase matches LookupPhase::Finished { outcome: Ok(Some(p)) } ==> p.name@ == l.name@
            && p.toxics@.len() == 0,
{
}

/// When a lookup finishes by handing out a proxy, its cleanup `c1` has
/// succeeded; if that cleanup's listing showed every toxic the service held
/// for the proxy, the deletions it sent leave the proxy with no toxic.
pub proof fn lemma_found_proxy_cleared(
    c0: Cleanup,
    reply: Reply,
    c1: Cleanup,
    p0: Proxy,
    outcome: Result<Option<Proxy>, TransportError>,
    s0: Remote,
)
    requires
        c0.wf(),
        Cleanup::steps_to(c0, reply, c1, None),
        finished_with(c1, p0, outcome),
        outcome is Ok,
        s0.contains_key(c1.proxy@),
        s0[c1.proxy@].toxics.subset_of(c1.listed().to_set()),
    ensures
        c1.succeeded(),
        after_deletes(s0, c1.proxy@, c1.deleted())[c1.proxy@].toxics.is_empty(),
{
    crate::cleanup::lemma_cleanup_clears(c1, s0);
}

} // verus!

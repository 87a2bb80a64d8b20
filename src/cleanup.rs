use vstd::prelude::*;
use crate::command::Command;
use crate::error::TransportError;
use crate::reply::Reply;
use crate::server::{after_delete_toxic, after_deletes, Remote};
use crate::toxic::Toxic;

verus! {

/// Where a cleanup stands.
#[derive(Debug)]
pub enum Phase {
    /// The toxics of the proxy have been asked for.
    Listing,
    /// `names[next]` is being deleted; those before it are gone.
    Deleting,
    /// Nothing more is sent.
    Finished { outcome: Result<(), TransportError> },
}

/// Removal of every toxic attached to one proxy: list them, then delete
/// them one at a time, stopping at the first failure.
#[derive(Debug)]
pub struct Cleanup {
    pub proxy: String,
    /// The toxic names the listing returned.
    pub names: Vec<String>,
    /// How many of `names` have been deleted.
    pub next: usize,
    pub phase: Phase,
}

pub open spec fn names_of(ts: Seq<Toxic>) -> Seq<Seq<char>> {
    ts.map_values(|t: Toxic| t.name@)
}

pub open spec fn views(ns: Seq<String>) -> Seq<Seq<char>> {
    ns.map_values(|n: String| n@)
}

/// The operation names used in cleanup failures.
pub open spec fn list_failure() -> Seq<char> {
    "cannot delete toxics: <proxies>.<toxics>"@
}

pub open spec fn delete_failure() -> Seq<char> {
    "cannot delete toxics: <proxies>.<toxics> delete"@
}

pub open spec fn unexpected_reply() -> Seq<char> {
    "unexpected reply"@
}

fn toxic_names(ts: &Vec<Toxic>) -> (r: Vec<String>)
    ensures
        views(r@) == names_of(ts@),
{
    let mut names: Vec<String> = Vec::new();
    let mut i: usize = 0;
    while i < ts.len()
        invariant
            i <= ts@.len(),
            names@.len() == i,
            forall|k: int| 0 <= k < i ==> #[trigger] names@[k]@ == ts@[k].name@,
        decreases ts@.len() - i,
    {
        names.push(ts[i].name.clone());
        i = i + 1;
    }
    assert(views(names@) =~= names_of(ts@));
    names
}

impl Cleanup {
    pub open spec fn wf(&self) -> bool {
        match self.phase {
            Phase::Listing => self.names@.len() == 0 && self.next == 0,
            Phase::Deleting => self.next < self.names@.len(),
            Phase::Finished { outcome } => outcome is Ok ==> self.next == self.names@.len(),
        }
    }

    /// The names of the toxics the listing returned.
    pub open spec fn listed(&self) -> Seq<Seq<char>> {
        views(self.names@)
    }

    /// The listed toxics whose deletion was acknowledged, in order.
    pub open spec fn deleted(&self) -> Seq<Seq<char>> {
        self.listed().take(self.next as int)
    }

    /// Every listed toxic was deleted and acknowledged.
    pub open spec fn succeeded(&self) -> bool {
        self.phase matches Phase::Finished { outcome: Ok(()) }
    }

    /// Starts the cleanup of `proxy`; the command returned lists its toxics.
    pub fn new(proxy: String) -> (r: (Cleanup, Command))
        ensures
            r.0.wf(),
            r.0.proxy == proxy,
            r.0.phase is Listing,
            r.1 matches Command::ListToxics { proxy: p } && p == proxy,
    {
        let c = Command::ListToxics { proxy: proxy.clone() };
        (Cleanup { proxy, names: Vec::new(), next: 0, phase: Phase::Listing }, c)
    }

    fn delete_command(&self, name: &String) -> (r: Command)
        ensures
            r matches Command::DeleteToxic { proxy, name: n } && proxy@ == self.proxy@ && n@
                == name@,
    {
        Command::DeleteToxic { proxy: self.proxy.clone(), name: name.clone() }
    }

    /// One step of a cleanup: from `c` on `reply` to `c2`, sending `r`.
    /// A listing starts deleting at its first toxic; each acknowledged
    /// deletion moves on to the next listed toxic; the first failure stops
    /// the cleanup with nothing more deleted.
    pub open spec fn steps_to(c: Cleanup, reply: Reply, c2: Cleanup, r: Option<Command>) -> bool {
        &&& c2.wf()
        &&& c2.proxy == c.proxy
        &&& (r is None <==> c2.phase is Finished)
        &&& c.phase is Finished ==> c2 == c
        &&& c.phase is Listing ==> match reply {
            Reply::Toxics(ts) => {
                &&& c2.listed() == names_of(ts@)
                &&& c2.next == 0
                &&& ts@.len() == 0 ==> c2.succeeded()
                &&& ts@.len() > 0 ==> (c2.phase is Deleting && (r matches Some(
                    Command::DeleteToxic { proxy, name },
                ) && proxy@ == c.proxy@ && name@ == ts@[0].name@))
            },
            Reply::Failed(cause) => {
                &&& c2.names@.len() == 0
                &&& c2.next == 0
                &&& (c2.phase matches Phase::Finished { outcome: Err(e) } && e.operation@
                    == list_failure() && e.cause@ == cause@)
            },
            _ => {
                &&& c2.names@.len() == 0
                &&& c2.next == 0
                &&& (c2.phase matches Phase::Finished { outcome: Err(e) } && e.operation@
                    == list_failure() && e.cause@ == unexpected_reply())
            },
        }
        &&& c.phase is Deleting ==> {
            &&& c2.names == c.names
            &&& match reply {
                Reply::Done => {
                    &&& c2.next == c.next + 1
                    &&& if c.next + 1 == c.names@.len() {
                        c2.succeeded()
                    } else {
                        &&& c2.phase is Deleting
                        &&& (r matches Some(Command::DeleteToxic { proxy, name }) && proxy@
                            == c.proxy@ && name@ == c.names@[c.next + 1]@)
                    }
                },
                Reply::Failed(cause) => {
                    &&& c2.next == c.next
                    &&& (c2.phase matches Phase::Finished { outcome: Err(e) } && e.operation@
                        == delete_failure() && e.cause@ == cause@)
                },
                _ => {
                    &&& c2.next == c.next
                    &&& (c2.phase matches Phase::Finished { outcome: Err(e) } && e.operation@
                        == delete_failure() && e.cause@ == unexpected_reply())
                },
            }
        }
    }

    /// Takes the reply to the last command sent and hands back the next
    /// command to send, or none once the cleanup is finished.
    pub fn step(&mut self, reply: Reply) -> (r: Option<Command>)
        requires
            old(self).wf(),
        ensures
            Cleanup::steps_to(*old(self), reply, *final(self), r),
    {
        let listing = match &self.phase {
            Phase::Finished { .. } => {
                return None;
            },
            Phase::Listing => true,
            Phase::Deleting => false,
        };
        if listing {
            match reply {
                Reply::Toxics(ts) => {
                    let names = toxic_names(&ts);
                    self.names = names;
                    self.next = 0;
                    assert(views(self.names@).len() == self.names@.len());
                    assert(names_of(ts@).len() == ts@.len());
                    if self.names.len() == 0 {
                        self.phase = Phase::Finished { outcome: Ok(()) };
                        None
                    } else {
                        let c = self.delete_command(&self.names[0]);
                        self.phase = Phase::Deleting;
                        assert(views(self.names@).len() == self.names@.len());
                        assert(names_of(ts@).len() == ts@.len());
                        assert(views(self.names@)[0] == self.names@[0]@);
                        assert(names_of(ts@)[0] == ts@[0].name@);
                        Some(c)
                    }
                },
                Reply::Failed(cause) => {
                    self.phase = Phase::Finished {
                        outcome: Err(
                            TransportError::new("cannot delete toxics: <proxies>.<toxics>", cause),
                        ),
                    };
                    None
                },
                _ => {
                    self.phase = Phase::Finished {
                        outcome: Err(
                            TransportError::new(
                                "cannot delete toxics: <proxies>.<toxics>",
                                String::from_str("unexpected reply"),
                            ),
                        ),
                    };
                    None
                },
            }
        } else {
            let count = self.names.len();
            match reply {
                Reply::Done => {
                    self.next = self.next + 1;
                    if self.next == count {
                        self.phase = Phase::Finished { outcome: Ok(()) };
                        None
                    } else {
                        Some(self.delete_command(&self.names[self.next]))
                    }
                },
                Reply::Failed(cause) => {
                    self.phase = Phase::Finished {
                        outcome: Err(
                            TransportError::new(
                                "cannot delete toxics: <proxies>.<toxics> delete",
                                cause,
                            ),
                        ),
                    };
                    None
                },
                _ => {
                    self.phase = Phase::Finished {
                        outcome: Err(
                            TransportError::new(
                                "cannot delete toxics: <proxies>.<toxics> delete",
                                String::from_str("unexpected reply"),
                            ),
                        ),
                    };
                    None
                },
            }
        }
    }

    /// The result of the cleanup, once it is finished.
    pub fn outcome(&self) -> (r: Option<Result<(), TransportError>>)
        ensures
            r is None <==> !(self.phase is Finished),
            r matches Some(Ok(())) <==> self.succeeded(),
            self.phase matches Phase::Finished { outcome: Err(e) } ==> (r matches Some(Err(e2))
                && e2.operation@ == e.operation@ && e2.cause@ == e.cause@),
    {
        match &self.phase {
            Phase::Finished { outcome } => match outcome {
                Ok(()) => Some(Ok(())),
                Err(e) => Some(Err(TransportError::new(e.operation.as_str(), e.cause.clone()))),
            },
            _ => None,
        }
    }
}

/// Carrying out the deletion a cleanup has sent, on the service as its
/// acknowledged deletions left it, gives the service as the next step's
/// acknowledged deletions leave it. The deletion sent while in `Deleting`
/// is that of `listed()[next]`, by `steps_to`.
pub proof fn lemma_cleanup_advances(c: Cleanup, reply: Reply, c2: Cleanup, r: Option<Command>, s0: Remote)
    requires
        c.wf(),
        c.phase is Deleting,
        reply is Done,
        Cleanup::steps_to(c, reply, c2, r),
    ensures
        after_delete_toxic(after_deletes(s0, c.proxy@, c.deleted()), c.proxy@, c.listed()[c.next as int])
            == after_deletes(s0, c2.proxy@, c2.deleted()),
{
    assert(c2.deleted().drop_last() =~= c.deleted());
    assert(c2.listed() == c.listed());
}

/// Whatever a cleanup has come to, the proxy keeps exactly the toxics it
/// had that were not acknowledged as deleted: after a failed deletion the
/// later toxics stay attached.
pub proof fn lemma_cleanup_leaves(c: Cleanup, s0: Remote)
    requires
        c.wf(),
        s0.contains_key(c.proxy@),
    ensures
        after_deletes(s0, c.proxy@, c.deleted()).contains_key(c.proxy@),
        after_deletes(s0, c.proxy@, c.deleted())[c.proxy@].toxics == s0[c.proxy@].toxics.difference(
            c.deleted().to_set(),
        ),
{
    crate::server::lemma_deletes_remove(s0, c.proxy@, c.deleted());
}

/// Once a cleanup has succeeded, and its listing showed every toxic the
/// service held for the proxy, the proxy has no toxic left, whatever the
/// scenario run before did.
pub proof fn lemma_cleanup_clears(c: Cleanup, s0: Remote)
    requires
        c.wf(),
        c.succeeded(),
        s0.contains_key(c.proxy@),
        s0[c.proxy@].toxics.subset_of(c.listed().to_set()),
    ensures
        c.deleted() == c.listed(),
        after_deletes(s0, c.proxy@, c.deleted()).contains_key(c.proxy@),
        after_deletes(s0, c.proxy@, c.deleted())[c.proxy@].toxics.is_empty(),
{
    assert(c.deleted() =~= c.listed());
    crate::server::lemma_deletes_remove(s0, c.proxy@, c.deleted());
    assert(s0[c.proxy@].toxics.difference(c.listed().to_set()) =~= Set::empty());
}

} // verus!

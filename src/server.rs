use vstd::prelude::*;
use crate::command::Command;
use crate::proxy::{enabled_payload, Proxy};

verus! {

/// What the service holds for one proxy.
pub struct RemoteProxy {
    pub listen: Seq<char>,
    pub upstream: Seq<char>,
    pub enabled: bool,
    /// Names of the attached toxics.
    pub toxics: Set<Seq<char>>,
}

/// The service's state: its proxies by name.
pub type Remote = Map<Seq<char>, RemoteProxy>;

/// The entry a populated proxy gets: its addresses and flag, no toxics.
pub open spec fn created(p: Proxy) -> RemoteProxy {
    RemoteProxy {
        listen: p.listen@,
        upstream: p.upstream@,
        enabled: p.enabled,
        toxics: Set::empty(),
    }
}

pub open spec fn after_populate(s: Remote, ps: Seq<Proxy>) -> Remote
    decreases ps.len(),
{
    if ps.len() == 0 {
        s
    } else {
        after_populate(s, ps.drop_last()).insert(ps.last().name@, created(ps.last()))
    }
}

pub open spec fn after_reset(s: Remote) -> Remote {
    Map::new(
        |k: Seq<char>| s.contains_key(k),
        |k: Seq<char>| RemoteProxy { enabled: true, toxics: Set::empty(), ..s[k] },
    )
}

/// The state after a partial update that sets the `enabled` flag.
pub open spec fn with_enabled(s: Remote, proxy: Seq<char>, value: bool) -> Remote {
    if s.contains_key(proxy) {
        s.insert(proxy, RemoteProxy { enabled: value, ..s[proxy] })
    } else {
        s
    }
}

/// What a partial update may do. Of the payloads that set `enabled` the
/// outcome is known; any other payload may change the proxy's `listen`,
/// `upstream` and `enabled` fields, and nothing else.
pub open spec fn update_allows(s: Remote, proxy: Seq<char>, payload: Seq<char>, t: Remote) -> bool {
    if !s.contains_key(proxy) {
        t == s
    } else if payload == enabled_payload(true) {
        t == with_enabled(s, proxy, true)
    } else if payload == enabled_payload(false) {
        t == with_enabled(s, proxy, false)
    } else {
        &&& t.dom() == s.dom()
        &&& t[proxy].toxics == s[proxy].toxics
        &&& forall|k: Seq<char>| #[trigger] s.contains_key(k) && k != proxy ==> t[k] == s[k]
    }
}

pub open spec fn after_create_toxic(s: Remote, proxy: Seq<char>, toxic: Seq<char>) -> Remote {
    if s.contains_key(proxy) {
        s.insert(proxy, RemoteProxy { toxics: s[proxy].toxics.insert(toxic), ..s[proxy] })
    } else {
        s
    }
}

pub open spec fn after_delete_toxic(s: Remote, proxy: Seq<char>, toxic: Seq<char>) -> Remote {
    if s.contains_key(proxy) {
        s.insert(proxy, RemoteProxy { toxics: s[proxy].toxics.remove(toxic), ..s[proxy] })
    } else {
        s
    }
}

/// The service's state after it has carried out `c`, for every command but
/// a partial update (see `update_allows`).
pub open spec fn after(s: Remote, c: Command) -> Remote {
    match c {
        Command::Populate { proxies } => after_populate(s, proxies@),
        Command::Reset => after_reset(s),
        Command::DeleteProxy { proxy } => s.remove(proxy@),
        Command::CreateToxic { proxy, toxic } => after_create_toxic(s, proxy@, toxic.name@),
        Command::DeleteToxic { proxy, name } => after_delete_toxic(s, proxy@, name@),
        _ => s,
    }
}

/// The service may go from `s` to `t` by carrying out `c`.
pub open spec fn next_state(s: Remote, c: Command, t: Remote) -> bool {
    match c {
        Command::UpdateProxy { proxy, payload } => update_allows(s, proxy@, payload@, t),
        _ => t == after(s, c),
    }
}

/// The state after the toxics `names` of `proxy` are deleted one by one.
pub open spec fn after_deletes(s: Remote, proxy: Seq<char>, names: Seq<Seq<char>>) -> Remote
    decreases names.len(),
{
    if names.len() == 0 {
        s
    } else {
        after_delete_toxic(after_deletes(s, proxy, names.drop_last()), proxy, names.last())
    }
}

/// A listing of proxies that shows the state `s`: each entry is a proxy of
/// `s` with its addresses, and each proxy of `s` is listed.
pub open spec fn shows(listing: Seq<Proxy>, s: Remote) -> bool {
    &&& forall|j: int|
        0 <= j < listing.len() ==> s.contains_key(#[trigger] listing[j].name@)
            && s[listing[j].name@].listen == listing[j].listen@ && s[listing[j].name@].upstream
            == listing[j].upstream@
    &&& forall|k: Seq<char>|
        #[trigger] s.contains_key(k) ==> exists|j: int| 0 <= j < listing.len() && listing[j].name@ == k
}

/// No two proxies share a name.
pub open spec fn names_unique(ps: Seq<Proxy>) -> bool {
    forall|i: int, j: int|
        0 <= i < ps.len() && 0 <= j < ps.len() && i != j ==> #[trigger] ps[i].name@
            != #[trigger] ps[j].name@
}

pub proof fn lemma_populated_entry(s: Remote, ps: Seq<Proxy>, i: int)
    requires
        names_unique(ps),
        0 <= i < ps.len(),
    ensures
        after_populate(s, ps).contains_key(ps[i].name@),
        after_populate(s, ps)[ps[i].name@] == created(ps[i]),
    decreases ps.len(),
{
    if i < ps.len() - 1 {
        let q = ps.drop_last();
        assert(q[i] == ps[i]);
        assert(names_unique(q)) by {
            assert forall|a: int, b: int|
                0 <= a < q.len() && 0 <= b < q.len() && a != b implies #[trigger] q[a].name@
                != #[trigger] q[b].name@ by {
                assert(q[a] == ps[a] && q[b] == ps[b]);
            }
        }
        lemma_populated_entry(s, q, i);
        assert(ps[i].name@ != ps.last().name@);
    }
}

pub proof fn lemma_deletes_remove(s: Remote, proxy: Seq<char>, names: Seq<Seq<char>>)
    requires
        s.contains_key(proxy),
    ensures
        after_deletes(s, proxy, names).contains_key(proxy),
        after_deletes(s, proxy, names)[proxy].toxics == s[proxy].toxics.difference(names.to_set()),
    decreases names.len(),
{
    if names.len() > 0 {
        let q = names.drop_last();
        lemma_deletes_remove(s, proxy, q);
        assert(names.to_set() =~= q.to_set().insert(names.last())) by {
            assert forall|x: Seq<char>| names.to_set().contains(x) implies q.to_set().insert(
                names.last(),
            ).contains(x) by {
                let k = choose|k: int| 0 <= k < names.len() && names[k] == x;
                if k < names.len() - 1 {
                    assert(q[k] == x);
                }
            }
            assert forall|x: Seq<char>| q.to_set().insert(names.last()).contains(x) implies names.to_set().contains(x) by {
                if x != names.last() {
                    let k = choose|k: int| 0 <= k < q.len() && q[k] == x;
                    assert(names[k] == x);
                } else {
                    assert(names[names.len() - 1] == x);
                }
            }
        }
        assert(after_deletes(s, proxy, names)[proxy].toxics =~= s[proxy].toxics.difference(
            names.to_set(),
        ));
    } else {
        assert(s[proxy].toxics.difference(names.to_set()) =~= s[proxy].toxics);
    }
}

/// Populating proxies and then looking one of them up in a listing of the
/// service gives back the name, listen and upstream addresses it was
/// created with.
pub proof fn lemma_populate_then_find(s: Remote, ps: Seq<Proxy>, i: int, listing: Seq<Proxy>)
    requires
        names_unique(ps),
        0 <= i < ps.len(),
        shows(listing, after_populate(s, ps)),
    ensures
        first_named(listing, ps[i].name@) matches Some(j) && listing[j].name@ == ps[i].name@
            && listing[j].listen@ == ps[i].listen@ && listing[j].upstream@ == ps[i].upstream@,
{
    let t = after_populate(s, ps);
    lemma_populated_entry(s, ps, i);
    assert(t.contains_key(ps[i].name@));
    lemma_first_named(listing, ps[i].name@);
}

/// Index of the first proxy of `ps` named `name`.
pub open spec fn first_named(ps: Seq<Proxy>, name: Seq<char>) -> Option<int>
    decreases ps.len(),
{
    if ps.len() == 0 {
        None
    } else if ps[0].name@ == name {
        Some(0)
    } else {
        match first_named(ps.drop_first(), name) {
            Some(j) => Some(j + 1),
            None => None,
        }
    }
}

pub proof fn lemma_first_named(ps: Seq<Proxy>, name: Seq<char>)
    ensures
        match first_named(ps, name) {
            Some(j) => 0 <= j < ps.len() && ps[j].name@ == name && forall|k: int|
                0 <= k < j ==> ps[k].name@ != name,
            None => forall|k: int| 0 <= k < ps.len() ==> ps[k].name@ != name,
        },
    decreases ps.len(),
{
    if ps.len() > 0 {
        lemma_first_named(ps.drop_first(), name);
        if ps[0].name@ != name {
            assert forall|k: int| 0 <= k < ps.len() && ps[k].name@ == name implies k > 0
                && ps.drop_first()[k - 1].name@ == name by {}
        }
    }
}

/// Sending the update of `enable` (or of `disable`) twice leaves the
/// service as sending it once. After it an existing proxy has its flag set
/// to `value` and keeps its addresses and toxics; other proxies are left as
/// they were.
pub proof fn lemma_enable_disable_idempotent(s: Remote, c: Command, value: bool, t1: Remote, t2: Remote)
    requires
        c matches Command::UpdateProxy { payload, .. } && payload@ == enabled_payload(value),
        next_state(s, c, t1),
        next_state(t1, c, t2),
    ensures
        t2 == t1,
        t1 == match c {
            Command::UpdateProxy { proxy, .. } => with_enabled(s, proxy@, value),
            _ => s,
        },
        c matches Command::UpdateProxy { proxy, .. } && (s.contains_key(proxy@) ==> (t1[proxy@].enabled == value
            && t1[proxy@].listen == s[proxy@].listen && t1[proxy@].upstream == s[proxy@].upstream
            && t1[proxy@].toxics == s[proxy@].toxics)),
{
    crate::proxy::lemma_enabled_payloads_differ();
    if let Command::UpdateProxy { proxy, payload } = c {
        assert(with_enabled(t1, proxy@, value) =~= t1);
    }
}

} // verus!

use toxiproxy_client::cleanup::{Cleanup, Phase};
use toxiproxy_client::command::{Command, Method};
use toxiproxy_client::endpoint::Endpoint;
use toxiproxy_client::error::TransportError;
use toxiproxy_client::lookup::{select_proxy, Lookup, LookupPhase};
use toxiproxy_client::proxy::Proxy;
use toxiproxy_client::reply::Reply;
use toxiproxy_client::toxic::{Attribute, Toxic, TOXICITY_SCALE};
use toxiproxy_client::toxiproxy::Toxiproxy;

fn socket() -> Proxy {
    Proxy::new("socket".to_string(), "127.0.0.1:2000".to_string(), "127.0.0.1:2001".to_string())
}

fn latency(stream: &str) -> Toxic {
    Toxic::latency(stream.to_string(), 2000, 0, TOXICITY_SCALE)
}

fn expect_delete(c: Option<Command>, proxy: &str, name: &str) {
    match c {
        Some(Command::DeleteToxic { proxy: p, name: n }) => {
            assert_eq!(p, proxy);
            assert_eq!(n, name);
        }
        _ => panic!("expected a toxic deletion"),
    }
}

#[test]
fn latency_toxic_is_named_after_type_and_stream() {
    let c = socket().with_latency("downstream".to_string(), 2000, 0, TOXICITY_SCALE);
    assert_eq!(c.method(), Method::Post);
    assert_eq!(c.path(), "/proxies/socket/toxics");
    match c {
        Command::CreateToxic { proxy, toxic } => {
            assert_eq!(proxy, "socket");
            assert_eq!(toxic.name, "latency_downstream");
            assert_eq!(toxic.kind, "latency");
            assert_eq!(toxic.stream, "downstream");
            assert_eq!(toxic.toxicity, 1_000_000);
            assert_eq!(toxic.attribute(&"latency".to_string()), Some(2000));
            assert_eq!(toxic.attribute(&"jitter".to_string()), Some(0));
            assert_eq!(toxic.attribute(&"rate".to_string()), None);
            assert_eq!(toxic.attributes.len(), 2);
        }
        _ => panic!("expected a toxic creation"),
    }
}

#[test]
fn same_type_and_stream_give_same_name() {
    let a = latency("upstream");
    let b = Toxic::latency("upstream".to_string(), 10, 5, 500_000);
    assert_eq!(a.name, b.name);
    assert_eq!(a.name, "latency_upstream");
    assert_ne!(a.name, latency("downstream").name);
}

#[test]
fn toxic_new_and_with_proxy() {
    let attrs = vec![Attribute { key: "rate".to_string(), value: 7 }];
    let t = Toxic::new("bandwidth".to_string(), "upstream".to_string(), 250_000, attrs);
    assert_eq!(t.name, "bandwidth_upstream");
    assert_eq!(t.attribute(&"rate".to_string()), Some(7));
    assert!(t.proxy_name.is_none());
    let t = t.with_proxy("socket".to_string());
    assert_eq!(t.proxy_name, Some("socket".to_string()));
    assert_eq!(t.name, "bandwidth_upstream");
}

#[test]
fn enable_and_disable_twice_send_the_same_update() {
    let p = socket();
    let bodies: Vec<(String, String)> = [p.enable(), p.enable(), p.disable(), p.disable(), p.down()]
        .into_iter()
        .map(|r| match r {
            Ok(Command::UpdateProxy { proxy, payload }) => (proxy, payload),
            _ => panic!("expected an update"),
        })
        .collect();
    assert_eq!(bodies[0], ("socket".to_string(), "{\"enabled\":true}".to_string()));
    assert_eq!(bodies[0], bodies[1]);
    assert_eq!(bodies[2], ("socket".to_string(), "{\"enabled\":false}".to_string()));
    assert_eq!(bodies[2], bodies[3]);
    assert_eq!(bodies[2], bodies[4]);
}

#[test]
fn proxy_commands_route_by_name() {
    let p = socket();
    assert!(p.enabled);
    assert!(p.toxics.is_empty());
    let u = p.update("{\"listen\":\"127.0.0.1:3000\"}".to_string());
    assert_eq!(u.method(), Method::Post);
    assert_eq!(u.path(), "/proxies/socket");
    let d = p.delete();
    assert_eq!(d.method(), Method::Delete);
    assert_eq!(d.path(), "/proxies/socket");
    let l = p.list_toxics();
    assert_eq!(l.method(), Method::Get);
    assert_eq!(l.path(), "/proxies/socket/toxics");
    let t = Command::DeleteToxic { proxy: "socket".to_string(), name: "latency_downstream".to_string() };
    assert_eq!(t.method(), Method::Delete);
    assert_eq!(t.path(), "/proxies/socket/toxics/latency_downstream");
}

#[test]
fn registry_commands() {
    let t = Toxiproxy::local();
    assert_eq!(t.endpoint.base_uri, "http://127.0.0.1:8474");
    let c = t.populate(vec![socket()]);
    assert_eq!((c.method(), c.path()), (Method::Post, "/populate".to_string()));
    match c {
        Command::Populate { proxies } => {
            assert_eq!(proxies.len(), 1);
            assert_eq!(proxies[0].name, "socket");
        }
        _ => panic!("expected populate"),
    }
    let c = t.reset();
    assert_eq!((c.method(), c.path()), (Method::Post, "/reset".to_string()));
    let c = t.all();
    assert_eq!((c.method(), c.path()), (Method::Get, "/proxies".to_string()));
    let c = t.version();
    assert_eq!((c.method(), c.path()), (Method::Get, "/version".to_string()));
}

#[test]
fn uri_with_path_appends() {
    let e = Endpoint::new("http://127.0.0.1:8474".to_string());
    assert_eq!(e.uri_with_path("/proxies/socket"), "http://127.0.0.1:8474/proxies/socket");
}

#[test]
fn probe_address_of_default_endpoint() {
    assert_eq!(Toxiproxy::local().is_running(), Some("127.0.0.1:8474".to_string()));
    assert_eq!(
        Toxiproxy::new("http://localhost:9999/x".to_string()).is_running(),
        Some("localhost:9999".to_string())
    );
}

#[test]
fn not_running_without_an_authority() {
    assert_eq!(Toxiproxy::new("not a uri".to_string()).is_running(), None);
    assert_eq!(Toxiproxy::new("/proxies".to_string()).is_running(), None);
}

#[test]
fn cleanup_deletes_every_listed_toxic() {
    let (mut c, first) = socket().apply();
    assert_eq!(first.path(), "/proxies/socket/toxics");
    assert!(c.outcome().is_none());
    let next = c.step(Reply::Toxics(vec![latency("downstream"), latency("upstream")]));
    expect_delete(next, "socket", "latency_downstream");
    let next = c.step(Reply::Done);
    expect_delete(next, "socket", "latency_upstream");
    assert!(c.step(Reply::Done).is_none());
    assert!(matches!(c.outcome(), Some(Ok(()))));
    assert_eq!(c.names, vec!["latency_downstream".to_string(), "latency_upstream".to_string()]);
    assert!(c.step(Reply::Done).is_none());
    assert!(matches!(c.phase, Phase::Finished { outcome: Ok(()) }));
}

#[test]
fn cleanup_of_no_toxics_finishes_at_once() {
    let (mut c, _) = socket().delete_all_toxics();
    assert!(c.step(Reply::Toxics(vec![])).is_none());
    assert!(matches!(c.outcome(), Some(Ok(()))));
}

#[test]
fn cleanup_stops_at_first_failed_delete() {
    let (mut c, _) = Cleanup::new("socket".to_string());
    let next = c.step(Reply::Toxics(vec![latency("downstream"), latency("upstream")]));
    expect_delete(next, "socket", "latency_downstream");
    assert!(c.step(Reply::Failed("connection refused".to_string())).is_none());
    assert_eq!(c.next, 0);
    assert_eq!(c.names.len(), 2);
    match c.outcome() {
        Some(Err(e)) => assert_eq!(
            e.message(),
            "cannot delete toxics: <proxies>.<toxics> delete has failed: connection refused"
        ),
        _ => panic!("expected a failure"),
    }
}

#[test]
fn cleanup_reports_failed_listing() {
    let (mut c, _) = Cleanup::new("socket".to_string());
    assert!(c.step(Reply::Failed("timed out".to_string())).is_none());
    match c.outcome() {
        Some(Err(e)) => {
            assert_eq!(e.operation, "cannot delete toxics: <proxies>.<toxics>");
            assert_eq!(e.cause, "timed out");
        }
        _ => panic!("expected a failure"),
    }
    let (mut c, _) = Cleanup::new("socket".to_string());
    assert!(c.step(Reply::Done).is_none());
    assert!(matches!(c.outcome(), Some(Err(_))));
}

#[test]
fn select_proxy_takes_first_match() {
    let mut ps = vec![
        Proxy::new("a".to_string(), "l1".to_string(), "u1".to_string()),
        socket(),
        Proxy::new("socket".to_string(), "l3".to_string(), "u3".to_string()),
    ];
    let p = select_proxy(&mut ps, &"socket".to_string()).unwrap();
    assert_eq!(p.listen, "127.0.0.1:2000");
    assert_eq!(ps.len(), 2);
    assert!(select_proxy(&mut ps, &"missing".to_string()).is_none());
    assert_eq!(ps.len(), 2);
}

#[test]
fn find_proxy_absent_is_none() {
    let (l, first) = Toxiproxy::local().find_proxy("missing".to_string());
    assert!(matches!(first, Command::ListProxies));
    let (l, next) = l.step(Reply::Proxies(vec![socket()]));
    assert!(next.is_none());
    assert!(matches!(l.outcome(), Some(Ok(None))));
}

#[test]
fn find_proxy_clears_toxics_before_returning() {
    let mut listed = socket();
    listed.toxics = vec![latency("downstream")];
    let (l, _) = Toxiproxy::local().find_proxy("socket".to_string());
    let (l, next) = l.step(Reply::Proxies(vec![listed]));
    match next {
        Some(Command::ListToxics { proxy }) => assert_eq!(proxy, "socket"),
        _ => panic!("expected a toxic listing"),
    }
    assert!(matches!(l.phase, LookupPhase::Cleaning { .. }));
    let (l, next) = l.step(Reply::Toxics(vec![latency("downstream")]));
    expect_delete(next, "socket", "latency_downstream");
    let (l, next) = l.step(Reply::Done);
    assert!(next.is_none());
    match l.outcome() {
        Some(Ok(Some(p))) => {
            assert_eq!(p.name, "socket");
            assert_eq!(p.listen, "127.0.0.1:2000");
            assert_eq!(p.upstream, "127.0.0.1:2001");
            assert!(p.toxics.is_empty());
        }
        _ => panic!("expected the proxy"),
    }
}

#[test]
fn find_proxy_surfaces_cleanup_failure() {
    let (l, _) = Lookup::new("socket".to_string());
    let (l, _) = l.step(Reply::Proxies(vec![socket()]));
    let (l, next) = l.step(Reply::Failed("refused".to_string()));
    assert!(next.is_none());
    match l.outcome() {
        Some(Err(e)) => assert_eq!(e.cause, "refused"),
        _ => panic!("expected a failure"),
    }
    let (l, _) = Lookup::new("socket".to_string());
    let (l, _) = l.step(Reply::Failed("down".to_string()));
    match l.outcome() {
        Some(Err(e)) => assert_eq!(e.message(), "<proxies> has failed: down"),
        _ => panic!("expected a failure"),
    }
}

#[test]
fn reply_interpretation() {
    assert_eq!(Reply::Proxies(vec![socket()]).into_proxies("<populate>").unwrap().len(), 1);
    let e = Reply::Failed("x".to_string()).into_proxies("<populate>").err().unwrap();
    assert_eq!(e.message(), "<populate> has failed: x");
    let e = Reply::Done.into_proxies("<populate>").err().unwrap();
    assert_eq!(e.cause, "unexpected reply");
    assert_eq!(Reply::Text("2.5.0".to_string()).into_text("<version>").unwrap(), "2.5.0");
    assert!(Reply::Done.into_text("<version>").is_err());
    assert!(Reply::Done.into_unit("<reset>").is_ok());
    assert!(Reply::Failed("y".to_string()).into_unit("<reset>").is_err());
    assert_eq!(Reply::Toxics(vec![latency("upstream")]).into_toxics("<toxics>").unwrap().len(), 1);
}

#[test]
fn transport_error_message() {
    let e = TransportError::new("<reset>", "connection refused".to_string());
    assert_eq!(e.message(), "<reset> has failed: connection refused");
}

#[test]
fn populate_reset_find_attach_apply_scenario() {
    let registry = Toxiproxy::local();
    let populate = registry.populate(vec![socket()]);
    assert_eq!(populate.path(), "/populate");
    assert_eq!(registry.reset().path(), "/reset");
    let (l, _) = registry.find_proxy("socket".to_string());
    let (l, _) = l.step(Reply::Proxies(vec![socket()]));
    let (l, next) = l.step(Reply::Toxics(vec![]));
    assert!(next.is_none());
    let proxy = match l.outcome() {
        Some(Ok(Some(p))) => p,
        _ => panic!("expected the proxy"),
    };
    let attach = proxy.with_latency("downstream".to_string(), 2000, 0, TOXICITY_SCALE);
    assert_eq!(attach.path(), "/proxies/socket/toxics");
    let (mut cleanup, list) = proxy.apply();
    assert_eq!(list.path(), "/proxies/socket/toxics");
    let next = cleanup.step(Reply::Toxics(vec![latency("downstream")]));
    expect_delete(next, "socket", "latency_downstream");
    assert!(cleanup.step(Reply::Done).is_none());
    assert!(matches!(cleanup.outcome(), Some(Ok(()))));
    assert!(proxy.enabled);
}

#[test]
fn cleanup_failure_after_some_deletes_keeps_the_rest() {
    let (mut c, _) = Cleanup::new("socket".to_string());
    let listed = vec![latency("downstream"), latency("upstream"), Toxic::latency("both".to_string(), 1, 1, 1)];
    expect_delete(c.step(Reply::Toxics(listed)), "socket", "latency_downstream");
    assert_eq!(c.next, 0);
    expect_delete(c.step(Reply::Done), "socket", "latency_upstream");
    assert_eq!(c.next, 1);
    assert!(c.step(Reply::Failed("gone".to_string())).is_none());
    assert_eq!(c.next, 1);
    assert_eq!(c.names[c.next], "latency_upstream");
    assert!(c.step(Reply::Done).is_none());
}

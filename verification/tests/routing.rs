use monoio_gateway::acme::{challenge_path, challenge_reply};
use monoio_gateway::domain::Domain;
use monoio_gateway::message::Request;
use monoio_gateway::rewrite::Rewrite;
use monoio_gateway::router::{Router, RouterConfig, RouterRule, RoutersConfig, TlsConfig};
use monoio_gateway::routing::{
    challenge_token, ClientEvent, Routed, RouterService, SessionAction,
};
use monoio_gateway::version::Type;

fn rule(path: &str, upstream: &str) -> RouterRule<Domain> {
    RouterRule { path: path.to_string(), proxy_pass: Domain::with_uri(upstream).unwrap() }
}

fn plain_host() -> RouterConfig<Domain> {
    RouterConfig {
        server_name: "svc.example:5000".to_string(),
        protocol: Type::HTTP,
        listen_port: vec![5000],
        rules: vec![rule("/", "http://127.0.0.1:8000")],
        tls: None,
    }
}

fn tls_host() -> RouterConfig<Domain> {
    RouterConfig {
        server_name: "svc".to_string(),
        protocol: Type::HTTPS,
        listen_port: vec![80, 443],
        rules: vec![rule("/", "http://127.0.0.1:8000")],
        tls: Some(TlsConfig { mail: "me@svc.example".to_string(), chain: None, private_key: None }),
    }
}

fn table() -> Router<Domain> {
    Router::build_with_config(RoutersConfig { configs: vec![plain_host(), tls_host()] })
}

fn get(path: &str, host: Option<&str>) -> Request {
    let mut r = Request::new("GET", path);
    if let Some(h) = host {
        r.headers.append(b"Host", h.as_bytes());
    }
    r
}

fn status_of<A>(routed: Routed<'_, A>) -> Option<u16> {
    match routed {
        Routed::Respond(s) => Some(s),
        _ => None,
    }
}

#[test]
fn plain_proxy_forwards_with_rewritten_host() {
    let router = table();
    let service = RouterService::new(&router, 5000);
    let mut request = get("/", Some("svc.example:5000"));
    let upstream = match service.route(&request) {
        Routed::Forward { host, rule } => {
            assert_eq!(host.server_name, "svc.example:5000");
            assert_eq!(rule.path, "/");
            rule.proxy_pass.clone()
        }
        _ => panic!("the request must be forwarded"),
    };
    assert_eq!(upstream.resolve(), "127.0.0.1:8000");
    Rewrite::rewrite_request(&mut request, &upstream);
    assert_eq!(request.method, "GET");
    assert_eq!(request.path, "/");
    assert_eq!(request.headers.len(), 1);
    assert_eq!(request.headers.get(b"Host"), Some(&b"127.0.0.1:8000".to_vec()));
}

#[test]
fn longest_prefix_routing_picks_the_upstream() {
    let router = Router::build_with_config(RoutersConfig {
        configs: vec![RouterConfig {
            server_name: "svc".to_string(),
            protocol: Type::HTTP,
            listen_port: vec![80],
            rules: vec![rule("/", "http://a.example"), rule("/api/", "http://b.example")],
            tls: None,
        }],
    });
    let service = RouterService::new(&router, 80);
    match service.route(&get("/api/v1", Some("svc"))) {
        Routed::Forward { rule, .. } => assert_eq!(rule.proxy_pass.host(), "b.example"),
        _ => panic!("the request must be forwarded"),
    }
    match service.route(&get("/other", Some("svc"))) {
        Routed::Forward { rule, .. } => assert_eq!(rule.proxy_pass.host(), "a.example"),
        _ => panic!("the request must be forwarded"),
    }
}

#[test]
fn missing_host_is_forbidden() {
    let router = table();
    let service = RouterService::new(&router, 5000);
    assert_eq!(status_of(service.route(&get("/", None))), Some(403));
    assert_eq!(status_of(service.route(&get("/.well-known/acme-challenge/abc", None))), Some(403));
}

#[test]
fn unknown_host_is_not_found() {
    let router = table();
    let service = RouterService::new(&router, 5000);
    assert_eq!(status_of(service.route(&get("/", Some("unknown:5000")))), Some(404));
    assert_eq!(status_of(service.route(&get("/", Some("svc")))), Some(404));
    let other_port = RouterService::new(&router, 5001);
    assert_eq!(status_of(other_port.route(&get("/", Some("svc.example:5000")))), Some(404));
}

#[test]
fn host_that_is_no_authority_is_not_found() {
    let router = Router::build_with_config(RoutersConfig {
        configs: vec![RouterConfig {
            server_name: "bad host".to_string(),
            protocol: Type::HTTP,
            listen_port: vec![80],
            rules: vec![rule("", "http://a.example")],
            tls: None,
        }],
    });
    let service = RouterService::new(&router, 80);
    let request = get("/", Some("bad host"));
    assert_eq!(status_of(service.route(&request)), Some(404));
    assert!(matches!(service.route_checked(&request, true), Routed::Forward { .. }));
    assert_eq!(status_of(service.route_checked(&request, false)), Some(404));
}

#[test]
fn no_matching_rule_is_not_found() {
    let router = Router::build_with_config(RoutersConfig {
        configs: vec![RouterConfig {
            server_name: "svc".to_string(),
            protocol: Type::HTTP,
            listen_port: vec![80],
            rules: vec![rule("/api/", "http://b.example")],
            tls: None,
        }],
    });
    let service = RouterService::new(&router, 80);
    assert_eq!(status_of(service.route(&get("/other", Some("svc")))), Some(404));
}

#[test]
fn acme_challenge_goes_to_the_responder() {
    let router = table();
    let service = RouterService::new(&router, 80);
    let request = get("/.well-known/acme-challenge/abc", Some("svc"));
    let (server_name, token) = match service.route(&request) {
        Routed::Challenge { host, token } => (host.server_name.clone(), token),
        _ => panic!("the request must go to the responder"),
    };
    assert_eq!(server_name, "svc");
    assert_eq!(token, b"abc".to_vec());
    let path = challenge_path("/acme-root", &server_name, std::str::from_utf8(&token).unwrap());
    assert_eq!(path, "/acme-root/svc/.well-known/acme-challenge/abc");
    let reply = challenge_reply(Some(b"PROOF".to_vec()));
    assert_eq!(reply.response.status, 200);
    assert_eq!(reply.body, b"PROOF".to_vec());
    assert_eq!(reply.response.headers.get(b"Content-Length"), Some(&b"5".to_vec()));
}

#[test]
fn acme_paths_never_reach_a_rule() {
    let router = table();
    let plain = RouterService::new(&router, 5000);
    assert_eq!(
        status_of(plain.route(&get("/.well-known/acme-challenge/abc", Some("svc.example:5000")))),
        Some(404)
    );
    let tls = RouterService::new(&router, 443);
    assert_eq!(status_of(tls.route(&get("/.well-known/other", Some("svc")))), Some(404));
    assert_eq!(status_of(tls.route(&get("/.well-known", Some("svc")))), Some(404));
    assert_eq!(status_of(tls.route(&get("/.well-known/acme-challenge/", Some("svc")))), Some(404));
    assert_eq!(
        status_of(tls.route(&get("/.well-known/acme-challenge/../../priv", Some("svc")))),
        Some(404)
    );
}

#[test]
fn request_without_host_is_forbidden_on_every_table() {
    let empty: Router<Domain> = Router::build_with_config(RoutersConfig { configs: vec![] });
    assert_eq!(status_of(RouterService::new(&empty, 80).route(&get("/", None))), Some(403));
    let router = table();
    for port in [80, 443, 5000, 1] {
        let service = RouterService::new(&router, port);
        assert_eq!(status_of(service.route(&get("/", None))), Some(403));
        assert_eq!(status_of(service.route_checked(&get("/", None), true)), Some(403));
        assert_eq!(status_of(service.route_checked(&get("/", None), false)), Some(403));
    }
}

#[test]
fn token_is_the_last_segment_of_a_challenge_path() {
    assert_eq!(challenge_token("/.well-known/acme-challenge/abc"), Some(b"abc".to_vec()));
    assert_eq!(challenge_token("/.well-known/acme-challenge/"), None);
    assert_eq!(challenge_token("/.well-known/acme-challenge/a/b"), None);
    assert_eq!(challenge_token("/.well-known/acme-challenge"), None);
    assert_eq!(challenge_token("/other"), None);
}

#[test]
fn session_routes_requests_and_ends_on_everything_else() {
    let router = table();
    let service = RouterService::new(&router, 5000);
    assert_eq!(service.port(), 5000);
    let event = ClientEvent::Request(get("/", Some("svc.example:5000")));
    assert!(matches!(service.call(&event), SessionAction::Route(Routed::Forward { .. })));
    let event = ClientEvent::Request(get("/", None));
    assert!(matches!(service.call(&event), SessionAction::Route(Routed::Respond(403))));
    assert!(matches!(
        service.call(&ClientEvent::Malformed { headers_seen: true }),
        SessionAction::Reject(400)
    ));
    assert!(matches!(
        service.call(&ClientEvent::Malformed { headers_seen: false }),
        SessionAction::End
    ));
    assert!(matches!(service.call(&ClientEvent::Closed), SessionAction::End));
}

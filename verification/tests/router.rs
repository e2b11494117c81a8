use monoio_gateway::domain::Domain;
use monoio_gateway::router::{
    has_port, longest_match, longest_match_index, Router, RouterConfig, RouterRule, RoutersConfig,
};
use monoio_gateway::util::ParamRef;
use monoio_gateway::version::Type;

fn rule(path: &str, upstream: &str) -> RouterRule<Domain> {
    RouterRule { path: path.to_string(), proxy_pass: Domain::with_uri(upstream).unwrap() }
}

fn host(name: &str, ports: &[u16], rules: Vec<RouterRule<Domain>>) -> RouterConfig<Domain> {
    RouterConfig {
        server_name: name.to_string(),
        protocol: Type::HTTP,
        listen_port: ports.to_vec(),
        rules,
        tls: None,
    }
}

#[test]
fn longest_prefix_wins() {
    let rules = vec![rule("/", "http://a.example"), rule("/api/", "http://b.example")];
    assert_eq!(longest_match("/api/v1", &rules).unwrap().get_proxy_pass().host(), "b.example");
    assert_eq!(longest_match("/other", &rules).unwrap().get_proxy_pass().host(), "a.example");
    assert_eq!(longest_match_index("/api/v1", &rules), Some(1));
    assert_eq!(longest_match_index("/other", &rules), Some(0));
    assert_eq!(longest_match_index("/api", &rules), Some(0));
}

#[test]
fn earliest_of_equal_prefixes_wins() {
    let rules = vec![
        rule("/api/", "http://first.example"),
        rule("/", "http://root.example"),
        rule("/api/", "http://second.example"),
    ];
    assert_eq!(longest_match_index("/api/x", &rules), Some(0));
    assert_eq!(longest_match("/api/x", &rules).unwrap().get_proxy_pass().host(), "first.example");
}

#[test]
fn empty_prefix_is_the_default_and_gives_way() {
    let rules = vec![rule("", "http://default.example"), rule("/api/", "http://api.example")];
    assert_eq!(longest_match_index("/anything", &rules), Some(0));
    assert_eq!(longest_match_index("", &rules), Some(0));
    assert_eq!(longest_match_index("/api/x", &rules), Some(1));
    let only = vec![rule("", "http://default.example")];
    assert_eq!(longest_match_index("/.well-known/x", &only), Some(0));
}

#[test]
fn nothing_answers_below_well_known() {
    let rules = vec![rule("", "http://default.example"), rule("/", "http://root.example")];
    assert!(longest_match("/.well-known/x", &rules).is_none());
    assert!(longest_match("/.well-known", &rules).is_none());
    assert!(longest_match("/.well-known/acme-challenge/abc", &rules).is_none());
    assert!(longest_match("/.well-knownx", &rules).is_none());
    let exact = vec![rule("/.well-known/", "http://own.example")];
    assert!(longest_match("/.well-known/x", &exact).is_none());
    assert_eq!(longest_match_index("/.well-known/x", &exact), Some(0));
    assert_eq!(longest_match("/.well-know", &rules).unwrap().get_proxy_pass().host(), "root.example");
    assert_eq!(longest_match("/well-known", &rules).unwrap().get_proxy_pass().host(), "root.example");
    assert_eq!(longest_match("", &rules).unwrap().get_proxy_pass().host(), "default.example");
}

#[test]
fn no_matching_prefix_gives_nothing() {
    let rules = vec![rule("/api/", "http://b.example")];
    assert!(longest_match("/other", &rules).is_none());
    assert_eq!(longest_match_index("/ap", &rules), None);
    let none: Vec<RouterRule<Domain>> = vec![];
    assert_eq!(longest_match_index("/", &none), None);
}

#[test]
fn prefixes_match_bytes_not_segments() {
    let rules = vec![rule("/api", "http://b.example")];
    assert_eq!(longest_match_index("/apix", &rules), Some(0));
    assert_eq!(longest_match_index("/API", &rules), None);
}

#[test]
fn rule_and_config_hand_out_their_parts() {
    let r = rule("/x", "http://b.example");
    assert_eq!(r.get_path(), "/x");
    assert_eq!(r.get_proxy_pass().host(), "b.example");
    let c = host("svc", &[80], vec![r]);
    assert_eq!(c.get_rules().len(), 1);
}

#[test]
fn table_finds_the_first_host_of_that_name_on_that_port() {
    let router = Router::build_with_config(RoutersConfig {
        configs: vec![
            host("a.example", &[80, 8080], vec![]),
            host("b.example", &[80], vec![]),
            host("a.example", &[80, 9090], vec![rule("/", "http://late.example")]),
        ],
    });
    assert_eq!(router.len(), 3);
    assert_eq!(router.find(80, b"a.example"), Some(0));
    assert_eq!(router.find(80, b"b.example"), Some(1));
    assert_eq!(router.find(9090, b"a.example"), Some(2));
    assert_eq!(router.find(8080, b"b.example"), None);
    assert_eq!(router.find(80, b"A.example"), None);
    assert_eq!(router.find(81, b"a.example"), None);
    assert_eq!(router.get(1).unwrap().server_name, "b.example");
    assert!(router.get(3).is_none());
    assert_eq!(router.param_ref().len(), 3);
}

#[test]
fn table_lists_each_port_once() {
    let router = Router::build_with_config(RoutersConfig {
        configs: vec![
            host("a.example", &[80, 443], vec![]),
            host("b.example", &[443, 8080, 80], vec![]),
        ],
    });
    assert_eq!(router.ports(), vec![80, 443, 8080]);
    assert_eq!(router.hosts_on(80), vec![0, 1]);
    assert_eq!(router.hosts_on(443), vec![0, 1]);
    assert_eq!(router.hosts_on(8080), vec![1]);
    assert_eq!(router.hosts_on(81), Vec::<usize>::new());
    let empty: Router<Domain> = Router::build_with_config(RoutersConfig { configs: vec![] });
    assert_eq!(empty.ports(), Vec::<u16>::new());
    assert!(has_port(&vec![1, 2, 3], 2));
    assert!(!has_port(&vec![1, 2, 3], 4));
}

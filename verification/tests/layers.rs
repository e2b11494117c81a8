use std::time::Duration;

use monoio_gateway::config::{InBoundConfig, OutBoundConfig, ServerConfig};
use monoio_gateway::discover::{Discover, DiscoverChange, DummyDiscover};
use monoio_gateway::domain::Domain;
use monoio_gateway::error::GatewayError;
use monoio_gateway::layers::{
    BearerAuthService, ConnectEndpoint, DelayLayer, DialRemoteLayer, DiscoverService,
    EndpointRequestParams, ProxyService, RewriteLayer, TcpAcceptLayer, TimeoutError, TimeoutLayer,
    TimeoutService,
};
use monoio_gateway::message::Request;
use monoio_gateway::service::{Layer, Service, ServiceBuilder, SvcList};
use monoio_gateway::util::{Identity, Stack};

#[test]
fn first_layer_added_is_outermost() {
    let svc = ServiceBuilder::new()
        .layer(DelayLayer::new(Duration::from_secs(1)))
        .layer(TimeoutLayer::new(Duration::from_secs(2)))
        .service(ProxyService);
    assert_eq!(svc.delay, Duration::from_secs(1));
    assert_eq!(svc.inner.timeout, Duration::from_secs(2));
    let svc = ServiceBuilder::default()
        .layer(TimeoutLayer::new(Duration::from_secs(2)))
        .layer(DelayLayer::new(Duration::from_secs(1)))
        .service(ProxyService);
    assert_eq!(svc.timeout, Duration::from_secs(2));
    assert_eq!(svc.inner.delay, Duration::from_secs(1));
}

#[test]
fn identity_and_stack_wrap_as_they_say() {
    assert_eq!(Identity::new().layer(5u8), 5u8);
    assert_eq!(Identity::default().layer("x"), "x");
    let stack = Stack::new(TimeoutLayer::new(Duration::from_secs(2)), Identity::new());
    let svc = stack.layer(7u8);
    assert_eq!(svc.inner, 7u8);
    assert_eq!(svc.timeout, Duration::from_secs(2));
    assert_eq!(ServiceBuilder::new().service(9u8), 9u8);
    let _accept = TcpAcceptLayer::default().layer(ProxyService);
}

#[test]
fn bearer_sets_the_authorization_header() {
    let mut bearer = BearerAuthService::new("Bearer abc".to_string());
    let mut request = Request::new("GET", "/");
    request.headers.append(b"Authorization", b"old");
    request.headers.append(b"Host", b"svc");
    let out = bearer.call(request).unwrap();
    assert_eq!(out.headers.get(b"authorization"), Some(&b"Bearer abc".to_vec()));
    assert_eq!(out.headers.get(b"host"), Some(&b"svc".to_vec()));
    assert_eq!(out.headers.len(), 2);
    assert_eq!(out.path, "/");
}

#[test]
fn bearer_refuses_a_token_that_would_break_the_header() {
    let mut bearer = BearerAuthService::new("abc\r\nX: y".to_string());
    assert_eq!(bearer.call(Request::new("GET", "/")), Err(GatewayError::Config));
}

#[test]
fn timeout_settles_the_race() {
    let service = TimeoutLayer::new(Duration::from_secs(1)).layer(ProxyService);
    assert_eq!(service.settle::<u8, u8>(Some(Ok(5))), Ok(Some(5)));
    assert_eq!(service.settle::<u8, u8>(Some(Err(7))), Err(TimeoutError::Inner(7)));
    assert_eq!(service.settle::<u8, u8>(None), Err(TimeoutError::Elapsed));
    assert_eq!(TimeoutError::<u8>::Elapsed.elapsed(), Some(GatewayError::Timeout));
    assert_eq!(TimeoutError::Inner(1u8).elapsed(), None);
    assert_eq!(GatewayError::Timeout.status(), Some(504));
    let _: &TimeoutService<ProxyService> = &service;
}

#[test]
fn rewrite_layer_hands_on_to_the_inner_service() {
    let upstream = Domain::with_uri("http://127.0.0.1:8000").unwrap();
    let mut request = Request::new("GET", "/");
    request.headers.append(b"Host", b"svc.example:5000");
    let mut service = RewriteLayer.layer(ProxyService);
    assert_eq!(service.call((request, upstream)), Ok(()));
}

#[test]
fn plain_upstream_is_dialed_without_tls() {
    let params = EndpointRequestParams::new(Domain::with_uri("http://127.0.0.1:8000").unwrap());
    let plan = ConnectEndpoint.plan(&params).unwrap();
    assert_eq!(plan.target, "127.0.0.1:8000");
    assert_eq!(plan.server_name, None);
}

#[test]
fn secure_upstream_is_greeted_by_its_host_name() {
    let params = EndpointRequestParams::new(Domain::with_uri("https://up.example").unwrap());
    let plan = ConnectEndpoint.plan(&params).unwrap();
    assert_eq!(plan.target, "up.example:443");
    assert_eq!(plan.server_name, Some("up.example".to_string()));
    assert_eq!(ConnectEndpoint.plan_checked(&params, false), Err(GatewayError::UpstreamDial));
}

#[test]
fn secure_upstream_with_a_host_that_names_no_server_is_not_dialed() {
    let params = EndpointRequestParams::new(Domain::with_uri("https://a..b/").unwrap());
    assert_eq!(ConnectEndpoint::default().plan(&params), Err(GatewayError::UpstreamDial));
    assert!(ConnectEndpoint.plan_checked(&params, true).is_ok());
    let plain = EndpointRequestParams::new(Domain::with_uri("http://a..b/").unwrap());
    assert_eq!(ConnectEndpoint.plan(&plain).unwrap().target, "a..b:80");
}

#[test]
fn dial_layer_keeps_its_target() {
    let layer = DialRemoteLayer::new(Domain::with_uri("http://127.0.0.1:8000").unwrap());
    let service = layer.layer(ProxyService);
    assert_eq!(service.target.resolve(), "127.0.0.1:8000");
    assert_eq!(layer.target.resolve(), "127.0.0.1:8000");
}

#[test]
fn discovery_without_result_changes_nothing() {
    let service = DiscoverService { discover: DummyDiscover { data: 5u8 }, delay: Duration::from_secs(1) };
    assert!(matches!(service.settle::<(), u8, u8>(Ok(None)), Ok(DiscoverChange::Unchanged)));
    assert!(matches!(
        service.settle::<(), u8, u8>(Ok(Some(DiscoverChange::Add((), 3)))),
        Ok(DiscoverChange::Add((), 3))
    ));
    assert!(matches!(service.settle::<(), u8, u8>(Err(9)), Err(9)));
    assert!(matches!(service.discover.discover(), Ok(Some(DiscoverChange::Add((), 5)))));
}

#[test]
fn service_list_keeps_the_order() {
    let list = SvcList::new(vec!["a", "b", "c"]);
    assert_eq!(list.len(), 3);
    assert_eq!(list.get(0), Some(&"a"));
    assert_eq!(list.get(2), Some(&"c"));
    assert_eq!(list.get(3), None);
    assert_eq!(list.number(0), Some(0));
    assert_eq!(list.number(2), Some(2));
    assert_eq!(list.number(3), None);
    let empty: SvcList<u8> = SvcList::new(vec![]);
    assert_eq!(empty.len(), 0);
}

#[test]
fn configs_hold_what_they_are_given() {
    let inbound = InBoundConfig::new(ServerConfig::new(1u8));
    let outbound = OutBoundConfig::new(ServerConfig::new(2u8));
    assert_eq!(inbound.server.addr, 1);
    assert_eq!(outbound.server.addr, 2);
}

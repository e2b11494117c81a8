use monoio_gateway::detect::{Detect, DetectHttpVersion, DetectService};
use monoio_gateway::domain::Domain;
use monoio_gateway::error::{GatewayError, Reach};
use monoio_gateway::gateway::{CertificatePlan, Gateway, HttpProxy, SessionPlan};
use monoio_gateway::message::Request;
use monoio_gateway::router::{Router, RouterConfig, RouterRule, RoutersConfig, TlsConfig};
use monoio_gateway::routing::Routed;
use monoio_gateway::transfer::{
    HttpTransferService, TransferParams, TransferParamsType, TransferPlan,
};
use monoio_gateway::version::{Type, Version};

fn host(name: &str, protocol: Type, ports: &[u16], tls: Option<TlsConfig>) -> RouterConfig<Domain> {
    RouterConfig {
        server_name: name.to_string(),
        protocol,
        listen_port: ports.to_vec(),
        rules: vec![RouterRule {
            path: "/".to_string(),
            proxy_pass: Domain::with_uri("http://127.0.0.1:8000").unwrap(),
        }],
        tls,
    }
}

#[test]
fn tls_handshake_record_is_secure_and_everything_else_plain() {
    let d = DetectService::new_http_detect();
    assert_eq!(d.detect(&[0x16, 0x03, 0x01]).kind, Type::HTTPS);
    assert_eq!(d.detect(&[0x16, 0x03, 0x03]).kind, Type::HTTPS);
    assert_eq!(d.detect(b"GET").kind, Type::HTTP);
    assert_eq!(d.detect(&[0x16, 0x02, 0x01]).kind, Type::HTTP);
    assert_eq!(d.detect(&[0x17, 0x03, 0x01]).kind, Type::HTTP);
    assert_eq!(d.detect(&[0x16, 0x03]).kind, Type::HTTP);
    assert_eq!(d.detect(&[]).kind, Type::HTTP);
}

#[test]
fn detector_hands_the_bytes_back() {
    let d = DetectService::new_http_detect();
    let stream = b"GET / HTTP/1.1\r\n\r\n";
    let found = d.detect(&stream[..3]);
    let mut replay = found.prefix.clone();
    replay.extend_from_slice(&stream[3..]);
    assert_eq!(replay, stream.to_vec());
    assert_eq!(d.detect(&[0x16]).prefix, vec![0x16]);
    let mut io = 0u8;
    assert_eq!(DetectHttpVersion::default().detect_proto(&mut io).map(|p| p.is_none()), Ok(true));
}

#[test]
fn one_gateway_per_listening_port() {
    let router = Router::build_with_config(RoutersConfig {
        configs: vec![
            host("a", Type::HTTP, &[80, 443], None),
            host("b", Type::HTTP, &[443, 8080], None),
        ],
    });
    let gateways = Gateway::from_router(&router);
    let ports: Vec<u16> = gateways.iter().map(|g| g.port()).collect();
    assert_eq!(ports, vec![80, 443, 8080]);
    let mut request = Request::new("GET", "/");
    request.headers.append(b"Host", b"b");
    assert!(matches!(gateways[0].service().route(&request), Routed::Respond(404)));
    assert!(matches!(gateways[1].service().route(&request), Routed::Forward { .. }));
    let one = Gateway::new(&router, 8080);
    assert_eq!(one.port(), 8080);
    assert!(matches!(one.service().route(&request), Routed::Forward { .. }));
}

#[test]
fn certificate_comes_from_files_or_acme() {
    let both = host(
        "svc",
        Type::HTTPS,
        &[443],
        Some(TlsConfig {
            mail: "me@svc".to_string(),
            chain: Some("/etc/chain.pem".to_string()),
            private_key: Some("/etc/key.pem".to_string()),
        }),
    );
    assert_eq!(
        Gateway::configure_cert(&both),
        Ok(CertificatePlan::Provided { chain: "/etc/chain.pem", private_key: "/etc/key.pem" })
    );
    let only_chain = host(
        "svc",
        Type::HTTPS,
        &[443],
        Some(TlsConfig {
            mail: "me@svc".to_string(),
            chain: Some("/etc/chain.pem".to_string()),
            private_key: None,
        }),
    );
    assert_eq!(
        Gateway::configure_cert(&only_chain),
        Ok(CertificatePlan::Acme { server_name: "svc", mail: "me@svc" })
    );
    let acme = host(
        "svc",
        Type::HTTP,
        &[80, 443],
        Some(TlsConfig { mail: "me@svc".to_string(), chain: None, private_key: None }),
    );
    assert_eq!(
        Gateway::configure_cert(&acme),
        Ok(CertificatePlan::Acme { server_name: "svc", mail: "me@svc" })
    );
    assert_eq!(Gateway::configure_cert(&host("p", Type::HTTP, &[80], None)), Ok(CertificatePlan::NotNeeded));
    assert_eq!(Gateway::configure_cert(&host("s", Type::HTTPS, &[443], None)), Err(GatewayError::Config));
}

#[test]
fn proxy_binds_every_interface_and_plans_sessions() {
    let router = Router::build_with_config(RoutersConfig {
        configs: vec![host("svc", Type::HTTP, &[5000], None)],
    });
    let proxy = HttpProxy::build_with_config(&router, 5000);
    assert_eq!(proxy.get_listen_port(), Some(5000));
    assert_eq!(proxy.listen_addr(), "0.0.0.0:5000");
    assert_eq!(
        proxy.session_plan(Type::HTTPS),
        SessionPlan { terminate_tls: true, handshake_timeout: Some(10) }
    );
    assert_eq!(
        proxy.session_plan(Type::HTTP),
        SessionPlan { terminate_tls: false, handshake_timeout: None }
    );
    let mut request = Request::new("GET", "/");
    request.headers.append(b"Host", b"svc");
    assert!(matches!(proxy.service().route(&request), Routed::Forward { .. }));
}

#[test]
fn failures_reach_as_far_as_they_should() {
    assert_eq!(GatewayError::RouteMiss.status(), Some(404));
    assert_eq!(GatewayError::NoHostHeader.status(), Some(403));
    assert_eq!(GatewayError::UpstreamDial.status(), Some(502));
    assert_eq!(GatewayError::Timeout.status(), Some(504));
    assert_eq!(GatewayError::Decode.status(), Some(400));
    assert_eq!(GatewayError::Config.status(), None);
    assert_eq!(GatewayError::Bind.status(), None);
    assert_eq!(GatewayError::Accept.status(), None);
    assert_eq!(GatewayError::TlsHandshake.status(), None);
    assert_eq!(GatewayError::Acme.status(), None);
    assert_eq!(GatewayError::Config.reach(), Reach::Process);
    assert_eq!(GatewayError::Bind.reach(), Reach::Worker);
    assert_eq!(GatewayError::Accept.reach(), Reach::Logged);
    assert_eq!(GatewayError::TlsHandshake.reach(), Reach::Session);
    assert_eq!(GatewayError::Decode.reach(), Reach::Session);
    assert_eq!(GatewayError::RouteMiss.reach(), Reach::Request);
    assert_eq!(GatewayError::NoHostHeader.reach(), Reach::Request);
    assert_eq!(GatewayError::UpstreamDial.reach(), Reach::Request);
    assert_eq!(GatewayError::Timeout.reach(), Reach::Request);
    assert_eq!(GatewayError::Acme.reach(), Reach::Logged);
    assert_eq!(GatewayError::Timeout.to_string(), "timeout");
}

#[test]
fn transfer_relays_from_server_side_to_client_side_only() {
    let plan = HttpTransferService.plan(TransferParams::new(
        TransferParamsType::ServerHttp("client"),
        TransferParamsType::ClientTls("upstream"),
        Some(Request::new("GET", "/")),
    ));
    match plan {
        TransferPlan::Relay { first, client, upstream } => {
            assert_eq!(first.unwrap().path, "/");
            assert_eq!(client, "client");
            assert_eq!(upstream, "upstream");
        }
        TransferPlan::Idle => panic!("the sides fit"),
    }
    let plan = HttpTransferService.plan(TransferParams::new(
        TransferParamsType::ServerTls(1u8),
        TransferParamsType::ClientHttp(2u8),
        None,
    ));
    assert!(matches!(plan, TransferPlan::Relay { first: None, client: 1, upstream: 2 }));
    let plan = HttpTransferService.plan(TransferParams::new(
        TransferParamsType::ClientHttp(1u8),
        TransferParamsType::ClientHttp(2u8),
        None,
    ));
    assert!(matches!(plan, TransferPlan::Idle));
    let plan = HttpTransferService.plan(TransferParams::new(
        TransferParamsType::ServerHttp(1u8),
        TransferParamsType::ServerTls(2u8),
        None,
    ));
    assert!(matches!(plan, TransferPlan::Idle));
}

#[test]
fn plain_http_is_the_default() {
    assert_eq!(Type::default(), Type::HTTP);
    assert_eq!(Type::HTTP.standard_port(), 80);
    assert_eq!(Type::HTTPS.standard_port(), 443);
    assert_ne!(Version::HTTP11, Version::HTTP2);
}

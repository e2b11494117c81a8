use monoio_gateway::address::{push_hexadecimal, IpAddress, Resolvable, TcpAddress};
use monoio_gateway::config::{config_format, Config, ConfigFormat, InBoundConfig, OutBoundConfig, ProxyConfig, ServerConfig, MAX_CONFIG_SIZE_LIMIT};
use monoio_gateway::domain::Domain;
use monoio_gateway::error::GatewayError;
use monoio_gateway::layers::{TcpListenLayer};
use monoio_gateway::service::Layer;

fn target_of<A: Resolvable>(address: &A) -> String {
    address.resolve()
}

#[test]
fn ipv4_endpoint_is_dotted_with_port() {
    let a = TcpAddress::new(IpAddress::V4([127, 0, 0, 1]), 8000);
    assert_eq!(a.resolve(), "127.0.0.1:8000");
    assert_eq!(a.to_string(), "127.0.0.1:8000");
    let a = TcpAddress::new(IpAddress::V4([0, 0, 0, 0]), 0);
    assert_eq!(a.resolve(), "0.0.0.0:0");
    let a = TcpAddress::new(IpAddress::V4([255, 255, 255, 255]), 65535);
    assert_eq!(target_of(&a), "255.255.255.255:65535");
}

#[test]
fn ipv6_endpoint_is_bracketed() {
    let a = TcpAddress::new(IpAddress::V6([0, 0, 0, 0, 0, 0, 0, 1]), 443);
    assert_eq!(a.resolve(), "[0:0:0:0:0:0:0:1]:443");
    let a = TcpAddress::new(IpAddress::V6([0x2001, 0xdb8, 0, 0, 0, 0xff00, 0x42, 0x8329]), 80);
    assert_eq!(a.resolve(), "[2001:db8:0:0:0:ff00:42:8329]:80");
}

#[test]
fn hexadecimal_has_no_leading_zero() {
    let mut s = String::new();
    push_hexadecimal(&mut s, 0);
    push_hexadecimal(&mut s, 0xf);
    push_hexadecimal(&mut s, 0x10);
    push_hexadecimal(&mut s, 0xffff);
    assert_eq!(s, "0f10ffff");
}

#[test]
fn every_address_names_a_connect_target() {
    let d = Domain::with_uri("https://up.example").unwrap();
    assert_eq!(target_of(&d), "up.example:443");
}

#[test]
fn extension_selects_the_notation() {
    assert_eq!(config_format(Some("json")), Ok(ConfigFormat::Json));
    assert_eq!(config_format(Some("JSON")), Ok(ConfigFormat::Json));
    assert_eq!(config_format(Some("toml")), Ok(ConfigFormat::Toml));
    assert_eq!(config_format(Some("Toml")), Ok(ConfigFormat::Toml));
    assert_eq!(config_format(None), Ok(ConfigFormat::Json));
    assert_eq!(config_format(Some("yaml")), Err(GatewayError::Config));
    assert_eq!(config_format(Some("")), Err(GatewayError::Config));
    assert_eq!(config_format(Some("jsonx")), Err(GatewayError::Config));
    assert_eq!(MAX_CONFIG_SIZE_LIMIT, 8072);
}

#[test]
fn proxies_are_kept_in_order() {
    let config = Config::new()
        .push(ProxyConfig {
            inbound: InBoundConfig::new(ServerConfig::new(1u8)),
            outbound: OutBoundConfig::new(ServerConfig::new(2u8)),
        })
        .push(ProxyConfig {
            inbound: InBoundConfig::new(ServerConfig::new(3u8)),
            outbound: OutBoundConfig::new(ServerConfig::new(4u8)),
        });
    assert_eq!(config.proxies.len(), 2);
    assert_eq!(config.proxies[0].inbound.server.addr, 1);
    assert_eq!(config.proxies[1].outbound.server.addr, 4);
    assert_eq!(Config::<u8>::new().proxies.len(), 0);
}

#[test]
fn listener_binds_loopback_unless_the_lan_is_allowed() {
    let service = TcpListenLayer::new(5000, false).layer(());
    assert_eq!(service.listen_addr(), "127.0.0.1:5000");
    let service = TcpListenLayer::new(5000, true).layer(());
    assert_eq!(service.listen_addr(), "0.0.0.0:5000");
    let service = TcpListenLayer::new_allow_lan(80).layer(());
    assert_eq!(service.listen_addr(), "0.0.0.0:80");
    assert_eq!(service.listen_port, 80);
}

//! The two ends of a proxy as they are configured.

use vstd::prelude::*;
use crate::error::GatewayError;
use crate::text::{bytes_of, same_ignoring_case, same_name};

verus! {

/// The most bytes of a configuration file that are read.
pub const MAX_CONFIG_SIZE_LIMIT: usize = 8072;

/// The notation a configuration file is written in.
#[derive(Clone, Copy, Debug, PartialEq, Eq)]
pub enum ConfigFormat {
    Json,
    Toml,
}

/// The notation that the extension of a file name stands for, whatever the
/// case of its letters: JSON for `json` and for a name without extension,
/// TOML for `toml`, and none for anything else.
pub open spec fn format_of(extension: Option<Seq<char>>) -> Result<ConfigFormat, GatewayError> {
    match extension {
        None => Ok(ConfigFormat::Json),
        Some(e) => if same_name(bytes_of(e), bytes_of("json"@)) {
            Ok(ConfigFormat::Json)
        } else if same_name(bytes_of(e), bytes_of("toml"@)) {
            Ok(ConfigFormat::Toml)
        } else {
            Err(GatewayError::Config)
        },
    }
}

/// The extension in a contract.
pub open spec fn extension_view(extension: Option<&str>) -> Option<Seq<char>> {
    match extension {
        Some(e) => Some(e@),
        None => None,
    }
}

/// The notation of the configuration file whose name has the extension
/// `extension`.
pub fn config_format(extension: Option<&str>) -> (format: Result<ConfigFormat, GatewayError>)
    ensures
        format == format_of(extension_view(extension)),
{
    match extension {
        None => Ok(ConfigFormat::Json),
        Some(e) => {
            if same_ignoring_case(e.as_bytes(), "json".as_bytes()) {
                Ok(ConfigFormat::Json)
            } else if same_ignoring_case(e.as_bytes(), "toml".as_bytes()) {
                Ok(ConfigFormat::Toml)
            } else {
                Err(GatewayError::Config)
            }
        },
    }
}

/// The proxies of a gateway, in the order they were added.
pub struct Config<Addr> {
    pub proxies: Vec<ProxyConfig<Addr>>,
}

impl<Addr> Config<Addr> {
    /// A configuration without proxies.
    pub fn new() -> (config: Self)
        ensures
            config.proxies@ == Seq::<ProxyConfig<Addr>>::empty(),
    {
        Config { proxies: Vec::new() }
    }

    /// The configuration with one more proxy behind the others.
    pub fn push(self, proxy_config: ProxyConfig<Addr>) -> (config: Self)
        ensures
            config.proxies@ == self.proxies@.push(proxy_config),
    {
        let mut config = self;
        config.proxies.push(proxy_config);
        config
    }
}

/// One proxy: where it listens and where it forwards to.
pub struct ProxyConfig<Addr> {
    pub inbound: InBoundConfig<Addr>,
    pub outbound: OutBoundConfig<Addr>,
}

/// The side of a proxy that clients connect to.
pub struct InBoundConfig<Addr> {
    pub server: ServerConfig<Addr>,
}

impl<Addr> InBoundConfig<Addr> {
    /// The inbound side at `config`.
    pub fn new(config: ServerConfig<Addr>) -> (inbound: Self)
        ensures
            inbound.server == config,
    {
        InBoundConfig { server: config }
    }
}

/// The side of a proxy that connects to the upstream.
pub struct OutBoundConfig<Addr> {
    pub server: ServerConfig<Addr>,
}

impl<Addr> OutBoundConfig<Addr> {
    /// The outbound side at `config`.
    pub fn new(config: ServerConfig<Addr>) -> (outbound: Self)
        ensures
            outbound.server == config,
    {
        OutBoundConfig { server: config }
    }
}

/// One end of a proxy: its address.
pub struct ServerConfig<Addr> {
    pub addr: Addr,
}

impl<Addr> ServerConfig<Addr> {
    /// The end at `addr`.
    pub fn new(addr: Addr) -> (server: Self)
        ensures
            server.addr == addr,
    {
        ServerConfig { addr }
    }
}

} // verus!

//! The protocols a listener or an upstream can speak.

use vstd::prelude::*;

verus! {

/// The version of HTTP spoken on a connection.
#[derive(Debug, Copy, Clone, PartialEq, Eq)]
pub enum Version {
    HTTP11,
    HTTP2,
}

/// Whether a side of the gateway speaks plain HTTP or HTTP over TLS.
#[derive(Debug, Copy, Clone, PartialEq, Eq, Structural)]
pub enum Type {
    HTTP,
    HTTPS,
}

impl Default for Type {
    /// Plain HTTP, unless a configuration says otherwise.
    fn default() -> (kind: Self)
        ensures
            kind == Type::HTTP,
    {
        Type::HTTP
    }
}

impl Type {
    /// The port a URI of this kind means when it names none.
    pub open spec fn default_port(self) -> u16 {
        match self {
            Type::HTTP => 80,
            Type::HTTPS => 443,
        }
    }

    /// The port a URI of this kind means when it names none.
    pub fn standard_port(self) -> (port: u16)
        ensures
            port == self.default_port(),
    {
        match self {
            Type::HTTP => 80,
            Type::HTTPS => 443,
        }
    }
}

} // verus!

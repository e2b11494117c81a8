//! The request-processing core of a layer-7 gateway, with a machine-checked
//! contract on every function.
//!
//! The library decides and computes; it never touches a socket, a file or a
//! clock. A program built on it reads requests and hands their heads to
//! [`routing`], asks [`pool`] before it dials, lets [`rewrite`] set the
//! `Host` header on the way to the upstream and back, and carries out what it
//! is told.
//!
//! - [`domain`] and [`address`]: addresses and their connect targets.
//! - [`router`]: the route table and the longest matching prefix.
//! - [`routing`]: what is done with a request.
//! - [`message`] and [`rewrite`]: header fields and the rewriting of `Host`.
//! - [`pool`] and [`transfer`]: upstream connections and the relay.
//! - [`detect`]: TLS or plain HTTP, by the first bytes.
//! - [`ssl`] and [`acme`]: the certificate store and the ACME workspace.
//! - [`service`], [`util`] and [`layers`]: middleware and how it is stacked.
//! - [`gateway`], [`config`] and [`error`]: startup plans and failures.

pub mod acme;
pub mod address;
pub mod config;
pub mod detect;
pub mod discover;
pub mod domain;
pub mod error;
pub mod gateway;
pub mod layers;
pub mod message;
pub mod names;
pub mod pool;
pub mod rewrite;
pub mod router;
pub mod routing;
pub mod service;
pub mod ssl;
pub mod text;
pub mod transfer;
pub mod util;
pub mod version;

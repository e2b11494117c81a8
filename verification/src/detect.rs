//! Telling TLS from plain HTTP by the first bytes of a connection.

use vstd::prelude::*;
use vstd::slice::slice_to_vec;
use crate::error::GatewayError;
use crate::version::Type;

verus! {

/// The bytes looked at before a connection is handed on.
pub const PEEK: usize = 3;

/// The record type of a TLS handshake.
pub const SSL_RECORD_TYPE: u8 = 22;

/// The major version that every TLS record carries.
pub const SSL: u8 = 3;

/// The kind of connection that begins with `head`: secure where three bytes
/// were read and the first two are those of a TLS handshake record, plain in
/// every other case, a shorter read included.
pub open spec fn protocol_of(head: Seq<u8>) -> Type {
    if head.len() >= PEEK && head[0] == SSL_RECORD_TYPE && head[1] == SSL {
        Type::HTTPS
    } else {
        Type::HTTP
    }
}

/// What the detector hands on: the kind of connection, and the bytes it
/// looked at, to be read again before anything else.
pub struct Detected {
    pub kind: Type,
    pub prefix: Vec<u8>,
}

/// No byte is lost: what the detector hands on, followed by what is still
/// unread, is the stream as it arrived.
pub proof fn lemma_no_byte_lost(stream: Seq<u8>, read: int)
    requires
        0 <= read <= stream.len(),
    ensures
        stream.take(read) + stream.skip(read) == stream,
        protocol_of(stream.take(read)) == Type::HTTPS ==> read >= PEEK && stream[0]
            == SSL_RECORD_TYPE && stream[1] == SSL,
{
    assert(stream.take(read) + stream.skip(read) =~= stream);
}

/// The protocol detector.
#[derive(Clone, Copy)]
pub struct DetectService;

impl DetectService {
    /// The detector for HTTP and HTTP over TLS.
    pub fn new_http_detect() -> Self {
        DetectService
    }

    /// Classifies a connection by the bytes `head` that were read from it,
    /// and hands those bytes back untouched.
    pub fn detect(&self, head: &[u8]) -> (found: Detected)
        ensures
            found.kind == protocol_of(head@),
            found.prefix@ == head@,
    {
        let secure = head.len() >= PEEK && head[0] == SSL_RECORD_TYPE && head[1] == SSL;
        Detected { kind: if secure { Type::HTTPS } else { Type::HTTP }, prefix: slice_to_vec(head) }
    }
}

/// Something that recognises a protocol on a connection.
pub trait Detect<I> {
    /// What is recognised.
    type Protocol;

    /// Looks at `io` and says what it speaks, if that can be told.
    fn detect_proto(&self, io: &mut I) -> Result<Option<Self::Protocol>, GatewayError>;
}

/// The detector of HTTP versions. It cannot tell them apart yet.
#[derive(Default)]
pub struct DetectHttpVersion {}

impl<I> Detect<I> for DetectHttpVersion {
    type Protocol = DetectHttpVersion;

    fn detect_proto(&self, io: &mut I) -> (found: Result<Option<DetectHttpVersion>, GatewayError>)
        ensures
            found == Ok::<Option<DetectHttpVersion>, GatewayError>(None),
            *final(io) == *old(io),
    {
        Ok(None)
    }
}

} // verus!

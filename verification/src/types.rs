//! Data model of the handshake: byte order, the request, the decoded
//! replies, the terminal outcome, and the error taxonomy.
#[allow(unused_imports)]
use vstd::prelude::*;

verus! {

/// The byte order negotiated for one handshake attempt: every multi-byte
/// field in both directions is serialized most-significant-byte-first
/// (`MsbFirst`) or least-significant-byte-first (`LsbFirst`) on the wire.
#[derive(Clone, Copy, Debug, PartialEq, Eq, Structural)]
pub enum ByteOrder {
    MsbFirst,
    LsbFirst,
}

impl ByteOrder {
    /// The indicator byte transmitted first in the request.
    pub open spec fn spec_indicator(self) -> u8 {
        match self {
            ByteOrder::MsbFirst => 0x42,
            ByteOrder::LsbFirst => 0x6C,
        }
    }

    /// Returns the indicator byte transmitted first in the request.
    pub fn indicator(self) -> (r: u8)
        ensures
            r == self.spec_indicator(),
    {
        match self {
            ByteOrder::MsbFirst => 0x42,
            ByteOrder::LsbFirst => 0x6C,
        }
    }
}

/// The status byte with which the server opens every reply.
#[derive(Clone, Copy, Debug, PartialEq, Eq, Structural)]
pub enum ConnectionStatus {
    Failed,
    Success,
    Authenticate,
}

impl ConnectionStatus {
    /// The wire value of this status byte.
    pub open spec fn spec_byte(self) -> u8 {
        match self {
            ConnectionStatus::Failed => 0,
            ConnectionStatus::Success => 1,
            ConnectionStatus::Authenticate => 2,
        }
    }

    /// Classifies a status byte; any value outside the known set is a
    /// protocol violation and yields `None`.
    pub fn from_byte(value: u8) -> (r: Option<ConnectionStatus>)
        ensures
            value == 0 ==> r == Some(ConnectionStatus::Failed),
            value == 1 ==> r == Some(ConnectionStatus::Success),
            value == 2 ==> r == Some(ConnectionStatus::Authenticate),
            value > 2 ==> r is None,
    {
        if value == 0 {
            Some(ConnectionStatus::Failed)
        } else if value == 1 {
            Some(ConnectionStatus::Success)
        } else if value == 2 {
            Some(ConnectionStatus::Authenticate)
        } else {
            None
        }
    }
}

/// Immutable input to the engine: the negotiated order, the protocol
/// version the client speaks, and the authorization protocol name and
/// data transmitted with the request.
///
/// The two byte strings must each fit in a 16-bit length field; that is a
/// precondition of request assembly, not a protocol error.
#[derive(Clone, Debug, PartialEq, Eq)]
pub struct ConnectionInfo {
    pub order: ByteOrder,
    pub protocol_major_version: u16,
    pub protocol_minor_version: u16,
    pub auth_protocol_name: Vec<u8>,
    pub auth_protocol_data: Vec<u8>,
}

impl ConnectionInfo {
    /// Both variable-length fields fit in their 16-bit length fields.
    pub open spec fn wf(self) -> bool {
        self.auth_protocol_name@.len() <= 0xFFFF && self.auth_protocol_data@.len() <= 0xFFFF
    }
}

/// A well-formed `Failed` reply: the server refused the connection.
#[derive(Clone, Debug, PartialEq, Eq)]
pub struct ConnectionErrorInfo {
    pub protocol_major_version: u16,
    pub protocol_minor_version: u16,
    pub reason: String,
}

/// A well-formed `Authenticate` reply: the server demands further
/// authentication data and states why in `reason`.
#[derive(Clone, Debug, PartialEq, Eq)]
pub struct ConnectionAuthenticateInfo {
    pub reason: String,
}

/// A well-formed `Success` reply: the server accepted the connection.
/// `server_info` carries the server's capability payload as raw bytes,
/// opaque to this crate and handed to the downstream protocol layer.
#[derive(Clone, Debug, PartialEq, Eq)]
pub struct ConnectionSuccessInfo {
    pub protocol_major_version: u16,
    pub protocol_minor_version: u16,
    pub server_info: Vec<u8>,
}

/// A reply that did not refuse the connection: exactly one of the two
/// payloads is present, and `success` tells which.
#[derive(Clone, Debug, PartialEq, Eq)]
pub struct ConnectionAuthenticateOrSuccessInfo {
    pub success_info: Option<ConnectionSuccessInfo>,
    pub authenticate_info: Option<ConnectionAuthenticateInfo>,
    pub success: bool,
}

/// One decoded server reply, whatever its status.
#[derive(Clone, Debug, PartialEq, Eq)]
pub enum ReplyData {
    Failed(ConnectionErrorInfo),
    Success(ConnectionSuccessInfo),
    Authenticate(ConnectionAuthenticateInfo),
}

/// The terminal result of one handshake attempt.
#[derive(Clone, Debug, PartialEq, Eq)]
pub enum HandshakeOutcome {
    Connected(ConnectionSuccessInfo),
    Rejected(ConnectionErrorInfo),
    AuthExhausted,
}

/// The response field being read when a failure was detected; carried in
/// errors so a desynchronized stream can be diagnosed.
#[derive(Clone, Copy, Debug, PartialEq, Eq, Structural)]
pub enum ResponseField {
    Status,
    ReasonLength,
    ProtocolMajor,
    ProtocolMinor,
    Reserved,
    ReasonText,
    AdditionalLength,
    ServerInfo,
    Padding,
}

/// Why a handshake attempt was aborted. `Rejected` and `AuthExhausted`
/// are not here: they are valid terminal outcomes, not errors.
#[derive(Clone, Copy, Debug, PartialEq, Eq, Structural)]
pub enum HandshakeError {
    /// The underlying stream failed or closed mid-exchange. Produced by
    /// the I/O layer driving the engine, never by the pure core.
    TransportError,
    /// The status byte was outside the known set; the stream is treated
    /// as desynchronized and nothing further is read.
    MalformedStatus { value: u8 },
    /// A field's bytes ended before its width was satisfied: the reply
    /// needs `expected` bytes up to the end of `field` but only
    /// `available` were delivered.
    TruncatedResponse { field: ResponseField, expected: usize, available: usize },
    /// A text field was not valid UTF-8.
    InvalidText { field: ResponseField },
}

} // verus!

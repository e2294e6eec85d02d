//! Handshake engine: assembles the connection-setup request, decodes the
//! server's replies, and drives the response state machine to a terminal
//! outcome.
//!
//! The engine is pure: it maps byte sequences to decoded values and
//! decisions. The I/O layer around it writes the assembled bytes to the
//! transport and feeds the received bytes back in.
#[allow(unused_imports)]
use vstd::prelude::*;

verus! {

use crate::codec::{spec_pad, spec_u16_bytes, spec_u16_value, pad, encode_u16, u16_at, zero_bytes};
use crate::types::{
    ByteOrder, ConnectionAuthenticateInfo, ConnectionAuthenticateOrSuccessInfo,
    ConnectionErrorInfo, ConnectionInfo, ConnectionStatus, ConnectionSuccessInfo, HandshakeError,
    HandshakeOutcome, ReplyData, ResponseField,
};
use vstd::slice::{slice_index_get, slice_subrange, slice_to_vec};
use vstd::utf8::{decode_utf8, valid_utf8};

/// `n` zero bytes, as the wire format uses for reserved fields and
/// alignment padding.
pub open spec fn spec_zero_bytes(n: int) -> Seq<u8> {
    Seq::new(n as nat, |i: int| 0u8)
}

/// The exact byte sequence of the connection-setup request:
/// `[order:1][unused:1][major:2][minor:2][name_len:2][data_len:2][unused:2]`
/// `[name][pad][data][pad]`, every multi-byte field under the negotiated
/// order.
pub open spec fn spec_request_bytes(req: ConnectionInfo) -> Seq<u8> {
    let name = req.auth_protocol_name@;
    let data = req.auth_protocol_data@;
    seq![req.order.spec_indicator(), 0u8] + spec_u16_bytes(req.protocol_major_version, req.order)
        + spec_u16_bytes(req.protocol_minor_version, req.order) + spec_u16_bytes(
        name.len() as u16,
        req.order,
    ) + spec_u16_bytes(data.len() as u16, req.order) + seq![0u8, 0u8] + name + spec_zero_bytes(
        spec_pad(name.len() as int),
    ) + data + spec_zero_bytes(spec_pad(data.len() as int))
}

/// Assembles the connection-setup request. Deterministic and free of any
/// branching on server input; the byte layout is fixed by the protocol.
pub fn assemble_request(req: &ConnectionInfo) -> (r: Vec<u8>)
    requires
        req.wf(),
    ensures
        r@ == spec_request_bytes(*req),
{
    let order = req.order;
    let mut out: Vec<u8> = Vec::new();
    out.push(order.indicator());
    out.push(0u8);
    let mut field = encode_u16(req.protocol_major_version, order);
    out.append(&mut field);
    let mut field = encode_u16(req.protocol_minor_version, order);
    out.append(&mut field);
    let name_len = req.auth_protocol_name.len();
    let data_len = req.auth_protocol_data.len();
    let mut field = encode_u16(name_len as u16, order);
    out.append(&mut field);
    let mut field = encode_u16(data_len as u16, order);
    out.append(&mut field);
    out.push(0u8);
    out.push(0u8);
    let mut name = slice_to_vec(req.auth_protocol_name.as_slice());
    out.append(&mut name);
    let mut fill = zero_bytes(pad(name_len));
    out.append(&mut fill);
    let mut data = slice_to_vec(req.auth_protocol_data.as_slice());
    out.append(&mut data);
    let mut fill = zero_bytes(pad(data_len));
    out.append(&mut fill);
    proof {
        assert(out@ =~= spec_request_bytes(*req));
    }
    out
}

/// The byte sequence retransmitted on an authentication challenge: the
/// caller-supplied continuation data followed by its alignment padding.
pub open spec fn spec_auth_continuation_bytes(data: Seq<u8>) -> Seq<u8> {
    data + spec_zero_bytes(spec_pad(data.len() as int))
}

/// Assembles the authentication-continuation transmission: the raw data
/// followed by the zero bytes that pad it to a 4-byte boundary.
pub fn assemble_auth_continuation(data: &[u8]) -> (r: Vec<u8>)
    ensures
        r@ == spec_auth_continuation_bytes(data@),
{
    let mut out = slice_to_vec(data);
    let mut fill = zero_bytes(pad(data.len()));
    out.append(&mut fill);
    proof {
        assert(out@ =~= spec_auth_continuation_bytes(data@));
    }
    out
}

/// The assembled request always consists of the 12-byte fixed header
/// followed by each byte string padded to a 4-byte boundary.
pub proof fn lemma_request_length(req: ConnectionInfo)
    requires
        req.wf(),
    ensures
        spec_request_bytes(req).len() == 12 + req.auth_protocol_name@.len() + spec_pad(
            req.auth_protocol_name@.len() as int,
        ) + req.auth_protocol_data@.len() + spec_pad(req.auth_protocol_data@.len() as int),
{
    vstd::bytes::lemma_auto_spec_u16_to_from_le_bytes();
}

/// The mathematical content of one decoded reply; the counterpart of
/// [`ReplyData`] with views in place of the owned values.
pub enum ReplyModel {
    Rejected { major: u16, minor: u16, reason: Seq<char> },
    Connected { major: u16, minor: u16, server_info: Seq<u8> },
    AuthChallenge { reason: Seq<char> },
}

/// An exec reply carries exactly the values of its model.
pub open spec fn reply_matches(d: ReplyData, m: ReplyModel) -> bool {
    match (d, m) {
        (ReplyData::Failed(e), ReplyModel::Rejected { major, minor, reason }) => e.protocol_major_version
            == major && e.protocol_minor_version == minor && e.reason@ == reason,
        (ReplyData::Success(s), ReplyModel::Connected { major, minor, server_info }) => s.protocol_major_version
            == major && s.protocol_minor_version == minor && s.server_info@ == server_info,
        (ReplyData::Authenticate(a), ReplyModel::AuthChallenge { reason }) => a.reason@ == reason,
        _ => false,
    }
}

/// A truncation error: the reply needs `expected` bytes up to the end of
/// `field`, but only `available` were delivered.
pub open spec fn spec_truncated(field: ResponseField, expected: int, available: int) -> HandshakeError {
    HandshakeError::TruncatedResponse {
        field,
        expected: expected as usize,
        available: available as usize,
    }
}

/// Parse of a `Failed` reply
/// `[status:1][reason_len:1][major:2][minor:2][unused:2][reason][pad]`:
/// either the decoded rejection and the total bytes it occupies, or the
/// first error met reading left to right.
pub open spec fn spec_parse_failed(b: Seq<u8>, order: ByteOrder) -> Result<
    (ReplyModel, int),
    HandshakeError,
>
    recommends
        b.len() >= 1,
        b[0] == 0,
{
    if b.len() < 2 {
        Err(spec_truncated(ResponseField::ReasonLength, 2, b.len() as int))
    } else {
        let l = b[1] as int;
        let total = 8 + l + spec_pad(l);
        if b.len() < 4 {
            Err(spec_truncated(ResponseField::ProtocolMajor, 4, b.len() as int))
        } else if b.len() < 6 {
            Err(spec_truncated(ResponseField::ProtocolMinor, 6, b.len() as int))
        } else if b.len() < 8 {
            Err(spec_truncated(ResponseField::Reserved, 8, b.len() as int))
        } else if b.len() < 8 + l {
            Err(spec_truncated(ResponseField::ReasonText, 8 + l, b.len() as int))
        } else if b.len() < total {
            Err(spec_truncated(ResponseField::Padding, total, b.len() as int))
        } else {
            let reason_bytes = b.subrange(8, 8 + l);
            if !valid_utf8(reason_bytes) {
                Err(HandshakeError::InvalidText { field: ResponseField::ReasonText })
            } else {
                Ok(
                    (
                        ReplyModel::Rejected {
                            major: spec_u16_value(b.subrange(2, 4), order),
                            minor: spec_u16_value(b.subrange(4, 6), order),
                            reason: decode_utf8(reason_bytes),
                        },
                        total,
                    ),
                )
            }
        }
    }
}

/// Parse of a `Success` reply
/// `[status:1][unused:1][major:2][minor:2][additional_len:2][payload]`,
/// where the payload is `additional_len` 4-byte units of server
/// capability data, captured as opaque bytes for the downstream layer.
pub open spec fn spec_parse_success(b: Seq<u8>, order: ByteOrder) -> Result<
    (ReplyModel, int),
    HandshakeError,
>
    recommends
        b.len() >= 1,
        b[0] == 1,
{
    if b.len() < 2 {
        Err(spec_truncated(ResponseField::Reserved, 2, b.len() as int))
    } else if b.len() < 4 {
        Err(spec_truncated(ResponseField::ProtocolMajor, 4, b.len() as int))
    } else if b.len() < 6 {
        Err(spec_truncated(ResponseField::ProtocolMinor, 6, b.len() as int))
    } else if b.len() < 8 {
        Err(spec_truncated(ResponseField::AdditionalLength, 8, b.len() as int))
    } else {
        let units = spec_u16_value(b.subrange(6, 8), order) as int;
        let total = 8 + 4 * units;
        if b.len() < total {
            Err(spec_truncated(ResponseField::ServerInfo, total, b.len() as int))
        } else {
            Ok(
                (
                    ReplyModel::Connected {
                        major: spec_u16_value(b.subrange(2, 4), order),
                        minor: spec_u16_value(b.subrange(4, 6), order),
                        server_info: b.subrange(8, total),
                    },
                    total,
                ),
            )
        }
    }
}

/// Parse of an `Authenticate` reply
/// `[status:1][reason_len:1][unused:2][reason][pad]`: the `Failed`
/// framing without the protocol-version fields.
pub open spec fn spec_parse_authenticate(b: Seq<u8>, order: ByteOrder) -> Result<
    (ReplyModel, int),
    HandshakeError,
>
    recommends
        b.len() >= 1,
        b[0] == 2,
{
    if b.len() < 2 {
        Err(spec_truncated(ResponseField::ReasonLength, 2, b.len() as int))
    } else {
        let l = b[1] as int;
        let total = 4 + l + spec_pad(l);
        if b.len() < 4 {
            Err(spec_truncated(ResponseField::Reserved, 4, b.len() as int))
        } else if b.len() < 4 + l {
            Err(spec_truncated(ResponseField::ReasonText, 4 + l, b.len() as int))
        } else if b.len() < total {
            Err(spec_truncated(ResponseField::Padding, total, b.len() as int))
        } else {
            let reason_bytes = b.subrange(4, 4 + l);
            if !valid_utf8(reason_bytes) {
                Err(HandshakeError::InvalidText { field: ResponseField::ReasonText })
            } else {
                Ok((ReplyModel::AuthChallenge { reason: decode_utf8(reason_bytes) }, total))
            }
        }
    }
}

/// Parse of one reply from the front of `b`: dispatch on the status
/// byte. A status outside the known set is a protocol violation; the
/// stream is treated as desynchronized and nothing further is read.
pub open spec fn spec_parse_reply(b: Seq<u8>, order: ByteOrder) -> Result<
    (ReplyModel, int),
    HandshakeError,
> {
    if b.len() < 1 {
        Err(spec_truncated(ResponseField::Status, 1, 0))
    } else if b[0] == 0 {
        spec_parse_failed(b, order)
    } else if b[0] == 1 {
        spec_parse_success(b, order)
    } else if b[0] == 2 {
        spec_parse_authenticate(b, order)
    } else {
        Err(HandshakeError::MalformedStatus { value: b[0] })
    }
}

/// Decodes the `Failed` reply at the front of `bytes`.
fn parse_failed(bytes: &[u8], order: ByteOrder) -> (r: Result<(ReplyData, usize), HandshakeError>)
    requires
        bytes@.len() >= 1,
        bytes@[0] == 0,
    ensures
        (match spec_parse_failed(bytes@, order) {
            Ok((m, n)) => r is Ok && reply_matches(r->Ok_0.0, m) && r->Ok_0.1 == n && n
                <= bytes@.len(),
            Err(e) => r == Err::<(ReplyData, usize), HandshakeError>(e),
        }),
{
    let n = bytes.len();
    if n < 2 {
        return Err(
            HandshakeError::TruncatedResponse {
                field: ResponseField::ReasonLength,
                expected: 2,
                available: n,
            },
        );
    }
    let l = *slice_index_get(bytes, 1) as usize;
    if n < 4 {
        return Err(
            HandshakeError::TruncatedResponse {
                field: ResponseField::ProtocolMajor,
                expected: 4,
                available: n,
            },
        );
    }
    if n < 6 {
        return Err(
            HandshakeError::TruncatedResponse {
                field: ResponseField::ProtocolMinor,
                expected: 6,
                available: n,
            },
        );
    }
    if n < 8 {
        return Err(
            HandshakeError::TruncatedResponse {
                field: ResponseField::Reserved,
                expected: 8,
                available: n,
            },
        );
    }
    if n < 8 + l {
        return Err(
            HandshakeError::TruncatedResponse {
                field: ResponseField::ReasonText,
                expected: 8 + l,
                available: n,
            },
        );
    }
    let total = 8 + l + pad(l);
    if n < total {
        return Err(
            HandshakeError::TruncatedResponse {
                field: ResponseField::Padding,
                expected: total,
                available: n,
            },
        );
    }
    let major = u16_at(bytes, 2, order);
    let minor = u16_at(bytes, 4, order);
    let reason_slice = slice_subrange(bytes, 8, 8 + l);
    match utf8_to_string(reason_slice) {
        None => Err(HandshakeError::InvalidText { field: ResponseField::ReasonText }),
        Some(reason) => Ok(
            (
                ReplyData::Failed(
                    ConnectionErrorInfo {
                        protocol_major_version: major,
                        protocol_minor_version: minor,
                        reason,
                    },
                ),
                total,
            ),
        ),
    }
}

/// Decodes the `Success` reply at the front of `bytes`.
fn parse_success(bytes: &[u8], order: ByteOrder) -> (r: Result<(ReplyData, usize), HandshakeError>)
    requires
        bytes@.len() >= 1,
        bytes@[0] == 1,
    ensures
        (match spec_parse_success(bytes@, order) {
            Ok((m, n)) => r is Ok && reply_matches(r->Ok_0.0, m) && r->Ok_0.1 == n && n
                <= bytes@.len(),
            Err(e) => r == Err::<(ReplyData, usize), HandshakeError>(e),
        }),
{
    let n = bytes.len();
    if n < 2 {
        return Err(
            HandshakeError::TruncatedResponse {
                field: ResponseField::Reserved,
                expected: 2,
                available: n,
            },
        );
    }
    if n < 4 {
        return Err(
            HandshakeError::TruncatedResponse {
                field: ResponseField::ProtocolMajor,
                expected: 4,
                available: n,
            },
        );
    }
    if n < 6 {
        return Err(
            HandshakeError::TruncatedResponse {
                field: ResponseField::ProtocolMinor,
                expected: 6,
                available: n,
            },
        );
    }
    if n < 8 {
        return Err(
            HandshakeError::TruncatedResponse {
                field: ResponseField::AdditionalLength,
                expected: 8,
                available: n,
            },
        );
    }
    let units = u16_at(bytes, 6, order) as usize;
    let total = 8 + 4 * units;
    if n < total {
        return Err(
            HandshakeError::TruncatedResponse {
                field: ResponseField::ServerInfo,
                expected: total,
                available: n,
            },
        );
    }
    let major = u16_at(bytes, 2, order);
    let minor = u16_at(bytes, 4, order);
    let info_slice = slice_subrange(bytes, 8, total);
    let server_info = slice_to_vec(info_slice);
    Ok(
        (
            ReplyData::Success(
                ConnectionSuccessInfo {
                    protocol_major_version: major,
                    protocol_minor_version: minor,
                    server_info,
                },
            ),
            total,
        ),
    )
}

/// Decodes the `Authenticate` reply at the front of `bytes`.
fn parse_authenticate(bytes: &[u8], order: ByteOrder) -> (r: Result<
    (ReplyData, usize),
    HandshakeError,
>)
    requires
        bytes@.len() >= 1,
        bytes@[0] == 2,
    ensures
        (match spec_parse_authenticate(bytes@, order) {
            Ok((m, n)) => r is Ok && reply_matches(r->Ok_0.0, m) && r->Ok_0.1 == n && n
                <= bytes@.len(),
            Err(e) => r == Err::<(ReplyData, usize), HandshakeError>(e),
        }),
{
    let n = bytes.len();
    if n < 2 {
        return Err(
            HandshakeError::TruncatedResponse {
                field: ResponseField::ReasonLength,
                expected: 2,
                available: n,
            },
        );
    }
    let l = *slice_index_get(bytes, 1) as usize;
    if n < 4 {
        return Err(
            HandshakeError::TruncatedResponse {
                field: ResponseField::Reserved,
                expected: 4,
                available: n,
            },
        );
    }
    if n < 4 + l {
        return Err(
            HandshakeError::TruncatedResponse {
                field: ResponseField::ReasonText,
                expected: 4 + l,
                available: n,
            },
        );
    }
    let total = 4 + l + pad(l);
    if n < total {
        return Err(
            HandshakeError::TruncatedResponse {
                field: ResponseField::Padding,
                expected: total,
                available: n,
            },
        );
    }
    let reason_slice = slice_subrange(bytes, 4, 4 + l);
    match utf8_to_string(reason_slice) {
        None => Err(HandshakeError::InvalidText { field: ResponseField::ReasonText }),
        Some(reason) => Ok(
            (ReplyData::Authenticate(ConnectionAuthenticateInfo { reason }), total),
        ),
    }
}

/// Relies on str::from_utf8: it accepts exactly the byte sequences that
/// are valid UTF-8 and yields the text they encode.
#[verifier::external_body]
fn utf8_to_string(bytes: &[u8]) -> (r: Option<String>)
    ensures
        r is Some <==> valid_utf8(bytes@),
        (match r {
            Some(s) => s@ == decode_utf8(bytes@),
            None => true,
        }),
{
    match core::str::from_utf8(bytes) {
        Ok(s) => Some(s.to_string()),
        Err(_) => None,
    }
}

/// Decodes the single reply at the front of `bytes` under `order`,
/// returning the decoded data and the count of bytes the reply occupies,
/// or the first error met reading left to right. Exactly the relation
/// [`spec_parse_reply`] states, field for field.
pub fn parse_reply(bytes: &[u8], order: ByteOrder) -> (r: Result<
    (ReplyData, usize),
    HandshakeError,
>)
    ensures
        (match spec_parse_reply(bytes@, order) {
            Ok((m, n)) => r is Ok && reply_matches(r->Ok_0.0, m) && r->Ok_0.1 == n && n
                <= bytes@.len(),
            Err(e) => r == Err::<(ReplyData, usize), HandshakeError>(e),
        }),
{
    let n = bytes.len();
    if n < 1 {
        return Err(
            HandshakeError::TruncatedResponse {
                field: ResponseField::Status,
                expected: 1,
                available: 0,
            },
        );
    }
    let status = *slice_index_get(bytes, 0);
    match ConnectionStatus::from_byte(status) {
        None => Err(HandshakeError::MalformedStatus { value: status }),
        Some(ConnectionStatus::Failed) => parse_failed(bytes, order),
        Some(ConnectionStatus::Success) => parse_success(bytes, order),
        Some(ConnectionStatus::Authenticate) => parse_authenticate(bytes, order),
    }
}

/// The mathematical content of a terminal outcome; the counterpart of
/// [`HandshakeOutcome`] with views in place of the owned values.
pub enum OutcomeModel {
    Connected { major: u16, minor: u16, server_info: Seq<u8> },
    Rejected { major: u16, minor: u16, reason: Seq<char> },
    AuthExhausted,
}

/// An exec outcome carries exactly the values of its model.
pub open spec fn outcome_matches(o: HandshakeOutcome, m: OutcomeModel) -> bool {
    match (o, m) {
        (HandshakeOutcome::Connected(s), OutcomeModel::Connected { major, minor, server_info }) => s.protocol_major_version
            == major && s.protocol_minor_version == minor && s.server_info@ == server_info,
        (HandshakeOutcome::Rejected(e), OutcomeModel::Rejected { major, minor, reason }) => e.protocol_major_version
            == major && e.protocol_minor_version == minor && e.reason@ == reason,
        (HandshakeOutcome::AuthExhausted, OutcomeModel::AuthExhausted) => true,
        _ => false,
    }
}

/// The whole response exchange over the byte sequence `b`, with
/// `retries_left` retransmissions still allowed: reply after reply is
/// parsed from the front; a `Failed` or `Success` reply is terminal; an
/// `Authenticate` reply costs one retransmission until none is left,
/// when the exchange ends in `AuthExhausted` without reading further.
/// The result carries the outcome, the response bytes consumed, and the
/// retransmissions made.
pub open spec fn spec_run(b: Seq<u8>, order: ByteOrder, retries_left: nat) -> Result<
    (OutcomeModel, int, int),
    HandshakeError,
>
    decreases retries_left,
{
    match spec_parse_reply(b, order) {
        Err(e) => Err(e),
        Ok((reply, n)) => match reply {
            ReplyModel::Rejected { major, minor, reason } => Ok(
                (OutcomeModel::Rejected { major, minor, reason }, n, 0),
            ),
            ReplyModel::Connected { major, minor, server_info } => Ok(
                (OutcomeModel::Connected { major, minor, server_info }, n, 0),
            ),
            ReplyModel::AuthChallenge { .. } => {
                if retries_left == 0 {
                    Ok((OutcomeModel::AuthExhausted, n, 0))
                } else {
                    match spec_run(b.skip(n), order, (retries_left - 1) as nat) {
                        Err(e) => Err(e),
                        Ok((o, m, k)) => Ok((o, n + m, k + 1)),
                    }
                }
            },
        },
    }
}

/// `b` begins with `k` consecutive complete `Authenticate` replies.
pub open spec fn spec_auth_prefix(b: Seq<u8>, order: ByteOrder, k: nat) -> bool
    decreases k,
{
    k == 0 || (match spec_parse_reply(b, order) {
        Ok((reply, n)) => reply is AuthChallenge && spec_auth_prefix(
            b.skip(n),
            order,
            (k - 1) as nat,
        ),
        Err(_) => false,
    })
}

/// A server that answers `Authenticate` to the request and to every one
/// of the `retries` permitted retransmissions drives the exchange to
/// `AuthExhausted` after exactly `retries` retransmissions, not more.
pub proof fn lemma_auth_exhaustion(b: Seq<u8>, order: ByteOrder, retries: nat)
    requires
        spec_auth_prefix(b, order, retries + 1),
    ensures
        spec_run(b, order, retries) is Ok,
        spec_run(b, order, retries)->Ok_0.0 is AuthExhausted,
        spec_run(b, order, retries)->Ok_0.2 == retries,
    decreases retries,
{
    let n = spec_parse_reply(b, order)->Ok_0.1;
    if retries > 0 {
        lemma_auth_exhaustion(b.skip(n), order, (retries - 1) as nat);
    }
}

/// The step the engine takes after one decoded reply.
#[derive(Clone, Debug, PartialEq, Eq)]
pub enum EngineAction {
    /// The handshake is over with this outcome; nothing further is
    /// transmitted or read.
    Finished(HandshakeOutcome),
    /// Transmit the authentication-continuation data (assembled by
    /// [`assemble_auth_continuation`]) and read the next reply.
    SendAuthData,
}

/// The response state machine of one handshake attempt: it counts the
/// retransmissions made against the configured bound. The I/O layer
/// performs each action and hands the next decoded reply back.
#[derive(Clone, Copy, Debug, PartialEq, Eq, Structural)]
pub struct HandshakeEngine {
    pub retry_limit: usize,
    pub attempts: usize,
}

impl HandshakeEngine {
    /// A fresh engine that will retransmit at most `retry_limit` times.
    pub fn new(retry_limit: usize) -> (r: HandshakeEngine)
        ensures
            r.retry_limit == retry_limit,
            r.attempts == 0,
    {
        HandshakeEngine { retry_limit, attempts: 0 }
    }

    /// Decides the next step after one decoded reply: `Failed` and
    /// `Success` replies are terminal at once; an `Authenticate` reply
    /// demands a retransmission while the bound allows one, and ends the
    /// handshake in `AuthExhausted` without further I/O when it does not.
    pub fn on_reply(&mut self, reply: ReplyData) -> (r: EngineAction)
        ensures
            final(self).retry_limit == old(self).retry_limit,
            (match reply {
                ReplyData::Failed(e) => r == EngineAction::Finished(HandshakeOutcome::Rejected(e))
                    && final(self).attempts == old(self).attempts,
                ReplyData::Success(s) => r == EngineAction::Finished(
                    HandshakeOutcome::Connected(s),
                ) && final(self).attempts == old(self).attempts,
                ReplyData::Authenticate(_) => if old(self).attempts < old(self).retry_limit {
                    r == EngineAction::SendAuthData
                        && final(self).attempts == old(self).attempts + 1
                } else {
                    r == EngineAction::Finished(HandshakeOutcome::AuthExhausted)
                        && final(self).attempts == old(self).attempts
                },
            }),
    {
        match reply {
            ReplyData::Failed(e) => EngineAction::Finished(HandshakeOutcome::Rejected(e)),
            ReplyData::Success(s) => EngineAction::Finished(HandshakeOutcome::Connected(s)),
            ReplyData::Authenticate(_) => {
                if self.attempts < self.retry_limit {
                    self.attempts = self.attempts + 1;
                    EngineAction::SendAuthData
                } else {
                    EngineAction::Finished(HandshakeOutcome::AuthExhausted)
                }
            },
        }
    }
}

/// Runs the exchange from byte `pos` of `responses` with `retries_left`
/// retransmissions still allowed; counts consumed bytes and
/// retransmissions from that point on.
fn run_from(responses: &[u8], pos: usize, order: ByteOrder, retries_left: usize) -> (r: Result<
    (HandshakeOutcome, usize, usize),
    HandshakeError,
>)
    requires
        pos <= responses@.len(),
    ensures
        (match spec_run(responses@.skip(pos as int), order, retries_left as nat) {
            Ok((o, n, k)) => r is Ok && outcome_matches(r->Ok_0.0, o) && r->Ok_0.1 == n
                && r->Ok_0.2 == k && n <= responses@.len() - pos && k <= retries_left,
            Err(e) => r == Err::<(HandshakeOutcome, usize, usize), HandshakeError>(e),
        }),
    decreases retries_left,
{
    let _len: usize = responses.len();
    let tail = slice_subrange(responses, pos, responses.len());
    match parse_reply(tail, order) {
        Err(e) => Err(e),
        Ok((reply, n)) => match reply {
            ReplyData::Failed(e) => Ok((HandshakeOutcome::Rejected(e), n, 0)),
            ReplyData::Success(s) => Ok((HandshakeOutcome::Connected(s), n, 0)),
            ReplyData::Authenticate(_) => {
                if retries_left == 0 {
                    Ok((HandshakeOutcome::AuthExhausted, n, 0))
                } else {
                    proof {
                        assert(responses@.skip(pos as int).skip(n as int) =~= responses@.skip(
                            pos as int + n as int,
                        ));
                    }
                    match run_from(responses, pos + n, order, retries_left - 1) {
                        Err(e) => Err(e),
                        Ok((o, m, k)) => Ok((o, n + m, k + 1)),
                    }
                }
            },
        },
    }
}

/// Drives one whole handshake response exchange against the byte
/// sequence a server delivered, with at most `retry_limit`
/// retransmissions of the authentication continuation. Returns the
/// terminal outcome, the exact count of response bytes consumed, and
/// the count of retransmissions made; or the error that aborted the
/// attempt. Exactly the relation [`spec_run`] states.
pub fn run_handshake(responses: &[u8], order: ByteOrder, retry_limit: usize) -> (r: Result<
    (HandshakeOutcome, usize, usize),
    HandshakeError,
>)
    ensures
        (match spec_run(responses@, order, retry_limit as nat) {
            Ok((o, n, k)) => r is Ok && outcome_matches(r->Ok_0.0, o) && r->Ok_0.1 == n
                && r->Ok_0.2 == k && n <= responses@.len() && k <= retry_limit,
            Err(e) => r == Err::<(HandshakeOutcome, usize, usize), HandshakeError>(e),
        }),
{
    proof {
        assert(responses@.skip(0) =~= responses@);
    }
    run_from(responses, 0, order, retry_limit)
}

/// Folds one reply into the shape the caller of a single exchange sees:
/// a `Failed` reply is the error; `Success` and `Authenticate` carry
/// their payload with the `success` flag telling which one is present.
pub fn interpret_reply(reply: ReplyData) -> (r: Result<
    ConnectionAuthenticateOrSuccessInfo,
    ConnectionErrorInfo,
>)
    ensures
        (match reply {
            ReplyData::Failed(e) => r == Err::<
                ConnectionAuthenticateOrSuccessInfo,
                ConnectionErrorInfo,
            >(e),
            ReplyData::Success(s) => r is Ok && r->Ok_0.success == true && r->Ok_0.success_info
                == Some(s) && r->Ok_0.authenticate_info is None,
            ReplyData::Authenticate(a) => r is Ok && r->Ok_0.success == false
                && r->Ok_0.authenticate_info == Some(a) && r->Ok_0.success_info is None,
        }),
{
    match reply {
        ReplyData::Failed(e) => Err(e),
        ReplyData::Success(s) => Ok(
            ConnectionAuthenticateOrSuccessInfo {
                success_info: Some(s),
                authenticate_info: None,
                success: true,
            },
        ),
        ReplyData::Authenticate(a) => Ok(
            ConnectionAuthenticateOrSuccessInfo {
                success_info: None,
                authenticate_info: Some(a),
                success: false,
            },
        ),
    }
}

} // verus!

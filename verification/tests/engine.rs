use xhandshake::engine::{
    assemble_auth_continuation, assemble_request, interpret_reply, parse_reply, run_handshake,
    EngineAction, HandshakeEngine,
};
use xhandshake::types::{
    ByteOrder, ConnectionAuthenticateInfo, ConnectionErrorInfo, ConnectionInfo, ConnectionStatus,
    ConnectionSuccessInfo, HandshakeError, HandshakeOutcome, ReplyData, ResponseField,
};

fn request(order: ByteOrder, name: &[u8], data: &[u8]) -> ConnectionInfo {
    ConnectionInfo {
        order,
        protocol_major_version: 11,
        protocol_minor_version: 0,
        auth_protocol_name: name.to_vec(),
        auth_protocol_data: data.to_vec(),
    }
}

#[test]
fn empty_request_is_twelve_bytes() {
    let req = request(ByteOrder::LsbFirst, b"", b"");
    let bytes = assemble_request(&req);
    assert_eq!(bytes.len(), 12);
    assert_eq!(bytes, vec![0x6C, 0, 11, 0, 0, 0, 0, 0, 0, 0, 0, 0]);
}

#[test]
fn empty_request_msb_first() {
    let req = request(ByteOrder::MsbFirst, b"", b"");
    let bytes = assemble_request(&req);
    assert_eq!(bytes, vec![0x42, 0, 0, 11, 0, 0, 0, 0, 0, 0, 0, 0]);
}

#[test]
fn request_pads_name_and_data_to_four() {
    // name of 5 bytes gets 3 zero bytes, data of 4 bytes gets none
    let req = request(ByteOrder::LsbFirst, b"MAGIC", b"COOK");
    let bytes = assemble_request(&req);
    assert_eq!(bytes.len(), 12 + 5 + 3 + 4);
    assert_eq!(&bytes[..12], &[0x6C, 0, 11, 0, 0, 0, 5, 0, 4, 0, 0, 0]);
    assert_eq!(&bytes[12..17], b"MAGIC");
    assert_eq!(&bytes[17..20], &[0, 0, 0]);
    assert_eq!(&bytes[20..24], b"COOK");
}

#[test]
fn auth_continuation_is_padded() {
    assert_eq!(
        assemble_auth_continuation(b"abcde"),
        vec![b'a', b'b', b'c', b'd', b'e', 0, 0, 0]
    );
    assert_eq!(assemble_auth_continuation(b""), Vec::<u8>::new());
}

fn failed_reply() -> Vec<u8> {
    // status, reason_len=2, major=11, minor=0, 2 reserved, "no", 2 pad
    vec![0, 2, 11, 0, 0, 0, 0, 0, b'n', b'o', 0, 0]
}

#[test]
fn rejected_reply_decodes_and_consumes_twelve_bytes() {
    let outcome = run_handshake(&failed_reply(), ByteOrder::LsbFirst, 3);
    assert_eq!(
        outcome,
        Ok((
            HandshakeOutcome::Rejected(ConnectionErrorInfo {
                protocol_major_version: 11,
                protocol_minor_version: 0,
                reason: "no".to_string(),
            }),
            12,
            0
        ))
    );
}

#[test]
fn rejected_reply_ignores_trailing_bytes() {
    let mut bytes = failed_reply();
    bytes.extend_from_slice(&[0xFF, 0xFF, 0xFF]);
    let outcome = run_handshake(&bytes, ByteOrder::LsbFirst, 3).unwrap();
    assert_eq!(outcome.1, 12);
}

#[test]
fn rejected_reply_msb_first() {
    let bytes = vec![0, 2, 0, 11, 0, 0, 0, 0, b'n', b'o', 0, 0];
    let (outcome, consumed, retries) =
        run_handshake(&bytes, ByteOrder::MsbFirst, 3).unwrap();
    assert_eq!(consumed, 12);
    assert_eq!(retries, 0);
    match outcome {
        HandshakeOutcome::Rejected(e) => {
            assert_eq!(e.protocol_major_version, 11);
            assert_eq!(e.protocol_minor_version, 0);
            assert_eq!(e.reason, "no");
        }
        other => panic!("expected a rejection, got {:?}", other),
    }
}

#[test]
fn invalid_status_is_malformed_and_reads_no_further() {
    // trailing bytes that would themselves parse must not be touched
    let mut bytes = vec![7];
    bytes.extend_from_slice(&failed_reply());
    assert_eq!(
        run_handshake(&bytes, ByteOrder::LsbFirst, 3),
        Err(HandshakeError::MalformedStatus { value: 7 })
    );
}

#[test]
fn status_byte_alone_is_truncated_not_rejected() {
    // the transport closed after delivering only the status byte
    let outcome = run_handshake(&[0], ByteOrder::LsbFirst, 3);
    assert_eq!(
        outcome,
        Err(HandshakeError::TruncatedResponse {
            field: ResponseField::ReasonLength,
            expected: 2,
            available: 1,
        })
    );
}

#[test]
fn truncated_reason_text_is_reported() {
    // reason_len says 2 bytes but only one arrives
    let bytes = vec![0, 2, 11, 0, 0, 0, 0, 0, b'n'];
    assert_eq!(
        run_handshake(&bytes, ByteOrder::LsbFirst, 3),
        Err(HandshakeError::TruncatedResponse {
            field: ResponseField::ReasonText,
            expected: 10,
            available: 9,
        })
    );
}

#[test]
fn truncated_padding_is_reported() {
    let bytes = vec![0, 2, 11, 0, 0, 0, 0, 0, b'n', b'o', 0];
    assert_eq!(
        run_handshake(&bytes, ByteOrder::LsbFirst, 3),
        Err(HandshakeError::TruncatedResponse {
            field: ResponseField::Padding,
            expected: 12,
            available: 11,
        })
    );
}

#[test]
fn invalid_reason_text_is_its_own_error() {
    // 0xFF is not valid UTF-8; the framing itself is complete
    let bytes = vec![0, 1, 11, 0, 0, 0, 0, 0, 0xFF, 0, 0, 0];
    assert_eq!(
        run_handshake(&bytes, ByteOrder::LsbFirst, 3),
        Err(HandshakeError::InvalidText { field: ResponseField::ReasonText })
    );
}

fn success_reply() -> Vec<u8> {
    // status, 1 reserved, major=11, minor=0, additional_len=2 units,
    // then 8 bytes of opaque capability payload
    vec![1, 0, 11, 0, 0, 0, 2, 0, 9, 8, 7, 6, 5, 4, 3, 2]
}

#[test]
fn success_reply_decodes_with_opaque_payload() {
    let outcome = run_handshake(&success_reply(), ByteOrder::LsbFirst, 3);
    assert_eq!(
        outcome,
        Ok((
            HandshakeOutcome::Connected(ConnectionSuccessInfo {
                protocol_major_version: 11,
                protocol_minor_version: 0,
                server_info: vec![9, 8, 7, 6, 5, 4, 3, 2],
            }),
            16,
            0
        ))
    );
}

#[test]
fn success_reply_truncated_payload() {
    let bytes = &success_reply()[..12];
    assert_eq!(
        run_handshake(bytes, ByteOrder::LsbFirst, 3),
        Err(HandshakeError::TruncatedResponse {
            field: ResponseField::ServerInfo,
            expected: 16,
            available: 12,
        })
    );
}

fn auth_reply(reason: &[u8]) -> Vec<u8> {
    let mut bytes = vec![2, reason.len() as u8, 0, 0];
    bytes.extend_from_slice(reason);
    bytes.extend_from_slice(&vec![0u8; (4 - reason.len() % 4) % 4]);
    bytes
}

#[test]
fn auth_reply_parses_challenge_text() {
    let bytes = auth_reply(b"more");
    let (reply, consumed) = parse_reply(&bytes, ByteOrder::LsbFirst).unwrap();
    assert_eq!(consumed, 8);
    assert_eq!(
        reply,
        ReplyData::Authenticate(ConnectionAuthenticateInfo { reason: "more".to_string() })
    );
}

#[test]
fn auth_exhausts_after_retry_limit_retransmissions() {
    // the server answers Authenticate retry_limit + 1 times in a row
    let retry_limit = 3;
    let mut bytes = Vec::new();
    for _ in 0..retry_limit + 1 {
        bytes.extend_from_slice(&auth_reply(b""));
    }
    let outcome = run_handshake(&bytes, ByteOrder::LsbFirst, retry_limit);
    assert_eq!(
        outcome,
        Ok((HandshakeOutcome::AuthExhausted, 4 * (retry_limit + 1), retry_limit))
    );
}

#[test]
fn auth_exhausts_at_once_with_zero_limit() {
    let outcome = run_handshake(&auth_reply(b""), ByteOrder::LsbFirst, 0);
    assert_eq!(outcome, Ok((HandshakeOutcome::AuthExhausted, 4, 0)));
}

#[test]
fn auth_then_success_counts_one_retransmission() {
    let mut bytes = auth_reply(b"go on");
    bytes.extend_from_slice(&success_reply());
    let (outcome, consumed, retries) =
        run_handshake(&bytes, ByteOrder::LsbFirst, 3).unwrap();
    assert_eq!(retries, 1);
    assert_eq!(consumed, 12 + 16);
    assert!(matches!(outcome, HandshakeOutcome::Connected(_)));
}

#[test]
fn engine_steps_through_retry_bound() {
    let mut engine = HandshakeEngine::new(2);
    let challenge = ReplyData::Authenticate(ConnectionAuthenticateInfo {
        reason: "again".to_string(),
    });
    assert_eq!(engine.on_reply(challenge.clone()), EngineAction::SendAuthData);
    assert_eq!(engine.on_reply(challenge.clone()), EngineAction::SendAuthData);
    assert_eq!(
        engine.on_reply(challenge),
        EngineAction::Finished(HandshakeOutcome::AuthExhausted)
    );
    assert_eq!(engine.attempts, 2);
}

#[test]
fn engine_finishes_on_failed_reply() {
    let mut engine = HandshakeEngine::new(2);
    let error = ConnectionErrorInfo {
        protocol_major_version: 11,
        protocol_minor_version: 0,
        reason: "no".to_string(),
    };
    assert_eq!(
        engine.on_reply(ReplyData::Failed(error.clone())),
        EngineAction::Finished(HandshakeOutcome::Rejected(error))
    );
    assert_eq!(engine.attempts, 0);
}

#[test]
fn status_from_byte_classifies() {
    assert_eq!(ConnectionStatus::from_byte(0), Some(ConnectionStatus::Failed));
    assert_eq!(ConnectionStatus::from_byte(1), Some(ConnectionStatus::Success));
    assert_eq!(ConnectionStatus::from_byte(2), Some(ConnectionStatus::Authenticate));
    assert_eq!(ConnectionStatus::from_byte(3), None);
    assert_eq!(ConnectionStatus::from_byte(255), None);
}

#[test]
fn interpret_reply_splits_the_three_cases() {
    let error = ConnectionErrorInfo {
        protocol_major_version: 11,
        protocol_minor_version: 0,
        reason: "no".to_string(),
    };
    assert_eq!(interpret_reply(ReplyData::Failed(error.clone())), Err(error));

    let success = ConnectionSuccessInfo {
        protocol_major_version: 11,
        protocol_minor_version: 0,
        server_info: vec![1, 2, 3, 4],
    };
    let combined = interpret_reply(ReplyData::Success(success.clone())).unwrap();
    assert!(combined.success);
    assert_eq!(combined.success_info, Some(success));
    assert_eq!(combined.authenticate_info, None);

    let challenge = ConnectionAuthenticateInfo { reason: "more".to_string() };
    let combined = interpret_reply(ReplyData::Authenticate(challenge.clone())).unwrap();
    assert!(!combined.success);
    assert_eq!(combined.success_info, None);
    assert_eq!(combined.authenticate_info, Some(challenge));
}

#[test]
fn empty_response_is_missing_status() {
    assert_eq!(
        parse_reply(&[], ByteOrder::LsbFirst),
        Err(HandshakeError::TruncatedResponse {
            field: ResponseField::Status,
            expected: 1,
            available: 0,
        })
    );
}

#[test]
fn byte_order_indicators() {
    assert_eq!(ByteOrder::MsbFirst.indicator(), 0x42);
    assert_eq!(ByteOrder::LsbFirst.indicator(), 0x6C);
}

use handshaker_core::assembly::{
    DownloadDiscriminator, ResponseAssembler, NORMAL_RESPONSE_LIMIT,
};
use handshaker_core::error::{Error, HandshakeFault, ProtocolFault};
use handshaker_core::frame::{decode_downstream_header, encode_upstream, MAX_DOWNSTREAM_CHUNK, MAX_UPSTREAM_PAYLOAD};
use handshaker_core::handshake::{check_handshake_result, classify_handshake_response, result_preview};
use handshaker_core::session::{allocate_sid, fails_connection, target_sid, PushRouter, RawDownload, Routed};
use handshaker_core::domain::{CancellationInfo, CancellationOrigin};

#[test]
fn upstream_frame_uses_big_endian_header() {
    let frame = encode_upstream(0x8000_0001, 1, b"abc").expect("frame");
    assert_eq!(&frame[..9], &[0x80, 0, 0, 1, 1, 0, 0, 0, 3]);
    assert_eq!(&frame[9..], b"abc");
}

#[test]
fn upstream_rejects_oversized_payload() {
    let payload = vec![0; MAX_UPSTREAM_PAYLOAD + 1];
    assert!(encode_upstream(1, 1, &payload).is_err());
}

#[test]
fn downstream_header_accepts_maximum_chunk_and_rejects_more() {
    let mut header = [0u8; 6];
    header[..4].copy_from_slice(&7_u32.to_be_bytes());
    header[4..].copy_from_slice(&(MAX_DOWNSTREAM_CHUNK as u16).to_be_bytes());
    let decoded = decode_downstream_header(&header).expect("header");
    assert_eq!(decoded.sid, 7);
    assert_eq!(decoded.chunk_len, MAX_DOWNSTREAM_CHUNK);
    header[4..].copy_from_slice(&((MAX_DOWNSTREAM_CHUNK + 1) as u16).to_be_bytes());
    assert_eq!(
        decode_downstream_header(&header).unwrap_err(),
        Error::Protocol(ProtocolFault::DownstreamTooLarge)
    );
}

#[test]
fn normal_response_prefix_can_span_chunks() {
    let body = b"hello";
    let mut assembler = ResponseAssembler::new(NORMAL_RESPONSE_LIMIT);
    let prefix = (body.len() as u64).to_be_bytes();
    assert_eq!(assembler.push(&prefix[..3]).expect("first"), None);
    let mut second = prefix[3..].to_vec();
    second.extend_from_slice(body);
    assert_eq!(assembler.push(&second).expect("second"), Some(body.to_vec()));
}

#[test]
fn normal_response_rejects_overshoot() {
    let mut bytes = 1_u64.to_be_bytes().to_vec();
    bytes.extend_from_slice(b"xx");
    let mut assembler = ResponseAssembler::new(NORMAL_RESPONSE_LIMIT);
    assert_eq!(assembler.push(&bytes), Err(Error::Protocol(ProtocolFault::ResponseTooLong)));
}

#[test]
fn normal_response_rejects_oversized_declared_total() {
    let total = (NORMAL_RESPONSE_LIMIT as u64) + 1;
    let mut assembler = ResponseAssembler::new(NORMAL_RESPONSE_LIMIT);
    let error = assembler.push(&total.to_be_bytes()).expect_err("oversized declared total");
    assert!(matches!(error, Error::Protocol(_)));
}

#[test]
fn download_discriminator_detects_split_envelope_without_field_one() {
    let body = [0x10, 0x01];
    let mut message = (body.len() as u64).to_be_bytes().to_vec();
    message.extend_from_slice(&body);
    let mut discriminator = DownloadDiscriminator::new();
    assert_eq!(discriminator.push(&message[..5], 100).expect("first part"), None);
    let error = discriminator.push(&message[5..], 100).expect_err("push collision");
    assert!(matches!(error, Error::Protocol(_)));
}

#[test]
fn download_discriminator_preserves_short_raw_file() {
    let mut discriminator = DownloadDiscriminator::new();
    assert_eq!(discriminator.push(b"short", 5).expect("raw"), Some(b"short".to_vec()));
}

#[test]
fn raw_download_counts_bytes_and_refuses_overrun() {
    let mut download = RawDownload::new(12).expect("fits");
    let chunk = [0xffu8; 10];
    assert_eq!(download.push(&chunk).expect("raw"), Some(chunk.to_vec()));
    assert_eq!(download.received(), 10);
    assert!(!download.is_done());
    let more = [0xffu8; 10];
    assert_eq!(download.push(&more), Err(Error::Protocol(ProtocolFault::DownloadTooLong)));
}

#[test]
fn handshake_refusals_are_recognized_after_trimming() {
    assert_eq!(
        classify_handshake_response(b"failed\n"),
        Err(Error::Handshake(HandshakeFault::PublicKeyRejected))
    );
    assert_eq!(
        classify_handshake_response(b"  locked "),
        Err(Error::Handshake(HandshakeFault::PhoneLocked))
    );
    assert_eq!(
        classify_handshake_response(b"needauth\r\n"),
        Err(Error::Handshake(HandshakeFault::AuthorizationRequired))
    );
    assert_eq!(classify_handshake_response(&[0x01, 0x02, 0x03]), Ok(()));
}

#[test]
fn handshake_result_must_be_ok_and_preview_is_bounded() {
    assert_eq!(check_handshake_result(b"ok"), Ok(()));
    assert_eq!(
        check_handshake_result(b"ok!"),
        Err(Error::Handshake(HandshakeFault::ResultInvalid))
    );
    let long = [0xabu8; 40];
    assert_eq!(result_preview(&long), "ab".repeat(16));
    assert_eq!(result_preview(&[0x01, 0xfe]), "01fe");
}

#[test]
fn sid_allocation_skips_pending_ids_and_wraps() {
    assert_eq!(allocate_sid(5, &[6, 7]), Ok((8, 8)));
    assert_eq!(allocate_sid(u32::MAX, &[]), Ok((0, 0)));
    let all: Vec<u32> = (1..=1024).collect();
    assert_eq!(allocate_sid(0, &all), Err(Error::Protocol(ProtocolFault::SidExhausted)));
}

#[test]
fn remote_cancel_targets_named_session() {
    assert_eq!(target_sid(Some(0x8000_0002), 9), 0x8000_0002);
    assert_eq!(target_sid(Some(1 << 40), 9), 9);
    assert_eq!(target_sid(None, 9), 9);
}

#[test]
fn open_connection_cancellations_do_not_fail_the_connection() {
    let kept = Error::Cancelled(CancellationInfo {
        sid: 3,
        origin: CancellationOrigin::Local { flag_sent: true },
        connection_closed: false,
    });
    let closed = Error::Cancelled(CancellationInfo {
        sid: 3,
        origin: CancellationOrigin::Local { flag_sent: false },
        connection_closed: true,
    });
    assert!(!fails_connection(&kept));
    assert!(fails_connection(&closed));
    assert!(fails_connection(&Error::Interrupted));
}

#[test]
fn push_router_reassembles_per_session_id() {
    let mut router = PushRouter::new();
    assert_eq!(router.route(1, b"abc", true), Routed::Pending);
    let mut message = 3_u64.to_be_bytes().to_vec();
    message.extend_from_slice(b"xyz");
    assert_eq!(router.route(5, &message[..4], false), Routed::Partial);
    assert_eq!(router.route(6, &message[..6], false), Routed::Partial);
    assert_eq!(router.route(5, &message[4..], false), Routed::Body(b"xyz".to_vec()));
    assert_eq!(router.route(6, &message[6..], false), Routed::Body(b"xyz".to_vec()));
    let mut bad = 1_u64.to_be_bytes().to_vec();
    bad.extend_from_slice(b"zz");
    assert_eq!(router.route(7, &bad, false), Routed::Dropped);
}

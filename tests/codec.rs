use jabi::frame::{decode_response, encode_request, MAX_PAYLOAD_LEN};
use jabi::interface::{response_result, wants_reset};
use jabi::uart::{header_len, stream_reply};
use jabi::usb::{bulk_reply, needs_zlp, write_outcome};
use jabi::{Error, InterfaceRequest};

#[test]
fn request_frame_is_little_endian_header_then_payload() {
    let req = InterfaceRequest {
        periph_id: 1,
        periph_idx: 0x0302,
        periph_fn: 4,
        payload_len: 0,
        payload: vec![9, 8],
    };
    assert_eq!(encode_request(&req), Ok(vec![1, 0, 2, 3, 4, 0, 2, 0, 9, 8]));
}

#[test]
fn request_with_largest_payload_encodes() {
    let req = InterfaceRequest::new(0, 0, 0, vec![7; MAX_PAYLOAD_LEN]).ok().unwrap();
    assert_eq!(req.payload_len, 0xFFFF);
    let b = encode_request(&req).unwrap();
    assert_eq!(b.len(), 8 + MAX_PAYLOAD_LEN);
    assert_eq!(&b[6..8], &[0xFF, 0xFF]);
}

#[test]
fn oversized_payload_is_format_error() {
    assert!(matches!(
        InterfaceRequest::new(0, 0, 0, vec![0; MAX_PAYLOAD_LEN + 1]),
        Err(Error::PacketFormat)
    ));
    let req = InterfaceRequest {
        periph_id: 0,
        periph_idx: 0,
        periph_fn: 0,
        payload_len: 0,
        payload: vec![0; 65536],
    };
    assert_eq!(encode_request(&req), Err(Error::PacketFormat));
}

#[test]
fn round_trip_recovers_header_fields() {
    let req = InterfaceRequest::new(0xBEEF, 7, 0x1234, vec![1, 2, 3]).ok().unwrap();
    let b = encode_request(&req).unwrap();
    assert_eq!(u16::from_le_bytes([b[0], b[1]]), 0xBEEF);
    assert_eq!(u16::from_le_bytes([b[2], b[3]]), 7);
    assert_eq!(u16::from_le_bytes([b[4], b[5]]), 0x1234);
    assert_eq!(u16::from_le_bytes([b[6], b[7]]) as usize, b.len() - 8);
    assert_eq!(&b[8..], &[1, 2, 3]);

    let resp = decode_response(&[0xFE, 0xFF, 3, 0, 4, 5, 6]).ok().unwrap();
    assert_eq!(resp.retcode, -2);
    assert_eq!(resp.payload_len, 3);
    assert_eq!(resp.payload, vec![4, 5, 6]);
}

#[test]
fn response_decodes_only_with_exact_length() {
    let ok = decode_response(&[0, 0, 2, 0, 0xAA, 0xBB]).ok().unwrap();
    assert_eq!(ok.retcode, 0);
    assert_eq!(ok.payload, vec![0xAA, 0xBB]);
    assert!(matches!(decode_response(&[0, 0, 2, 0, 0xAA]), Err(Error::PacketFormat)));
    assert!(matches!(decode_response(&[0, 0, 2, 0, 0xAA, 0xBB, 0xCC]), Err(Error::PacketFormat)));
    assert!(matches!(decode_response(&[0, 0, 0]), Err(Error::PacketFormat)));
    let empty = decode_response(&[0, 0, 0, 0]).ok().unwrap();
    assert!(empty.payload.is_empty());
}

#[test]
fn retcode_mapping_covers_every_value() {
    let named = [
        Error::NoError,
        Error::NotSupported,
        Error::InvalidArgsFormat,
        Error::Uninitialized,
        Error::Peripheral,
        Error::InvalidArgs,
        Error::Busy,
        Error::Timeout,
    ];
    for (code, kind) in named.iter().enumerate() {
        assert_eq!(Error::from(code as i16), *kind);
    }
    for code in [8i16, 100, i16::MAX, -1, -8, i16::MIN] {
        assert_eq!(Error::from(code), Error::Unknown);
    }
}

#[test]
fn response_result_maps_retcode() {
    let ok = decode_response(&[0, 0, 1, 0, 9]).ok().unwrap();
    assert_eq!(response_result(ok), Ok(vec![9]));
    let busy = decode_response(&[6, 0, 0, 0]).ok().unwrap();
    assert_eq!(response_result(busy), Err(Error::Busy));
    let neg = decode_response(&[0xFF, 0xFF, 0, 0]).ok().unwrap();
    assert_eq!(response_result(neg), Err(Error::Unknown));
}

#[test]
fn only_timeout_wants_reset() {
    assert!(wants_reset(&Err(Error::PacketTimeout)));
    assert!(!wants_reset(&Err(Error::PacketFormat)));
    assert!(!wants_reset(&Err(Error::Timeout)));
    assert!(!wants_reset(&Ok(vec![])));
}

#[test]
fn zero_length_packet_after_whole_packets() {
    assert!(needs_zlp(64, 64));
    assert!(needs_zlp(128, 64));
    assert!(!needs_zlp(65, 64));
    assert!(!needs_zlp(10, 64));
    assert!(needs_zlp(512, 512));
}

#[test]
fn bulk_reply_parses_what_was_read() {
    let mut buf = vec![0u8; 16];
    buf[..5].copy_from_slice(&[0, 0, 1, 0, 7]);
    assert_eq!(bulk_reply(buf.clone(), Some(5)), Ok(vec![7]));
    assert_eq!(bulk_reply(buf.clone(), Some(6)), Err(Error::PacketFormat));
    assert_eq!(bulk_reply(buf.clone(), Some(17)), Err(Error::PacketFormat));
    assert_eq!(bulk_reply(buf.clone(), None), Err(Error::PacketTimeout));
    let mut err = vec![0u8; 8];
    err[..4].copy_from_slice(&[5, 0, 0, 0]);
    assert_eq!(bulk_reply(err, Some(4)), Err(Error::InvalidArgs));
}

#[test]
fn bulk_write_must_be_whole() {
    assert_eq!(write_outcome(Some(10), 10), Ok(()));
    assert_eq!(write_outcome(Some(9), 10), Err(Error::PacketTimeout));
    assert_eq!(write_outcome(None, 10), Err(Error::PacketTimeout));
}

#[test]
fn stream_reply_follows_header_and_payload_read() {
    assert_eq!(header_len(&[0, 0, 3, 1]), 0x0103);
    assert_eq!(stream_reply(&[0, 0, 2, 0], true, vec![8, 9]), Ok(vec![8, 9]));
    assert_eq!(stream_reply(&[0, 0, 2, 0], false, vec![0, 0]), Err(Error::PacketTimeout));
    assert_eq!(stream_reply(&[5, 0, 1, 0], true, vec![1]), Err(Error::InvalidArgs));
    assert_eq!(stream_reply(&[7, 0, 0, 0], true, vec![]), Err(Error::Timeout));
    assert_eq!(stream_reply(&[0xFF, 0xFF, 0, 0], true, vec![]), Err(Error::Unknown));
}

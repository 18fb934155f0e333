use speakin::protocol::{build_audio_request, build_full_client_request, parse_server_response, ServerMessage};
use std::io::Read;

fn gunzip(data: &[u8]) -> Vec<u8> {
    let mut out = Vec::new();
    flate2::read::GzDecoder::new(data).read_to_end(&mut out).unwrap();
    out
}

#[test]
fn full_client_request_layout() {
    let p = build_full_client_request("{\"a\":1}").unwrap();
    assert_eq!(&p[..4], &[0x11, 0x10, 0x11, 0x00]);
    let size = u32::from_be_bytes([p[4], p[5], p[6], p[7]]) as usize;
    assert_eq!(size, p.len() - 8);
    assert_eq!(gunzip(&p[8..]), b"{\"a\":1}".to_vec());
}

#[test]
fn audio_request_flags() {
    let p = build_audio_request(&[1, 2, 3], false).unwrap();
    assert_eq!(&p[..4], &[0x11, 0x20, 0x01, 0x00]);
    let last = build_audio_request(&[], true).unwrap();
    assert_eq!(&last[..4], &[0x11, 0x22, 0x01, 0x00]);
    assert_eq!(gunzip(&p[8..]), vec![1, 2, 3]);
}

#[test]
fn parses_full_response_with_sequence() {
    let payload = b"{\"ok\":true}";
    let mut d = vec![0x11, 0x93, 0x10, 0x00];
    d.extend_from_slice(&(-7i32).to_be_bytes());
    d.extend_from_slice(&(payload.len() as u32).to_be_bytes());
    d.extend_from_slice(payload);
    match parse_server_response(&d).unwrap() {
        ServerMessage::Response { sequence, payload, _is_last } => {
            assert_eq!(sequence, -7);
            assert_eq!(payload, "{\"ok\":true}");
            assert!(_is_last);
        }
        other => panic!("unexpected {:?}", other),
    }
}

#[test]
fn parses_gzip_payload() {
    let req = build_audio_request(b"hello", false).unwrap();
    let gz = &req[8..];
    let mut d = vec![0x11, 0x90, 0x11, 0x00];
    d.extend_from_slice(&(gz.len() as u32).to_be_bytes());
    d.extend_from_slice(gz);
    match parse_server_response(&d).unwrap() {
        ServerMessage::Response { sequence, payload, _is_last } => {
            assert_eq!(sequence, 0);
            assert_eq!(payload, "hello");
            assert!(!_is_last);
        }
        other => panic!("unexpected {:?}", other),
    }
}

#[test]
fn empty_or_missing_payload_is_ack() {
    let d = vec![0x11, 0x90, 0x10, 0x00];
    match parse_server_response(&d).unwrap() {
        ServerMessage::Response { payload, .. } => assert_eq!(payload, "{}"),
        other => panic!("unexpected {:?}", other),
    }
    let d = vec![0x11, 0x90, 0x10, 0x00, 0, 0, 0, 0];
    match parse_server_response(&d).unwrap() {
        ServerMessage::Response { payload, .. } => assert_eq!(payload, "{}"),
        other => panic!("unexpected {:?}", other),
    }
}

#[test]
fn parses_error_frames() {
    let mut d = vec![0x11, 0xF0, 0x10, 0x00];
    d.extend_from_slice(&45000081u32.to_be_bytes());
    d.extend_from_slice(&100u32.to_be_bytes());
    d.extend_from_slice(b"timeout");
    match parse_server_response(&d).unwrap() {
        ServerMessage::Error { code, message } => {
            assert_eq!(code, 45000081);
            assert_eq!(message, "timeout");
        }
        other => panic!("unexpected {:?}", other),
    }
}

#[test]
fn reports_each_malformed_frame() {
    assert_eq!(parse_server_response(&[0x11, 0x90]).unwrap_err(), "Response too short");
    assert_eq!(
        parse_server_response(&[0x12, 0x90, 0x10, 0x00]).unwrap_err(),
        "Response shorter than header"
    );
    assert_eq!(
        parse_server_response(&[0x11, 0x91, 0x10, 0x00, 1]).unwrap_err(),
        "Missing sequence field"
    );
    assert_eq!(
        parse_server_response(&[0x11, 0x94, 0x10, 0x00, 1]).unwrap_err(),
        "Missing event field"
    );
    assert_eq!(
        parse_server_response(&[0x11, 0x90, 0x10, 0x00, 0, 0, 0, 9, 1, 2]).unwrap_err(),
        "Incomplete payload: expected 9 bytes, got 2"
    );
    assert_eq!(
        parse_server_response(&[0x11, 0xF0, 0x10, 0x00, 0, 0]).unwrap_err(),
        "Error response too short"
    );
    assert_eq!(
        parse_server_response(&[0x11, 0xA0, 0x10, 0x00]).unwrap_err(),
        "Unknown message type: 0x0A"
    );
    assert!(parse_server_response(&[0x11, 0x90, 0x10, 0x00, 0, 0, 0, 1, 0xFF]).is_err());
}

#[test]
fn built_request_reads_back_as_a_response() {
    let config = "{\"user\":{\"uid\":\"语音\"},\"audio\":{\"rate\":16000}}";
    let mut p = build_full_client_request(config).unwrap();
    p[1] = 0x90;
    match parse_server_response(&p).unwrap() {
        ServerMessage::Response { sequence, payload, _is_last } => {
            assert_eq!(sequence, 0);
            assert_eq!(payload, config);
            assert!(!_is_last);
        }
        other => panic!("unexpected {:?}", other),
    }
    let empty_end = build_audio_request(&[], true).unwrap();
    assert_eq!(&empty_end[..4], &[0x11, 0x22, 0x01, 0x00]);
    assert!(gunzip(&empty_end[8..]).is_empty());
}

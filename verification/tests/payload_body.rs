use mock_server::payload::Payload;
use mock_server::payload::payload_response;

#[test]
fn inline_data_served_verbatim() {
    let p = Payload::from_text("hello");
    let r = payload_response(&p);
    assert_eq!(r.status, 200);
    assert_eq!(r.body, b"hello".to_vec());
}

#[test]
fn file_bytes_kept_including_trailing_newline() {
    let bytes = b"line one\nline two\n".to_vec();
    let p = Payload::new(bytes.clone());
    let r = payload_response(&p);
    assert_eq!(r.status, 200);
    assert_eq!(r.body, bytes);
}

#[test]
fn every_request_gets_the_same_answer() {
    let p = Payload::from_text("stable");
    for _ in 0..5 {
        let r = payload_response(&p);
        assert_eq!(r.status, 200);
        assert_eq!(r.body, b"stable".to_vec());
    }
}

#[test]
fn round_trip_empty_payload() {
    let p = Payload::new(Vec::new());
    assert_eq!(p.len(), 0);
    let r = payload_response(&p);
    assert_eq!(r.status, 200);
    assert!(r.body.is_empty());
}

#[test]
fn round_trip_every_byte_value() {
    let bytes: Vec<u8> = (0u16..256).map(|b| b as u8).collect();
    let p = Payload::new(bytes.clone());
    assert_eq!(p.len(), 256);
    let r = payload_response(&p);
    assert_eq!(r.body, bytes);
}

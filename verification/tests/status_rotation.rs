use mock_server::config::ConfigError;
use mock_server::status::RotationCounter;
use mock_server::status::StatusSequence;
use mock_server::status::next_status;
use mock_server::status::status_response;

fn built(codes: Vec<u16>) -> StatusSequence {
    StatusSequence::new(codes).expect("codes within range")
}

#[test]
fn rotation_covers_consecutive_window() {
    let seq = built(vec![301, 302, 303]);
    // Six requests taking counter values 5..11, completing in any order,
    // receive the multiset of the consecutive-modulo window starting at 5.
    let mut got: Vec<u16> = (5usize..11).map(|c| status_response(&seq, c).status).collect();
    let mut expected: Vec<u16> = vec![303, 301, 302, 303, 301, 302];
    got.sort_unstable();
    expected.sort_unstable();
    assert_eq!(got, expected);
}

#[test]
fn rotation_in_counter_order() {
    let seq = built(vec![301, 302, 303]);
    let mut counter = RotationCounter::new();
    let mut got: Vec<u16> = Vec::new();
    for _ in 0..6 {
        let r = next_status(&seq, &mut counter);
        assert!(r.body.is_empty());
        got.push(r.status);
    }
    assert_eq!(got, vec![301, 302, 303, 301, 302, 303]);
}

#[test]
fn single_code_always_served() {
    let seq = built(vec![404]);
    for c in 0..20usize {
        let r = status_response(&seq, c);
        assert_eq!(r.status, 404);
        assert!(r.body.is_empty());
    }
}

#[test]
fn empty_configuration_defaults_to_200() {
    let seq = built(Vec::new());
    assert_eq!(seq.len(), 1);
    assert!(seq.is_well_formed());
    assert_eq!(status_response(&seq, 17).status, 200);
}

#[test]
fn out_of_range_code_rejected() {
    assert_eq!(StatusSequence::new(vec![600]).err(), Some(ConfigError::InvalidStatusCode));
    assert_eq!(StatusSequence::new(vec![200, 0]).err(), Some(ConfigError::InvalidStatusCode));
}

#[test]
fn counter_larger_than_length_wraps() {
    let seq = built(vec![200, 500]);
    assert_eq!(seq.code_at(7), 500);
    assert_eq!(seq.code_at(8), 200);
}

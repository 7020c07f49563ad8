use ibc_core_engine::acknowledgement::{Acknowledgement, AcknowledgementResult};
use ibc_core_engine::error::PacketError;

#[test]
fn test_ack_success_to_vec() {
    let ack_success: Vec<u8> = AcknowledgementResult::success("AQ==").to_vec();

    // Check that it's the same output as the reference implementation
    assert_eq!(ack_success, r#"{"result":"AQ=="}"#.as_bytes());
}

#[test]
fn test_ack_error_to_vec() {
    let ack_error: Vec<u8> =
        AcknowledgementResult::Error("cannot unmarshal ICS-20 transfer packet data".to_string())
            .to_vec();

    // Check that it's the same output as the reference implementation
    assert_eq!(
        ack_error,
        r#"{"error":"cannot unmarshal ICS-20 transfer packet data"}"#.as_bytes()
    );
}

#[test]
fn ack_from_error_carries_the_fixed_prefix() {
    let ack = AcknowledgementResult::from_error("boom");
    assert!(!ack.is_successful());
    let json = ack.to_json();
    assert_eq!(
        json,
        r#"{"error":"error handling packet on destination chain: see events for details: boom"}"#
    );
}

#[test]
fn ack_success_is_successful() {
    let ack = AcknowledgementResult::success("AQ==");
    assert!(ack.is_successful());
    assert_eq!(ack.to_json(), r#"{"result":"AQ=="}"#);
}

#[test]
fn empty_acknowledgement_is_forbidden() {
    let r = Acknowledgement::new(Vec::new());
    assert_eq!(r.unwrap_err(), PacketError::InvalidAcknowledgement);
}

#[test]
fn nonempty_acknowledgement_is_accepted() {
    let a = Acknowledgement::new(vec![1]).unwrap();
    assert_eq!(a.as_bytes(), &[1]);
}

#[test]
fn ack_result_converts_to_nonempty_acknowledgement() {
    let a = AcknowledgementResult::success("AQ==").into_acknowledgement();
    assert_eq!(a.as_bytes(), r#"{"result":"AQ=="}"#.as_bytes());
}

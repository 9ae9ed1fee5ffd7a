use d1_backup::{Envelope, EnvelopeError, Failure};

fn envelope(success: bool, messages: &[&str], result: u32) -> Envelope<u32> {
    Envelope {
        result,
        success,
        errors: messages
            .iter()
            .map(|m| EnvelopeError { message: m.to_string() })
            .collect(),
    }
}

#[test]
fn unwrap_success_returns_result() {
    let e = envelope(true, &["ignored even on success"], 7);
    assert!(matches!(e.unwrap_result(), Ok(7)));
}

#[test]
fn unwrap_rejected_joins_messages() {
    let e = envelope(false, &["first", "second"], 7);
    match e.unwrap_result() {
        Err(Failure::RequestRejected(m)) => assert_eq!(m, "first\nsecond"),
        other => panic!("expected RequestRejected, got {:?}", other),
    }
}

#[test]
fn unwrap_rejected_single_message() {
    let e = envelope(false, &["only"], 7);
    match e.unwrap_result() {
        Err(Failure::RequestRejected(m)) => assert_eq!(m, "only"),
        other => panic!("expected RequestRejected, got {:?}", other),
    }
}

#[test]
fn unwrap_rejected_empty_errors_renders_marker() {
    let e = envelope(false, &[], 7);
    match e.unwrap_result() {
        Err(Failure::RequestRejected(m)) => assert_eq!(m, "no error message given"),
        other => panic!("expected RequestRejected, got {:?}", other),
    }
}

#[test]
fn unwrap_rejected_regardless_of_result() {
    // success=false always rejects, whatever the payload holds
    for result in [0u32, 1, u32::MAX] {
        let e = envelope(false, &["nope"], result);
        assert!(matches!(e.unwrap_result(), Err(Failure::RequestRejected(_))));
    }
}

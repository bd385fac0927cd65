use petemc::probe::PROBE_TIMEOUT_MS;
use petemc::probe::ProbeError;
use petemc::probe::ProbeOutcome;

#[test]
fn absent_sample_becomes_empty() {
    let r = ProbeOutcome::online_from_status(2, 10, None);
    assert_eq!(r, ProbeOutcome::Online { players: 2, max_players: 10, sample: vec![] });
}

#[test]
fn present_sample_is_kept_in_order() {
    let r = ProbeOutcome::online_from_status(
        2,
        10,
        Some(vec!["alice".to_string(), "bob".to_string()]),
    );
    assert_eq!(
        r,
        ProbeOutcome::Online {
            players: 2,
            max_players: 10,
            sample: vec!["alice".to_string(), "bob".to_string()],
        }
    );
}

#[test]
fn error_messages_carry_the_detail() {
    let connect = ProbeError::ConnectFailed { detail: "refused".to_string() };
    let protocol = ProbeError::ProtocolError { detail: "garbled".to_string() };
    assert_eq!(connect.message(), "refused");
    assert_eq!(protocol.message(), "garbled");
    assert_eq!(ProbeError::TimedOut.message(), "timed out");
}

#[test]
fn probe_deadline_is_fixed() {
    assert_eq!(PROBE_TIMEOUT_MS, 250);
}

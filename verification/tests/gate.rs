use covers_api::cover::{get_status_must_get_image, Cover, GateRejection};

const HOUR: u64 = 3600;

#[test]
fn gate_no_record_is_eligible() {
    assert_eq!(get_status_must_get_image(None, HOUR, 1_000_000), Ok(()));
}

#[test]
fn gate_rejects_existing_cover_regardless_of_age() {
    // Fresh attempt, cover present.
    let fresh = Cover { id: 1, last_try: 1_000_000, provider: Some(0) };
    assert_eq!(
        get_status_must_get_image(Some(&fresh), HOUR, 1_000_010),
        Err(GateRejection::CoverExists)
    );
    // Ancient attempt, cover present: still rejected.
    let ancient = Cover { id: 1, last_try: 0, provider: Some(1) };
    assert_eq!(
        get_status_must_get_image(Some(&ancient), HOUR, u64::MAX),
        Err(GateRejection::CoverExists)
    );
}

#[test]
fn gate_rejects_inside_retry_window() {
    let r = Cover { id: 2, last_try: 1_000_000, provider: None };
    // One second before the window elapses.
    assert_eq!(
        get_status_must_get_image(Some(&r), HOUR, 1_000_000 + HOUR - 1),
        Err(GateRejection::RetryNotElapsed)
    );
    // Immediately after the attempt.
    assert_eq!(
        get_status_must_get_image(Some(&r), HOUR, 1_000_000),
        Err(GateRejection::RetryNotElapsed)
    );
}

#[test]
fn gate_eligible_at_exact_boundary() {
    let r = Cover { id: 2, last_try: 1_000_000, provider: None };
    // The boundary instant is inclusive: eligible.
    assert_eq!(get_status_must_get_image(Some(&r), HOUR, 1_000_000 + HOUR), Ok(()));
    // And past it.
    assert_eq!(get_status_must_get_image(Some(&r), HOUR, 1_000_000 + HOUR + 1), Ok(()));
}

#[test]
fn gate_ignores_clock_before_last_attempt() {
    // A clock that went backwards never makes the record eligible.
    let r = Cover { id: 3, last_try: 1_000_000, provider: None };
    assert_eq!(
        get_status_must_get_image(Some(&r), HOUR, 999_999),
        Err(GateRejection::RetryNotElapsed)
    );
}

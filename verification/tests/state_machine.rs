use click_through::controller::PenetrationController;
use click_through::controller::PenetrationError;
use click_through::controller::{report_apply_outcome, report_emit_outcome, report_window_step};

#[test]
fn toggle_parity_over_a_run() {
    let mut c = PenetrationController::new();
    assert!(!c.is_penetrable());
    assert_eq!(c.toggle(true), Ok(true));
    assert_eq!(c.toggle(true), Ok(false));
    assert_eq!(c.toggle(true), Ok(true));
    // three successful toggles: odd, so click-through
    assert!(c.is_penetrable());
    assert_eq!(c.toggle(true), Ok(false));
    // four: even, so interactive again
    assert!(!c.is_penetrable());
}

#[test]
fn reset_is_idempotent() {
    let mut c = PenetrationController::new();
    assert_eq!(c.toggle(true), Ok(true));
    assert!(c.is_penetrable());
    c.reset_on_close();
    assert!(!c.is_penetrable());
    c.reset_on_close();
    assert!(!c.is_penetrable());
}

#[test]
fn toggle_missing_window_preserves_state() {
    let mut c = PenetrationController::new();
    assert_eq!(c.toggle(true), Ok(true));
    assert_eq!(c.toggle(false), Err(PenetrationError::WindowNotFound));
    assert!(c.is_penetrable());
    // parity continues from the prior value, not from a reset
    assert_eq!(c.toggle(true), Ok(false));
    assert!(!c.is_penetrable());
}

#[test]
fn hotkey_is_noop_when_absent_or_hidden() {
    let mut c = PenetrationController::new();
    assert_eq!(c.query_and_apply_on_hotkey(false, false), None);
    assert_eq!(c.query_and_apply_on_hotkey(false, true), None);
    assert_eq!(c.query_and_apply_on_hotkey(true, false), None);
    assert!(!c.is_penetrable());
    assert_eq!(c.query_and_apply_on_hotkey(true, true), Some(true));
    assert!(c.is_penetrable());
    assert_eq!(c.query_and_apply_on_hotkey(true, false), None);
    assert!(c.is_penetrable());
}

#[test]
fn serialized_toggles_alternate() {
    let mut c = PenetrationController::new();
    let mut returned: Vec<bool> = Vec::new();
    for _ in 0..8 {
        returned.push(c.toggle(true).unwrap());
    }
    for i in 0..returned.len() {
        // the i-th call returns the flag after i + 1 flips from false
        assert_eq!(returned[i], (i + 1) % 2 == 1);
        if i > 0 {
            // no two adjacent calls in the serialized order observe the
            // same new value
            assert_ne!(returned[i], returned[i - 1]);
        }
    }
}

#[test]
fn end_to_end_scenario() {
    let mut c = PenetrationController::new();

    // window absent: the toggle command errors and the state stays false
    let missing = c.toggle(false);
    assert_eq!(missing, Err(PenetrationError::WindowNotFound));
    assert_eq!(missing.unwrap_err().message(), "window not found");
    assert!(!c.is_penetrable());

    // window present but hidden: the hotkey is a no-op, nothing to emit
    assert_eq!(c.query_and_apply_on_hotkey(true, false), None);
    assert!(!c.is_penetrable());

    // window present and shown: the toggle command returns true, the OS
    // property is applied as true and the notification carries true
    let toggled = c.toggle(true);
    assert_eq!(toggled, Ok(true));
    let new_value = toggled.unwrap();
    assert_eq!(report_apply_outcome(new_value, true), Ok(true));
    assert_eq!(report_emit_outcome(new_value, true), (Ok(true), None));

    // closing: the state resets to false, the property step succeeds and
    // the window is hidden
    c.reset_on_close();
    assert!(!c.is_penetrable());
    assert_eq!(report_window_step(true), Ok(()));
    assert_eq!(report_window_step(true), Ok(()));
}

#[test]
fn apply_failure_is_surfaced_without_rollback() {
    let mut c = PenetrationController::new();
    let new_value = c.toggle(true).unwrap();
    let reported = report_apply_outcome(new_value, false);
    assert_eq!(reported, Err(PenetrationError::OsPropertyApplyFailed));
    assert_eq!(
        reported.unwrap_err().message(),
        "could not apply window property"
    );
    // the in-memory flag stays flipped: the next toggle continues from it
    assert!(c.is_penetrable());
    assert_eq!(c.toggle(true), Ok(false));
}

#[test]
fn emit_failure_is_never_fatal() {
    let (result, logged) = report_emit_outcome(true, false);
    assert_eq!(result, Ok(true));
    assert_eq!(logged, Some(PenetrationError::EventEmitFailed));
    assert_eq!(logged.unwrap().message(), "could not notify listeners");
    let (result, logged) = report_emit_outcome(false, true);
    assert_eq!(result, Ok(false));
    assert_eq!(logged, None);
}

#[test]
fn window_step_failure_is_surfaced() {
    assert_eq!(
        report_window_step(false),
        Err(PenetrationError::OsPropertyApplyFailed)
    );
}

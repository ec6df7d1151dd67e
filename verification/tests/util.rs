use tor_ffi::error::ErrorSlot;
use tor_ffi::error::tor_last_error_message;
use tor_ffi::util::limit_outcome;
use tor_ffi::util::tor_get_nofile_limit;
use tor_ffi::util::tor_set_nofile_limit;

#[test]
fn successful_outcome_passes_the_value_through() {
    let mut slot = ErrorSlot::empty();
    assert_eq!(limit_outcome(Ok(4096), &mut slot), 4096);
    assert_eq!(tor_last_error_message(&mut slot), "");
}

#[test]
fn failed_outcome_is_zero_with_cause_recorded() {
    let mut slot = ErrorSlot::empty();
    assert_eq!(limit_outcome(Err(String::from("permission denied")), &mut slot), 0);
    assert_eq!(tor_last_error_message(&mut slot), "permission denied");
}

#[test]
fn unreadable_failure_text_falls_back() {
    let mut slot = ErrorSlot::empty();
    assert_eq!(limit_outcome(Err(String::new()), &mut slot), 0);
    assert_eq!(tor_last_error_message(&mut slot), "boundary failure");
}

#[test]
fn nofile_limit_is_readable_on_this_platform() {
    let mut slot = ErrorSlot::empty();
    let soft = tor_get_nofile_limit(&mut slot);
    assert!(soft > 0);
    assert_eq!(tor_last_error_message(&mut slot), "");
}

#[test]
fn raising_toward_zero_reports_the_current_soft_limit() {
    // the platform call never lowers the limit, so asking for zero yields
    // the current soft limit, not zero
    let mut slot = ErrorSlot::empty();
    let soft = tor_get_nofile_limit(&mut slot);
    let after = tor_set_nofile_limit(0, &mut slot);
    assert_eq!(after, soft);
    assert_eq!(tor_last_error_message(&mut slot), "");
}

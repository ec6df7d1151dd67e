use tor_ffi::error::ErrorRecord;
use tor_ffi::error::ErrorSlot;
use tor_ffi::error::tor_last_error_message;
use tor_ffi::lifecycle::failed_bundle;
use tor_ffi::lifecycle::get_exit_node_complete;
use tor_ffi::lifecycle::get_exit_node_request;
use tor_ffi::lifecycle::start_complete;
use tor_ffi::lifecycle::start_request;
use tor_ffi::lifecycle::tor_client_bootstrap;
use tor_ffi::lifecycle::tor_client_set_dormant;
use tor_ffi::lifecycle::tor_proxy_stop;
use tor_ffi::lifecycle::ExitNodeEvent;

fn record(text: &str) -> ErrorRecord {
    ErrorRecord::new(String::from(text), Vec::new()).expect("well-formed description")
}

#[test]
fn start_with_wellformed_dirs_yields_plan() {
    let mut slot = ErrorSlot::empty();
    let plan = start_request(
        9050,
        b"/tmp/state".to_vec(),
        b"/tmp/cache".to_vec(),
        &mut slot,
    )
    .expect("well-formed directories");
    assert_eq!(plan.socks_port(), 9050);
    assert_eq!(plan.state_dir().as_slice(), b"/tmp/state");
    assert_eq!(plan.cache_dir().as_slice(), b"/tmp/cache");
    assert_eq!(tor_last_error_message(&mut slot), "");
}

#[test]
fn start_with_malformed_state_dir_is_refused() {
    let mut slot = ErrorSlot::empty();
    let plan = start_request(9050, vec![0xff, 0xfe], b"/tmp/cache".to_vec(), &mut slot);
    assert!(plan.is_none());
    let message = tor_last_error_message(&mut slot);
    assert_eq!(message, "state directory path is not valid UTF-8");
    // a second read without an intervening failure is empty
    assert_eq!(tor_last_error_message(&mut slot), "");
}

#[test]
fn start_with_malformed_cache_dir_is_refused() {
    let mut slot = ErrorSlot::empty();
    let plan = start_request(9050, b"/tmp/state".to_vec(), vec![0x80], &mut slot);
    assert!(plan.is_none());
    assert_eq!(
        tor_last_error_message(&mut slot),
        "cache directory path is not valid UTF-8"
    );
}

#[test]
fn successful_start_then_bootstrap_succeeds() {
    // the model of: start(9050, "/tmp/state", "/tmp/cache") on a host where
    // the create-and-bootstrap work succeeds, then an explicit bootstrap
    let mut slot = ErrorSlot::empty();
    let plan = start_request(
        9050,
        b"/tmp/state".to_vec(),
        b"/tmp/cache".to_vec(),
        &mut slot,
    )
    .expect("well-formed directories");
    let bundle = start_complete(plan, Ok(()), &mut slot);
    let mut client = bundle.client.expect("client present after success");
    let proxy = bundle.proxy.expect("proxy present after success");
    assert_eq!(proxy.local_port(), 9050);
    assert!(tor_client_bootstrap(&mut client, Ok(()), &mut slot));
    assert_eq!(tor_last_error_message(&mut slot), "");
}

#[test]
fn failed_start_yields_null_bundle_and_message() {
    let mut slot = ErrorSlot::empty();
    let plan = start_request(
        9050,
        b"/tmp/state".to_vec(),
        b"/tmp/cache".to_vec(),
        &mut slot,
    )
    .expect("well-formed directories");
    let bundle = start_complete(plan, Err(record("bootstrap timed out")), &mut slot);
    assert!(bundle.client.is_none());
    assert!(bundle.proxy.is_none());
    assert_eq!(tor_last_error_message(&mut slot), "bootstrap timed out");
}

#[test]
fn failed_bundle_has_both_fields_null() {
    let bundle = failed_bundle();
    assert!(bundle.client.is_none());
    assert!(bundle.proxy.is_none());
}

#[test]
fn failed_bootstrap_reports_false_and_records_cause() {
    let mut slot = ErrorSlot::empty();
    let plan = start_request(
        9050,
        b"/tmp/state".to_vec(),
        b"/tmp/cache".to_vec(),
        &mut slot,
    )
    .expect("well-formed directories");
    let bundle = start_complete(plan, Ok(()), &mut slot);
    let mut client = bundle.client.expect("client present");
    assert!(!tor_client_bootstrap(
        &mut client,
        Err(record("no consensus reachable")),
        &mut slot
    ));
    assert_eq!(tor_last_error_message(&mut slot), "no consensus reachable");
    // the handle stays valid for later calls
    tor_client_set_dormant(&mut client, true);
    tor_client_set_dormant(&mut client, false);
}

#[test]
fn exit_query_before_bootstrap_is_refused() {
    let mut slot = ErrorSlot::empty();
    let plan = start_request(
        9050,
        b"/tmp/state".to_vec(),
        b"/tmp/cache".to_vec(),
        &mut slot,
    )
    .expect("well-formed directories");
    let bundle = start_complete(plan, Ok(()), &mut slot);
    let client = bundle.client.expect("client present");
    assert!(!get_exit_node_request(&client, &mut slot));
    assert_eq!(tor_last_error_message(&mut slot), "no directory available");
}

#[test]
fn exit_query_after_bootstrap_is_allowed() {
    let mut slot = ErrorSlot::empty();
    let plan = start_request(
        9050,
        b"/tmp/state".to_vec(),
        b"/tmp/cache".to_vec(),
        &mut slot,
    )
    .expect("well-formed directories");
    let bundle = start_complete(plan, Ok(()), &mut slot);
    let mut client = bundle.client.expect("client present");
    assert!(tor_client_bootstrap(&mut client, Ok(()), &mut slot));
    assert!(get_exit_node_request(&client, &mut slot));
    assert_eq!(tor_last_error_message(&mut slot), "");
}

#[test]
fn dormant_mode_follows_the_flag_and_keeps_bootstrap() {
    let mut slot = ErrorSlot::empty();
    let plan = start_request(
        9050,
        b"/tmp/state".to_vec(),
        b"/tmp/cache".to_vec(),
        &mut slot,
    )
    .expect("well-formed directories");
    let bundle = start_complete(plan, Ok(()), &mut slot);
    let mut client = bundle.client.expect("client present");
    assert!(tor_client_bootstrap(&mut client, Ok(()), &mut slot));
    tor_client_set_dormant(&mut client, true);
    // still bootstrapped: the exit query stays allowed in soft-dormant mode
    assert!(get_exit_node_request(&client, &mut slot));
    tor_client_set_dormant(&mut client, false);
    assert!(get_exit_node_request(&client, &mut slot));
}

#[test]
fn exit_outcome_no_directory_records_message() {
    let mut slot = ErrorSlot::empty();
    let r = get_exit_node_complete(ExitNodeEvent::NoDirectory, &mut slot);
    assert!(r.is_none());
    assert_eq!(tor_last_error_message(&mut slot), "no directory available");
}

#[test]
fn exit_outcome_circuit_failure_records_cause() {
    let mut slot = ErrorSlot::empty();
    let r = get_exit_node_complete(
        ExitNodeEvent::CircuitFailed(record("circuit collapsed")),
        &mut slot,
    );
    assert!(r.is_none());
    assert_eq!(tor_last_error_message(&mut slot), "circuit collapsed");
}

#[test]
fn exit_outcome_empty_path_records_message() {
    let mut slot = ErrorSlot::empty();
    let r = get_exit_node_complete(ExitNodeEvent::Path(Vec::new()), &mut slot);
    assert!(r.is_none());
    assert_eq!(tor_last_error_message(&mut slot), "circuit path has no hops");
}

#[test]
fn exit_outcome_returns_last_hop() {
    let mut slot = ErrorSlot::empty();
    let hops = vec![
        String::from("$aaaa~guard"),
        String::from("$bbbb~middle"),
        String::from("$cccc~exit"),
    ];
    let r = get_exit_node_complete(ExitNodeEvent::Path(hops), &mut slot);
    assert_eq!(r.expect("identity returned"), "$cccc~exit");
    assert_eq!(tor_last_error_message(&mut slot), "");
}

#[test]
fn proxy_stop_consumes_the_running_handle() {
    let mut slot = ErrorSlot::empty();
    let plan = start_request(
        9050,
        b"/tmp/state".to_vec(),
        b"/tmp/cache".to_vec(),
        &mut slot,
    )
    .expect("well-formed directories");
    let mut bundle = start_complete(plan, Ok(()), &mut slot);
    // taking the proxy out of the bundle leaves no other still-valid path
    // to a second stop
    let proxy = bundle.proxy.take().expect("proxy present");
    assert!(bundle.proxy.is_none());
    let stopped = tor_proxy_stop(proxy);
    assert_eq!(stopped.local_port(), 9050);
}

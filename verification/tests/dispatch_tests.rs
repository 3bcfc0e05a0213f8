use sugoi::dispatch::invalid_mac_message;
use sugoi::dispatch::plan_wake;
use sugoi::dispatch::sleep_report;
use sugoi::dispatch::wake_report;
use sugoi::dispatch::wants_fragment;
use sugoi::dispatch::SendOutcome;
use sugoi::dispatch::SleepOutcome;
use sugoi::dispatch::WakePlan;
use sugoi::mac::MacAddr;
use sugoi::models::ApiResponse;
use sugoi::templates::ToastFragment;
use sugoi::wol::magic_packet;

#[test]
fn wake_plan_for_valid_address_is_the_magic_packet() {
    let plan = plan_wake("4C:CC:6A:D0:99:22");
    let expected = magic_packet(&MacAddr::parse("4C:CC:6A:D0:99:22").unwrap());
    match plan {
        WakePlan::Send { packet } => assert_eq!(packet, expected),
        WakePlan::Reject { .. } => panic!("a valid address must yield a packet"),
    }
}

#[test]
fn wake_plan_for_invalid_address_rejects_with_message() {
    match plan_wake("zz") {
        WakePlan::Reject { message } => assert_eq!(message, "Invalid Mac Address: zz."),
        WakePlan::Send { .. } => panic!("an invalid address must be rejected"),
    }
}

#[test]
fn invalid_message_wording() {
    assert_eq!(invalid_mac_message("zz"), "Invalid Mac Address: zz.");
}

#[test]
fn wake_sent_report() {
    let (ok, msg) = wake_report("4C:CC:6A:D0:99:22", &SendOutcome::Sent);
    assert!(ok);
    assert_eq!(msg, "MAC Address: 4C:CC:6A:D0:99:22");
}

#[test]
fn wake_failed_report() {
    let outcome = SendOutcome::SendFailed {
        cause: String::from("permission denied"),
    };
    let (ok, msg) = wake_report("4C:CC:6A:D0:99:22", &outcome);
    assert!(!ok);
    assert_eq!(msg, "Failed to send packet: permission denied");
}

#[test]
fn sleep_sent_report() {
    let (ok, msg) = sleep_report("127.0.0.1:9999", &SleepOutcome::Sent);
    assert!(ok);
    assert_eq!(msg, "Server: 127.0.0.1:9999");
}

#[test]
fn refused_connect_counts_as_already_asleep() {
    let outcome = SleepOutcome::TargetAsleep {
        cause: String::from("Connection refused (os error 111)"),
    };
    let (ok, msg) = sleep_report("127.0.0.1:1", &outcome);
    assert!(!ok);
    assert!(msg.starts_with("Server is already asleep"));
    assert_eq!(
        msg,
        "Server is already asleep: Connection refused (os error 111)"
    );
}

#[test]
fn other_connect_error_report() {
    let outcome = SleepOutcome::ConnectFailed {
        cause: String::from("timed out"),
    };
    let (ok, msg) = sleep_report("10.0.0.9:4444", &outcome);
    assert!(!ok);
    assert_eq!(msg, "Got error when connecting address: timed out");
}

#[test]
fn fragment_routing_follows_the_target_header() {
    assert!(wants_fragment(Some("status-table")));
    assert!(!wants_fragment(Some("something-else")));
    assert!(!wants_fragment(None));
}

#[test]
fn api_response_carries_its_message() {
    let r = ApiResponse::new(String::from("MAC Address: 4C:CC:6A:D0:99:22"));
    assert_eq!(r.message(), "MAC Address: 4C:CC:6A:D0:99:22");
}

#[test]
fn toast_carries_message_and_outcome() {
    let t = ToastFragment::new(String::from("Succesfully sent wake command"), true);
    assert_eq!(t.msg, "Succesfully sent wake command");
    assert!(t.status);
}

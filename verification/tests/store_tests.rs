use sugoi::db::statuses_from_rows;
use sugoi::db::Database;
use sugoi::db::StoreError;
use sugoi::dispatch::plan_wake;
use sugoi::dispatch::WakePlan;
use sugoi::models::CommandState;
use sugoi::models::Status;

#[test]
fn append_then_list_returns_records_in_order() {
    let mut db = Database::new(":memory:").unwrap();
    let r1 = Status::new(CommandState::Wake, String::from("first"), true);
    let r2 = Status::new(CommandState::Sleep, String::from("second"), false);
    let r3 = Status::new(CommandState::Wake, String::from("third"), true);
    let t1 = r1.timestamp.clone();
    db.add_status(r1).unwrap();
    db.add_status(r2).unwrap();
    db.add_status(r3).unwrap();
    let listed = db.get_statuses().unwrap();
    assert_eq!(listed.len(), 3);
    assert_eq!(listed[0].msg, "first");
    assert_eq!(listed[1].msg, "second");
    assert_eq!(listed[2].msg, "third");
    assert_eq!(listed[0].cmd, CommandState::Wake);
    assert_eq!(listed[1].cmd, CommandState::Sleep);
    assert_eq!(listed[2].cmd, CommandState::Wake);
    assert!(listed[0].status);
    assert!(!listed[1].status);
    assert!(listed[2].status);
    assert_eq!(listed[0].timestamp.storage_text(), t1.storage_text());
}

#[test]
fn open_in_a_missing_directory_fails() {
    let r = Database::new("/no-such-directory-anywhere/sugoi.db");
    assert!(matches!(r, Err(StoreError::OpenFailed(_))));
}

#[test]
fn fresh_store_lists_nothing() {
    let db = Database::new(":memory:").unwrap();
    assert_eq!(db.get_statuses().unwrap().len(), 0);
}

#[test]
fn command_kinds_round_trip_through_storage() {
    let mut db = Database::new(":memory:").unwrap();
    db.add_status(Status::new(CommandState::Sleep, String::from("s"), false))
        .unwrap();
    let listed = db.get_statuses().unwrap();
    assert_eq!(listed[0].cmd, CommandState::Sleep);
    assert_eq!(listed[0].cmd.as_str(), "Sleep");
}

#[test]
fn unknown_command_text_fails_the_read() {
    let rows = vec![(
        String::from("2024-01-01T00:00:00Z"),
        String::from("Reboot"),
        String::from("m"),
        true,
    )];
    let r = statuses_from_rows(rows);
    assert!(matches!(r, Err(StoreError::ReadFailed(_))));
}

#[test]
fn valid_rows_convert_in_order() {
    let rows = vec![
        (String::from("t1"), String::from("Wake"), String::from("a"), true),
        (String::from("t2"), String::from("Sleep"), String::from("b"), false),
    ];
    let v = statuses_from_rows(rows).unwrap();
    assert_eq!(v.len(), 2);
    assert_eq!(v[0].cmd, CommandState::Wake);
    assert_eq!(v[0].timestamp.storage_text(), "t1");
    assert_eq!(v[1].cmd, CommandState::Sleep);
    assert_eq!(v[1].msg, "b");
    assert!(!v[1].status);
}

#[test]
fn failed_mac_parse_leaves_the_log_unchanged() {
    // The dispatch policy: an invalid address is rejected before any
    // I/O and nothing is appended, so the log stays as it was.
    let mut db = Database::new(":memory:").unwrap();
    db.add_status(Status::new(CommandState::Wake, String::from("seed"), true))
        .unwrap();
    match plan_wake("zz") {
        WakePlan::Reject { message } => {
            assert_eq!(message, "Invalid Mac Address: zz.");
        }
        WakePlan::Send { .. } => panic!("an invalid address must be rejected"),
    }
    let listed = db.get_statuses().unwrap();
    assert_eq!(listed.len(), 1);
    assert_eq!(listed[0].msg, "seed");
}

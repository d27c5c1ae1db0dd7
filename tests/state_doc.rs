use pura::error::ErrorType;
use pura::state::{State, Status};

#[test]
fn new_state_is_creating() {
    let s = State::new(&String::from("c1"), 0, &String::from("/b"));
    assert_eq!(s.status, Status::Creating);
    assert_eq!(s.oci_version, "1.0.2-dev");
    assert_eq!(s.id, "c1");
    assert_eq!(s.pid, 0);
    assert_eq!(s.bundle, "/b");
}

#[test]
fn mark_created_sets_pid() {
    let mut s = State::new(&String::from("c1"), 0, &String::from("/b"));
    s.mark_created(4242);
    assert_eq!(s.status, Status::Created);
    assert_eq!(s.pid, 4242);
    assert_eq!(s.id, "c1");
}

#[test]
fn lifecycle_moves() {
    let mut s = State::new(&String::from("c1"), 0, &String::from("/b"));
    assert!(!s.transition(Status::Running));
    assert_eq!(s.status, Status::Creating);
    assert!(s.transition(Status::Created));
    assert!(s.transition(Status::Running));
    assert!(!s.transition(Status::Created));
    assert!(s.transition(Status::Stopped));
    assert!(!Status::Stopped.can_transition(Status::Running));
    assert_eq!(Status::Created.as_str(), "created");
}

#[test]
fn state_document_text() {
    let mut s = State::new(&String::from("c1"), 0, &String::from("/run/b"));
    s.mark_created(17);
    assert_eq!(
        s.to_json(),
        "{\"ociVersion\":\"1.0.2-dev\",\"id\":\"c1\",\"status\":\"created\",\"pid\":17,\"bundle\":\"/run/b\"}"
    );
}

#[test]
fn state_round_trip() {
    let mut s = State::new(&String::from("we\"ird\\id\n"), 0, &String::from("/b\tx"));
    s.mark_created(18446744073709551615);
    let text = s.to_json();
    let back = State::from_json(&text).unwrap();
    assert_eq!(back.oci_version, s.oci_version);
    assert_eq!(back.id, s.id);
    assert_eq!(back.status, s.status);
    assert_eq!(back.pid, s.pid);
    assert_eq!(back.bundle, s.bundle);
}

#[test]
fn state_document_escapes() {
    let s = State::new(&String::from("a\"b"), 3, &String::from("c\\d"));
    assert_eq!(
        s.to_json(),
        "{\"ociVersion\":\"1.0.2-dev\",\"id\":\"a\\\"b\",\"status\":\"creating\",\"pid\":3,\"bundle\":\"c\\\\d\"}"
    );
}

#[test]
fn state_document_rejected() {
    for bad in [
        "",
        "{}",
        "{\"ociVersion\":\"1\",\"id\":\"c\",\"status\":\"paused\",\"pid\":1,\"bundle\":\"b\"}",
        "{\"ociVersion\":\"1\",\"id\":\"c\",\"status\":\"created\",\"pid\":x,\"bundle\":\"b\"}",
        "{\"ociVersion\":\"1\",\"id\":\"c\",\"status\":\"created\",\"pid\":18446744073709551616,\"bundle\":\"b\"}",
        "{\"ociVersion\":\"1\",\"id\":\"c\",\"status\":\"created\",\"pid\":1,\"bundle\":\"b\"} ",
    ] {
        let err = State::from_json(bad).unwrap_err();
        assert_eq!(err.err_type, ErrorType::Runtime);
    }
}

#[test]
fn state_document_read() {
    let s = State::from_json(
        "{\"ociVersion\":\"1.0.2-dev\",\"id\":\"x\\/y\",\"status\":\"running\",\"pid\":99,\"bundle\":\"/b\"}",
    )
    .unwrap();
    assert_eq!(s.id, "x/y");
    assert_eq!(s.status, Status::Running);
    assert_eq!(s.pid, 99);
}

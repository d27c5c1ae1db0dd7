use pura::create::{init_message_is_ready, step, Action, Event, Phase};
use pura::layout::{
    config_path, container_dir, default_root_dir, init_lock_path, start_lock_path,
    state_file_path, state_temp_path,
};
use pura::rootfs::SetupStep;
use pura::state::Status;
use pura::text::{join_path, str_eq, to_decimal};

fn drive(events: Vec<Event>) -> (Phase, Vec<Action>) {
    let mut p = Phase::LoadingSpec;
    let mut acts = Vec::new();
    for e in events {
        let (q, a) = step(p, e);
        p = q;
        acts.push(a);
    }
    (p, acts)
}

#[test]
fn create_without_terminal() {
    let (p, acts) = drive(vec![
        Event::SpecLoaded { terminal: false },
        Event::Succeeded,
        Event::Succeeded,
        Event::ChildCloned { pid: 321 },
        Event::InitMessage { text: String::from("0") },
        Event::Succeeded,
        Event::Succeeded,
        Event::Succeeded,
        Event::Succeeded,
    ]);
    assert_eq!(p, Phase::Done);
    assert_eq!(
        acts,
        vec![
            Action::SaveState { status: Status::Creating, pid: 0 },
            Action::CreateInitLock,
            Action::CloneChild,
            Action::WaitInitLock,
            Action::CloseInitLock,
            Action::WritePidFile { pid: 321 },
            Action::SaveState { status: Status::Created, pid: 321 },
            Action::RunHooks,
            Action::Exit { code: 0 },
        ]
    );
}

#[test]
fn create_with_terminal() {
    let (p, acts) = drive(vec![
        Event::SpecLoaded { terminal: true },
        Event::Succeeded,
        Event::Succeeded,
        Event::Succeeded,
        Event::ChildCloned { pid: 5 },
        Event::InitMessage { text: String::from("0") },
        Event::Succeeded,
        Event::Succeeded,
        Event::Succeeded,
        Event::Succeeded,
        Event::Succeeded,
    ]);
    assert_eq!(p, Phase::Done);
    assert_eq!(acts[1], Action::ConnectConsole);
    assert_eq!(acts[9], Action::CloseConsole);
    assert_eq!(acts[10], Action::Exit { code: 0 });
}

#[test]
fn child_failure_exits_two() {
    let msg = SetupStep::BindRootfs.failure_message("No such file or directory");
    assert_eq!(msg, "error mounting rootfs No such file or directory");
    let (p, acts) = drive(vec![
        Event::SpecLoaded { terminal: false },
        Event::Succeeded,
        Event::Succeeded,
        Event::ChildCloned { pid: 44 },
        Event::InitMessage { text: msg },
    ]);
    assert_eq!(p, Phase::Failed { code: 2 });
    assert_eq!(acts.last(), Some(&Action::Exit { code: 2 }));
    assert!(!acts.contains(&Action::CloseInitLock));
}

#[test]
fn spec_failure_exits_one() {
    let (p, acts) = drive(vec![Event::Failed]);
    assert_eq!(p, Phase::Failed { code: 1 });
    assert_eq!(acts, vec![Action::Exit { code: 1 }]);
}

#[test]
fn clone_without_pid_fails() {
    let (p, _) = drive(vec![
        Event::SpecLoaded { terminal: false },
        Event::Succeeded,
        Event::Succeeded,
        Event::ChildCloned { pid: 0 },
    ]);
    assert_eq!(p, Phase::Failed { code: 1 });
}

#[test]
fn hook_failure_stops_container() {
    let (p, acts) = drive(vec![
        Event::SpecLoaded { terminal: false },
        Event::Succeeded,
        Event::Succeeded,
        Event::ChildCloned { pid: 8 },
        Event::InitMessage { text: String::from("0") },
        Event::Succeeded,
        Event::Succeeded,
        Event::Succeeded,
        Event::Failed,
        Event::Succeeded,
        Event::Succeeded,
    ]);
    assert_eq!(p, Phase::Failed { code: 1 });
    assert_eq!(acts[8], Action::KillChild { pid: 8 });
    assert_eq!(acts[9], Action::SaveState { status: Status::Stopped, pid: 8 });
    assert_eq!(acts[10], Action::Exit { code: 1 });
}

#[test]
fn ready_message() {
    assert!(init_message_is_ready("0"));
    assert!(!init_message_is_ready("00"));
    assert!(!init_message_is_ready(""));
    assert!(!init_message_is_ready("error pivot_root x"));
}

#[test]
fn container_paths() {
    let dir = container_dir("/tmp/pura", "c1");
    assert_eq!(dir, "/tmp/pura/c1");
    assert_eq!(init_lock_path(&dir), "/tmp/pura/c1/init.sock");
    assert_eq!(start_lock_path(&dir), "/tmp/pura/c1/run.sock");
    assert_eq!(state_file_path(&dir), "/tmp/pura/c1/state.json");
    assert_eq!(state_temp_path(&dir), "/tmp/pura/c1/state.json.tmp");
    assert_eq!(config_path("/bundle"), "/bundle/config.json");
    assert_eq!(default_root_dir(), "/tmp/pura");
    assert_eq!(join_path("", "x"), "/x");
}

#[test]
fn decimal_text() {
    assert_eq!(to_decimal(0), "0");
    assert_eq!(to_decimal(1234), "1234");
    assert_eq!(to_decimal(u64::MAX), "18446744073709551615");
    assert!(str_eq("abc", "abc"));
    assert!(!str_eq("abc", "abd"));
    assert!(!str_eq("ab", "abc"));
}

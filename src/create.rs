//! The decisions of the `create` operation on the supervisor's side, as a
//! state machine: the caller performs each action and reports how it went.
use vstd::prelude::*;

use crate::state::Status;

verus! {

/// Exit code of a successful operation.
pub const EXIT_OK: u8 = 0;

/// Exit code of an argument, configuration or precondition failure.
pub const EXIT_FAILURE: u8 = 1;

/// Exit code of a child that failed to initialise.
pub const EXIT_CHILD_FAILED: u8 = 2;

/// Where `create` stands. `terminal` is whether the process asked for a
/// terminal; `pid` is the init process, once cloned.
#[derive(Clone, Copy, Debug, PartialEq, Eq, Structural)]
pub enum Phase {
    LoadingSpec,
    SavingInitialState { terminal: bool },
    ConnectingConsole,
    CreatingInitLock { terminal: bool },
    Cloning { terminal: bool },
    WaitingForChild { terminal: bool, pid: u64 },
    ClosingInitLock { terminal: bool, pid: u64 },
    WritingPidFile { terminal: bool, pid: u64 },
    SavingCreatedState { terminal: bool, pid: u64 },
    RunningHooks { terminal: bool, pid: u64 },
    StoppingChild { pid: u64 },
    SavingStoppedState,
    ClosingConsole,
    Done,
    Failed { code: u8 },
}

/// What the caller reports after performing an action.
#[derive(Clone, Debug)]
pub enum Event {
    /// The configuration was read; `terminal` is `process.terminal`.
    SpecLoaded { terminal: bool },
    /// The child was cloned with process id `pid`.
    ChildCloned { pid: u64 },
    /// The init-lock delivered `text`.
    InitMessage { text: String },
    /// The action went through.
    Succeeded,
    /// The action failed.
    Failed,
}

/// What the caller is to do next.
#[derive(Clone, Copy, Debug, PartialEq, Eq, Structural)]
pub enum Action {
    /// Persist the state document with this status and process id.
    SaveState { status: Status, pid: u64 },
    /// Connect to the supervisor's console socket.
    ConnectConsole,
    /// Bind and listen on `<root>/<id>/init.sock`.
    CreateInitLock,
    /// Clone the init process.
    CloneChild,
    /// Wait for the child's message on the init-lock.
    WaitInitLock,
    /// Close the init-lock and unlink its socket.
    CloseInitLock,
    /// Write `pid` to the PID file.
    WritePidFile { pid: u64 },
    /// Run the `prestart` and `createRuntime` hooks.
    RunHooks,
    /// Kill the init process `pid`.
    KillChild { pid: u64 },
    /// Close the console socket.
    CloseConsole,
    /// End the operation with this exit code.
    Exit { code: u8 },
}

/// The init-lock message by which the child reports a prepared environment.
pub open spec fn is_ready_message(text: Seq<char>) -> bool {
    text == "0"@
}

/// Whether the child's init-lock message reports success.
pub fn init_message_is_ready(text: &str) -> (r: bool)
    ensures
        r == is_ready_message(text@),
{
    proof {
        reveal_strlit("0");
    }
    if text.unicode_len() == 1 {
        let c = text.get_char(0);
        proof {
            if c == '0' {
                assert(text@ =~= "0"@);
            }
        }
        c == '0'
    } else {
        false
    }
}

/// Where the operation ends once the init-lock is closed, or fails.
pub open spec fn after_hooks(terminal: bool) -> (Phase, Action) {
    if terminal {
        (Phase::ClosingConsole, Action::CloseConsole)
    } else {
        (Phase::Done, Action::Exit { code: EXIT_OK })
    }
}

/// One move of `create`: from the phase and the caller's report, the next
/// phase and the action to perform.
pub open spec fn next(p: Phase, e: Event) -> (Phase, Action) {
    let fail1 = (Phase::Failed { code: EXIT_FAILURE }, Action::Exit { code: EXIT_FAILURE });
    match p {
        Phase::LoadingSpec => match e {
            Event::SpecLoaded { terminal } => (
                Phase::SavingInitialState { terminal },
                Action::SaveState { status: Status::Creating, pid: 0 },
            ),
            _ => fail1,
        },
        Phase::SavingInitialState { terminal } => match e {
            Event::Succeeded => if terminal {
                (Phase::ConnectingConsole, Action::ConnectConsole)
            } else {
                (Phase::CreatingInitLock { terminal: false }, Action::CreateInitLock)
            },
            _ => fail1,
        },
        Phase::ConnectingConsole => match e {
            Event::Succeeded => (Phase::CreatingInitLock { terminal: true }, Action::CreateInitLock),
            _ => fail1,
        },
        Phase::CreatingInitLock { terminal } => match e {
            Event::Succeeded => (Phase::Cloning { terminal }, Action::CloneChild),
            _ => fail1,
        },
        Phase::Cloning { terminal } => match e {
            Event::ChildCloned { pid } => if pid > 0 {
                (Phase::WaitingForChild { terminal, pid }, Action::WaitInitLock)
            } else {
                fail1
            },
            _ => fail1,
        },
        Phase::WaitingForChild { terminal, pid } => match e {
            Event::InitMessage { text } => if is_ready_message(text@) {
                (Phase::ClosingInitLock { terminal, pid }, Action::CloseInitLock)
            } else {
                (
                    Phase::Failed { code: EXIT_CHILD_FAILED },
                    Action::Exit { code: EXIT_CHILD_FAILED },
                )
            },
            _ => (Phase::Failed { code: EXIT_CHILD_FAILED }, Action::Exit { code: EXIT_CHILD_FAILED }),
        },
        Phase::ClosingInitLock { terminal, pid } => match e {
            Event::Succeeded => (Phase::WritingPidFile { terminal, pid }, Action::WritePidFile { pid }),
            _ => fail1,
        },
        Phase::WritingPidFile { terminal, pid } => match e {
            Event::Succeeded => (
                Phase::SavingCreatedState { terminal, pid },
                Action::SaveState { status: Status::Created, pid },
            ),
            _ => (Phase::StoppingChild { pid }, Action::KillChild { pid }),
        },
        Phase::SavingCreatedState { terminal, pid } => match e {
            Event::Succeeded => (Phase::RunningHooks { terminal, pid }, Action::RunHooks),
            _ => (Phase::StoppingChild { pid }, Action::KillChild { pid }),
        },
        Phase::RunningHooks { terminal, pid } => match e {
            Event::Succeeded => after_hooks(terminal),
            _ => (Phase::StoppingChild { pid }, Action::KillChild { pid }),
        },
        Phase::StoppingChild { pid } => (
            Phase::SavingStoppedState,
            Action::SaveState { status: Status::Stopped, pid },
        ),
        Phase::SavingStoppedState => fail1,
        Phase::ClosingConsole => (Phase::Done, Action::Exit { code: EXIT_OK }),
        Phase::Done => (Phase::Done, Action::Exit { code: EXIT_OK }),
        Phase::Failed { code } => (Phase::Failed { code }, Action::Exit { code }),
    }
}

/// One move of `create`: the next phase and the action to perform.
pub fn step(p: Phase, e: Event) -> (r: (Phase, Action))
    ensures
        r == next(p, e),
{
    let fail1 = (Phase::Failed { code: EXIT_FAILURE }, Action::Exit { code: EXIT_FAILURE });
    let fail2 = (Phase::Failed { code: EXIT_CHILD_FAILED }, Action::Exit { code: EXIT_CHILD_FAILED });
    match p {
        Phase::LoadingSpec => match e {
            Event::SpecLoaded { terminal } => (
                Phase::SavingInitialState { terminal },
                Action::SaveState { status: Status::Creating, pid: 0 },
            ),
            _ => fail1,
        },
        Phase::SavingInitialState { terminal } => match e {
            Event::Succeeded => if terminal {
                (Phase::ConnectingConsole, Action::ConnectConsole)
            } else {
                (Phase::CreatingInitLock { terminal: false }, Action::CreateInitLock)
            },
            _ => fail1,
        },
        Phase::ConnectingConsole => match e {
            Event::Succeeded => (Phase::CreatingInitLock { terminal: true }, Action::CreateInitLock),
            _ => fail1,
        },
        Phase::CreatingInitLock { terminal } => match e {
            Event::Succeeded => (Phase::Cloning { terminal }, Action::CloneChild),
            _ => fail1,
        },
        Phase::Cloning { terminal } => match e {
            Event::ChildCloned { pid } => if pid > 0 {
                (Phase::WaitingForChild { terminal, pid }, Action::WaitInitLock)
            } else {
                fail1
            },
            _ => fail1,
        },
        Phase::WaitingForChild { terminal, pid } => match e {
            Event::InitMessage { text } => if init_message_is_ready(text.as_str()) {
                (Phase::ClosingInitLock { terminal, pid }, Action::CloseInitLock)
            } else {
                fail2
            },
            _ => fail2,
        },
        Phase::ClosingInitLock { terminal, pid } => match e {
            Event::Succeeded => (Phase::WritingPidFile { terminal, pid }, Action::WritePidFile { pid }),
            _ => fail1,
        },
        Phase::WritingPidFile { terminal, pid } => match e {
            Event::Succeeded => (
                Phase::SavingCreatedState { terminal, pid },
                Action::SaveState { status: Status::Created, pid },
            ),
            _ => (Phase::StoppingChild { pid }, Action::KillChild { pid }),
        },
        Phase::SavingCreatedState { terminal, pid } => match e {
            Event::Succeeded => (Phase::RunningHooks { terminal, pid }, Action::RunHooks),
            _ => (Phase::StoppingChild { pid }, Action::KillChild { pid }),
        },
        Phase::RunningHooks { terminal, pid } => match e {
            Event::Succeeded => if terminal {
                (Phase::ClosingConsole, Action::CloseConsole)
            } else {
                (Phase::Done, Action::Exit { code: EXIT_OK })
            },
            _ => (Phase::StoppingChild { pid }, Action::KillChild { pid }),
        },
        Phase::StoppingChild { pid } => (
            Phase::SavingStoppedState,
            Action::SaveState { status: Status::Stopped, pid },
        ),
        Phase::SavingStoppedState => fail1,
        Phase::ClosingConsole => (Phase::Done, Action::Exit { code: EXIT_OK }),
        Phase::Done => (Phase::Done, Action::Exit { code: EXIT_OK }),
        Phase::Failed { code } => (Phase::Failed { code }, Action::Exit { code }),
    }
}

/// The phase and the actions after the caller has reported `events`, one
/// after the other, from phase `p`.
pub open spec fn run(p: Phase, events: Seq<Event>) -> (Phase, Seq<Action>)
    decreases events.len(),
{
    if events.len() == 0 {
        (p, Seq::empty())
    } else {
        let (q, a) = next(p, events[0]);
        let (r, rest) = run(q, events.drop_first());
        (r, seq![a] + rest)
    }
}

/// What the actions issued before phase `p` must hold: once the child is
/// known its pid is positive, and once the PID file is written that pid is
/// its content and the init-lock is gone.
pub open spec fn history_ok(p: Phase, acts: Seq<Action>) -> bool {
    match p {
        Phase::WaitingForChild { pid, .. } => pid > 0,
        Phase::ClosingInitLock { pid, .. } => pid > 0 && acts.contains(Action::CloseInitLock),
        Phase::WritingPidFile { pid, .. } => pid > 0 && acts.contains(Action::CloseInitLock)
            && acts.contains(Action::WritePidFile { pid }),
        Phase::SavingCreatedState { pid, .. } => pid > 0 && acts.contains(Action::CloseInitLock)
            && acts.contains(Action::WritePidFile { pid }),
        Phase::RunningHooks { pid, .. } => pid > 0 && acts.contains(Action::CloseInitLock)
            && acts.contains(Action::WritePidFile { pid }),
        Phase::ClosingConsole => acts.contains(Action::CloseInitLock),
        Phase::Done => acts.contains(Action::CloseInitLock),
        _ => true,
    }
}

proof fn lemma_step_history(p: Phase, e: Event, acts: Seq<Action>)
    requires
        history_ok(p, acts),
    ensures
        history_ok(next(p, e).0, acts.push(next(p, e).1)),
        next(p, e).1 matches Action::SaveState { status: Status::Created, pid }
            ==> pid > 0 && acts.contains(Action::WritePidFile { pid }),
{
    let (q, a) = next(p, e);
    let acts2 = acts.push(a);
    assert(acts2.last() == a);
    assert forall|x: Action| acts.contains(x) implies acts2.contains(x) by {
        let i = choose|i: int| 0 <= i < acts.len() && acts[i] == x;
        assert(acts2[i] == x);
    }
    assert(acts2[acts.len() as int] == a);
}

proof fn lemma_run_history(p: Phase, events: Seq<Event>, acts: Seq<Action>)
    requires
        history_ok(p, acts),
    ensures
        history_ok(run(p, events).0, acts + run(p, events).1),
        forall|pid: u64| (acts + run(p, events).1).contains(
            Action::SaveState { status: Status::Created, pid },
        ) && !acts.contains(Action::SaveState { status: Status::Created, pid })
            ==> pid > 0 && (acts + run(p, events).1).contains(Action::WritePidFile { pid }),
    decreases events.len(),
{
    if events.len() == 0 {
        assert(acts + run(p, events).1 =~= acts);
    } else {
        let (q, a) = next(p, events[0]);
        lemma_step_history(p, events[0], acts);
        let acts2 = acts.push(a);
        lemma_run_history(q, events.drop_first(), acts2);
        let rest = run(q, events.drop_first()).1;
        assert(acts + run(p, events).1 =~= acts2 + rest);
        assert forall|pid: u64| (acts2 + rest).contains(
            Action::SaveState { status: Status::Created, pid },
        ) && !acts.contains(Action::SaveState { status: Status::Created, pid }) implies pid > 0
            && (acts2 + rest).contains(Action::WritePidFile { pid }) by {
            let x = Action::SaveState { status: Status::Created, pid };
            if acts2.contains(x) {
                let i = choose|i: int| 0 <= i < acts2.len() && acts2[i] == x;
                assert(i == acts.len());
                assert(acts.contains(Action::WritePidFile { pid }));
                let j = choose|j: int| 0 <= j < acts.len() && acts[j] == Action::WritePidFile { pid };
                assert((acts2 + rest)[j] == Action::WritePidFile { pid });
            }
        }
    }
}

/// A `create` that records its container as created has written a positive
/// pid to the PID file before, and records that same pid.
pub proof fn lemma_created_state_has_pid_file(events: Seq<Event>, pid: u64)
    requires
        run(Phase::LoadingSpec, events).1.contains(Action::SaveState { status: Status::Created, pid }),
    ensures
        pid > 0,
        run(Phase::LoadingSpec, events).1.contains(Action::WritePidFile { pid }),
{
    let none = Seq::<Action>::empty();
    lemma_run_history(Phase::LoadingSpec, events, none);
    assert(none + run(Phase::LoadingSpec, events).1 =~= run(Phase::LoadingSpec, events).1);
    assert(!none.contains(Action::SaveState { status: Status::Created, pid }));
}

/// A `create` that completes has closed and unlinked its init-lock.
pub proof fn lemma_done_closed_init_lock(events: Seq<Event>)
    requires
        run(Phase::LoadingSpec, events).0 == Phase::Done,
    ensures
        run(Phase::LoadingSpec, events).1.contains(Action::CloseInitLock),
{
    lemma_run_history(Phase::LoadingSpec, events, Seq::empty());
    assert(Seq::<Action>::empty() + run(Phase::LoadingSpec, events).1 =~= run(
        Phase::LoadingSpec,
        events,
    ).1);
}

} // verus!

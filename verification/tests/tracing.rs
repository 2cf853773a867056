use acid::double::ROOT;
use acid::lines::Line;
use acid::ptrace::{
    decide, ptrace, EventKind, Failure, FloatStack, Handle, IntRegisters, Outcome, Panic,
    Progress, RegsFile, Reply, Request, Session, SysError, TraceEvent, Verdict, WaitFor, LAST_ID,
};
use acid::script::{full_script, Banner, Op, Stop, Who, Yield, EXIT_CODE, SCRIPT_LEN};

const PID: usize = 77;

fn regs(rax: usize, rdi: usize) -> IntRegisters {
    IntRegisters {
        r15: 15,
        r14: 14,
        r13: 13,
        r12: 12,
        rbp: 5,
        rbx: 3,
        r11: 11,
        r10: 10,
        r9: 9,
        r8: 8,
        rax,
        rcx: 2,
        rdx: 4,
        rsi: 6,
        rdi,
        rip: 0x400000,
        cs: 1,
        rflags: 0x202,
        rsp: 0x8000,
        ss: 7,
        fs: 16,
    }
}

fn failed(message: &str, code: Option<i32>) -> Reply {
    Reply::Failed(SysError { message: message.to_string(), code })
}

fn event(kind: EventKind, debug: &str) -> Reply {
    Reply::Events(vec![TraceEvent { kind, debug: debug.to_string() }])
}

fn stack(first: u64, second: u64, third: u64) -> Reply {
    let mut bytes = [0u8; 24];
    bytes[..8].copy_from_slice(&first.to_le_bytes());
    bytes[8..16].copy_from_slice(&second.to_le_bytes());
    bytes[16..].copy_from_slice(&third.to_le_bytes());
    Reply::Bytes(bytes)
}

fn floats(top: u64, all: [u64; 8]) -> Reply {
    Reply::Floats(FloatStack { top, all })
}

/// The answer of a kernel that does everything right.
fn right_answer(op: Op, id: usize) -> Reply {
    match op {
        Op::Clone => Reply::Value(PID),
        Op::GetPid => Reply::Value(76),
        Op::AwaitStop => Reply::Value(0x137f),
        Op::ReadRegs(_, rax, rdi) => Reply::Registers(regs(rax.unwrap_or(5), rdi.unwrap_or(0))),
        Op::ReadStack => stack(1, 2, 3),
        Op::ReadCursor => Reply::Value(0x8000 + 24),
        Op::ReadFloats => floats(ROOT, [ROOT, 0, 0, 0, 0, 0, 0, 0]),
        Op::NextEvent(wanted) => Reply::Handler(wanted != Yield::Nothing),
        Op::Events(Yield::SignalEvent) => {
            event(EventKind::Signal(syscall::SIGUSR1), "Signal(10)")
        }
        Op::Events(_) => event(EventKind::Clone(78), "Clone(78)"),
        Op::Retry => Reply::Handler(false),
        Op::ExpectGone(_, _) => failed("No such process", Some(syscall::ESRCH)),
        Op::Reap(code) => Reply::Value(code << 8),
        Op::OpenForbidden => {
            if id % 2 == 0 {
                failed("No such process", Some(syscall::ESRCH))
            } else {
                failed("Operation not permitted", Some(syscall::EPERM))
            }
        }
        _ => Reply::Done,
    }
}

/// A session that has had right answers up to a place in the script.
fn session_at(place: usize) -> Session {
    let script = full_script();
    let mut session = Session::start();
    for op in &script[..place] {
        let reply = right_answer(*op, 0);
        assert!(session.accepts(&reply));
        assert_eq!(ptrace(&mut session, reply), Outcome::Going);
    }
    assert_eq!(session.progress().at, place);
    session
}

fn place_of(wanted: Op) -> usize {
    full_script().iter().position(|op| *op == wanted).unwrap()
}

fn outcome_at(place: usize, reply: Reply) -> Outcome {
    let mut session = session_at(place);
    assert!(session.accepts(&reply));
    let outcome = ptrace(&mut session, reply);
    assert_eq!(session.progress().over, outcome != Outcome::Going);
    outcome
}

#[test]
fn the_script_uses_the_numbers_of_the_system() {
    let script = full_script();
    assert_eq!(script.len(), SCRIPT_LEN);
    let numbers: Vec<usize> = script
        .iter()
        .filter_map(|op| match op {
            Op::ReadRegs(_, rax, _) => *rax,
            _ => None,
        })
        .collect();
    assert_eq!(
        numbers,
        vec![
            1,
            2,
            2,
            3,
            2,
            1,
            syscall::SYS_GETPID,
            syscall::SYS_EXIT,
            syscall::SYS_SIGACTION,
            syscall::SYS_GETPID,
            syscall::SYS_KILL,
            syscall::SYS_YIELD,
            syscall::SYS_SIGRETURN,
            syscall::SYS_KILL,
            syscall::SYS_YIELD,
            syscall::SYS_SIGRETURN,
            syscall::SYS_GETPID,
            syscall::SYS_EXIT,
        ]
    );
}

#[test]
fn a_right_kernel_passes() {
    let script = full_script();
    let mut session = Session::start();
    let mut answers = 0;
    let mut opened = 0;
    loop {
        let progress = session.progress();
        let request = session.request();
        if let Request::OpenRegs(id) = request {
            assert_eq!(id, opened);
            opened += 1;
        }
        let reply = right_answer(script[progress.at], progress.id);
        answers += 1;
        match ptrace(&mut session, reply) {
            Outcome::Going => {}
            outcome => {
                assert_eq!(outcome, Outcome::Passed);
                break;
            }
        }
    }
    assert_eq!(opened, LAST_ID + 1);
    assert_eq!(answers, SCRIPT_LEN + LAST_ID);
    assert!(session.progress().over);
}

#[test]
fn the_test_begins_by_starting_and_attaching() {
    let requests: Vec<Request> = (0..15).map(|place| session_at(place).request()).collect();
    assert_eq!(
        requests,
        vec![
            Request::Clone,
            Request::GetPid,
            Request::Print(Line::MyPid(76)),
            Request::Print(Line::WaitingFor(PID)),
            Request::WaitPid(PID, WaitFor::Untraced),
            Request::Print(Line::Fixed(Banner::Attaching)),
            Request::OpenTrace(PID),
            Request::Dup(Handle::Trace, RegsFile::Int),
            Request::Dup(Handle::IntRegs, RegsFile::Float),
            Request::AttachMemory(PID),
            Request::Print(Line::Fixed(Banner::ScheduleRestart)),
            Request::Kill(PID, syscall::SIGCONT),
            Request::Print(Line::Fixed(Banner::SteppingAway)),
            Request::Next(Who::Tracee, Stop::Instruction),
            Request::Print(Line::Fixed(Banner::SingleStepping)),
        ]
    );
}

#[test]
fn register_files_are_reached_one_from_the_other() {
    assert_eq!(RegsFile::Int.reached_from(), Handle::Trace);
    assert_eq!(RegsFile::Float.reached_from(), Handle::IntRegs);
}

#[test]
fn the_child_leaves_the_test() {
    assert_eq!(outcome_at(0, Reply::Value(0)), Outcome::Tracee);
}

#[test]
fn errors_are_reported() {
    for place in [0, 1, 4, 6, 9, 13, 16, 32, 43, 45, 52, 89, 121, 127] {
        assert_eq!(
            outcome_at(place, failed("Bad address", Some(14))),
            Outcome::Failed(Failure::Reported("Bad address".to_string()))
        );
    }
}

#[test]
fn a_line_cannot_fail() {
    assert!(!session_at(2).accepts(&failed("No", None)));
    assert!(!session_at(2).accepts(&Reply::Value(1)));
    assert!(session_at(2).accepts(&Reply::Done));
    assert!(!session_at(0).accepts(&Reply::Done));
}

#[test]
fn single_steps_are_held_to_rax() {
    assert_eq!(
        outcome_at(22, Reply::Registers(regs(4, 0))),
        Outcome::Panicked(Panic::Rax(3, 4))
    );
}

#[test]
fn the_stack_is_held_to_three_words() {
    let place = place_of(Op::ReadStack);
    assert_eq!(session_at(place).request(), Request::ReadMemory(0x8000));
    assert_eq!(
        outcome_at(place, stack(3, 2, 1)),
        Outcome::Panicked(Panic::Stack(3, 2, 1))
    );
}

#[test]
fn the_cursor_is_held_to_the_end_of_the_stack() {
    let place = place_of(Op::ReadCursor);
    assert_eq!(
        outcome_at(place, Reply::Value(0x8000)),
        Outcome::Panicked(Panic::Cursor(0x8018, 0x8000))
    );
    let mut progress = session_at(place).progress();
    progress.regs.rsp = usize::MAX - 23;
    assert!(matches!(
        decide(Op::ReadCursor, progress, Reply::Value(0)),
        Verdict::Panicked(Panic::StackEnd)
    ));
}

#[test]
fn the_floating_point_stack_is_held_to_the_root() {
    let place = place_of(Op::ReadFloats);
    let zero = (-0.0f64).to_bits();
    assert_eq!(
        outcome_at(place, floats(ROOT, [ROOT, zero, 0, zero, 0, 0, 0, zero])),
        Outcome::Going
    );
    assert_eq!(
        outcome_at(place, floats(ROOT, [ROOT, 0, 0, 0, 0, 0, 0, 1])),
        Outcome::Panicked(Panic::FloatStack(FloatStack {
            top: ROOT,
            all: [ROOT, 0, 0, 0, 0, 0, 0, 1],
        }))
    );
    let nan = f64::NAN.to_bits();
    assert_eq!(
        outcome_at(place, floats(nan, [nan, 0, 0, 0, 0, 0, 0, 0])),
        Outcome::Panicked(Panic::FloatStack(FloatStack {
            top: nan,
            all: [nan, 0, 0, 0, 0, 0, 0, 0],
        }))
    );
    assert_eq!(
        outcome_at(place, floats(ROOT + 1, [ROOT + 1, 0, 0, 0, 0, 0, 0, 0])),
        Outcome::Panicked(Panic::Root(ROOT + 1))
    );
}

#[test]
fn a_fork_must_come_up_when_it_is_due() {
    let early = place_of(Op::NextEvent(Yield::Nothing));
    assert_eq!(
        outcome_at(early, Reply::Handler(true)),
        Outcome::Panicked(Panic::UnexpectedEvent)
    );
    let due = place_of(Op::NextEvent(Yield::ForkEvent));
    assert_eq!(
        outcome_at(due, Reply::Handler(false)),
        Outcome::Failed(Failure::NoForkEvent)
    );
    let signal = place_of(Op::NextEvent(Yield::SignalEvent));
    assert_eq!(
        outcome_at(signal, Reply::Handler(false)),
        Outcome::Failed(Failure::NoSignalEvent)
    );
    assert_eq!(
        outcome_at(place_of(Op::Retry), Reply::Handler(true)),
        Outcome::Panicked(Panic::UnexpectedEvent)
    );
}

#[test]
fn events_are_held_to_their_kind() {
    let fork = place_of(Op::Events(Yield::ForkEvent));
    assert_eq!(
        outcome_at(fork, Reply::Events(vec![])),
        Outcome::Panicked(Panic::EventCount(0))
    );
    assert_eq!(
        outcome_at(fork, event(EventKind::Signal(10), "Signal(10)")),
        Outcome::Failed(Failure::WrongEvent("Signal(10)".to_string()))
    );
    assert_eq!(
        outcome_at(fork, event(EventKind::Other, "Exit")),
        Outcome::Failed(Failure::WrongEvent("Exit".to_string()))
    );
    let signal = place_of(Op::Events(Yield::SignalEvent));
    assert_eq!(
        outcome_at(signal, event(EventKind::Signal(9), "Signal(9)")),
        Outcome::Panicked(Panic::Signal(syscall::SIGUSR1, 9))
    );
}

#[test]
fn the_fork_is_traced_by_its_number() {
    assert_eq!(session_at(place_of(Op::AttachFork)).request(), Request::AttachFork(78));
    assert_eq!(
        session_at(place_of(Op::SayForkObtained)).request(),
        Request::Print(Line::ForkObtained(78))
    );
}

#[test]
fn a_process_that_is_gone_must_be_gone() {
    for place in [
        place_of(Op::ExpectGone(Who::Fork, Stop::Completion)),
        place_of(Op::ExpectGone(Who::Tracee, Stop::Syscall)),
    ] {
        assert_eq!(
            outcome_at(place, Reply::Done),
            Outcome::Panicked(Panic::StillThere)
        );
        assert_eq!(
            outcome_at(place, failed("Operation not permitted", Some(syscall::EPERM))),
            Outcome::Panicked(Panic::WrongCode(Some(syscall::EPERM)))
        );
    }
}

#[test]
fn only_rax_is_overridden() {
    let session = session_at(place_of(Op::WriteRax(EXIT_CODE)));
    assert_eq!(
        session.request(),
        Request::SetInt(IntRegisters { rax: 123, ..regs(syscall::SYS_GETPID, 0) })
    );
}

#[test]
fn the_exit_is_held_to_the_override() {
    let place = place_of(Op::ReadRegs(Who::Tracee, Some(syscall::SYS_EXIT), Some(123)));
    assert_eq!(
        outcome_at(place, Reply::Registers(regs(syscall::SYS_EXIT, 77))),
        Outcome::Panicked(Panic::Rdi(123, 77))
    );
    assert_eq!(
        outcome_at(place, Reply::Registers(regs(syscall::SYS_KILL, 123))),
        Outcome::Panicked(Panic::Rax(syscall::SYS_EXIT, syscall::SYS_KILL))
    );
}

#[test]
fn the_status_is_held_to_the_override() {
    let place = place_of(Op::Reap(123));
    assert_eq!(session_at(place).request(), Request::WaitPid(PID, WaitFor::NoHang));
    assert_eq!(outcome_at(place, Reply::Value(123 << 8)), Outcome::Going);
    assert_eq!(
        outcome_at(place, Reply::Value((123 << 8) | 9)),
        Outcome::Panicked(Panic::NotExited((123 << 8) | 9))
    );
    assert_eq!(
        outcome_at(place, Reply::Value(77 << 8)),
        Outcome::Panicked(Panic::ExitCode(123, 77))
    );
}

#[test]
fn forbidden_requests_must_be_refused() {
    let place = place_of(Op::OpenForbidden);
    assert_eq!(
        outcome_at(place, Reply::Done),
        Outcome::Panicked(Panic::NotRefused(0, None))
    );
    assert_eq!(
        outcome_at(place, failed("No such file or directory", Some(2))),
        Outcome::Panicked(Panic::NotRefused(0, Some(2)))
    );
    let mut session = session_at(place);
    let refusal = failed("No such process", Some(syscall::ESRCH));
    assert_eq!(ptrace(&mut session, refusal), Outcome::Going);
    assert_eq!(session.request(), Request::OpenRegs(1));
    let last = Progress { id: LAST_ID, ..session.progress() };
    let refusal = failed("Operation not permitted", Some(syscall::EPERM));
    assert!(matches!(decide(Op::OpenForbidden, last, refusal), Verdict::Next(_)));
}

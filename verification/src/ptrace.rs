//! The `ptrace` test: a child is started, traced, and held to what it does.
//!
//! The test is a conversation. [`Session::request`] says what is wanted of the
//! kernel next, and [`ptrace`] takes the answer and says how the test stands.

use crate::abi::{
    cont_signal, eperm, esrch, exit_code, exited, no_such_process, not_permitted, sigcont, sigusr1,
    user_signal,
};
use crate::double::{is_near_root, near_root, same, same_double};
use crate::lines::{labelled, Line};
use crate::script::{full_script, script, Op, Stop, Who, Yield, SCRIPT_LEN};
use crate::text::{append_debug_option, debug_option, decimal};
use crate::word::{word, word_at};
use vstd::prelude::*;

verus! {

/// The integer registers of a traced process.
#[derive(Clone, Copy, Debug, PartialEq, Eq)]
pub struct IntRegisters {
    pub r15: usize,
    pub r14: usize,
    pub r13: usize,
    pub r12: usize,
    pub rbp: usize,
    pub rbx: usize,
    pub r11: usize,
    pub r10: usize,
    pub r9: usize,
    pub r8: usize,
    pub rax: usize,
    pub rcx: usize,
    pub rdx: usize,
    pub rsi: usize,
    pub rdi: usize,
    pub rip: usize,
    pub cs: usize,
    pub rflags: usize,
    pub rsp: usize,
    pub ss: usize,
    pub fs: usize,
}

/// The floating-point registers of a traced process, as the bits of doubles.
#[derive(Clone, Copy, Debug, PartialEq, Eq)]
pub struct FloatStack {
    /// The first register, read by itself.
    pub top: u64,
    /// All eight registers.
    pub all: [u64; 8],
}

/// What came up while a traced process ran.
#[derive(Clone, Copy, Debug, PartialEq, Eq)]
pub enum EventKind {
    /// The process was cloned; the number is that of the new process.
    Clone(usize),
    /// The process was sent a signal.
    Signal(usize),
    /// Anything else.
    Other,
}

/// An event, and the form in which it is shown for debugging.
#[derive(Clone, Debug, PartialEq, Eq)]
pub struct TraceEvent {
    pub kind: EventKind,
    pub debug: String,
}

/// An error of the kernel: its text, and its code where it has one.
#[derive(Clone, Debug, PartialEq, Eq)]
pub struct SysError {
    pub message: String,
    pub code: Option<i32>,
}

/// How a child is waited for.
#[derive(Clone, Copy, Debug, PartialEq, Eq)]
pub enum WaitFor {
    /// Until it exits or stops.
    Untraced,
    /// Not at all: its status is taken if it is there.
    NoHang,
}

/// A file of the child that holds registers.
#[derive(Clone, Copy, Debug, PartialEq, Eq)]
pub enum RegsFile {
    /// The integer registers.
    Int,
    /// The floating-point registers.
    Float,
}

/// An open file of the child that another is reached from.
#[derive(Clone, Copy, Debug, PartialEq, Eq)]
pub enum Handle {
    /// The trace file.
    Trace,
    /// The integer registers.
    IntRegs,
}

/// What is wanted of the kernel, or of the terminal.
#[derive(Clone, Copy, Debug, PartialEq, Eq)]
pub enum Request {
    /// Print a line.
    Print(Line),
    /// Split off a child that shares nothing.
    Clone,
    /// Give the own process number.
    GetPid,
    /// Wait for a child and give its status.
    WaitPid(usize, WaitFor),
    /// Open the trace file of a process; see [`trace_path`].
    OpenTrace(usize),
    /// Open a register file of the child from another file of it; see
    /// [`RegsFile::name`].
    Dup(Handle, RegsFile),
    /// Open the memory of a process.
    AttachMemory(usize),
    /// Send a process a signal.
    Kill(usize, usize),
    /// Let a process run.
    Next(Who, Stop),
    /// Read the integer registers of a process.
    GetInt(Who),
    /// Write the integer registers of the child.
    SetInt(IntRegisters),
    /// Read the floating-point registers of the child.
    GetFloat,
    /// Read three words of the child's memory from an address on.
    ReadMemory(usize),
    /// Give the position in the child's memory.
    Cursor,
    /// Let the child run up to a system call, and tell whether events came up.
    NextEvent,
    /// Give the events that came up.
    Events,
    /// Go on waiting behind the events, and tell whether others came up.
    Retry,
    /// Trace a process as the fork.
    AttachFork(usize),
    /// Let requests return before they are met.
    Nonblocking,
    /// Let requests return when they are met.
    Blocking,
    /// Wait for the child to reach its breakpoint.
    Wait,
    /// Open the integer registers of a process; see [`regs_path`].
    OpenRegs(usize),
}

/// The answer to a request.
#[derive(Clone, Debug, PartialEq, Eq)]
pub enum Reply {
    /// It was done, and there is nothing to say.
    Done,
    /// It failed.
    Failed(SysError),
    /// A number: a process number, a status or a position.
    Value(usize),
    /// Integer registers.
    Registers(IntRegisters),
    /// Floating-point registers.
    Floats(FloatStack),
    /// Three words of memory.
    Bytes([u8; 24]),
    /// Whether events came up.
    Handler(bool),
    /// The events that came up.
    Events(Vec<TraceEvent>),
}

/// Why the test failed.
#[derive(Clone, Debug, PartialEq, Eq)]
pub enum Failure {
    /// A request failed, with this text.
    Reported(String),
    /// No event came up where a fork was due.
    NoForkEvent,
    /// No event came up where a signal was due.
    NoSignalEvent,
    /// An event of another kind came up.
    WrongEvent(String),
}

/// Which of the insisted answers did not come.
#[derive(Clone, Copy, Debug, PartialEq, Eq)]
pub enum Panic {
    /// `rax` held something else: what was expected, what was found.
    Rax(usize, usize),
    /// `rdi` held something else: what was expected, what was found.
    Rdi(usize, usize),
    /// The stack held other words.
    Stack(u64, u64, u64),
    /// The end of the stack cannot be counted.
    StackEnd,
    /// The position in memory was another: what was expected, what was found.
    Cursor(usize, usize),
    /// The floating-point stack was not empty below its top.
    FloatStack(FloatStack),
    /// The square root was another, with these bits.
    Root(u64),
    /// An event came up where none was due.
    UnexpectedEvent,
    /// Not exactly one event came up.
    EventCount(usize),
    /// Another signal came up: what was expected, what was found.
    Signal(usize, usize),
    /// A process that should be gone is still there.
    StillThere,
    /// A process that should be gone failed in another way.
    WrongCode(Option<i32>),
    /// The child did not exit of its own accord.
    NotExited(usize),
    /// The child exited with another code: what was expected, what was found.
    ExitCode(usize, usize),
    /// A forbidden request for a process was not refused: what came in place.
    NotRefused(usize, Option<i32>),
}

/// How the test stands.
#[derive(Clone, Debug, PartialEq, Eq)]
pub enum Outcome {
    /// There is another request.
    Going,
    /// This is the child: it is to run what the other side traces.
    Tracee,
    /// The test passed.
    Passed,
    /// The test failed.
    Failed(Failure),
    /// The test broke off.
    Panicked(Panic),
}

/// What the test has in mind between two requests.
#[derive(Clone, Copy, Debug, PartialEq, Eq)]
pub struct Progress {
    /// The position in the script.
    pub at: usize,
    /// The test is over.
    pub over: bool,
    /// The process number of the child.
    pub pid: usize,
    /// The own process number.
    pub own: usize,
    /// The process number in the last fork event.
    pub fork: usize,
    /// The process number of the next forbidden request.
    pub id: usize,
    /// The registers that were read last.
    pub regs: IntRegisters,
}

/// The last process number that is tried with a forbidden request.
pub const LAST_ID: usize = 1_000_000;

/// The size of the stack that is looked at.
pub const STACK_BYTES: usize = 24;

/// What an answer makes of the test.
pub enum Verdict {
    /// The script goes on.
    Next(Progress),
    /// The same thing is done again.
    Again(Progress),
    /// This is the child.
    Tracee,
    /// The test failed.
    Failed(Failure),
    /// The test broke off.
    Panicked(Panic),
}

/// The registers with nothing in them.
pub open spec fn no_registers() -> IntRegisters {
    IntRegisters {
        r15: 0,
        r14: 0,
        r13: 0,
        r12: 0,
        rbp: 0,
        rbx: 0,
        r11: 0,
        r10: 0,
        r9: 0,
        r8: 0,
        rax: 0,
        rcx: 0,
        rdx: 0,
        rsi: 0,
        rdi: 0,
        rip: 0,
        cs: 0,
        rflags: 0,
        rsp: 0,
        ss: 0,
        fs: 0,
    }
}

/// Where the test begins.
pub open spec fn beginning() -> Progress {
    Progress { at: 0, over: false, pid: 0, own: 0, fork: 0, id: 0, regs: no_registers() }
}

/// What a thing in the script wants of the kernel.
pub open spec fn request_for(op: Op, p: Progress) -> Request {
    match op {
        Op::Say(banner) => Request::Print(Line::Fixed(banner)),
        Op::SayMyPid => Request::Print(Line::MyPid(p.own)),
        Op::SayWaiting => Request::Print(Line::WaitingFor(p.pid)),
        Op::SayForkObtained => Request::Print(Line::ForkObtained(p.fork)),
        Op::SayForkAttached => Request::Print(Line::ForkAttached(p.fork)),
        Op::SayRax => Request::Print(Line::Rax(p.regs.rax)),
        Op::Clone => Request::Clone,
        Op::GetPid => Request::GetPid,
        Op::AwaitStop => Request::WaitPid(p.pid, WaitFor::Untraced),
        Op::OpenTrace => Request::OpenTrace(p.pid),
        Op::DupIntRegs => Request::Dup(Handle::Trace, RegsFile::Int),
        Op::DupFloatRegs => Request::Dup(Handle::IntRegs, RegsFile::Float),
        Op::AttachMemory => Request::AttachMemory(p.pid),
        Op::Continue => Request::Kill(p.pid, cont_signal()),
        Op::Next(who, stop) => Request::Next(who, stop),
        Op::ReadRegs(who, _, _) => Request::GetInt(who),
        Op::ReadStack => Request::ReadMemory(p.regs.rsp),
        Op::ReadCursor => Request::Cursor,
        Op::ReadFloats => Request::GetFloat,
        Op::NextEvent(_) => Request::NextEvent,
        Op::Events(_) => Request::Events,
        Op::Retry => Request::Retry,
        Op::AttachFork => Request::AttachFork(p.fork),
        Op::ExpectGone(who, stop) => Request::Next(who, stop),
        Op::Nonblocking => Request::Nonblocking,
        Op::Blocking => Request::Blocking,
        Op::Wait => Request::Wait,
        Op::WriteRax(value) => Request::SetInt(IntRegisters { rax: value, ..p.regs }),
        Op::Reap(_) => Request::WaitPid(p.pid, WaitFor::NoHang),
        Op::OpenForbidden => Request::OpenRegs(p.id),
    }
}

/// The answer is of a kind that the request can have. Printing does not fail.
pub open spec fn answers(request: Request, reply: Reply) -> bool {
    match reply {
        Reply::Failed(_) => !(request is Print),
        Reply::Value(_) => request is Clone || request is GetPid || request is Cursor
            || request is WaitPid,
        Reply::Registers(_) => request is GetInt,
        Reply::Floats(_) => request is GetFloat,
        Reply::Bytes(_) => request is ReadMemory,
        Reply::Handler(_) => request is NextEvent || request is Retry,
        Reply::Events(_) => request is Events,
        Reply::Done => match request {
            Request::Print(_) | Request::OpenTrace(_) | Request::Dup(_, _) | Request::AttachMemory(_)
            | Request::Kill(_, _) | Request::Next(_, _) | Request::SetInt(_)
            | Request::AttachFork(_) | Request::Nonblocking | Request::Blocking | Request::Wait
            | Request::OpenRegs(_) => true,
            _ => false,
        },
    }
}

/// The floating-point stack holds its top, and zeros below it.
pub open spec fn float_stack_clear(floats: FloatStack) -> bool {
    &&& same(floats.all@[0], floats.top)
    &&& forall|i: int| 1 <= i < 8 ==> same(#[trigger] floats.all@[i], 0)
}

/// The code of a request that was refused: not permitted, or no such process.
pub open spec fn refused(code: Option<i32>) -> bool {
    code == Some(not_permitted()) || code == Some(no_such_process())
}

/// The code that comes with an answer.
pub open spec fn reply_code(reply: Reply) -> Option<i32> {
    match reply {
        Reply::Failed(err) => err.code,
        _ => None,
    }
}

/// What an answer that is not an error makes of the test.
pub open spec fn judge_success(op: Op, p: Progress, reply: Reply) -> Verdict {
    match (op, reply) {
        (Op::Clone, Reply::Value(pid)) => if pid == 0 {
            Verdict::Tracee
        } else {
            Verdict::Next(Progress { pid, ..p })
        },
        (Op::GetPid, Reply::Value(own)) => Verdict::Next(Progress { own, ..p }),
        (Op::ReadRegs(_, rax, rdi), Reply::Registers(regs)) => if rax is Some && rax->0
            != regs.rax {
            Verdict::Panicked(Panic::Rax(rax->0, regs.rax))
        } else if rdi is Some && rdi->0 != regs.rdi {
            Verdict::Panicked(Panic::Rdi(rdi->0, regs.rdi))
        } else {
            Verdict::Next(Progress { regs, ..p })
        },
        (Op::ReadStack, Reply::Bytes(bytes)) => {
            let words = (word_at(bytes@, 0), word_at(bytes@, 1), word_at(bytes@, 2));
            if words == (1nat, 2nat, 3nat) {
                Verdict::Next(p)
            } else {
                Verdict::Panicked(Panic::Stack(words.0 as u64, words.1 as u64, words.2 as u64))
            }
        },
        (Op::ReadCursor, Reply::Value(cursor)) => {
            let end = p.regs.rsp + STACK_BYTES;
            if end > usize::MAX {
                Verdict::Panicked(Panic::StackEnd)
            } else if cursor != end {
                Verdict::Panicked(Panic::Cursor(end as usize, cursor))
            } else {
                Verdict::Next(p)
            }
        },
        (Op::ReadFloats, Reply::Floats(floats)) => if !float_stack_clear(floats) {
            Verdict::Panicked(Panic::FloatStack(floats))
        } else if !near_root(floats.top) {
            Verdict::Panicked(Panic::Root(floats.top))
        } else {
            Verdict::Next(p)
        },
        (Op::NextEvent(wanted), Reply::Handler(came_up)) => match wanted {
            Yield::Nothing => if came_up {
                Verdict::Panicked(Panic::UnexpectedEvent)
            } else {
                Verdict::Next(p)
            },
            Yield::ForkEvent => if came_up {
                Verdict::Next(p)
            } else {
                Verdict::Failed(Failure::NoForkEvent)
            },
            Yield::SignalEvent => if came_up {
                Verdict::Next(p)
            } else {
                Verdict::Failed(Failure::NoSignalEvent)
            },
        },
        (Op::Events(wanted), Reply::Events(events)) => if events@.len() != 1 {
            Verdict::Panicked(Panic::EventCount(events@.len() as usize))
        } else {
            match (wanted, events@[0].kind) {
                (Yield::ForkEvent, EventKind::Clone(pid)) => Verdict::Next(
                    Progress { fork: pid, ..p },
                ),
                (Yield::SignalEvent, EventKind::Signal(signal)) => if signal == user_signal() {
                    Verdict::Next(p)
                } else {
                    Verdict::Panicked(Panic::Signal(user_signal(), signal))
                },
                _ => Verdict::Failed(Failure::WrongEvent(events@[0].debug)),
            }
        },
        (Op::Retry, Reply::Handler(came_up)) => if came_up {
            Verdict::Panicked(Panic::UnexpectedEvent)
        } else {
            Verdict::Next(p)
        },
        (Op::Reap(code), Reply::Value(status)) => if !exited(status) {
            Verdict::Panicked(Panic::NotExited(status))
        } else if exit_code(status) != code {
            Verdict::Panicked(Panic::ExitCode(code, exit_code(status)))
        } else {
            Verdict::Next(p)
        },
        _ => Verdict::Next(p),
    }
}

/// What an answer makes of the test.
pub open spec fn judge(op: Op, p: Progress, reply: Reply) -> Verdict {
    match op {
        Op::ExpectGone(_, _) => match reply {
            Reply::Failed(err) => if err.code == Some(no_such_process()) {
                Verdict::Next(p)
            } else {
                Verdict::Panicked(Panic::WrongCode(err.code))
            },
            _ => Verdict::Panicked(Panic::StillThere),
        },
        Op::OpenForbidden => if !refused(reply_code(reply)) {
            Verdict::Panicked(Panic::NotRefused(p.id, reply_code(reply)))
        } else if p.id < LAST_ID {
            Verdict::Again(Progress { id: (p.id + 1) as usize, ..p })
        } else {
            Verdict::Next(p)
        },
        _ => match reply {
            Reply::Failed(err) => Verdict::Failed(Failure::Reported(err.message)),
            _ => judge_success(op, p, reply),
        },
    }
}

/// What the test wants next.
pub open spec fn wanted(p: Progress) -> Request {
    request_for(script()[p.at as int], p)
}

/// The progress of a test that can still be at work.
pub open spec fn valid(p: Progress) -> bool {
    p.at < SCRIPT_LEN && p.id <= LAST_ID
}

/// How a test goes on with an answer.
pub open spec fn advance(p: Progress, reply: Reply) -> (Progress, Outcome) {
    match judge(script()[p.at as int], p, reply) {
        Verdict::Next(q) => if p.at + 1 < SCRIPT_LEN {
            (Progress { at: (p.at + 1) as usize, ..q }, Outcome::Going)
        } else {
            (Progress { over: true, ..q }, Outcome::Passed)
        },
        Verdict::Again(q) => (q, Outcome::Going),
        Verdict::Tracee => (Progress { over: true, ..p }, Outcome::Tracee),
        Verdict::Failed(failure) => (Progress { over: true, ..p }, Outcome::Failed(failure)),
        Verdict::Panicked(panic) => (Progress { over: true, ..p }, Outcome::Panicked(panic)),
    }
}

/// The path of the trace file of a process.
pub open spec fn trace_path_text(pid: usize) -> Seq<char> {
    "proc:"@ + decimal(pid as nat) + "/trace"@
}

/// The path of the integer registers of a process.
pub open spec fn regs_path_text(id: usize) -> Seq<char> {
    "proc:"@ + decimal(id as nat) + "/regs/int"@
}

/// The text of a failure.
pub open spec fn failure_text(failure: Failure) -> Seq<char> {
    match failure {
        Failure::Reported(message) => message@,
        Failure::NoForkEvent => "Syscall completed without yielding fork event"@,
        Failure::NoSignalEvent => "Syscall completed without yielding  event"@,
        Failure::WrongEvent(debug) => "Wrong event type: "@ + debug@,
    }
}

/// The text for a forbidden request that was not refused.
pub open spec fn not_refused_text(id: usize, code: Option<i32>) -> Seq<char> {
    "The cops ignored that I tried to illegally open PID "@ + decimal(id as nat) + ": "@
        + debug_option(code)
}

/// The path of the trace file of a process.
pub fn trace_path(pid: usize) -> (path: String)
    ensures
        path@ == trace_path_text(pid),
{
    labelled("proc:", pid, "/trace")
}

/// The path of the integer registers of a process.
pub fn regs_path(id: usize) -> (path: String)
    ensures
        path@ == regs_path_text(id),
{
    labelled("proc:", id, "/regs/int")
}

/// The text for a forbidden request that was not refused.
pub fn not_refused_message(id: usize, code: Option<i32>) -> (text: String)
    ensures
        text@ == not_refused_text(id, code),
{
    let mut text = labelled("The cops ignored that I tried to illegally open PID ", id, ": ");
    append_debug_option(&mut text, code);
    text
}

impl RegsFile {
    /// The file that the register file is reached from: the integer registers from the
    /// trace file, and the floating-point registers from the integer registers.
    pub fn reached_from(self) -> (from: Handle)
        ensures
            self is Int ==> from is Trace,
            self is Float ==> from is IntRegs,
    {
        match self {
            RegsFile::Int => Handle::Trace,
            RegsFile::Float => Handle::IntRegs,
        }
    }

    /// The name that the register file is reached by.
    pub fn name(self) -> (name: &'static str)
        ensures
            name@ == (match self {
                RegsFile::Int => "regs/int"@,
                RegsFile::Float => "regs/float"@,
            }),
    {
        match self {
            RegsFile::Int => "regs/int",
            RegsFile::Float => "regs/float",
        }
    }
}

impl Failure {
    /// The text of the failure.
    pub fn message(self) -> (text: String)
        ensures
            text@ == failure_text(self),
    {
        match self {
            Failure::Reported(message) => message,
            Failure::NoForkEvent => "Syscall completed without yielding fork event".to_owned(),
            Failure::NoSignalEvent => "Syscall completed without yielding  event".to_owned(),
            Failure::WrongEvent(debug) => {
                let mut text = "Wrong event type: ".to_owned();
                text.append(debug.as_str());
                text
            },
        }
    }
}

/// A `ptrace` test at work.
pub struct Session {
    script: Vec<Op>,
    progress: Progress,
}

impl View for Session {
    type V = Progress;

    closed spec fn view(&self) -> Progress {
        self.progress
    }
}

impl Session {
    /// The session follows the script and has not left it.
    pub closed spec fn wf(&self) -> bool {
        self.script@ == script() && self.script@.len() == SCRIPT_LEN && valid(self.progress)
    }

    /// Begins the test.
    pub fn start() -> (session: Session)
        ensures
            session.wf(),
            session@ == beginning(),
    {
        let regs = IntRegisters {
            r15: 0,
            r14: 0,
            r13: 0,
            r12: 0,
            rbp: 0,
            rbx: 0,
            r11: 0,
            r10: 0,
            r9: 0,
            r8: 0,
            rax: 0,
            rcx: 0,
            rdx: 0,
            rsi: 0,
            rdi: 0,
            rip: 0,
            cs: 0,
            rflags: 0,
            rsp: 0,
            ss: 0,
            fs: 0,
        };
        Session {
            script: full_script(),
            progress: Progress { at: 0, over: false, pid: 0, own: 0, fork: 0, id: 0, regs },
        }
    }

    /// What the test has in mind.
    pub fn progress(&self) -> (progress: Progress)
        ensures
            progress == self@,
    {
        self.progress
    }

    /// What the test wants next.
    pub fn request(&self) -> (request: Request)
        requires
            self.wf(),
        ensures
            request == wanted(self@),
    {
        let p = self.progress;
        match self.script[p.at] {
            Op::Say(banner) => Request::Print(Line::Fixed(banner)),
            Op::SayMyPid => Request::Print(Line::MyPid(p.own)),
            Op::SayWaiting => Request::Print(Line::WaitingFor(p.pid)),
            Op::SayForkObtained => Request::Print(Line::ForkObtained(p.fork)),
            Op::SayForkAttached => Request::Print(Line::ForkAttached(p.fork)),
            Op::SayRax => Request::Print(Line::Rax(p.regs.rax)),
            Op::Clone => Request::Clone,
            Op::GetPid => Request::GetPid,
            Op::AwaitStop => Request::WaitPid(p.pid, WaitFor::Untraced),
            Op::OpenTrace => Request::OpenTrace(p.pid),
            Op::DupIntRegs => Request::Dup(RegsFile::Int.reached_from(), RegsFile::Int),
            Op::DupFloatRegs => Request::Dup(
                RegsFile::Float.reached_from(),
                RegsFile::Float,
            ),
            Op::AttachMemory => Request::AttachMemory(p.pid),
            Op::Continue => Request::Kill(p.pid, sigcont()),
            Op::Next(who, stop) => Request::Next(who, stop),
            Op::ReadRegs(who, _, _) => Request::GetInt(who),
            Op::ReadStack => Request::ReadMemory(p.regs.rsp),
            Op::ReadCursor => Request::Cursor,
            Op::ReadFloats => Request::GetFloat,
            Op::NextEvent(_) => Request::NextEvent,
            Op::Events(_) => Request::Events,
            Op::Retry => Request::Retry,
            Op::AttachFork => Request::AttachFork(p.fork),
            Op::ExpectGone(who, stop) => Request::Next(who, stop),
            Op::Nonblocking => Request::Nonblocking,
            Op::Blocking => Request::Blocking,
            Op::Wait => Request::Wait,
            Op::WriteRax(value) => Request::SetInt(IntRegisters { rax: value, ..p.regs }),
            Op::Reap(_) => Request::WaitPid(p.pid, WaitFor::NoHang),
            Op::OpenForbidden => Request::OpenRegs(p.id),
        }
    }

    /// Whether an answer is of a kind that the next request can have.
    pub fn accepts(&self, reply: &Reply) -> (result: bool)
        requires
            self.wf(),
        ensures
            result == answers(wanted(self@), *reply),
    {
        let request = self.request();
        match (reply, request) {
            (Reply::Failed(_), Request::Print(_)) => false,
            (Reply::Failed(_), _) => true,
            (Reply::Value(_), Request::Clone) => true,
            (Reply::Value(_), Request::GetPid) => true,
            (Reply::Value(_), Request::Cursor) => true,
            (Reply::Value(_), Request::WaitPid(_, _)) => true,
            (Reply::Registers(_), Request::GetInt(_)) => true,
            (Reply::Floats(_), Request::GetFloat) => true,
            (Reply::Bytes(_), Request::ReadMemory(_)) => true,
            (Reply::Handler(_), Request::NextEvent) => true,
            (Reply::Handler(_), Request::Retry) => true,
            (Reply::Events(_), Request::Events) => true,
            (Reply::Done, Request::Print(_)) => true,
            (Reply::Done, Request::OpenTrace(_)) => true,
            (Reply::Done, Request::Dup(_, _)) => true,
            (Reply::Done, Request::AttachMemory(_)) => true,
            (Reply::Done, Request::Kill(_, _)) => true,
            (Reply::Done, Request::Next(_, _)) => true,
            (Reply::Done, Request::SetInt(_)) => true,
            (Reply::Done, Request::AttachFork(_)) => true,
            (Reply::Done, Request::Nonblocking) => true,
            (Reply::Done, Request::Blocking) => true,
            (Reply::Done, Request::Wait) => true,
            (Reply::Done, Request::OpenRegs(_)) => true,
            _ => false,
        }
    }
}

/// Decides whether the floating-point stack holds its top, and zeros below it.
fn is_float_stack_clear(floats: &FloatStack) -> (result: bool)
    ensures
        result == float_stack_clear(*floats),
{
    if !same_double(floats.all[0], floats.top) {
        return false;
    }
    let mut i: usize = 1;
    while i < 8
        invariant
            1 <= i <= 8,
            forall|j: int| 1 <= j < i ==> same(#[trigger] floats.all@[j], 0),
        decreases 8 - i,
    {
        if !same_double(floats.all[i], 0) {
            return false;
        }
        i = i + 1;
    }
    true
}

/// What the events that came up make of the test.
fn judge_events(wanted: Yield, p: Progress, events: Vec<TraceEvent>) -> (verdict: Verdict)
    ensures
        verdict == judge_success(Op::Events(wanted), p, Reply::Events(events)),
{
    let mut events = events;
    if events.len() != 1 {
        return Verdict::Panicked(Panic::EventCount(events.len()));
    }
    let event = events.remove(0);
    match (wanted, event.kind) {
        (Yield::ForkEvent, EventKind::Clone(pid)) => Verdict::Next(Progress { fork: pid, ..p }),
        (Yield::SignalEvent, EventKind::Signal(signal)) => if signal == sigusr1() {
            Verdict::Next(p)
        } else {
            Verdict::Panicked(Panic::Signal(sigusr1(), signal))
        },
        _ => Verdict::Failed(Failure::WrongEvent(event.debug)),
    }
}

/// What an answer that is not an error makes of the test.
fn decide_success(op: Op, p: Progress, reply: Reply) -> (verdict: Verdict)
    ensures
        verdict == judge_success(op, p, reply),
{
    match (op, reply) {
        (Op::Clone, Reply::Value(pid)) => if pid == 0 {
            Verdict::Tracee
        } else {
            Verdict::Next(Progress { pid, ..p })
        },
        (Op::GetPid, Reply::Value(own)) => Verdict::Next(Progress { own, ..p }),
        (Op::ReadRegs(_, rax, rdi), Reply::Registers(regs)) => {
            if let Some(number) = rax {
                if number != regs.rax {
                    return Verdict::Panicked(Panic::Rax(number, regs.rax));
                }
            }
            if let Some(number) = rdi {
                if number != regs.rdi {
                    return Verdict::Panicked(Panic::Rdi(number, regs.rdi));
                }
            }
            Verdict::Next(Progress { regs, ..p })
        },
        (Op::ReadStack, Reply::Bytes(bytes)) => {
            let first: u64 = word(&bytes, 0);
            let second: u64 = word(&bytes, 1);
            let third: u64 = word(&bytes, 2);
            if first == 1 && second == 2 && third == 3 {
                Verdict::Next(p)
            } else {
                Verdict::Panicked(Panic::Stack(first, second, third))
            }
        },
        (Op::ReadCursor, Reply::Value(cursor)) => match p.regs.rsp.checked_add(STACK_BYTES) {
            None => Verdict::Panicked(Panic::StackEnd),
            Some(end) => if cursor != end {
                Verdict::Panicked(Panic::Cursor(end, cursor))
            } else {
                Verdict::Next(p)
            },
        },
        (Op::ReadFloats, Reply::Floats(floats)) => if !is_float_stack_clear(&floats) {
            Verdict::Panicked(Panic::FloatStack(floats))
        } else if !is_near_root(floats.top) {
            Verdict::Panicked(Panic::Root(floats.top))
        } else {
            Verdict::Next(p)
        },
        (Op::NextEvent(Yield::Nothing), Reply::Handler(came_up)) => if came_up {
            Verdict::Panicked(Panic::UnexpectedEvent)
        } else {
            Verdict::Next(p)
        },
        (Op::NextEvent(Yield::ForkEvent), Reply::Handler(came_up)) => if came_up {
            Verdict::Next(p)
        } else {
            Verdict::Failed(Failure::NoForkEvent)
        },
        (Op::NextEvent(Yield::SignalEvent), Reply::Handler(came_up)) => if came_up {
            Verdict::Next(p)
        } else {
            Verdict::Failed(Failure::NoSignalEvent)
        },
        (Op::Events(wanted), Reply::Events(events)) => judge_events(wanted, p, events),
        (Op::Retry, Reply::Handler(came_up)) => if came_up {
            Verdict::Panicked(Panic::UnexpectedEvent)
        } else {
            Verdict::Next(p)
        },
        (Op::Reap(code), Reply::Value(status)) => {
            if !syscall::wifexited(status) {
                return Verdict::Panicked(Panic::NotExited(status));
            }
            let found: usize = syscall::wexitstatus(status);
            if found != code {
                Verdict::Panicked(Panic::ExitCode(code, found))
            } else {
                Verdict::Next(p)
            }
        },
        _ => Verdict::Next(p),
    }
}

/// What an answer makes of the test.
pub fn decide(op: Op, p: Progress, reply: Reply) -> (verdict: Verdict)
    ensures
        verdict == judge(op, p, reply),
{
    match op {
        Op::ExpectGone(_, _) => match reply {
            Reply::Failed(err) => if err.code == Some(esrch()) {
                Verdict::Next(p)
            } else {
                Verdict::Panicked(Panic::WrongCode(err.code))
            },
            _ => Verdict::Panicked(Panic::StillThere),
        },
        Op::OpenForbidden => {
            let code = match reply {
                Reply::Failed(err) => err.code,
                _ => None,
            };
            if !(code == Some(eperm()) || code == Some(esrch())) {
                Verdict::Panicked(Panic::NotRefused(p.id, code))
            } else if p.id < LAST_ID {
                Verdict::Again(Progress { id: p.id + 1, ..p })
            } else {
                Verdict::Next(p)
            }
        },
        _ => match reply {
            Reply::Failed(err) => Verdict::Failed(Failure::Reported(err.message)),
            reply => decide_success(op, p, reply),
        },
    }
}

/// Takes the answer to the request that is due, and says how the test stands.
pub fn ptrace(session: &mut Session, reply: Reply) -> (outcome: Outcome)
    requires
        old(session).wf(),
        !old(session)@.over,
        answers(wanted(old(session)@), reply),
    ensures
        final(session).wf(),
        (final(session)@, outcome) == advance(old(session)@, reply),
{
    let p = session.progress;
    match decide(session.script[p.at], p, reply) {
        Verdict::Next(q) => if p.at + 1 < SCRIPT_LEN {
            session.progress = Progress { at: p.at + 1, ..q };
            Outcome::Going
        } else {
            session.progress = Progress { over: true, ..q };
            Outcome::Passed
        },
        Verdict::Again(q) => {
            session.progress = q;
            Outcome::Going
        },
        Verdict::Tracee => {
            session.progress = Progress { over: true, ..p };
            Outcome::Tracee
        },
        Verdict::Failed(failure) => {
            session.progress = Progress { over: true, ..p };
            Outcome::Failed(failure)
        },
        Verdict::Panicked(panic) => {
            session.progress = Progress { over: true, ..p };
            Outcome::Panicked(panic)
        },
    }
}

} // verus!

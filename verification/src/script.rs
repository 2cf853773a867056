//! The script of the `ptrace` test: everything that the tracing side does, in order.
//!
//! An [`Op`] is one thing that it does: a line that it prints, or a request to the
//! kernel together with the answer that it insists on.

use crate::abi::{
    exit_number, getpid_number, kill_number, sigaction_number, sigreturn_number, yield_number,
    sys_exit, sys_getpid, sys_kill, sys_sigaction, sys_sigreturn, sys_yield,
};
use vstd::prelude::*;

verus! {

/// Where a traced process is let run to.
#[derive(Clone, Copy, Debug, PartialEq, Eq)]
pub enum Stop {
    /// The next instruction.
    Instruction,
    /// The beginning or the end of a system call.
    Syscall,
    /// The beginning of a system call that is then emulated in place of being run.
    SyscallSysemu,
    /// The delivery of a signal.
    Signal,
    /// The end of the process.
    Completion,
}

/// One of the two processes that are traced.
#[derive(Clone, Copy, Debug, PartialEq, Eq)]
pub enum Who {
    /// The child that the test starts.
    Tracee,
    /// The process that the child forks off.
    Fork,
}

/// What has to come of letting the tracee run up to a system call.
#[derive(Clone, Copy, Debug, PartialEq, Eq)]
pub enum Yield {
    /// It gets there, and no event comes up on the way.
    Nothing,
    /// An event comes up, which ought to be a fork.
    ForkEvent,
    /// An event comes up, which ought to be a signal.
    SignalEvent,
}

/// The lines that are printed word for word.
#[derive(Clone, Copy, Debug, PartialEq, Eq)]
pub enum Banner {
    /// The child is ready.
    Attaching,
    /// The child is sent the signal to continue.
    ScheduleRestart,
    /// The child is moved off its system call instruction.
    SteppingAway,
    /// Single steps begin.
    SingleStepping,
    /// Memory access begins.
    MemoryAccess,
    /// Floating point begins.
    FloatingPoint,
    /// The ignored fork begins.
    ForkEvent,
    /// The fork that is traced begins.
    ForkHandled,
    /// The fork has asked for its process number.
    ForkGetpid,
    /// The fork has exited.
    ForkExit,
    /// Signals begin.
    Signals,
    /// The signal came up.
    SignalObtained,
    /// Breakpoints that are never reached begin.
    ObsoleteBreakpoints,
    /// The child is to stop itself once more.
    WaitingForSignal,
    /// The emulating breakpoint is set.
    SettingSysemu,
    /// The child is sent the signal to continue behind the breakpoint.
    ScheduleAfterBreakpoint,
    /// The registers are read while the child runs.
    ExecutionContinues,
    /// The child is waited for five times.
    WaitingFiveTimes,
    /// The answer of a system call is replaced.
    OverridingGetpid,
    /// The last system call begins.
    CheckingExit,
    /// The status of the child is asked for.
    CheckingStatus,
    /// The forbidden requests begin.
    IllegalThings,
    /// The test has passed.
    AllDone,
}

/// One thing that the tracing side does.
#[derive(Clone, Copy, Debug, PartialEq, Eq)]
pub enum Op {
    /// Print a line.
    Say(Banner),
    /// Print the own process number.
    SayMyPid,
    /// Print that the child is waited for.
    SayWaiting,
    /// Print the process number in the fork event.
    SayForkObtained,
    /// Print the process number of the fork that is traced.
    SayForkAttached,
    /// Print the `rax` register that was read last.
    SayRax,
    /// Split off the child.
    Clone,
    /// Ask for the own process number.
    GetPid,
    /// Wait until the child has stopped itself.
    AwaitStop,
    /// Open the trace file of the child.
    OpenTrace,
    /// Reach the integer registers from the trace file.
    DupIntRegs,
    /// Reach the floating-point registers from the integer registers.
    DupFloatRegs,
    /// Open the memory of the child.
    AttachMemory,
    /// Send the child the signal to continue.
    Continue,
    /// Let a process run.
    Next(Who, Stop),
    /// Read the integer registers, and insist on `rax` and `rdi` where they are given.
    ReadRegs(Who, Option<usize>, Option<usize>),
    /// Read the top of the child's stack, and insist on the words one, two, three.
    ReadStack,
    /// Ask for the position in the child's memory, and insist on the end of what was
    /// read.
    ReadCursor,
    /// Read the floating-point registers, and insist on the square root of thirty-two
    /// above an empty stack.
    ReadFloats,
    /// Let the child run up to a system call.
    NextEvent(Yield),
    /// Collect the events, and insist on exactly one, of the given kind.
    Events(Yield),
    /// Go on waiting behind an event, and insist that no other comes up.
    Retry,
    /// Trace the fork as well.
    AttachFork,
    /// Let a process run, and insist that there is no such process any more.
    ExpectGone(Who, Stop),
    /// Let requests return before they are met.
    Nonblocking,
    /// Let requests return when they are met.
    Blocking,
    /// Wait for the child.
    Wait,
    /// Write the registers back with another `rax`.
    WriteRax(usize),
    /// Take the status of the child, and insist on the given exit code.
    Reap(usize),
    /// Open the registers of every process by number, and insist on being refused.
    OpenForbidden,
}

/// The exit code that the child is made to end with.
pub const EXIT_CODE: usize = 123;

/// The values of `rax` behind each of the single steps.
pub open spec fn step_values() -> Seq<usize> {
    seq![1, 2, 2, 3, 2, 1]
}

/// A step of the tracee to the next instruction.
pub open spec fn step() -> Op {
    Op::Next(Who::Tracee, Stop::Instruction)
}

/// A step of the tracee to the next end of a system call.
pub open spec fn syscall_stop() -> Op {
    Op::Next(Who::Tracee, Stop::Syscall)
}

/// The registers of the tracee are read, and `rax` holds the number.
pub open spec fn rax_is(number: usize) -> Op {
    Op::ReadRegs(Who::Tracee, Some(number), None)
}

/// The same thing a number of times over.
pub open spec fn times(count: nat, op: Op) -> Seq<Op> {
    Seq::new(count, |i: int| op)
}

/// Start the child, and attach to it.
pub open spec fn opening() -> Seq<Op> {
    seq![
        Op::Clone,
        Op::GetPid,
        Op::SayMyPid,
        Op::SayWaiting,
        Op::AwaitStop,
        Op::Say(Banner::Attaching),
        Op::OpenTrace,
        Op::DupIntRegs,
        Op::DupFloatRegs,
        Op::AttachMemory,
        Op::Say(Banner::ScheduleRestart),
        Op::Continue,
        Op::Say(Banner::SteppingAway),
        step(),
        Op::Say(Banner::SingleStepping),
    ]
}

/// Six single steps, each followed by a look at `rax`.
pub open spec fn single_steps() -> Seq<Op> {
    Seq::new(
        12,
        |i: int|
            if i % 2 == 0 {
                step()
            } else {
                rax_is(step_values()[i / 2])
            },
    )
}

/// Three words are pushed, looked at in memory, and popped.
pub open spec fn memory() -> Seq<Op> {
    seq![Op::Say(Banner::MemoryAccess)] + times(3, step()) + seq![
        Op::ReadRegs(Who::Tracee, None, None),
        Op::ReadStack,
        Op::ReadCursor,
        step(),
    ]
}

/// A square root is taken and looked at.
pub open spec fn floating_point() -> Seq<Op> {
    seq![Op::Say(Banner::FloatingPoint)] + times(3, step()) + seq![Op::ReadFloats]
}

/// A fork comes up and is left alone.
pub open spec fn ignored_fork() -> Seq<Op> {
    seq![
        Op::Say(Banner::ForkEvent),
        Op::NextEvent(Yield::Nothing),
        Op::NextEvent(Yield::ForkEvent),
        Op::Events(Yield::ForkEvent),
        Op::SayForkObtained,
        Op::Retry,
    ]
}

/// A fork comes up and is traced to its end.
pub open spec fn traced_fork() -> Seq<Op> {
    seq![Op::Say(Banner::ForkHandled)] + times(3, Op::NextEvent(Yield::Nothing)) + seq![
        Op::NextEvent(Yield::ForkEvent),
        Op::Events(Yield::ForkEvent),
        Op::AttachFork,
        Op::SayForkAttached,
        Op::Next(Who::Fork, Stop::Syscall),
        Op::ReadRegs(Who::Fork, Some(getpid_number()), None),
        Op::Next(Who::Fork, Stop::Syscall),
        Op::Say(Banner::ForkGetpid),
        Op::Next(Who::Fork, Stop::Syscall),
        Op::ReadRegs(Who::Fork, Some(exit_number()), None),
        Op::ExpectGone(Who::Fork, Stop::Completion),
        Op::Say(Banner::ForkExit),
        Op::Retry,
    ]
}

/// A handler is installed, and a first signal comes up.
pub open spec fn first_signal() -> Seq<Op> {
    seq![
        Op::Say(Banner::Signals),
        syscall_stop(),
        rax_is(sigaction_number()),
        syscall_stop(),
        syscall_stop(),
        rax_is(getpid_number()),
        syscall_stop(),
        syscall_stop(),
        rax_is(kill_number()),
        Op::NextEvent(Yield::SignalEvent),
        Op::Events(Yield::SignalEvent),
        Op::Say(Banner::SignalObtained),
        Op::Retry,
    ]
}

/// The handler yields and returns to the `kill` that raised the signal.
pub open spec fn handler_run() -> Seq<Op> {
    seq![
        rax_is(yield_number()),
        syscall_stop(),
        syscall_stop(),
        rax_is(sigreturn_number()),
        syscall_stop(),
    ]
}

/// The second signal is met before its `kill` is over.
pub open spec fn second_signal() -> Seq<Op> {
    seq![Op::Next(Who::Tracee, Stop::Signal), rax_is(kill_number()), syscall_stop()]
}

/// The child runs on while it is traced.
pub open spec fn nonblocking() -> Seq<Op> {
    seq![
        Op::Nonblocking,
        Op::Say(Banner::ObsoleteBreakpoints),
        syscall_stop(),
        Op::Next(Who::Tracee, Stop::Completion),
        Op::ReadRegs(Who::Tracee, None, None),
        Op::SayRax,
        Op::Say(Banner::WaitingForSignal),
        Op::AwaitStop,
        Op::Say(Banner::SettingSysemu),
        Op::Next(Who::Tracee, Stop::SyscallSysemu),
        Op::Say(Banner::ScheduleAfterBreakpoint),
        Op::Continue,
        Op::Say(Banner::ExecutionContinues),
    ]
}

/// The registers are read and shown five times.
pub open spec fn five_looks() -> Seq<Op> {
    Seq::new(
        10,
        |i: int|
            if i % 2 == 0 {
                Op::ReadRegs(Who::Tracee, None, None)
            } else {
                Op::SayRax
            },
    )
}

/// The child is waited for, and the answer of its `getpid` is replaced.
pub open spec fn emulation() -> Seq<Op> {
    seq![Op::Say(Banner::WaitingFiveTimes)] + times(5, Op::Wait) + seq![
        Op::Say(Banner::OverridingGetpid),
        rax_is(getpid_number()),
        Op::WriteRax(EXIT_CODE),
        Op::Blocking,
    ]
}

/// The child exits, and processes that are not traced are out of reach.
pub open spec fn closing() -> Seq<Op> {
    seq![
        Op::Say(Banner::CheckingExit),
        syscall_stop(),
        Op::ReadRegs(Who::Tracee, Some(exit_number()), Some(EXIT_CODE)),
        Op::ExpectGone(Who::Tracee, Stop::Syscall),
        Op::Say(Banner::CheckingStatus),
        Op::Reap(EXIT_CODE),
        Op::Say(Banner::IllegalThings),
        Op::OpenForbidden,
        Op::Say(Banner::AllDone),
    ]
}

/// Everything that the tracing side does, in order.
#[verifier::opaque]
pub open spec fn script() -> Seq<Op> {
    opening() + single_steps() + memory() + floating_point() + ignored_fork() + traced_fork()
        + first_signal() + handler_run() + second_signal() + handler_run() + nonblocking()
        + five_looks() + emulation() + closing()
}

/// How many things the script holds.
pub const SCRIPT_LEN: usize = 131;

fn exec_step() -> (op: Op)
    ensures
        op == step(),
{
    Op::Next(Who::Tracee, Stop::Instruction)
}

fn exec_syscall_stop() -> (op: Op)
    ensures
        op == syscall_stop(),
{
    Op::Next(Who::Tracee, Stop::Syscall)
}

fn exec_rax_is(number: usize) -> (op: Op)
    ensures
        op == rax_is(number),
{
    Op::ReadRegs(Who::Tracee, Some(number), None)
}

/// Adds the same thing to a list a number of times over.
fn push_times(ops: &mut Vec<Op>, count: usize, op: Op)
    ensures
        final(ops)@ == old(ops)@ + times(count as nat, op),
{
    let ghost before = ops@;
    let mut done: usize = 0;
    while done < count
        invariant
            done <= count,
            ops@ =~= before + times(done as nat, op),
        decreases count - done,
    {
        ops.push(op);
        done = done + 1;
    }
}

fn exec_opening() -> (ops: Vec<Op>)
    ensures
        ops@ == opening(),
{
    let ops = vec![
        Op::Clone,
        Op::GetPid,
        Op::SayMyPid,
        Op::SayWaiting,
        Op::AwaitStop,
        Op::Say(Banner::Attaching),
        Op::OpenTrace,
        Op::DupIntRegs,
        Op::DupFloatRegs,
        Op::AttachMemory,
        Op::Say(Banner::ScheduleRestart),
        Op::Continue,
        Op::Say(Banner::SteppingAway),
        exec_step(),
        Op::Say(Banner::SingleStepping),
    ];
    assert(ops@ =~= opening());
    ops
}

fn exec_single_steps() -> (ops: Vec<Op>)
    ensures
        ops@ == single_steps(),
{
    let values: [usize; 6] = [1, 2, 2, 3, 2, 1];
    let mut ops: Vec<Op> = Vec::new();
    let mut i: usize = 0;
    assert(values@ =~= step_values());
    while i < 6
        invariant
            i <= 6,
            values@ == step_values(),
            ops@ =~= single_steps().take(2 * i),
        decreases 6 - i,
    {
        ops.push(exec_step());
        ops.push(exec_rax_is(values[i]));
        i = i + 1;
    }
    assert(ops@ =~= single_steps());
    ops
}

fn exec_memory() -> (ops: Vec<Op>)
    ensures
        ops@ == memory(),
{
    let mut ops = vec![Op::Say(Banner::MemoryAccess)];
    push_times(&mut ops, 3, exec_step());
    ops.push(Op::ReadRegs(Who::Tracee, None, None));
    ops.push(Op::ReadStack);
    ops.push(Op::ReadCursor);
    ops.push(exec_step());
    assert(ops@ =~= memory());
    ops
}

fn exec_floating_point() -> (ops: Vec<Op>)
    ensures
        ops@ == floating_point(),
{
    let mut ops = vec![Op::Say(Banner::FloatingPoint)];
    push_times(&mut ops, 3, exec_step());
    ops.push(Op::ReadFloats);
    assert(ops@ =~= floating_point());
    ops
}

fn exec_ignored_fork() -> (ops: Vec<Op>)
    ensures
        ops@ == ignored_fork(),
{
    let ops = vec![
        Op::Say(Banner::ForkEvent),
        Op::NextEvent(Yield::Nothing),
        Op::NextEvent(Yield::ForkEvent),
        Op::Events(Yield::ForkEvent),
        Op::SayForkObtained,
        Op::Retry,
    ];
    assert(ops@ =~= ignored_fork());
    ops
}

fn exec_traced_fork() -> (ops: Vec<Op>)
    ensures
        ops@ == traced_fork(),
{
    let mut ops = vec![Op::Say(Banner::ForkHandled)];
    push_times(&mut ops, 3, Op::NextEvent(Yield::Nothing));
    let mut rest = vec![
        Op::NextEvent(Yield::ForkEvent),
        Op::Events(Yield::ForkEvent),
        Op::AttachFork,
        Op::SayForkAttached,
        Op::Next(Who::Fork, Stop::Syscall),
        Op::ReadRegs(Who::Fork, Some(sys_getpid()), None),
        Op::Next(Who::Fork, Stop::Syscall),
        Op::Say(Banner::ForkGetpid),
        Op::Next(Who::Fork, Stop::Syscall),
        Op::ReadRegs(Who::Fork, Some(sys_exit()), None),
        Op::ExpectGone(Who::Fork, Stop::Completion),
        Op::Say(Banner::ForkExit),
        Op::Retry,
    ];
    ops.append(&mut rest);
    assert(ops@ =~= traced_fork());
    ops
}

fn exec_first_signal() -> (ops: Vec<Op>)
    ensures
        ops@ == first_signal(),
{
    let ops = vec![
        Op::Say(Banner::Signals),
        exec_syscall_stop(),
        exec_rax_is(sys_sigaction()),
        exec_syscall_stop(),
        exec_syscall_stop(),
        exec_rax_is(sys_getpid()),
        exec_syscall_stop(),
        exec_syscall_stop(),
        exec_rax_is(sys_kill()),
        Op::NextEvent(Yield::SignalEvent),
        Op::Events(Yield::SignalEvent),
        Op::Say(Banner::SignalObtained),
        Op::Retry,
    ];
    assert(ops@ =~= first_signal());
    ops
}

fn exec_handler_run() -> (ops: Vec<Op>)
    ensures
        ops@ == handler_run(),
{
    let ops = vec![
        exec_rax_is(sys_yield()),
        exec_syscall_stop(),
        exec_syscall_stop(),
        exec_rax_is(sys_sigreturn()),
        exec_syscall_stop(),
    ];
    assert(ops@ =~= handler_run());
    ops
}

fn exec_second_signal() -> (ops: Vec<Op>)
    ensures
        ops@ == second_signal(),
{
    let ops = vec![
        Op::Next(Who::Tracee, Stop::Signal),
        exec_rax_is(sys_kill()),
        exec_syscall_stop(),
    ];
    assert(ops@ =~= second_signal());
    ops
}

fn exec_nonblocking() -> (ops: Vec<Op>)
    ensures
        ops@ == nonblocking(),
{
    let ops = vec![
        Op::Nonblocking,
        Op::Say(Banner::ObsoleteBreakpoints),
        exec_syscall_stop(),
        Op::Next(Who::Tracee, Stop::Completion),
        Op::ReadRegs(Who::Tracee, None, None),
        Op::SayRax,
        Op::Say(Banner::WaitingForSignal),
        Op::AwaitStop,
        Op::Say(Banner::SettingSysemu),
        Op::Next(Who::Tracee, Stop::SyscallSysemu),
        Op::Say(Banner::ScheduleAfterBreakpoint),
        Op::Continue,
        Op::Say(Banner::ExecutionContinues),
    ];
    assert(ops@ =~= nonblocking());
    ops
}

fn exec_five_looks() -> (ops: Vec<Op>)
    ensures
        ops@ == five_looks(),
{
    let mut ops: Vec<Op> = Vec::new();
    let mut i: usize = 0;
    while i < 5
        invariant
            i <= 5,
            ops@ =~= five_looks().take(2 * i),
        decreases 5 - i,
    {
        ops.push(Op::ReadRegs(Who::Tracee, None, None));
        ops.push(Op::SayRax);
        i = i + 1;
    }
    assert(ops@ =~= five_looks());
    ops
}

fn exec_emulation() -> (ops: Vec<Op>)
    ensures
        ops@ == emulation(),
{
    let mut ops = vec![Op::Say(Banner::WaitingFiveTimes)];
    push_times(&mut ops, 5, Op::Wait);
    ops.push(Op::Say(Banner::OverridingGetpid));
    ops.push(exec_rax_is(sys_getpid()));
    ops.push(Op::WriteRax(EXIT_CODE));
    ops.push(Op::Blocking);
    assert(ops@ =~= emulation());
    ops
}

fn exec_closing() -> (ops: Vec<Op>)
    ensures
        ops@ == closing(),
{
    let ops = vec![
        Op::Say(Banner::CheckingExit),
        exec_syscall_stop(),
        Op::ReadRegs(Who::Tracee, Some(sys_exit()), Some(EXIT_CODE)),
        Op::ExpectGone(Who::Tracee, Stop::Syscall),
        Op::Say(Banner::CheckingStatus),
        Op::Reap(EXIT_CODE),
        Op::Say(Banner::IllegalThings),
        Op::OpenForbidden,
        Op::Say(Banner::AllDone),
    ];
    assert(ops@ =~= closing());
    ops
}

/// Writes the script out.
pub fn full_script() -> (ops: Vec<Op>)
    ensures
        ops@ == script(),
        ops@.len() == SCRIPT_LEN,
{
    let mut ops = exec_opening();
    ops.append(&mut exec_single_steps());
    ops.append(&mut exec_memory());
    ops.append(&mut exec_floating_point());
    ops.append(&mut exec_ignored_fork());
    ops.append(&mut exec_traced_fork());
    ops.append(&mut exec_first_signal());
    ops.append(&mut exec_handler_run());
    ops.append(&mut exec_second_signal());
    ops.append(&mut exec_handler_run());
    ops.append(&mut exec_nonblocking());
    ops.append(&mut exec_five_looks());
    ops.append(&mut exec_emulation());
    ops.append(&mut exec_closing());
    proof {
        reveal(script);
    }
    ops
}

} // verus!

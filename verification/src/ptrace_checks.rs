//! What the `ptrace` test makes of each answer, whatever it has in mind.

use crate::abi::law_parts_of_a_status;
use crate::double::{law_equal_doubles, law_only_root_is_near, same};
use crate::lines::{holds, law_labelled_number_is_read_back, line_text, Line};
use crate::ptrace::{
    advance, answers, failure_text, float_stack_clear, judge, not_refused_text, regs_path_text,
    request_for, trace_path_text, valid, EventKind, Failure, FloatStack, Handle, IntRegisters,
    Outcome, Panic, Progress, RegsFile, Reply, Request, SysError, TraceEvent, Verdict, WaitFor,
};
use crate::script::{script, Banner, Op, Stop, Who, Yield};
use crate::text::{debug_option, decimal};
use crate::word::{law_a_small_word_is_its_lowest_byte, law_a_word_is_its_bytes, word_at};
use vstd::prelude::*;

verus! {

/// The lowest byte of each of three words is given, and all other bytes are zero.
pub open spec fn small_words(bytes: Seq<u8>, first: u8, second: u8, third: u8) -> bool {
    &&& bytes[0] == first && bytes[8] == second && bytes[16] == third
    &&& forall|i: int| 0 <= i < 24 && i % 8 != 0 ==> #[trigger] bytes[i] == 0
}

/// The stack of the child is right exactly if it holds the words one, two and three, byte
/// by byte; else the test breaks off with the words that it holds.
pub proof fn law_the_stack_is_held_to_three_words(p: Progress, bytes: [u8; 24])
    ensures
        ({
            let verdict = judge(Op::ReadStack, p, Reply::Bytes(bytes));
            &&& small_words(bytes@, 1, 2, 3) <==> verdict == Verdict::Next(p)
            &&& !small_words(bytes@, 1, 2, 3) <==> (verdict matches Verdict::Panicked(
                Panic::Stack(first, second, third),
            ) && first == word_at(bytes@, 0) && second == word_at(bytes@, 1) && third == word_at(
                bytes@,
                2,
            ))
        }),
{
    let b = bytes@;
    law_a_small_word_is_its_lowest_byte(b, 0, 1);
    law_a_small_word_is_its_lowest_byte(b, 1, 2);
    law_a_small_word_is_its_lowest_byte(b, 2, 3);
    law_a_word_is_its_bytes(b, 0);
    law_a_word_is_its_bytes(b, 1);
    law_a_word_is_its_bytes(b, 2);
    if small_words(b, 1, 2, 3) {
        assert(word_at(b, 0) == 1 && word_at(b, 1) == 2 && word_at(b, 2) == 3);
    } else if word_at(b, 0) == 1 && word_at(b, 1) == 2 && word_at(b, 2) == 3 {
        assert forall|i: int| 0 <= i < 24 && i % 8 != 0 implies #[trigger] b[i] == 0 by {
            if i < 8 {
            } else if i < 16 {
            } else {
            }
        }
    }
}

/// The position in the memory of the child is right exactly if it is three words of eight
/// bytes behind the stack pointer that was read; the test breaks off with any other, and if
/// there is no such position.
pub proof fn law_the_cursor_is_held_to_the_end_of_the_stack(p: Progress, cursor: usize)
    ensures
        ({
            let verdict = judge(Op::ReadCursor, p, Reply::Value(cursor));
            let end = p.regs.rsp + 3 * 8;
            &&& cursor == end <==> verdict == Verdict::Next(p)
            &&& end > usize::MAX <==> verdict == Verdict::Panicked(Panic::StackEnd)
            &&& end <= usize::MAX && cursor != end <==> verdict == Verdict::Panicked(
                Panic::Cursor(end as usize, cursor),
            )
        }),
{
}

/// The double is one of the two zeros.
pub open spec fn either_zero(bits: u64) -> bool {
    bits == 0 || bits == 0x8000_0000_0000_0000
}

/// The floating-point registers are right exactly if the first of them is the square root
/// of thirty-two, read by itself and among the others, and all others are zero. If they are
/// not, the test breaks off: over the stack if the first register is not what was read by
/// itself or another is not zero, and else over the root.
pub proof fn law_the_floats_are_held_to_the_root(p: Progress, floats: FloatStack)
    ensures
        ({
            let verdict = judge(Op::ReadFloats, p, Reply::Floats(floats));
            let empty_below = forall|i: int|
                1 <= i < 8 ==> either_zero(#[trigger] floats.all@[i]);
            let root = 0x4016_A09E_667F_3BCCu64;
            &&& verdict == Verdict::Next(p) <==> floats.top == root && floats.all@[0] == root
                && empty_below
            &&& verdict == Verdict::Panicked(Panic::FloatStack(floats)) <==> !same(
                floats.all@[0],
                floats.top,
            ) || !empty_below
            &&& verdict == Verdict::Panicked(Panic::Root(floats.top)) <==> same(
                floats.all@[0],
                floats.top,
            ) && empty_below && floats.top != root
        }),
{
    law_only_root_is_near(floats.top);
    law_equal_doubles(floats.all@[0], floats.top);
    assert forall|i: int| 1 <= i < 8 implies (either_zero(#[trigger] floats.all@[i]) <==> same(
        floats.all@[i],
        0,
    )) by {
        law_equal_doubles(floats.all@[i], 0);
    }
    assert(float_stack_clear(floats) <==> same(floats.all@[0], floats.top) && forall|i: int|
        1 <= i < 8 ==> either_zero(#[trigger] floats.all@[i]));
}

/// Registers are kept exactly if those that are insisted on hold their numbers. `rax` comes
/// first: the test breaks off over `rdi` only if `rax` is right.
pub proof fn law_registers_are_held_to_their_numbers(
    who: Who,
    rax: usize,
    rdi: usize,
    p: Progress,
    regs: IntRegisters,
)
    ensures
        judge(Op::ReadRegs(who, None, None), p, Reply::Registers(regs)) == Verdict::Next(
            Progress { regs, ..p },
        ),
        regs.rax == rax <==> judge(Op::ReadRegs(who, Some(rax), None), p, Reply::Registers(regs))
            == Verdict::Next(Progress { regs, ..p }),
        regs.rax != rax <==> judge(Op::ReadRegs(who, Some(rax), None), p, Reply::Registers(regs))
            == Verdict::Panicked(Panic::Rax(rax, regs.rax)),
        regs.rax == rax && regs.rdi == rdi <==> judge(
            Op::ReadRegs(who, Some(rax), Some(rdi)),
            p,
            Reply::Registers(regs),
        ) == Verdict::Next(Progress { regs, ..p }),
        regs.rax != rax <==> judge(
            Op::ReadRegs(who, Some(rax), Some(rdi)),
            p,
            Reply::Registers(regs),
        ) == Verdict::Panicked(Panic::Rax(rax, regs.rax)),
        regs.rax == rax && regs.rdi != rdi <==> judge(
            Op::ReadRegs(who, Some(rax), Some(rdi)),
            p,
            Reply::Registers(regs),
        ) == Verdict::Panicked(Panic::Rdi(rdi, regs.rdi)),
{
}

/// An event comes up exactly where one is due: without it the test fails, and with one that
/// is not due it breaks off.
pub proof fn law_events_come_up_where_they_are_due(p: Progress)
    ensures
        judge(Op::NextEvent(Yield::Nothing), p, Reply::Handler(false)) == Verdict::Next(p),
        judge(Op::NextEvent(Yield::Nothing), p, Reply::Handler(true)) == Verdict::Panicked(
            Panic::UnexpectedEvent,
        ),
        judge(Op::NextEvent(Yield::ForkEvent), p, Reply::Handler(true)) == Verdict::Next(p),
        judge(Op::NextEvent(Yield::ForkEvent), p, Reply::Handler(false)) == Verdict::Failed(
            Failure::NoForkEvent,
        ),
        judge(Op::NextEvent(Yield::SignalEvent), p, Reply::Handler(true)) == Verdict::Next(p),
        judge(Op::NextEvent(Yield::SignalEvent), p, Reply::Handler(false)) == Verdict::Failed(
            Failure::NoSignalEvent,
        ),
        judge(Op::Retry, p, Reply::Handler(false)) == Verdict::Next(p),
        judge(Op::Retry, p, Reply::Handler(true)) == Verdict::Panicked(Panic::UnexpectedEvent),
{
}

/// Of the events that came up there has to be exactly one. Where a fork is due it has to be
/// a fork, whose number is kept; where a signal is due it has to be that of the user. Any
/// other kind fails the test, which shows it, and any other signal breaks it off.
pub proof fn law_one_event_of_the_right_kind(p: Progress, events: Vec<TraceEvent>)
    ensures
        ({
            let fork = judge(Op::Events(Yield::ForkEvent), p, Reply::Events(events));
            let signal = judge(Op::Events(Yield::SignalEvent), p, Reply::Events(events));
            let event = events@[0];
            &&& events@.len() != 1 <==> fork == Verdict::Panicked(
                Panic::EventCount(events@.len() as usize),
            )
            &&& events@.len() != 1 <==> signal == Verdict::Panicked(
                Panic::EventCount(events@.len() as usize),
            )
            &&& events@.len() == 1 ==> match event.kind {
                EventKind::Clone(pid) => fork == Verdict::Next(Progress { fork: pid, ..p })
                    && signal == Verdict::Failed(Failure::WrongEvent(event.debug)),
                EventKind::Signal(number) => fork == Verdict::Failed(
                    Failure::WrongEvent(event.debug),
                ) && (number == 10 <==> signal == Verdict::Next(p)) && (number != 10 <==> signal
                    == Verdict::Panicked(Panic::Signal(10, number))),
                EventKind::Other => fork == Verdict::Failed(Failure::WrongEvent(event.debug))
                    && signal == Verdict::Failed(Failure::WrongEvent(event.debug)),
            }
        }),
{
}

/// A process that has to be gone is gone exactly if the request fails because there is no
/// such process. If it is met, or fails in another way, the test breaks off.
pub proof fn law_a_process_is_gone_or_the_test_breaks_off(
    who: Who,
    stop: Stop,
    p: Progress,
    reply: Reply,
)
    ensures
        ({
            let verdict = judge(Op::ExpectGone(who, stop), p, reply);
            &&& verdict == Verdict::Next(p) <==> reply is Failed && reply->Failed_0.code == Some(
                3i32,
            )
            &&& !(reply is Failed) <==> verdict == Verdict::Panicked(Panic::StillThere)
            &&& reply matches Reply::Failed(err) ==> err.code != Some(3i32) ==> verdict
                == Verdict::Panicked(Panic::WrongCode(err.code))
        }),
{
}

/// A forbidden request is refused exactly if it fails as not permitted or because there is
/// no such process. The next process is tried then, up to number one million and no
/// further; if it is not refused the test breaks off and names the process.
pub proof fn law_a_forbidden_request_is_refused_or_the_test_breaks_off(p: Progress, reply: Reply)
    ensures
        ({
            let verdict = judge(Op::OpenForbidden, p, reply);
            let code = if reply is Failed {
                reply->Failed_0.code
            } else {
                None
            };
            let right = code == Some(1i32) || code == Some(3i32);
            &&& !right <==> verdict == Verdict::Panicked(Panic::NotRefused(p.id, code))
            &&& right && p.id < 1_000_000 <==> verdict == Verdict::Again(
                Progress { id: (p.id + 1) as usize, ..p },
            )
            &&& right && p.id >= 1_000_000 <==> verdict == Verdict::Next(p)
        }),
{
}

/// The status of the child is right exactly if its lowest seven bits are clear and its
/// second byte is the code; the test breaks off over the first of these that is not so.
pub proof fn law_the_status_is_held_to_the_code(code: usize, p: Progress, status: usize)
    ensures
        ({
            let verdict = judge(Op::Reap(code), p, Reply::Value(status));
            &&& status % 128 == 0 && (status / 256) % 256 == code <==> verdict == Verdict::Next(p)
            &&& status % 128 != 0 <==> verdict == Verdict::Panicked(Panic::NotExited(status))
            &&& status % 128 == 0 && (status / 256) % 256 != code <==> verdict
                == Verdict::Panicked(Panic::ExitCode(code, ((status / 256) % 256) as usize))
        }),
{
    law_parts_of_a_status(status);
}

/// The test parts with the child where the process number is zero, and keeps any other.
pub proof fn law_parent_and_child_part(p: Progress, pid: usize)
    ensures
        pid == 0 <==> judge(Op::Clone, p, Reply::Value(pid)) == Verdict::Tracee,
        pid != 0 <==> judge(Op::Clone, p, Reply::Value(pid)) == Verdict::Next(
            Progress { pid, ..p },
        ),
        judge(Op::GetPid, p, Reply::Value(pid)) == Verdict::Next(Progress { own: pid, ..p }),
{
}

/// The answer is nothing but that a request was met, or a status that is not looked at.
pub open spec fn merely_met(op: Op, reply: Reply) -> bool {
    match op {
        Op::Say(_) | Op::SayMyPid | Op::SayWaiting | Op::SayForkObtained | Op::SayForkAttached
        | Op::SayRax | Op::OpenTrace | Op::DupIntRegs | Op::DupFloatRegs | Op::AttachMemory
        | Op::Continue | Op::Next(_, _) | Op::AttachFork | Op::Nonblocking | Op::Blocking
        | Op::Wait | Op::WriteRax(_) => reply is Done,
        Op::AwaitStop => reply is Value,
        _ => false,
    }
}

/// Whatever is merely met brings the test on, and changes nothing of what it has in mind.
pub proof fn law_what_is_merely_met_brings_the_test_on(op: Op, p: Progress, reply: Reply)
    requires
        merely_met(op, reply),
    ensures
        judge(op, p, reply) == Verdict::Next(p),
{
}

/// A request that fails fails the test with the text of its error, except where it has to
/// fail.
pub proof fn law_a_failed_request_fails_the_test(op: Op, p: Progress, err: SysError)
    requires
        !(op is ExpectGone),
        !(op is OpenForbidden),
    ensures
        judge(op, p, Reply::Failed(err)) == Verdict::Failed(Failure::Reported(err.message)),
{
}

/// What is wanted of the kernel names the right process, the right breakpoint and the right
/// registers: the child by the number that it was given, the fork by that in its event, and
/// of the registers that were read last all but `rax` are written back.
pub proof fn law_requests_name_what_they_are_for(op: Op, p: Progress)
    ensures
        match op {
            Op::Next(who, stop) | Op::ExpectGone(who, stop) => request_for(op, p)
                == Request::Next(who, stop),
            Op::ReadRegs(who, _, _) => request_for(op, p) == Request::GetInt(who),
            Op::ReadStack => request_for(op, p) == Request::ReadMemory(p.regs.rsp),
            Op::AwaitStop => request_for(op, p) == Request::WaitPid(p.pid, WaitFor::Untraced),
            Op::Reap(_) => request_for(op, p) == Request::WaitPid(p.pid, WaitFor::NoHang),
            Op::OpenTrace => request_for(op, p) == Request::OpenTrace(p.pid),
            Op::DupIntRegs => request_for(op, p) == Request::Dup(Handle::Trace, RegsFile::Int),
            Op::DupFloatRegs => request_for(op, p) == Request::Dup(
                Handle::IntRegs,
                RegsFile::Float,
            ),
            Op::AttachMemory => request_for(op, p) == Request::AttachMemory(p.pid),
            Op::Continue => request_for(op, p) == Request::Kill(p.pid, 18),
            Op::AttachFork => request_for(op, p) == Request::AttachFork(p.fork),
            Op::OpenForbidden => request_for(op, p) == Request::OpenRegs(p.id),
            Op::WriteRax(value) => request_for(op, p) matches Request::SetInt(regs) && regs.rax
                == value && p.regs == (IntRegisters { rax: p.regs.rax, ..regs }),
            Op::Say(banner) => request_for(op, p) == Request::Print(Line::Fixed(banner)),
            Op::SayMyPid => request_for(op, p) == Request::Print(Line::MyPid(p.own)),
            Op::SayWaiting => request_for(op, p) == Request::Print(Line::WaitingFor(p.pid)),
            Op::SayForkObtained => request_for(op, p) == Request::Print(
                Line::ForkObtained(p.fork),
            ),
            Op::SayForkAttached => request_for(op, p) == Request::Print(
                Line::ForkAttached(p.fork),
            ),
            Op::SayRax => request_for(op, p) == Request::Print(Line::Rax(p.regs.rax)),
            Op::Clone => request_for(op, p) is Clone,
            Op::GetPid => request_for(op, p) is GetPid,
            Op::ReadCursor => request_for(op, p) is Cursor,
            Op::ReadFloats => request_for(op, p) is GetFloat,
            Op::NextEvent(_) => request_for(op, p) is NextEvent,
            Op::Events(_) => request_for(op, p) is Events,
            Op::Retry => request_for(op, p) is Retry,
            Op::Nonblocking => request_for(op, p) is Nonblocking,
            Op::Blocking => request_for(op, p) is Blocking,
            Op::Wait => request_for(op, p) is Wait,
        },
{
}

/// Every request can be met, every request but that for a line can fail, and it is met in
/// one way only: two answers that a request can have, and that are no errors, are of one
/// kind.
pub proof fn law_a_request_is_met_in_one_way(request: Request, reply: Reply, other: Reply)
    requires
        answers(request, reply),
        answers(request, other),
        !(reply is Failed),
        !(other is Failed),
    ensures
        reply is Done <==> other is Done,
        reply is Value <==> other is Value,
        reply is Registers <==> other is Registers,
        reply is Floats <==> other is Floats,
        reply is Bytes <==> other is Bytes,
        reply is Handler <==> other is Handler,
        reply is Events <==> other is Events,
        reply is Registers <==> request is GetInt,
        reply is Floats <==> request is GetFloat,
        reply is Bytes <==> request is ReadMemory,
        reply is Events <==> request is Events,
        forall|err: SysError|
            #![auto]
            answers(request, Reply::Failed(err)) <==> !(request is Print),
{
}

/// Behind an answer the test is where its verdict puts it: at the next thing, at the same
/// one again, or at its end, which it passes only behind the last thing in the script. It is
/// over exactly if it does not go on.
pub proof fn law_a_verdict_moves_the_test(p: Progress, reply: Reply)
    requires
        valid(p),
        !p.over,
    ensures
        ({
            let (q, outcome) = advance(p, reply);
            match judge(script()[p.at as int], p, reply) {
                Verdict::Next(kept) => if p.at == 130 {
                    outcome is Passed && q == (Progress { over: true, ..kept })
                } else {
                    outcome is Going && q == (Progress { at: (p.at + 1) as usize, ..kept })
                },
                Verdict::Again(kept) => outcome is Going && q == kept,
                Verdict::Tracee => outcome is Tracee && q.over && q.at == p.at,
                Verdict::Failed(failure) => outcome == Outcome::Failed(failure) && q.over && q.at
                    == p.at,
                Verdict::Panicked(panic) => outcome == Outcome::Panicked(panic) && q.over && q.at
                    == p.at,
            }
        }),
{
}

/// Whenever the script says something without a number, this is what is printed.
pub proof fn law_what_is_printed(banner: Banner, p: Progress)
    ensures
        request_for(Op::Say(banner), p) is Print,
        ({
            let line = request_for(Op::Say(banner), p)->Print_0;
            match banner {
                Banner::Attaching => line_text(line) == "Done! Attaching tracer..."@,
                Banner::ScheduleRestart => line_text(line) == "Schedule restart of process when resumed..."@,
                Banner::SteppingAway => line_text(line)
                    == "Stepping away from the syscall instruction..."@,
                Banner::SingleStepping => line_text(line) == "Testing basic singlestepping..."@,
                Banner::MemoryAccess => line_text(line) == "Testing memory access..."@,
                Banner::FloatingPoint => line_text(line) == "Testing floating point..."@,
                Banner::ForkEvent => line_text(line) == "Testing fork event"@,
                Banner::ForkHandled => line_text(line)
                    == "Testing fork event - but actually handling the fork"@,
                Banner::ForkGetpid => line_text(line) == "-> Fork executed GETPID"@,
                Banner::ForkExit => line_text(line) == "-> Fork executed EXIT"@,
                Banner::Signals => line_text(line) == "Testing signals"@,
                Banner::SignalObtained => line_text(line) == "Obtained signal"@,
                Banner::ObsoleteBreakpoints => line_text(line) == "Testing behavior of obsolete breakpoints..."@,
                Banner::WaitingForSignal => line_text(line)
                    == "Waiting for next signal from tracee that it's ready to be traced again..."@,
                Banner::SettingSysemu => line_text(line) == "Setting sysemu breakpoint..."@,
                Banner::ScheduleAfterBreakpoint => line_text(line)
                    == "Schedule restart of process after breakpoint is set..."@,
                Banner::ExecutionContinues => line_text(line)
                    == "After non-blocking ptrace, execution continues as normal:"@,
                Banner::WaitingFiveTimes => line_text(line)
                    == "Waiting... Five times... To make sure it doesn't get stuck forever..."@,
                Banner::OverridingGetpid => line_text(line) == "Overriding GETPID call..."@,
                Banner::CheckingExit => line_text(line) == "Checking exit syscall..."@,
                Banner::CheckingStatus => line_text(line) == "Checking exit status (waitpid nohang)..."@,
                Banner::IllegalThings => line_text(line) == "Trying to do illegal things..."@,
                Banner::AllDone => line_text(line) == "All done and tested!"@,
            }
        }),
{
}

/// The paths of the files of a process hold its number, whatever it is.
pub proof fn law_paths_hold_their_number(number: usize)
    ensures
        holds(trace_path_text(number), "proc:"@, number as nat, "/trace"@),
        holds(regs_path_text(number), "proc:"@, number as nat, "/regs/int"@),
{
    law_labelled_number_is_read_back("proc:"@, number, "/trace"@);
    law_labelled_number_is_read_back("proc:"@, number, "/regs/int"@);
}

/// The text for a request that was not refused holds the number of the process, and behind
/// it the code that came in place of a refusal.
pub proof fn law_the_unrefused_process_is_named(id: usize, code: Option<i32>)
    ensures
        holds(
            not_refused_text(id, code),
            "The cops ignored that I tried to illegally open PID "@,
            id as nat,
            ": "@ + debug_option(code),
        ),
{
    let before = "The cops ignored that I tried to illegally open PID "@;
    let behind = ": "@ + debug_option(code);
    assert(not_refused_text(id, code) =~= before + decimal(id as nat) + behind);
    law_labelled_number_is_read_back(before, id, behind);
}

/// What an error said is the text of the failure, unabridged, and an event of the wrong kind
/// is shown behind the words that say so.
pub proof fn law_failures_are_told_in_full(message: String, debug: String)
    ensures
        failure_text(Failure::Reported(message)) == message@,
        failure_text(Failure::WrongEvent(debug)).take(18) == "Wrong event type: "@,
        failure_text(Failure::WrongEvent(debug)).skip(18) == debug@,
{
    reveal_strlit("Wrong event type: ");
    let text = failure_text(Failure::WrongEvent(debug));
    assert(text.take(18) =~= "Wrong event type: "@);
    assert(text.skip(18) =~= debug@);
}

} // verus!

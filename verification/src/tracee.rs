//! The child of the `ptrace` test, and how the script follows it.
//!
//! The child runs a fixed program. Up to its first fork the script lets it run one
//! instruction at a time, and from there on from one system call to the next. The laws say
//! that the script holds the child to what its program does, and to nothing else.

use crate::script::{script, Banner, Op, Stop, Who, Yield, SCRIPT_LEN};
use vstd::prelude::*;

verus! {

/// An instruction of the child before its first fork.
pub enum Instruction {
    /// Put a number into `rax`.
    MoveRax(nat),
    /// Push `rax`.
    PushRax,
    /// Pop `rax`.
    PopRax,
    /// Push a number.
    Push(nat),
    /// Take some words off the stack.
    Drop(nat),
    /// Load the word on top of the stack as a floating-point number.
    LoadFloat,
    /// Take the square root of the floating-point number that was loaded last.
    SquareRoot,
}

/// A floating-point number of the child.
pub enum Float {
    /// A whole number.
    Whole(nat),
    /// The square root of a whole number.
    RootOf(nat),
}

/// What the instructions work on. The last word of the stack is its top, and so is the last
/// of the floating-point numbers.
pub struct Machine {
    pub rax: nat,
    pub stack: Seq<nat>,
    pub floats: Seq<Float>,
}

/// The instructions of the child between the stop that it sends itself and its first fork.
pub open spec fn program() -> Seq<Instruction> {
    seq![
        Instruction::MoveRax(1),
        Instruction::PushRax,
        Instruction::MoveRax(2),
        Instruction::PushRax,
        Instruction::MoveRax(3),
        Instruction::PopRax,
        Instruction::PopRax,
        Instruction::Push(3),
        Instruction::Push(2),
        Instruction::Push(1),
        Instruction::Drop(3),
        Instruction::Push(32),
        Instruction::LoadFloat,
        Instruction::SquareRoot,
    ]
}

/// What an instruction does.
pub open spec fn execute(machine: Machine, instruction: Instruction) -> Machine {
    match instruction {
        Instruction::MoveRax(number) => Machine { rax: number, ..machine },
        Instruction::PushRax => Machine { stack: machine.stack.push(machine.rax), ..machine },
        Instruction::PopRax => Machine {
            rax: machine.stack.last(),
            stack: machine.stack.drop_last(),
            ..machine
        },
        Instruction::Push(number) => Machine { stack: machine.stack.push(number), ..machine },
        Instruction::Drop(count) => Machine {
            stack: machine.stack.take(machine.stack.len() - count),
            ..machine
        },
        Instruction::LoadFloat => Machine {
            floats: machine.floats.push(Float::Whole(machine.stack.last())),
            ..machine
        },
        Instruction::SquareRoot => Machine {
            floats: machine.floats.drop_last().push(
                match machine.floats.last() {
                    Float::Whole(number) => Float::RootOf(number),
                    other => other,
                },
            ),
            ..machine
        },
    }
}

/// The child behind some of its instructions, from any beginning.
pub open spec fn machine_after(start: Machine, steps: nat) -> Machine
    decreases steps,
{
    if steps == 0 {
        start
    } else {
        execute(machine_after(start, (steps - 1) as nat), program()[steps - 1])
    }
}

/// The script up to the first fork.
#[verifier::opaque]
spec fn steps_part(ops: Seq<Op>) -> bool {
    &&& ops[0] == Op::Clone
    &&& ops[1] == Op::GetPid
    &&& ops[2] == Op::SayMyPid
    &&& ops[3] == Op::SayWaiting
    &&& ops[4] == Op::AwaitStop
    &&& ops[5] == Op::Say(Banner::Attaching)
    &&& ops[6] == Op::OpenTrace
    &&& ops[7] == Op::DupIntRegs
    &&& ops[8] == Op::DupFloatRegs
    &&& ops[9] == Op::AttachMemory
    &&& ops[10] == Op::Say(Banner::ScheduleRestart)
    &&& ops[11] == Op::Continue
    &&& ops[12] == Op::Say(Banner::SteppingAway)
    &&& ops[13] == Op::Next(Who::Tracee, Stop::Instruction)
    &&& ops[14] == Op::Say(Banner::SingleStepping)
    &&& ops[15] == Op::Next(Who::Tracee, Stop::Instruction)
    &&& ops[16] == Op::ReadRegs(Who::Tracee, Some(1), None)
    &&& ops[17] == Op::Next(Who::Tracee, Stop::Instruction)
    &&& ops[18] == Op::ReadRegs(Who::Tracee, Some(2), None)
    &&& ops[19] == Op::Next(Who::Tracee, Stop::Instruction)
    &&& ops[20] == Op::ReadRegs(Who::Tracee, Some(2), None)
    &&& ops[21] == Op::Next(Who::Tracee, Stop::Instruction)
    &&& ops[22] == Op::ReadRegs(Who::Tracee, Some(3), None)
    &&& ops[23] == Op::Next(Who::Tracee, Stop::Instruction)
    &&& ops[24] == Op::ReadRegs(Who::Tracee, Some(2), None)
    &&& ops[25] == Op::Next(Who::Tracee, Stop::Instruction)
    &&& ops[26] == Op::ReadRegs(Who::Tracee, Some(1), None)
    &&& ops[27] == Op::Say(Banner::MemoryAccess)
    &&& ops[28] == Op::Next(Who::Tracee, Stop::Instruction)
    &&& ops[29] == Op::Next(Who::Tracee, Stop::Instruction)
    &&& ops[30] == Op::Next(Who::Tracee, Stop::Instruction)
    &&& ops[31] == Op::ReadRegs(Who::Tracee, None, None)
    &&& ops[32] == Op::ReadStack
    &&& ops[33] == Op::ReadCursor
    &&& ops[34] == Op::Next(Who::Tracee, Stop::Instruction)
    &&& ops[35] == Op::Say(Banner::FloatingPoint)
    &&& ops[36] == Op::Next(Who::Tracee, Stop::Instruction)
    &&& ops[37] == Op::Next(Who::Tracee, Stop::Instruction)
    &&& ops[38] == Op::Next(Who::Tracee, Stop::Instruction)
    &&& ops[39] == Op::ReadFloats
}

proof fn lemma_steps_part()
    ensures
        steps_part(script()),
{
    reveal(script);
    reveal(steps_part);
}

/// The script of both forks.
#[verifier::opaque]
spec fn forks_part(ops: Seq<Op>) -> bool {
    &&& ops[40] == Op::Say(Banner::ForkEvent)
    &&& ops[41] == Op::NextEvent(Yield::Nothing)
    &&& ops[42] == Op::NextEvent(Yield::ForkEvent)
    &&& ops[43] == Op::Events(Yield::ForkEvent)
    &&& ops[44] == Op::SayForkObtained
    &&& ops[45] == Op::Retry
    &&& ops[46] == Op::Say(Banner::ForkHandled)
    &&& ops[47] == Op::NextEvent(Yield::Nothing)
    &&& ops[48] == Op::NextEvent(Yield::Nothing)
    &&& ops[49] == Op::NextEvent(Yield::Nothing)
    &&& ops[50] == Op::NextEvent(Yield::ForkEvent)
    &&& ops[51] == Op::Events(Yield::ForkEvent)
    &&& ops[52] == Op::AttachFork
    &&& ops[53] == Op::SayForkAttached
    &&& ops[54] == Op::Next(Who::Fork, Stop::Syscall)
    &&& ops[55] == Op::ReadRegs(Who::Fork, Some(20), None)
    &&& ops[56] == Op::Next(Who::Fork, Stop::Syscall)
    &&& ops[57] == Op::Say(Banner::ForkGetpid)
    &&& ops[58] == Op::Next(Who::Fork, Stop::Syscall)
    &&& ops[59] == Op::ReadRegs(Who::Fork, Some(1), None)
    &&& ops[60] == Op::ExpectGone(Who::Fork, Stop::Completion)
    &&& ops[61] == Op::Say(Banner::ForkExit)
    &&& ops[62] == Op::Retry
}

proof fn lemma_forks_part()
    ensures
        forks_part(script()),
{
    reveal(script);
    reveal(forks_part);
}

/// The script of the signals.
#[verifier::opaque]
spec fn signals_part(ops: Seq<Op>) -> bool {
    &&& ops[63] == Op::Say(Banner::Signals)
    &&& ops[64] == Op::Next(Who::Tracee, Stop::Syscall)
    &&& ops[65] == Op::ReadRegs(Who::Tracee, Some(67), None)
    &&& ops[66] == Op::Next(Who::Tracee, Stop::Syscall)
    &&& ops[67] == Op::Next(Who::Tracee, Stop::Syscall)
    &&& ops[68] == Op::ReadRegs(Who::Tracee, Some(20), None)
    &&& ops[69] == Op::Next(Who::Tracee, Stop::Syscall)
    &&& ops[70] == Op::Next(Who::Tracee, Stop::Syscall)
    &&& ops[71] == Op::ReadRegs(Who::Tracee, Some(37), None)
    &&& ops[72] == Op::NextEvent(Yield::SignalEvent)
    &&& ops[73] == Op::Events(Yield::SignalEvent)
    &&& ops[74] == Op::Say(Banner::SignalObtained)
    &&& ops[75] == Op::Retry
    &&& ops[76] == Op::ReadRegs(Who::Tracee, Some(158), None)
    &&& ops[77] == Op::Next(Who::Tracee, Stop::Syscall)
    &&& ops[78] == Op::Next(Who::Tracee, Stop::Syscall)
    &&& ops[79] == Op::ReadRegs(Who::Tracee, Some(119), None)
    &&& ops[80] == Op::Next(Who::Tracee, Stop::Syscall)
    &&& ops[81] == Op::Next(Who::Tracee, Stop::Signal)
    &&& ops[82] == Op::ReadRegs(Who::Tracee, Some(37), None)
    &&& ops[83] == Op::Next(Who::Tracee, Stop::Syscall)
    &&& ops[84] == Op::ReadRegs(Who::Tracee, Some(158), None)
    &&& ops[85] == Op::Next(Who::Tracee, Stop::Syscall)
    &&& ops[86] == Op::Next(Who::Tracee, Stop::Syscall)
    &&& ops[87] == Op::ReadRegs(Who::Tracee, Some(119), None)
    &&& ops[88] == Op::Next(Who::Tracee, Stop::Syscall)
}

proof fn lemma_signals_part()
    ensures
        signals_part(script()),
{
    reveal(script);
    reveal(signals_part);
}

/// The script from there on.
#[verifier::opaque]
spec fn rest_part(ops: Seq<Op>) -> bool {
    &&& ops[89] == Op::Nonblocking
    &&& ops[90] == Op::Say(Banner::ObsoleteBreakpoints)
    &&& ops[91] == Op::Next(Who::Tracee, Stop::Syscall)
    &&& ops[92] == Op::Next(Who::Tracee, Stop::Completion)
    &&& ops[93] == Op::ReadRegs(Who::Tracee, None, None)
    &&& ops[94] == Op::SayRax
    &&& ops[95] == Op::Say(Banner::WaitingForSignal)
    &&& ops[96] == Op::AwaitStop
    &&& ops[97] == Op::Say(Banner::SettingSysemu)
    &&& ops[98] == Op::Next(Who::Tracee, Stop::SyscallSysemu)
    &&& ops[99] == Op::Say(Banner::ScheduleAfterBreakpoint)
    &&& ops[100] == Op::Continue
    &&& ops[101] == Op::Say(Banner::ExecutionContinues)
    &&& ops[102] == Op::ReadRegs(Who::Tracee, None, None)
    &&& ops[103] == Op::SayRax
    &&& ops[104] == Op::ReadRegs(Who::Tracee, None, None)
    &&& ops[105] == Op::SayRax
    &&& ops[106] == Op::ReadRegs(Who::Tracee, None, None)
    &&& ops[107] == Op::SayRax
    &&& ops[108] == Op::ReadRegs(Who::Tracee, None, None)
    &&& ops[109] == Op::SayRax
    &&& ops[110] == Op::ReadRegs(Who::Tracee, None, None)
    &&& ops[111] == Op::SayRax
    &&& ops[112] == Op::Say(Banner::WaitingFiveTimes)
    &&& ops[113] == Op::Wait
    &&& ops[114] == Op::Wait
    &&& ops[115] == Op::Wait
    &&& ops[116] == Op::Wait
    &&& ops[117] == Op::Wait
    &&& ops[118] == Op::Say(Banner::OverridingGetpid)
    &&& ops[119] == Op::ReadRegs(Who::Tracee, Some(20), None)
    &&& ops[120] == Op::WriteRax(123)
    &&& ops[121] == Op::Blocking
    &&& ops[122] == Op::Say(Banner::CheckingExit)
    &&& ops[123] == Op::Next(Who::Tracee, Stop::Syscall)
    &&& ops[124] == Op::ReadRegs(Who::Tracee, Some(1), Some(123))
    &&& ops[125] == Op::ExpectGone(Who::Tracee, Stop::Syscall)
    &&& ops[126] == Op::Say(Banner::CheckingStatus)
    &&& ops[127] == Op::Reap(123)
    &&& ops[128] == Op::Say(Banner::IllegalThings)
    &&& ops[129] == Op::OpenForbidden
    &&& ops[130] == Op::Say(Banner::AllDone)
}

proof fn lemma_rest_part()
    ensures
        rest_part(script()),
{
    reveal(script);
    reveal(rest_part);
}

/// How many instructions a script has let the child run before a place.
pub open spec fn steps_before(ops: Seq<Op>, place: int) -> nat
    decreases place,
{
    if place <= 0 {
        0
    } else {
        steps_before(ops, place - 1) + if ops[place - 1] == Op::Next(
            Who::Tracee,
            Stop::Instruction,
        ) {
            1nat
        } else {
            0nat
        }
    }
}

/// How many instructions have run at the places before the first fork.
proof fn lemma_steps(ops: Seq<Op>)
    requires
        steps_part(ops),
    ensures
        steps_before(ops, 15) == 1,
        steps_before(ops, 16) == 2,
        steps_before(ops, 18) == 3,
        steps_before(ops, 20) == 4,
        steps_before(ops, 22) == 5,
        steps_before(ops, 24) == 6,
        steps_before(ops, 26) == 7,
        steps_before(ops, 27) == 7,
        steps_before(ops, 32) == 10,
        steps_before(ops, 39) == 14,
        steps_before(ops, 40) == 14,
{
    reveal(steps_part);
    reveal_with_fuel(steps_before, 42);
}

/// The child behind each of its instructions: what is in `rax`, and what is on top of its
/// stacks where the script looks there.
proof fn lemma_machine(start: Machine)
    ensures
        machine_after(start, 2).rax == 1,
        machine_after(start, 3).rax == 2,
        machine_after(start, 4).rax == 2,
        machine_after(start, 5).rax == 3,
        machine_after(start, 6).rax == 2,
        machine_after(start, 7).rax == 1,
        machine_after(start, 7).stack == start.stack,
        machine_after(start, 10).stack == start.stack + seq![3nat, 2nat, 1nat],
        machine_after(start, 11).stack == start.stack,
        machine_after(start, 14).floats == start.floats.push(Float::RootOf(32)),
{
    let p = program();
    let m1 = execute(start, p[0]);
    let m2 = execute(m1, p[1]);
    let m3 = execute(m2, p[2]);
    let m4 = execute(m3, p[3]);
    let m5 = execute(m4, p[4]);
    let m6 = execute(m5, p[5]);
    let m7 = execute(m6, p[6]);
    let m8 = execute(m7, p[7]);
    let m9 = execute(m8, p[8]);
    let m10 = execute(m9, p[9]);
    let m11 = execute(m10, p[10]);
    let m12 = execute(m11, p[11]);
    let m13 = execute(m12, p[12]);
    let m14 = execute(m13, p[13]);
    assert(machine_after(start, 0) == start);
    assert(machine_after(start, 1) == m1);
    assert(machine_after(start, 2) == m2);
    assert(machine_after(start, 3) == m3);
    assert(machine_after(start, 4) == m4);
    assert(machine_after(start, 5) == m5);
    assert(machine_after(start, 6) == m6);
    assert(machine_after(start, 7) == m7);
    assert(machine_after(start, 8) == m8);
    assert(machine_after(start, 9) == m9);
    assert(machine_after(start, 10) == m10);
    assert(machine_after(start, 11) == m11);
    assert(machine_after(start, 12) == m12);
    assert(machine_after(start, 13) == m13);
    assert(machine_after(start, 14) == m14);
    assert(m6.stack =~= m2.stack);
    assert(m7.stack =~= start.stack);
    assert(m10.stack =~= start.stack + seq![3nat, 2nat, 1nat]);
    assert(m11.stack =~= start.stack);
    assert(m14.floats =~= start.floats.push(Float::RootOf(32)));
}

/// Wherever the script looks at the child before its first fork, it insists on what the
/// program has done by then: on the number that is in `rax`, on the three words on top of
/// the stack when they are one, two and three from the top down, and on the square root of
/// thirty-two as the only floating-point number that has come up. It has let the child run
/// the whole program before the fork, and looks behind each of the six steps that it takes
/// one by one.
pub proof fn law_single_steps_follow_the_program(start: Machine, k: int)
    requires
        0 <= k < 40,
    ensures
        follows_program(script(), start, k),
        steps_before(script(), 15) == 1,
        steps_before(script(), 27) == 7,
        steps_before(script(), 40) == program().len(),
{
    lemma_steps_part();
    lemma_steps_follow(script(), start, k);
}

/// What a script does at a place before the first fork fits what the program has done by
/// then.
pub open spec fn follows_program(ops: Seq<Op>, start: Machine, k: int) -> bool {
    let machine = machine_after(start, steps_before(ops, k));
    &&& match ops[k] {
        Op::ReadRegs(who, rax, rdi) => {
            &&& who is Tracee
            &&& rdi is None
            &&& rax matches Some(number) ==> number == machine.rax
            &&& rax is None ==> ops[k + 1] is ReadStack
        },
        Op::ReadStack => machine.stack == start.stack + seq![3nat, 2nat, 1nat],
        Op::ReadFloats => machine.floats == start.floats.push(Float::RootOf(32)),
        _ => true,
    }
    &&& 14 < k < 27 && ops[k] is Next ==> ops[k] == Op::Next(Who::Tracee, Stop::Instruction)
        && ops[k + 1] is ReadRegs && ops[k + 1]->ReadRegs_1 is Some
}

/// A script with these beginnings follows the program.
proof fn lemma_steps_follow(ops: Seq<Op>, start: Machine, k: int)
    requires
        steps_part(ops),
        0 <= k < 40,
    ensures
        follows_program(ops, start, k),
        steps_before(ops, 15) == 1,
        steps_before(ops, 27) == 7,
        steps_before(ops, 40) == program().len(),
{
    reveal(steps_part);
    lemma_steps(ops);
    lemma_machine(start);
}

/// Where a traced process is held.
pub enum Held {
    /// At the entry to the system call with the number.
    Entry(usize),
    /// Behind the system call with the number.
    Exit(usize),
    /// Where a signal is about to be delivered, with the number of the call that sent it
    /// still in `rax`. Only a breakpoint for signals holds a process there.
    Delivery(usize),
}

/// Where the child is held from its first fork on, until it waits for a while: it forks, it
/// waits for the fork, it forks again, it installs a handler, it asks for its number, and
/// twice it sends itself a signal, whose handler yields and returns to behind the `kill`. The
/// first signal comes up as an event, and the second is met at its delivery.
pub open spec fn child_stops() -> Seq<Held> {
    seq![
        Held::Entry(120),
        Held::Exit(120),
        Held::Entry(7),
        Held::Exit(7),
        Held::Entry(120),
        Held::Exit(120),
        Held::Entry(67),
        Held::Exit(67),
        Held::Entry(20),
        Held::Exit(20),
        Held::Entry(37),
        Held::Entry(158),
        Held::Exit(158),
        Held::Entry(119),
        Held::Exit(37),
        Held::Delivery(37),
        Held::Entry(158),
        Held::Exit(158),
        Held::Entry(119),
        Held::Exit(37),
    ]
}

/// Where the fork that is traced is held, until it is gone: it asks for its number, and
/// exits.
pub open spec fn fork_stops() -> Seq<Held> {
    seq![Held::Entry(20), Held::Exit(20), Held::Entry(1)]
}

/// The child gets to the next place where it is held: it is let run there, or waiting is
/// taken up again behind an event on the way.
pub open spec fn moves_child(op: Op) -> bool {
    match op {
        Op::Next(Who::Tracee, Stop::Syscall) | Op::Next(Who::Tracee, Stop::Signal) | Op::NextEvent(
            Yield::Nothing,
        ) | Op::Retry => true,
        _ => false,
    }
}

/// How often the child has got on, from its first fork on, before a place of a script.
pub open spec fn child_moves(ops: Seq<Op>, place: int) -> nat
    decreases place,
{
    if place <= 40 {
        0
    } else {
        child_moves(ops, place - 1) + if moves_child(ops[place - 1]) {
            1nat
        } else {
            0nat
        }
    }
}

/// How often the fork has been let run before a place of a script.
pub open spec fn fork_moves(ops: Seq<Op>, place: int) -> nat
    decreases place,
{
    if place <= 40 {
        0
    } else {
        fork_moves(ops, place - 1) + if ops[place - 1] == Op::Next(Who::Fork, Stop::Syscall) {
            1nat
        } else {
            0nat
        }
    }
}

/// How often both have got on at the places up to the end of the second fork.
proof fn lemma_moves_of_forks(ops: Seq<Op>)
    requires
        forks_part(ops),
    ensures
        child_moves(ops, 41) == 0,
        child_moves(ops, 42) == 1,
        child_moves(ops, 45) == 1,
        child_moves(ops, 47) == 2,
        child_moves(ops, 48) == 3,
        child_moves(ops, 49) == 4,
        child_moves(ops, 50) == 5,
        child_moves(ops, 62) == 5,
        child_moves(ops, 63) == 6,
        fork_moves(ops, 54) == 0,
        fork_moves(ops, 55) == 1,
        fork_moves(ops, 56) == 1,
        fork_moves(ops, 58) == 2,
        fork_moves(ops, 59) == 3,
        fork_moves(ops, 60) == 3,
{
    reveal(forks_part);
    reveal_with_fuel(child_moves, 25);
    reveal_with_fuel(fork_moves, 25);
}

/// How often the child has got on at the places of the signals.
proof fn lemma_moves_of_signals(ops: Seq<Op>)
    requires
        forks_part(ops),
        signals_part(ops),
    ensures
        child_moves(ops, 64) == 6,
        child_moves(ops, 65) == 7,
        child_moves(ops, 66) == 7,
        child_moves(ops, 67) == 8,
        child_moves(ops, 68) == 9,
        child_moves(ops, 69) == 9,
        child_moves(ops, 70) == 10,
        child_moves(ops, 71) == 11,
        child_moves(ops, 72) == 11,
        child_moves(ops, 75) == 11,
        child_moves(ops, 76) == 12,
        child_moves(ops, 77) == 12,
        child_moves(ops, 78) == 13,
        child_moves(ops, 79) == 14,
        child_moves(ops, 80) == 14,
        child_moves(ops, 81) == 15,
        child_moves(ops, 82) == 16,
        child_moves(ops, 83) == 16,
        child_moves(ops, 84) == 17,
        child_moves(ops, 85) == 17,
        child_moves(ops, 86) == 18,
        child_moves(ops, 87) == 19,
        child_moves(ops, 88) == 19,
        child_moves(ops, 89) == 20,
{
    lemma_moves_of_forks(ops);
    reveal(signals_part);
    reveal_with_fuel(child_moves, 28);
}

/// What a script does at a place behind the first fork fits where the child is held.
pub open spec fn follows_child(ops: Seq<Op>, k: int) -> bool {
    let moved = child_moves(ops, k) as int;
    let stops = child_stops();
    &&& match ops[k] {
        Op::ReadRegs(Who::Tracee, rax, rdi) => moved > 0 && rdi is None && (rax matches Some(number)
            && (stops[moved - 1] == Held::Entry(number) || stops[moved - 1] == Held::Delivery(
            number,
        ))),
        Op::NextEvent(Yield::ForkEvent) => stops[moved] == Held::Exit(120),
        Op::NextEvent(Yield::SignalEvent) => moved > 0 && stops[moved - 1] == Held::Entry(37)
            && stops[moved] == Held::Entry(158),
        Op::Next(Who::Tracee, Stop::Signal) => stops[moved] is Delivery,
        Op::Next(Who::Tracee, stop) => stop is Syscall && !(stops[moved] is Delivery),
        _ => true,
    }
    &&& moves_child(ops[k]) ==> {
        &&& moved < stops.len()
        &&& stops[moved] matches Held::Entry(number) ==> number == 120 || number == 7 || ops[k + 1]
            == Op::ReadRegs(Who::Tracee, Some(number), None)
        &&& stops[moved] matches Held::Delivery(number) ==> ops[k + 1] == Op::ReadRegs(
            Who::Tracee,
            Some(number),
            None,
        )
    }
}

/// A script with such a middle follows the child through both forks.
proof fn lemma_forks_follow(ops: Seq<Op>, k: int)
    requires
        forks_part(ops),
        40 <= k < 63,
    ensures
        follows_child(ops, k),
{
    reveal(forks_part);
    lemma_moves_of_forks(ops);
}

/// A script with such a middle follows the child through both signals.
proof fn lemma_signals_follow(ops: Seq<Op>, k: int)
    requires
        forks_part(ops),
        signals_part(ops),
        63 <= k < 89,
    ensures
        follows_child(ops, k),
{
    reveal(signals_part);
    lemma_moves_of_signals(ops);
}

/// The script follows the child from its first fork up to where it waits for a while. It
/// insists on the number of a system call in `rax` exactly where the child is held at the
/// entry to that call or at the delivery of the signal that it sent, and does so there every
/// time but at the entries to the calls that fork and wait for the fork. It insists on a fork where the child is about to be held behind a call that
/// forks, and on a signal where the child is held at the entry to the call that sends one.
/// By the end the child has been held at every place in turn.
pub proof fn law_system_calls_follow_the_program(k: int)
    requires
        40 <= k < 89,
    ensures
        follows_child(script(), k),
        child_moves(script(), 89) == child_stops().len(),
{
    lemma_forks_part();
    lemma_signals_part();
    lemma_moves_of_signals(script());
    if k < 63 {
        lemma_forks_follow(script(), k);
    } else {
        lemma_signals_follow(script(), k);
    }
}

/// What a script does with the fork at a place fits where the fork is held.
pub open spec fn follows_fork(ops: Seq<Op>, k: int) -> bool {
    let moved = fork_moves(ops, k) as int;
    let stops = fork_stops();
    match ops[k] {
        Op::ReadRegs(Who::Fork, rax, rdi) => moved > 0 && rdi is None && (rax matches Some(number)
            && stops[moved - 1] == Held::Entry(number)),
        Op::Next(Who::Fork, stop) => {
            &&& stop is Syscall
            &&& moved < stops.len()
            &&& stops[moved] matches Held::Entry(number) ==> ops[k + 1] == Op::ReadRegs(
                Who::Fork,
                Some(number),
                None,
            )
        },
        Op::ExpectGone(Who::Fork, stop) => stop is Completion && moved == stops.len(),
        _ => true,
    }
}

/// A script with such a middle follows the fork.
proof fn lemma_fork_follows(ops: Seq<Op>, k: int)
    requires
        forks_part(ops),
        40 <= k < 63,
    ensures
        follows_fork(ops, k),
{
    reveal(forks_part);
    lemma_moves_of_forks(ops);
}

/// Something is done with the fork that is traced.
pub open spec fn concerns_fork(op: Op) -> bool {
    match op {
        Op::ReadRegs(Who::Fork, _, _) | Op::Next(Who::Fork, _) | Op::ExpectGone(Who::Fork, _)
        | Op::AttachFork | Op::SayForkAttached => true,
        _ => false,
    }
}

/// The fork is held to its program too: it is let run from one system call to the next, the
/// script looks at the number of each call at its entry, and behind the last one insists that
/// it is gone when it is let run to its end. All of that happens between the event of the
/// second fork and the retry behind it.
pub proof fn law_the_fork_follows_its_program(k: int)
    requires
        51 < k < 62,
    ensures
        follows_fork(script(), k),
        fork_moves(script(), 60) == fork_stops().len(),
{
    lemma_forks_part();
    lemma_moves_of_forks(script());
    lemma_fork_follows(script(), k);
}

/// The script is the one that is written out above.
spec fn written(ops: Seq<Op>) -> bool {
    &&& steps_part(ops)
    &&& forks_part(ops)
    &&& signals_part(ops)
    &&& rest_part(ops)
}

proof fn lemma_written()
    ensures
        written(script()),
        script().len() == SCRIPT_LEN,
{
    reveal(script);
    lemma_steps_part();
    lemma_forks_part();
    lemma_signals_part();
    lemma_rest_part();
}

/// Where the fork is traced: it is attached to directly behind its event, it is let go by
/// the retry, and it is of no concern before or behind that.
pub open spec fn fork_is_traced_in_between(ops: Seq<Op>, k: int) -> bool {
    &&& concerns_fork(ops[k]) ==> 51 < k < 61
    &&& 51 < k < 61 ==> concerns_fork(ops[k]) || ops[k] is Say
    &&& ops[k] is AttachFork ==> ops[k - 1] == Op::Events(Yield::ForkEvent) && ops[k + 1]
        == Op::SayForkAttached
    &&& k == 62 ==> ops[k] is Retry
}

proof fn lemma_fork_in_between(ops: Seq<Op>, k: int)
    requires
        written(ops),
        0 <= k < SCRIPT_LEN,
    ensures
        fork_is_traced_in_between(ops, k),
{
    reveal(steps_part);
    reveal(forks_part);
    reveal(signals_part);
    reveal(rest_part);
}

/// The fork is attached to directly behind its event, which is not given up before the fork
/// is gone, and nothing is done with a fork anywhere else.
pub proof fn law_one_fork_is_traced(k: int)
    requires
        0 <= k < SCRIPT_LEN,
    ensures
        fork_is_traced_in_between(script(), k),
{
    lemma_written();
    lemma_fork_in_between(script(), k);
}

/// The child gets on, or is let run, at this place.
pub open spec fn lets_run(op: Op) -> bool {
    match op {
        Op::Next(_, _) | Op::NextEvent(_) | Op::Retry | Op::ExpectGone(_, _) => true,
        _ => false,
    }
}

/// A place of a script is where the breakpoint that emulates is set.
pub open spec fn sets_sysemu(op: Op) -> bool {
    op == Op::Next(Who::Tracee, Stop::SyscallSysemu)
}

/// The emulating breakpoint is set where the line says so, while the child has stopped
/// itself and before it is sent the signal to continue.
pub open spec fn sysemu_is_set_while_stopped(ops: Seq<Op>, k: int) -> bool {
    ops[k] == Op::Say(Banner::SettingSysemu) ==> {
        &&& sets_sysemu(ops[k + 1])
        &&& ops[k - 1] == Op::AwaitStop
        &&& exists|c: int|
            k + 1 < c < ops.len() && #[trigger] ops[c] == Op::Continue && forall|b: int|
                k < b < c ==> !(#[trigger] ops[b] is Wait) && (lets_run(ops[b]) ==> b == k + 1)
    }
}

/// Another `rax` is written only behind an emulating breakpoint, and with nothing in between
/// that lets the child run.
pub open spec fn answer_is_emulated(ops: Seq<Op>, k: int) -> bool {
    ops[k] is WriteRax ==> exists|a: int|
        0 <= a < k && #[trigger] sets_sysemu(ops[a]) && forall|b: int|
            a < b < k ==> !lets_run(#[trigger] ops[b])
}

proof fn lemma_sysemu(ops: Seq<Op>, k: int)
    requires
        written(ops),
        ops.len() == SCRIPT_LEN,
        0 <= k < SCRIPT_LEN,
    ensures
        sysemu_is_set_while_stopped(ops, k),
        answer_is_emulated(ops, k),
        sets_sysemu(ops[k]) <==> k == 98,
        ops[k] is WriteRax <==> k == 120,
        ops[k] == Op::Say(Banner::SettingSysemu) <==> k == 97,
{
    reveal(steps_part);
    reveal(forks_part);
    reveal(signals_part);
    reveal(rest_part);
    assert(sets_sysemu(ops[98]));
    assert(ops[100] == Op::Continue);
    assert forall|b: int| 98 < b < 120 implies !lets_run(#[trigger] ops[b]) by {
    }
}

/// A system call is emulated before its answer is replaced: the breakpoint is set directly
/// behind the line that says so, while the child has stopped itself and before it is sent
/// the signal to continue, and wherever the script writes another `rax`, that breakpoint is
/// the last that the child was let run to. There is one such place, and one such breakpoint.
pub proof fn law_an_answer_is_replaced_only_where_its_call_is_emulated(k: int)
    requires
        0 <= k < SCRIPT_LEN,
    ensures
        sysemu_is_set_while_stopped(script(), k),
        answer_is_emulated(script(), k),
        script()[k] == Op::Say(Banner::SettingSysemu) ==> script()[k + 1] == Op::Next(
            Who::Tracee,
            Stop::SyscallSysemu,
        ),
        exists|a: int, b: int|
            0 <= a < b < SCRIPT_LEN && #[trigger] sets_sysemu(script()[a])
                && #[trigger] script()[b] is WriteRax,
        forall|a: int, b: int|
            0 <= a < SCRIPT_LEN && 0 <= b < SCRIPT_LEN && #[trigger] sets_sysemu(script()[a])
                && #[trigger] sets_sysemu(script()[b]) ==> a == b,
{
    lemma_written();
    lemma_sysemu(script(), k);
    lemma_sysemu(script(), 98);
    lemma_sysemu(script(), 120);
    assert forall|a: int, b: int|
        0 <= a < SCRIPT_LEN && 0 <= b < SCRIPT_LEN && #[trigger] sets_sysemu(script()[a])
            && #[trigger] sets_sysemu(script()[b]) implies a == b by {
        lemma_sysemu(script(), a);
        lemma_sysemu(script(), b);
    }
}

/// A line says what the script does next, or what it has just done.
pub open spec fn line_is_true(ops: Seq<Op>, k: int) -> bool {
    ops[k] matches Op::Say(banner) ==> match banner {
        Banner::Attaching => ops[k - 1] == Op::AwaitStop && ops[k + 1] == Op::OpenTrace,
        Banner::ScheduleRestart | Banner::ScheduleAfterBreakpoint => ops[k + 1] == Op::Continue,
        Banner::SteppingAway => ops[k - 1] == Op::Continue && ops[k + 1] == Op::Next(
            Who::Tracee,
            Stop::Instruction,
        ),
        Banner::SingleStepping | Banner::MemoryAccess | Banner::FloatingPoint => ops[k + 1]
            == Op::Next(Who::Tracee, Stop::Instruction),
        Banner::ForkEvent | Banner::ForkHandled => ops[k + 1] == Op::NextEvent(Yield::Nothing),
        Banner::ForkGetpid => ops[k - 2] == Op::ReadRegs(Who::Fork, Some(20), None) && ops[k - 1]
            == Op::Next(Who::Fork, Stop::Syscall),
        Banner::ForkExit => ops[k - 2] == Op::ReadRegs(Who::Fork, Some(1), None) && ops[k - 1]
            == Op::ExpectGone(Who::Fork, Stop::Completion),
        Banner::Signals => ops[k + 1] == Op::Next(Who::Tracee, Stop::Syscall),
        Banner::SignalObtained => ops[k - 1] == Op::Events(Yield::SignalEvent),
        Banner::ObsoleteBreakpoints => ops[k - 1] == Op::Nonblocking && ops[k + 1] == Op::Next(
            Who::Tracee,
            Stop::Syscall,
        ) && ops[k + 2] == Op::Next(Who::Tracee, Stop::Completion) && ops[k + 3] == Op::ReadRegs(
            Who::Tracee,
            None,
            None,
        ) && ops[k + 4] == Op::SayRax,
        Banner::WaitingForSignal => ops[k + 1] == Op::AwaitStop,
        Banner::SettingSysemu => ops[k + 1] == Op::Next(Who::Tracee, Stop::SyscallSysemu),
        Banner::ExecutionContinues => forall|i: int|
            k < i <= k + 10 ==> #[trigger] ops[i] == if (i - k) % 2 == 1 {
                Op::ReadRegs(Who::Tracee, None, None)
            } else {
                Op::SayRax
            },
        Banner::WaitingFiveTimes => !(ops[k + 6] is Wait) && forall|i: int|
            k < i <= k + 5 ==> #[trigger] ops[i] is Wait,
        Banner::OverridingGetpid => ops[k + 1] == Op::ReadRegs(Who::Tracee, Some(20), None)
            && ops[k + 2] == Op::WriteRax(123),
        Banner::CheckingExit => ops[k - 1] == Op::Blocking && ops[k + 1] == Op::Next(
            Who::Tracee,
            Stop::Syscall,
        ) && ops[k + 2] == Op::ReadRegs(Who::Tracee, Some(1), Some(123)) && ops[k + 3]
            == Op::ExpectGone(Who::Tracee, Stop::Syscall),
        Banner::CheckingStatus => ops[k - 1] is ExpectGone && ops[k + 1] == Op::Reap(123),
        Banner::IllegalThings => ops[k + 1] == Op::OpenForbidden,
        Banner::AllDone => k == ops.len() - 1,
    }
}

proof fn lemma_line_is_true(ops: Seq<Op>, k: int)
    requires
        written(ops),
        ops.len() == SCRIPT_LEN,
        0 <= k < SCRIPT_LEN,
    ensures
        line_is_true(ops, k),
{
    reveal(steps_part);
    reveal(forks_part);
    reveal(signals_part);
    reveal(rest_part);
}

/// No line is printed in vain: each of them says what the script does next, or what it has
/// just done.
pub proof fn law_lines_are_true(k: int)
    requires
        0 <= k < SCRIPT_LEN,
    ensures
        line_is_true(script(), k),
{
    lemma_written();
    lemma_line_is_true(script(), k);
}

proof fn lemma_lines_differ(ops: Seq<Op>, k: int, l: int)
    requires
        written(ops),
        0 <= k < l < SCRIPT_LEN,
    ensures
        ops[k] is Say ==> ops[k] != ops[l],
{
    reveal(steps_part);
    reveal(forks_part);
    reveal(signals_part);
    reveal(rest_part);
}

/// A place where a line is printed.
pub open spec fn says(ops: Seq<Op>, k: int, banner: Banner) -> bool {
    0 <= k < ops.len() && ops[k] == Op::Say(banner)
}

proof fn lemma_line_is_printed(ops: Seq<Op>, banner: Banner)
    requires
        written(ops),
        ops.len() == SCRIPT_LEN,
    ensures
        exists|k: int| #[trigger] says(ops, k, banner),
{
    reveal(steps_part);
    reveal(forks_part);
    reveal(signals_part);
    reveal(rest_part);
    let place: int = match banner {
        Banner::Attaching => 5,
        Banner::ScheduleRestart => 10,
        Banner::SteppingAway => 12,
        Banner::SingleStepping => 14,
        Banner::MemoryAccess => 27,
        Banner::FloatingPoint => 35,
        Banner::ForkEvent => 40,
        Banner::ForkHandled => 46,
        Banner::ForkGetpid => 57,
        Banner::ForkExit => 61,
        Banner::Signals => 63,
        Banner::SignalObtained => 74,
        Banner::ObsoleteBreakpoints => 90,
        Banner::WaitingForSignal => 95,
        Banner::SettingSysemu => 97,
        Banner::ScheduleAfterBreakpoint => 99,
        Banner::ExecutionContinues => 101,
        Banner::WaitingFiveTimes => 112,
        Banner::OverridingGetpid => 118,
        Banner::CheckingExit => 122,
        Banner::CheckingStatus => 126,
        Banner::IllegalThings => 128,
        Banner::AllDone => 130,
    };
    assert(says(ops, place, banner));
}

/// Every line without a number in it is printed exactly once.
pub proof fn law_every_line_is_printed_once(banner: Banner)
    ensures
        exists|k: int| #[trigger] says(script(), k, banner),
        forall|k: int, l: int| #[trigger]
            says(script(), k, banner) && #[trigger] says(script(), l, banner) ==> k == l,
{
    lemma_written();
    lemma_line_is_printed(script(), banner);
    assert forall|k: int, l: int| #[trigger]
        says(script(), k, banner) && #[trigger] says(script(), l, banner) implies k == l by {
        if k < l {
            lemma_lines_differ(script(), k, l);
        } else if l < k {
            lemma_lines_differ(script(), l, k);
        }
    }
}

/// What stands around a thing in the script that depends on what was read or came up
/// before it.
pub open spec fn stands_in_place(ops: Seq<Op>, k: int) -> bool {
    match ops[k] {
        Op::SayMyPid => ops[k - 1] == Op::GetPid,
        Op::SayWaiting => ops[k + 1] == Op::AwaitStop,
        Op::SayRax => ops[k - 1] == Op::ReadRegs(Who::Tracee, None, None),
        Op::ReadStack => ops[k - 1] == Op::ReadRegs(Who::Tracee, None, None) && ops[k + 1]
            == Op::ReadCursor,
        Op::ReadCursor => ops[k - 1] == Op::ReadStack,
        Op::Events(wanted) => ops[k - 1] == Op::NextEvent(wanted) && !(wanted is Nothing),
        Op::NextEvent(wanted) => wanted is Nothing || ops[k + 1] == Op::Events(wanted),
        Op::SayForkObtained => ops[k - 1] == Op::Events(Yield::ForkEvent) && ops[k + 1]
            == Op::Retry,
        Op::AttachFork => ops[k - 1] == Op::Events(Yield::ForkEvent),
        Op::SayForkAttached => ops[k - 1] == Op::AttachFork,
        Op::WriteRax(_) => ops[k - 1] == Op::ReadRegs(Who::Tracee, Some(20), None) && ops[k + 1]
            == Op::Blocking,
        Op::Nonblocking => k == 89,
        Op::Blocking => ops[k - 1] is WriteRax,
        Op::Wait => 112 < k < 118,
        Op::ReadRegs(_, rax, rdi) => rdi is Some ==> rax == Some(1usize),
        Op::Continue => ops[k - 1] is Say,
        Op::Reap(code) => ops[k - 3] == Op::ReadRegs(Who::Tracee, Some(1), Some(code)),
        Op::Next(_, stop) => stop is Completion ==> ops[k - 1] == Op::Next(
            Who::Tracee,
            Stop::Syscall,
        ),
        _ => true,
    }
}

proof fn lemma_stands_in_place(ops: Seq<Op>, k: int)
    requires
        written(ops),
        0 <= k < SCRIPT_LEN,
    ensures
        stands_in_place(ops, k),
{
    reveal(steps_part);
    reveal(forks_part);
    reveal(signals_part);
    reveal(rest_part);
}

/// Whatever depends on what was read or came up stands directly behind the thing that reads
/// it or lets it come up.
pub proof fn law_everything_stands_in_place(k: int)
    requires
        0 <= k < SCRIPT_LEN,
    ensures
        stands_in_place(script(), k),
{
    lemma_written();
    lemma_stands_in_place(script(), k);
}

} // verus!

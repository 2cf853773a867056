//! The lines that the `ptrace` test prints.

use crate::script::Banner;
use crate::text::{
    append_decimal, decimal, is_numeral, law_number_in_between_is_read_back,
};
use vstd::prelude::*;

verus! {

/// A line of the `ptrace` test.
#[derive(Clone, Copy, Debug, PartialEq, Eq)]
pub enum Line {
    /// A line without a number in it.
    Fixed(Banner),
    /// The own process number.
    MyPid(usize),
    /// The process number of the child that is waited for.
    WaitingFor(usize),
    /// The process number in the event of an ignored fork.
    ForkObtained(usize),
    /// The process number of a fork that is traced.
    ForkAttached(usize),
    /// The `rax` register of the child.
    Rax(usize),
}

/// The text of a line without a number in it.
pub open spec fn banner_text(banner: Banner) -> Seq<char> {
    match banner {
        Banner::Attaching => "Done! Attaching tracer..."@,
        Banner::ScheduleRestart => "Schedule restart of process when resumed..."@,
        Banner::SteppingAway => "Stepping away from the syscall instruction..."@,
        Banner::SingleStepping => "Testing basic singlestepping..."@,
        Banner::MemoryAccess => "Testing memory access..."@,
        Banner::FloatingPoint => "Testing floating point..."@,
        Banner::ForkEvent => "Testing fork event"@,
        Banner::ForkHandled => "Testing fork event - but actually handling the fork"@,
        Banner::ForkGetpid => "-> Fork executed GETPID"@,
        Banner::ForkExit => "-> Fork executed EXIT"@,
        Banner::Signals => "Testing signals"@,
        Banner::SignalObtained => "Obtained signal"@,
        Banner::ObsoleteBreakpoints => "Testing behavior of obsolete breakpoints..."@,
        Banner::WaitingForSignal =>
            "Waiting for next signal from tracee that it's ready to be traced again..."@,
        Banner::SettingSysemu => "Setting sysemu breakpoint..."@,
        Banner::ScheduleAfterBreakpoint =>
            "Schedule restart of process after breakpoint is set..."@,
        Banner::ExecutionContinues =>
            "After non-blocking ptrace, execution continues as normal:"@,
        Banner::WaitingFiveTimes =>
            "Waiting... Five times... To make sure it doesn't get stuck forever..."@,
        Banner::OverridingGetpid => "Overriding GETPID call..."@,
        Banner::CheckingExit => "Checking exit syscall..."@,
        Banner::CheckingStatus => "Checking exit status (waitpid nohang)..."@,
        Banner::IllegalThings => "Trying to do illegal things..."@,
        Banner::AllDone => "All done and tested!"@,
    }
}

/// The text of a line.
pub open spec fn line_text(line: Line) -> Seq<char> {
    match line {
        Line::Fixed(banner) => banner_text(banner),
        Line::MyPid(pid) => "My PID: "@ + decimal(pid as nat),
        Line::WaitingFor(pid) => "Waiting until child (pid "@ + decimal(pid as nat)
            + ") is ready to be traced..."@,
        Line::ForkObtained(pid) => "Obtained fork (PID "@ + decimal(pid as nat) + ")"@,
        Line::ForkAttached(pid) => "-> Fork attached (PID "@ + decimal(pid as nat) + ")"@,
        Line::Rax(value) => "Tracee RAX: "@ + decimal(value as nat),
    }
}

impl Banner {
    /// The text of the line.
    pub fn text(self) -> (text: &'static str)
        ensures
            text@ == banner_text(self),
    {
        match self {
            Banner::Attaching => "Done! Attaching tracer...",
            Banner::ScheduleRestart => "Schedule restart of process when resumed...",
            Banner::SteppingAway => "Stepping away from the syscall instruction...",
            Banner::SingleStepping => "Testing basic singlestepping...",
            Banner::MemoryAccess => "Testing memory access...",
            Banner::FloatingPoint => "Testing floating point...",
            Banner::ForkEvent => "Testing fork event",
            Banner::ForkHandled => "Testing fork event - but actually handling the fork",
            Banner::ForkGetpid => "-> Fork executed GETPID",
            Banner::ForkExit => "-> Fork executed EXIT",
            Banner::Signals => "Testing signals",
            Banner::SignalObtained => "Obtained signal",
            Banner::ObsoleteBreakpoints => "Testing behavior of obsolete breakpoints...",
            Banner::WaitingForSignal =>
                "Waiting for next signal from tracee that it's ready to be traced again...",
            Banner::SettingSysemu => "Setting sysemu breakpoint...",
            Banner::ScheduleAfterBreakpoint =>
                "Schedule restart of process after breakpoint is set...",
            Banner::ExecutionContinues =>
                "After non-blocking ptrace, execution continues as normal:",
            Banner::WaitingFiveTimes =>
                "Waiting... Five times... To make sure it doesn't get stuck forever...",
            Banner::OverridingGetpid => "Overriding GETPID call...",
            Banner::CheckingExit => "Checking exit syscall...",
            Banner::CheckingStatus => "Checking exit status (waitpid nohang)...",
            Banner::IllegalThings => "Trying to do illegal things...",
            Banner::AllDone => "All done and tested!",
        }
    }
}

impl Line {
    /// The text of the line.
    pub fn text(self) -> (text: String)
        ensures
            text@ == line_text(self),
    {
        match self {
            Line::Fixed(banner) => banner.text().to_owned(),
            Line::MyPid(pid) => labelled("My PID: ", pid, ""),
            Line::WaitingFor(pid) => labelled(
                "Waiting until child (pid ",
                pid,
                ") is ready to be traced...",
            ),
            Line::ForkObtained(pid) => labelled("Obtained fork (PID ", pid, ")"),
            Line::ForkAttached(pid) => labelled("-> Fork attached (PID ", pid, ")"),
            Line::Rax(value) => labelled("Tracee RAX: ", value, ""),
        }
    }
}

/// A number with a text before and a text behind it.
pub fn labelled(before: &str, number: usize, behind: &str) -> (text: String)
    ensures
        text@ == before@ + decimal(number as nat) + behind@,
        behind@ == ""@ ==> text@ == before@ + decimal(number as nat),
{
    let mut text = before.to_owned();
    append_decimal(&mut text, number as u64);
    text.append(behind);
    assert(behind@ == ""@ ==> text@ =~= before@ + decimal(number as nat)) by {
        reveal_strlit("");
    }
    text
}

/// A text holds a number between two others: its numeral stands there, and nothing else.
pub open spec fn holds(text: Seq<char>, before: Seq<char>, number: nat, behind: Seq<char>) -> bool {
    &&& text.len() > before.len() + behind.len()
    &&& text.take(before.len() as int) == before
    &&& text.skip(text.len() - behind.len()) == behind
    &&& is_numeral(
        text.subrange(before.len() as int, text.len() - behind.len()),
        number as int,
    )
}

/// What [`labelled`] gives holds its number between its two texts.
pub proof fn law_labelled_number_is_read_back(before: Seq<char>, number: usize, behind: Seq<char>)
    ensures
        holds(before + decimal(number as nat) + behind, before, number as nat, behind),
{
    law_number_in_between_is_read_back(before, number as nat, behind);
}

/// A line with a number in it holds that number, whatever it is.
pub proof fn law_lines_hold_their_number(number: usize)
    ensures
        holds(line_text(Line::MyPid(number)), "My PID: "@, number as nat, Seq::empty()),
        holds(
            line_text(Line::WaitingFor(number)),
            "Waiting until child (pid "@,
            number as nat,
            ") is ready to be traced..."@,
        ),
        holds(line_text(Line::ForkObtained(number)), "Obtained fork (PID "@, number as nat, ")"@),
        holds(
            line_text(Line::ForkAttached(number)),
            "-> Fork attached (PID "@,
            number as nat,
            ")"@,
        ),
        holds(line_text(Line::Rax(number)), "Tracee RAX: "@, number as nat, Seq::empty()),
{
    let nothing = Seq::<char>::empty();
    let digits = decimal(number as nat);
    assert("My PID: "@ + digits + nothing =~= "My PID: "@ + digits);
    assert("Tracee RAX: "@ + digits + nothing =~= "Tracee RAX: "@ + digits);
    law_labelled_number_is_read_back("My PID: "@, number, nothing);
    law_labelled_number_is_read_back("Tracee RAX: "@, number, nothing);
    law_labelled_number_is_read_back(
        "Waiting until child (pid "@,
        number,
        ") is ready to be traced..."@,
    );
    law_labelled_number_is_read_back("Obtained fork (PID "@, number, ")"@);
    law_labelled_number_is_read_back("-> Fork attached (PID "@, number, ")"@);
}

} // verus!

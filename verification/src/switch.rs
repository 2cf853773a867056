//! The `switch` test: two threads give up the processor to each other, and the time
//! that it takes is shown.
//!
//! The test is a conversation, which the caller's thread has. [`SwitchState::request`]
//! says what is wanted next, and [`switch_test`] takes the answer. The other thread
//! counts with [`yield_again`], from zero until there is no further turn.

use crate::text::{
    append_decimal, decimal, is_numeral, law_a_number_has_one_numeral, law_decimal_is_injective,
    law_digits_end_where_others_begin, lemma_decimal_is_digits,
};
use vstd::prelude::*;

verus! {

/// How often each thread gives up the processor.
pub const YIELDS: usize = 500;

/// What the test is about to do.
#[derive(Clone, Copy, Debug, PartialEq, Eq)]
pub enum SwitchStage {
    /// Read the clock for the first time.
    FirstReading,
    /// Start the other thread.
    Start,
    /// Give up the processor once more.
    Yield,
    /// Join the other thread.
    Join,
    /// Read the clock for the second time.
    SecondReading,
    /// Print the result.
    Report,
}

/// What the test has in mind.
#[derive(Clone, Copy, Debug, PartialEq, Eq)]
pub struct SwitchState {
    /// What it is about to do.
    pub stage: SwitchStage,
    /// The first reading of the clock.
    pub before: u64,
    /// How often the caller's thread has given up the processor.
    pub own: usize,
    /// How often the other thread has.
    pub other: usize,
    /// The second reading of the clock.
    pub after: u64,
}

/// What is wanted.
#[derive(Clone, Copy, Debug, PartialEq, Eq)]
pub enum SwitchRequest {
    /// Read the time stamp counter.
    ReadClock,
    /// Start the other thread.
    StartThread,
    /// Give up the processor.
    Yield,
    /// Join the other thread, and give its count.
    Join,
    /// Print the line of [`SwitchState::line`].
    Print,
}

/// The answer to a request.
#[derive(Clone, Copy, Debug, PartialEq, Eq)]
pub enum SwitchReply {
    /// It was done.
    Done,
    /// The clock.
    Reading(u64),
    /// The count of the other thread, unless that broke off.
    Joined(Option<usize>),
}

/// How the test stands. It does not fail.
#[derive(Clone, Copy, Debug, PartialEq, Eq)]
pub enum SwitchOutcome {
    /// There is another request.
    Next(SwitchState),
    /// The test passed.
    Passed,
    /// The test broke off: the other thread did.
    ThreadPanicked,
    /// The test broke off: the clock went back, from the first reading to the second.
    ClockWentBack(u64, u64),
}

/// The counter behind one more turn, if there is one.
pub open spec fn next_count(count: usize) -> Option<usize> {
    if count < YIELDS {
        Some((count + 1) as usize)
    } else {
        None
    }
}

/// The counter behind a number of turns of the loop in a thread that starts at zero.
pub open spec fn count_after(turns: nat) -> nat
    decreases turns,
{
    if turns == 0 {
        0
    } else {
        match next_count(count_after((turns - 1) as nat) as usize) {
            Some(count) => count as nat,
            None => count_after((turns - 1) as nat),
        }
    }
}

/// The text of the result.
pub open spec fn switch_text(own: usize, other: usize, ticks: nat) -> Seq<char> {
    "P "@ + decimal(own as nat) + " C "@ + decimal(other as nat) + " T "@ + decimal(ticks)
}

/// The text of the result in a state whose second reading is not below the first.
pub open spec fn shown(state: SwitchState) -> Seq<char> {
    switch_text(state.own, state.other, (state.after - state.before) as nat)
}

/// Where the test begins.
pub open spec fn switch_beginning() -> SwitchState {
    SwitchState { stage: SwitchStage::FirstReading, before: 0, own: 0, other: 0, after: 0 }
}

/// What is wanted at each stage.
pub open spec fn switch_request(stage: SwitchStage) -> SwitchRequest {
    match stage {
        SwitchStage::FirstReading | SwitchStage::SecondReading => SwitchRequest::ReadClock,
        SwitchStage::Start => SwitchRequest::StartThread,
        SwitchStage::Yield => SwitchRequest::Yield,
        SwitchStage::Join => SwitchRequest::Join,
        SwitchStage::Report => SwitchRequest::Print,
    }
}

/// The answer is of a kind that the request can have.
pub open spec fn switch_answers(request: SwitchRequest, reply: SwitchReply) -> bool {
    match request {
        SwitchRequest::ReadClock => reply is Reading,
        SwitchRequest::Join => reply is Joined,
        _ => reply is Done,
    }
}

/// The stage of a thread that has given up the processor so often.
pub open spec fn turn(count: usize) -> SwitchStage {
    if next_count(count) is Some {
        SwitchStage::Yield
    } else {
        SwitchStage::Join
    }
}

/// How the test goes on with an answer.
pub open spec fn switch_step(state: SwitchState, reply: SwitchReply) -> SwitchOutcome {
    match (state.stage, reply) {
        (SwitchStage::FirstReading, SwitchReply::Reading(clock)) => SwitchOutcome::Next(
            SwitchState { stage: SwitchStage::Start, before: clock, ..state },
        ),
        (SwitchStage::SecondReading, SwitchReply::Reading(clock)) => if clock < state.before {
            SwitchOutcome::ClockWentBack(state.before, clock)
        } else {
            SwitchOutcome::Next(SwitchState { stage: SwitchStage::Report, after: clock, ..state })
        },
        (SwitchStage::Start, _) => SwitchOutcome::Next(
            SwitchState { stage: turn(state.own), ..state },
        ),
        (SwitchStage::Yield, _) => match next_count(state.own) {
            Some(own) => SwitchOutcome::Next(SwitchState { stage: turn(own), own, ..state }),
            None => SwitchOutcome::Next(SwitchState { stage: SwitchStage::Join, ..state }),
        },
        (SwitchStage::Join, SwitchReply::Joined(Some(other))) => SwitchOutcome::Next(
            SwitchState { stage: SwitchStage::SecondReading, other, ..state },
        ),
        (SwitchStage::Join, _) => SwitchOutcome::ThreadPanicked,
        (SwitchStage::Report, _) => SwitchOutcome::Passed,
        _ => SwitchOutcome::Next(state),
    }
}

/// Tells whether a thread that has given up the processor so often does so again, and
/// the count behind that.
pub fn yield_again(count: usize) -> (next: Option<usize>)
    ensures
        next == next_count(count),
{
    if count < YIELDS {
        Some(count + 1)
    } else {
        None
    }
}

/// The result: the counts of both threads, and the ticks from the first reading of the
/// clock to the second, which must not be the earlier one.
pub fn switch_line(own: usize, other: usize, before: u64, after: u64) -> (text: String)
    requires
        before <= after,
    ensures
        text@ == switch_text(own, other, (after - before) as nat),
{
    let mut text = "P ".to_owned();
    append_decimal(&mut text, own as u64);
    text.append(" C ");
    append_decimal(&mut text, other as u64);
    text.append(" T ");
    append_decimal(&mut text, after - before);
    text
}

impl SwitchState {
    /// Where the test begins.
    pub fn start() -> (state: SwitchState)
        ensures
            state == switch_beginning(),
    {
        SwitchState { stage: SwitchStage::FirstReading, before: 0, own: 0, other: 0, after: 0 }
    }

    /// What is wanted next.
    pub fn request(self) -> (request: SwitchRequest)
        ensures
            request == switch_request(self.stage),
    {
        match self.stage {
            SwitchStage::FirstReading => SwitchRequest::ReadClock,
            SwitchStage::Start => SwitchRequest::StartThread,
            SwitchStage::Yield => SwitchRequest::Yield,
            SwitchStage::Join => SwitchRequest::Join,
            SwitchStage::SecondReading => SwitchRequest::ReadClock,
            SwitchStage::Report => SwitchRequest::Print,
        }
    }

    /// Whether an answer is of a kind that the next request can have.
    pub fn accepts(self, reply: SwitchReply) -> (result: bool)
        ensures
            result == switch_answers(switch_request(self.stage), reply),
    {
        match (self.request(), reply) {
            (SwitchRequest::ReadClock, SwitchReply::Reading(_)) => true,
            (SwitchRequest::StartThread, SwitchReply::Done) => true,
            (SwitchRequest::Yield, SwitchReply::Done) => true,
            (SwitchRequest::Join, SwitchReply::Joined(_)) => true,
            (SwitchRequest::Print, SwitchReply::Done) => true,
            _ => false,
        }
    }

    /// The line of the result, if the clock has not gone back.
    pub fn line(self) -> (line: Option<String>)
        ensures
            self.before > self.after ==> line is None,
            self.before <= self.after ==> (line matches Some(text) && text@ == shown(self)),
    {
        if self.before <= self.after {
            Some(switch_line(self.own, self.other, self.before, self.after))
        } else {
            None
        }
    }
}

/// Takes the answer to the request that is due, and says how the test stands.
pub fn switch_test(state: SwitchState, reply: SwitchReply) -> (outcome: SwitchOutcome)
    requires
        switch_answers(switch_request(state.stage), reply),
    ensures
        outcome == switch_step(state, reply),
{
    match (state.stage, reply) {
        (SwitchStage::FirstReading, SwitchReply::Reading(clock)) => SwitchOutcome::Next(
            SwitchState { stage: SwitchStage::Start, before: clock, ..state },
        ),
        (SwitchStage::SecondReading, SwitchReply::Reading(clock)) => if clock < state.before {
            SwitchOutcome::ClockWentBack(state.before, clock)
        } else {
            SwitchOutcome::Next(SwitchState { stage: SwitchStage::Report, after: clock, ..state })
        },
        (SwitchStage::Start, _) => SwitchOutcome::Next(
            SwitchState { stage: stage_at_count(state.own), ..state },
        ),
        (SwitchStage::Yield, _) => match yield_again(state.own) {
            Some(own) => SwitchOutcome::Next(
                SwitchState { stage: stage_at_count(own), own, ..state },
            ),
            None => SwitchOutcome::Next(SwitchState { stage: SwitchStage::Join, ..state }),
        },
        (SwitchStage::Join, SwitchReply::Joined(Some(other))) => SwitchOutcome::Next(
            SwitchState { stage: SwitchStage::SecondReading, other, ..state },
        ),
        (SwitchStage::Join, _) => SwitchOutcome::ThreadPanicked,
        (SwitchStage::Report, _) => SwitchOutcome::Passed,
        _ => SwitchOutcome::Next(state),
    }
}

/// The stage of a thread that has given up the processor so often.
fn stage_at_count(count: usize) -> (stage: SwitchStage)
    ensures
        stage == turn(count),
{
    match yield_again(count) {
        Some(_) => SwitchStage::Yield,
        None => SwitchStage::Join,
    }
}

/// A thread gives up the processor five hundred times, and no more often.
pub proof fn law_a_thread_yields_five_hundred_times(turns: nat)
    ensures
        turns <= YIELDS ==> count_after(turns) == turns,
        turns >= YIELDS ==> count_after(turns) == YIELDS,
        next_count(count_after(turns) as usize) is Some <==> turns < YIELDS,
    decreases turns,
{
    if turns > 0 {
        law_a_thread_yields_five_hundred_times((turns - 1) as nat);
    }
}

/// The stage at a place of the test: the first reading, the start of the other thread,
/// five hundred turns, the join, the second reading, the line.
pub open spec fn switch_stage_at(place: int) -> SwitchStage {
    if place == 0 {
        SwitchStage::FirstReading
    } else if place == 1 {
        SwitchStage::Start
    } else if place < 2 + YIELDS {
        SwitchStage::Yield
    } else if place == 2 + YIELDS {
        SwitchStage::Join
    } else if place == 3 + YIELDS {
        SwitchStage::SecondReading
    } else {
        SwitchStage::Report
    }
}

/// Where a test stands behind a string of answers.
pub open spec fn switch_run(replies: Seq<SwitchReply>) -> SwitchOutcome
    decreases replies.len(),
{
    if replies.len() == 0 {
        SwitchOutcome::Next(switch_beginning())
    } else {
        switch_step(switch_run(replies.drop_last())->Next_0, replies.last())
    }
}

/// Each answer was given to a request, and was of a kind that the request can have.
pub open spec fn switch_conversation(replies: Seq<SwitchReply>) -> bool
    decreases replies.len(),
{
    replies.len() > 0 ==> {
        &&& switch_conversation(replies.drop_last())
        &&& switch_run(replies.drop_last()) is Next
        &&& switch_answers(
            switch_request(switch_run(replies.drop_last())->Next_0.stage),
            replies.last(),
        )
    }
}

/// The stages come in their order, one for each answer: the clock is read, one thread is
/// started, the caller gives up the processor five hundred times, the thread is joined,
/// and only behind that is the clock read again and the result shown. The readings and
/// the count of the other thread are those that were answered.
pub proof fn law_switch_stages_come_in_order(replies: Seq<SwitchReply>)
    requires
        switch_conversation(replies),
        switch_run(replies) is Next,
    ensures
        ({
            let state = switch_run(replies)->Next_0;
            let n = replies.len();
            &&& n <= 4 + YIELDS
            &&& state.stage == switch_stage_at(n as int)
            &&& state.own == if n <= 2 {
                0
            } else if n <= 2 + YIELDS {
                n - 2
            } else {
                YIELDS as int
            }
            &&& n > 0 ==> replies[0] == SwitchReply::Reading(state.before)
            &&& n > 2 + YIELDS ==> replies[2 + YIELDS] == SwitchReply::Joined(Some(state.other))
            &&& n > 3 + YIELDS ==> replies[3 + YIELDS] == SwitchReply::Reading(state.after)
                && state.before <= state.after
        }),
    decreases replies.len(),
{
    if replies.len() > 0 {
        law_switch_stages_come_in_order(replies.drop_last());
    }
}

/// A test that passes has had one answer for each stage. The caller has given up the
/// processor five hundred times, the clock has not gone back, and the last request was for
/// the line with these counts and the ticks between the two readings. If the other thread
/// has had all of its turns, the two have given up the processor a thousand times.
pub proof fn law_a_passing_switch_test(replies: Seq<SwitchReply>, turns: nat)
    requires
        switch_conversation(replies),
        switch_run(replies) is Passed,
    ensures
        replies.len() == 5 + YIELDS,
        ({
            let state = switch_run(replies.drop_last())->Next_0;
            &&& state.stage is Report
            &&& state.own == YIELDS
            &&& replies[0] == SwitchReply::Reading(state.before)
            &&& replies[2 + YIELDS] == SwitchReply::Joined(Some(state.other))
            &&& replies[3 + YIELDS] == SwitchReply::Reading(state.after)
            &&& state.before <= state.after
            &&& switch_request(state.stage) is Print
            &&& shown(state) == switch_text(
                YIELDS,
                state.other,
                (state.after - state.before) as nat,
            )
            &&& next_count(count_after(turns) as usize) is None && state.other == count_after(turns)
                ==> state.own + state.other == 1000
        }),
{
    law_switch_stages_come_in_order(replies.drop_last());
    law_a_thread_yields_five_hundred_times(turns);
}

/// The test breaks off only if the other thread did, or if the second reading is below
/// the first, and it passes or goes on behind every other answer.
pub proof fn law_when_the_switch_test_breaks_off(replies: Seq<SwitchReply>)
    requires
        switch_conversation(replies),
        replies.len() > 0,
    ensures
        switch_run(replies) is ThreadPanicked <==> replies.len() == 3 + YIELDS && replies.last()
            == SwitchReply::Joined(None),
        switch_run(replies) is ClockWentBack <==> {
            &&& replies.len() == 4 + YIELDS
            &&& replies[0] is Reading && replies.last() is Reading
            &&& replies.last()->Reading_0 < replies[0]->Reading_0
        },
        switch_run(replies) is ClockWentBack ==> switch_run(replies) == SwitchOutcome::ClockWentBack(
            replies[0]->Reading_0,
            replies.last()->Reading_0,
        ),
        switch_run(replies) is Passed <==> replies.len() == 5 + YIELDS,
{
    law_switch_stages_come_in_order(replies.drop_last());
}

/// The line holds three numbers, which are read back from its digits: how often the
/// caller's thread gave up the processor, how often the other one did, and how far the
/// clock has moved on from the first reading to the second.
pub proof fn law_the_line_holds_counts_and_ticks(own: usize, other: usize, before: u64, after: u64)
    requires
        before <= after,
    ensures
        exists|p: Seq<char>, c: Seq<char>, t: Seq<char>| #[trigger]
            is_numeral(p, own as int) && #[trigger] is_numeral(c, other as int)
                && #[trigger] is_numeral(t, after - before) && switch_text(
                own,
                other,
                (after - before) as nat,
            ) == seq!['P', ' '] + p + seq![' ', 'C', ' '] + c + seq![' ', 'T', ' '] + t,
{
    reveal_strlit("P ");
    reveal_strlit(" C ");
    reveal_strlit(" T ");
    let ticks = (after - before) as nat;
    let p = decimal(own as nat);
    let c = decimal(other as nat);
    let t = decimal(ticks);
    law_a_number_has_one_numeral(p, own as nat);
    law_a_number_has_one_numeral(c, other as nat);
    law_a_number_has_one_numeral(t, ticks);
    assert(switch_text(own, other, ticks) =~= seq!['P', ' '] + p + seq![' ', 'C', ' '] + c + seq![
        ' ',
        'T',
        ' ',
    ] + t);
    assert(is_numeral(p, own as int) && is_numeral(c, other as int) && is_numeral(
        t,
        after - before,
    ));
}

/// Two results read the same only if both counts and the ticks are the same.
pub proof fn law_different_results_read_differently(
    own: usize,
    other: usize,
    ticks: nat,
    later_own: usize,
    later_other: usize,
    later_ticks: nat,
)
    requires
        switch_text(own, other, ticks) == switch_text(later_own, later_other, later_ticks),
    ensures
        own == later_own,
        other == later_other,
        ticks == later_ticks,
{
    reveal_strlit("P ");
    reveal_strlit(" C ");
    reveal_strlit(" T ");
    let line = switch_text(own, other, ticks);
    let (p, c, t) = (decimal(own as nat), decimal(other as nat), decimal(ticks));
    let (q, d, u) = (decimal(later_own as nat), decimal(later_other as nat), decimal(later_ticks));
    let c_rest = c + " T "@ + t;
    let d_rest = d + " T "@ + u;
    lemma_decimal_is_digits(own as nat);
    lemma_decimal_is_digits(other as nat);
    lemma_decimal_is_digits(later_own as nat);
    lemma_decimal_is_digits(later_other as nat);
    assert(line.skip(2) =~= p + " C "@ + c_rest);
    assert(line.skip(2) =~= q + " C "@ + d_rest);
    law_digits_end_where_others_begin(p, c_rest, q, d_rest, " C "@);
    law_digits_end_where_others_begin(c, t, d, u, " T "@);
    law_decimal_is_injective(own as nat, later_own as nat);
    law_decimal_is_injective(other as nat, later_other as nat);
    law_decimal_is_injective(ticks, later_ticks);
}

/// The clock is answered with a reading, the join with the count of the other thread or with
/// nothing if it broke off, and everything else with nothing but that it was done.
pub proof fn law_answers_to_the_switch_test(state: SwitchState, reply: SwitchReply)
    ensures
        switch_answers(switch_request(state.stage), reply) <==> match state.stage {
            SwitchStage::FirstReading | SwitchStage::SecondReading => reply is Reading,
            SwitchStage::Join => reply is Joined,
            SwitchStage::Start | SwitchStage::Yield | SwitchStage::Report => reply is Done,
        },
{
}

} // verus!

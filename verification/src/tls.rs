//! The `tls` test: every thread has its own copy of a variable that starts at zero and
//! of one that does not.
//!
//! The test is a conversation, which a second thread has before the first one does.
//! [`TlsStage::request`] says what is done to the variables next, and [`tls_test`] takes
//! what was read.

use vstd::prelude::*;

verus! {

/// What the other variable starts at.
pub const NONZERO: u64 = 0xFFFF_FFFF_FFFF_FFFF;

/// What the test is about to do.
#[derive(Clone, Copy, Debug, PartialEq, Eq)]
pub enum TlsStage {
    /// Look at the variable that starts at zero.
    ZeroBefore,
    /// Add one to it.
    ZeroChange,
    /// Look at it again.
    ZeroAfter,
    /// Look at the variable that does not start at zero.
    NonzeroBefore,
    /// Take one from it.
    NonzeroChange,
    /// Look at it again.
    NonzeroAfter,
}

/// What is done to the variables of the thread.
#[derive(Clone, Copy, Debug, PartialEq, Eq)]
pub enum TlsRequest {
    /// Read the variable that starts at zero.
    ReadZero,
    /// Read the variable that does not.
    ReadNonzero,
    /// Add one to the first variable, and read it.
    IncrementZero,
    /// Take one from the second variable, and read it.
    DecrementNonzero,
}

/// How the test stands.
#[derive(Clone, Copy, Debug, PartialEq, Eq)]
pub enum TlsOutcome {
    /// There is another thing to do.
    Next(TlsStage),
    /// The test passed in this thread.
    Passed,
    /// The test broke off: what was expected, what was found.
    Panicked(u64, u64),
}

/// The variables of a thread.
pub struct Variables {
    pub zero: u64,
    pub nonzero: u64,
}

/// What is done to the variables at each stage.
pub open spec fn tls_request(stage: TlsStage) -> TlsRequest {
    match stage {
        TlsStage::ZeroBefore | TlsStage::ZeroAfter => TlsRequest::ReadZero,
        TlsStage::ZeroChange => TlsRequest::IncrementZero,
        TlsStage::NonzeroBefore | TlsStage::NonzeroAfter => TlsRequest::ReadNonzero,
        TlsStage::NonzeroChange => TlsRequest::DecrementNonzero,
    }
}

/// What has to be read at each stage, where it matters.
pub open spec fn expected(stage: TlsStage) -> Option<u64> {
    match stage {
        TlsStage::ZeroBefore => Some(0),
        TlsStage::ZeroAfter => Some(1),
        TlsStage::NonzeroBefore => Some(NONZERO),
        TlsStage::NonzeroAfter => Some((NONZERO - 1) as u64),
        _ => None,
    }
}

/// How the test goes on from a stage.
pub open spec fn tls_next(stage: TlsStage) -> TlsOutcome {
    match stage {
        TlsStage::ZeroBefore => TlsOutcome::Next(TlsStage::ZeroChange),
        TlsStage::ZeroChange => TlsOutcome::Next(TlsStage::ZeroAfter),
        TlsStage::ZeroAfter => TlsOutcome::Next(TlsStage::NonzeroBefore),
        TlsStage::NonzeroBefore => TlsOutcome::Next(TlsStage::NonzeroChange),
        TlsStage::NonzeroChange => TlsOutcome::Next(TlsStage::NonzeroAfter),
        TlsStage::NonzeroAfter => TlsOutcome::Passed,
    }
}

/// How the test goes on with what was read.
pub open spec fn tls_step(stage: TlsStage, found: u64) -> TlsOutcome {
    match expected(stage) {
        Some(value) if value != found => TlsOutcome::Panicked(value, found),
        _ => tls_next(stage),
    }
}

impl TlsStage {
    /// Where the test begins in each thread.
    pub fn start() -> (stage: TlsStage)
        ensures
            stage is ZeroBefore,
    {
        TlsStage::ZeroBefore
    }

    /// What is done to the variables next.
    pub fn request(self) -> (request: TlsRequest)
        ensures
            request == tls_request(self),
    {
        match self {
            TlsStage::ZeroBefore => TlsRequest::ReadZero,
            TlsStage::ZeroChange => TlsRequest::IncrementZero,
            TlsStage::ZeroAfter => TlsRequest::ReadZero,
            TlsStage::NonzeroBefore => TlsRequest::ReadNonzero,
            TlsStage::NonzeroChange => TlsRequest::DecrementNonzero,
            TlsStage::NonzeroAfter => TlsRequest::ReadNonzero,
        }
    }
}

/// Takes what was read at a stage, and says how the test stands.
pub fn tls_test(stage: TlsStage, found: u64) -> (outcome: TlsOutcome)
    ensures
        outcome == tls_step(stage, found),
{
    match stage {
        TlsStage::ZeroBefore => insist(0, found, TlsStage::ZeroChange),
        TlsStage::ZeroChange => TlsOutcome::Next(TlsStage::ZeroAfter),
        TlsStage::ZeroAfter => insist(1, found, TlsStage::NonzeroBefore),
        TlsStage::NonzeroBefore => insist(NONZERO, found, TlsStage::NonzeroChange),
        TlsStage::NonzeroChange => TlsOutcome::Next(TlsStage::NonzeroAfter),
        TlsStage::NonzeroAfter => if found == NONZERO - 1 {
            TlsOutcome::Passed
        } else {
            TlsOutcome::Panicked(NONZERO - 1, found)
        },
    }
}

/// Goes on to a stage if the right value was found.
fn insist(value: u64, found: u64, next: TlsStage) -> (outcome: TlsOutcome)
    ensures
        value == found ==> outcome == TlsOutcome::Next(next),
        value != found ==> outcome == TlsOutcome::Panicked(value, found),
{
    if value == found {
        TlsOutcome::Next(next)
    } else {
        TlsOutcome::Panicked(value, found)
    }
}

/// The caller's thread has its turn: the other thread passed.
pub open spec fn has_turn(other_passed: bool) -> Option<TlsStage> {
    if other_passed {
        Some(TlsStage::ZeroBefore)
    } else {
        None
    }
}

/// What the caller's thread does when the other thread has been joined: it begins the
/// test for itself if the other thread passed, and else breaks off.
pub fn own_turn(other_passed: bool) -> (stage: Option<TlsStage>)
    ensures
        stage == has_turn(other_passed),
{
    if other_passed {
        Some(TlsStage::start())
    } else {
        None
    }
}

/// What a stage leaves in the variables of the thread. Nothing is changed before it
/// has been looked at, so nothing overflows.
pub open spec fn changed(variables: Variables, stage: TlsStage) -> Variables {
    match tls_request(stage) {
        TlsRequest::IncrementZero => Variables { zero: (variables.zero + 1) as u64, ..variables },
        TlsRequest::DecrementNonzero => Variables {
            nonzero: (variables.nonzero - 1) as u64,
            ..variables
        },
        _ => variables,
    }
}

/// What is read from the variables at a stage, behind its change.
pub open spec fn read(variables: Variables, stage: TlsStage) -> u64 {
    match tls_request(stage) {
        TlsRequest::ReadZero | TlsRequest::IncrementZero => variables.zero,
        TlsRequest::ReadNonzero | TlsRequest::DecrementNonzero => variables.nonzero,
    }
}

/// How far a stage is from the end.
pub open spec fn tls_left(stage: TlsStage) -> nat {
    match stage {
        TlsStage::ZeroBefore => 5,
        TlsStage::ZeroChange => 4,
        TlsStage::ZeroAfter => 3,
        TlsStage::NonzeroBefore => 2,
        TlsStage::NonzeroChange => 1,
        TlsStage::NonzeroAfter => 0,
    }
}

/// The test from a stage on, in a thread with these variables: what is left in them,
/// and how it ends.
pub open spec fn rest_of_test(variables: Variables, stage: TlsStage) -> (Variables, TlsOutcome)
    decreases tls_left(stage),
{
    let after = changed(variables, stage);
    match tls_step(stage, read(after, stage)) {
        TlsOutcome::Next(next) => rest_of_test(after, next),
        outcome => (after, outcome),
    }
}

/// The test passes in a thread exactly if the thread finds both variables as they
/// start out, and it leaves them one off.
pub proof fn law_fresh_variables_pass(variables: Variables)
    ensures
        ({
            let (after, outcome) = rest_of_test(variables, TlsStage::ZeroBefore);
            &&& outcome is Passed <==> variables.zero == 0 && variables.nonzero == NONZERO
            &&& outcome is Passed ==> after.zero == 1 && after.nonzero == NONZERO - 1
            &&& variables.zero != 0 ==> outcome == TlsOutcome::Panicked(0, variables.zero)
            &&& variables.zero == 0 && variables.nonzero != NONZERO ==> outcome
                == TlsOutcome::Panicked(NONZERO, variables.nonzero)
        }),
{
    reveal_with_fuel(rest_of_test, 6);
}

/// Two threads that shared their variables would be found out: the second to have the
/// test does not pass.
pub proof fn law_shared_variables_are_found_out(variables: Variables)
    requires
        rest_of_test(variables, TlsStage::ZeroBefore).1 is Passed,
    ensures
        rest_of_test(
            rest_of_test(variables, TlsStage::ZeroBefore).0,
            TlsStage::ZeroBefore,
        ).1 == TlsOutcome::Panicked(0, 1),
{
    law_fresh_variables_pass(variables);
    law_fresh_variables_pass(rest_of_test(variables, TlsStage::ZeroBefore).0);
}

/// The whole test, in another thread and then in the caller's: what is left in the
/// caller's variables, and whether the test passes. It breaks off if it does not.
pub open spec fn both_threads(other: Variables, own: Variables) -> (Variables, bool) {
    match has_turn(rest_of_test(other, TlsStage::ZeroBefore).1 is Passed) {
        Some(stage) => (rest_of_test(own, stage).0, rest_of_test(own, stage).1 is Passed),
        None => (own, false),
    }
}

/// The whole test passes exactly if both threads find both variables as they start out,
/// and leaves those of the caller one off. If the other thread breaks off, so does the
/// test, and the variables of the caller are as they were.
pub proof fn law_both_threads_need_fresh_variables(other: Variables, own: Variables)
    ensures
        ({
            let (after, passed) = both_threads(other, own);
            let other_fresh = other.zero == 0 && other.nonzero == NONZERO;
            let own_fresh = own.zero == 0 && own.nonzero == NONZERO;
            &&& passed <==> other_fresh && own_fresh
            &&& passed ==> after.zero == 1 && after.nonzero == NONZERO - 1
            &&& !other_fresh ==> after == own
        }),
{
    law_fresh_variables_pass(other);
    law_fresh_variables_pass(own);
}

/// Behind every reading the test goes on exactly if the reading is the right one, and else
/// breaks off with the right number and the one that was found. What a change leaves is
/// not looked at before the next reading.
pub proof fn law_every_reading_is_held_to_its_number(found: u64)
    ensures
        found == 0 <==> tls_step(TlsStage::ZeroBefore, found) == TlsOutcome::Next(
            TlsStage::ZeroChange,
        ),
        found != 0 <==> tls_step(TlsStage::ZeroBefore, found) == TlsOutcome::Panicked(0, found),
        tls_step(TlsStage::ZeroChange, found) == TlsOutcome::Next(TlsStage::ZeroAfter),
        found == 1 <==> tls_step(TlsStage::ZeroAfter, found) == TlsOutcome::Next(
            TlsStage::NonzeroBefore,
        ),
        found != 1 <==> tls_step(TlsStage::ZeroAfter, found) == TlsOutcome::Panicked(1, found),
        found == 0xFFFFFFFFFFFFFFFF <==> tls_step(TlsStage::NonzeroBefore, found)
            == TlsOutcome::Next(TlsStage::NonzeroChange),
        found != 0xFFFFFFFFFFFFFFFF <==> tls_step(TlsStage::NonzeroBefore, found)
            == TlsOutcome::Panicked(0xFFFFFFFFFFFFFFFF, found),
        tls_step(TlsStage::NonzeroChange, found) == TlsOutcome::Next(TlsStage::NonzeroAfter),
        found == 0xFFFFFFFFFFFFFFFE <==> tls_step(TlsStage::NonzeroAfter, found)
            == TlsOutcome::Passed,
        found != 0xFFFFFFFFFFFFFFFE <==> tls_step(TlsStage::NonzeroAfter, found)
            == TlsOutcome::Panicked(0xFFFFFFFFFFFFFFFE, found),
{
}

/// Where the test of a thread stands behind some readings, whatever was read.
pub open spec fn tls_run(readings: Seq<u64>) -> TlsOutcome
    decreases readings.len(),
{
    if readings.len() == 0 {
        TlsOutcome::Next(TlsStage::ZeroBefore)
    } else {
        match tls_run(readings.drop_last()) {
            TlsOutcome::Next(stage) => tls_step(stage, readings.last()),
            outcome => outcome,
        }
    }
}

/// Whatever a thread reads from its variables, its test passes exactly if it reads zero,
/// then one behind its own increment, then the largest number, and then one less behind
/// its own decrement. With the first wrong reading it breaks off.
pub proof fn law_four_readings_decide(readings: Seq<u64>)
    requires
        readings.len() == 6,
    ensures
        tls_run(readings) is Passed <==> readings[0] == 0 && readings[2] == 1 && readings[3]
            == 0xFFFFFFFFFFFFFFFF && readings[5] == 0xFFFFFFFFFFFFFFFE,
        readings[0] != 0 ==> tls_run(readings) == TlsOutcome::Panicked(0, readings[0]),
        readings[0] == 0 && readings[2] != 1 ==> tls_run(readings) == TlsOutcome::Panicked(
            1,
            readings[2],
        ),
        readings[0] == 0 && readings[2] == 1 && readings[3] != 0xFFFFFFFFFFFFFFFF ==> tls_run(
            readings,
        ) == TlsOutcome::Panicked(0xFFFFFFFFFFFFFFFF, readings[3]),
        readings[0] == 0 && readings[2] == 1 && readings[3] == 0xFFFFFFFFFFFFFFFF && readings[5]
            != 0xFFFFFFFFFFFFFFFE ==> tls_run(readings) == TlsOutcome::Panicked(
            0xFFFFFFFFFFFFFFFE,
            readings[5],
        ),
{
    reveal_with_fuel(tls_run, 7);
}

/// A variable is changed only between two looks at it: first it is looked at, then it is
/// changed, then it is looked at again, the variable that starts at zero before the other.
pub proof fn law_each_variable_is_read_changed_and_read_again(stage: TlsStage, found: u64)
    ensures
        tls_step(stage, found) matches TlsOutcome::Next(next) ==> match tls_request(stage) {
            TlsRequest::IncrementZero => tls_request(next) is ReadZero,
            TlsRequest::DecrementNonzero => tls_request(next) is ReadNonzero,
            TlsRequest::ReadZero => if found == 0 {
                tls_request(next) is IncrementZero
            } else {
                tls_request(next) is ReadNonzero
            },
            TlsRequest::ReadNonzero => tls_request(next) is DecrementNonzero,
        },
        tls_step(stage, found) is Passed ==> tls_request(stage) is ReadNonzero,
{
}

} // verus!

//! What holds of every conversation of the `ptrace` test.

use crate::abi::{exit_code, exited, getpid_number};
use crate::double::ROOT;
use crate::lines::Line;
use crate::ptrace::{
    advance, answers, beginning, judge, refused, reply_code, request_for, valid, wanted, EventKind,
    Failure, Handle, IntRegisters, Outcome, Progress, RegsFile, Reply, Request, WaitFor, LAST_ID,
};
use crate::ptrace_checks::{
    either_zero, law_the_floats_are_held_to_the_root, law_the_stack_is_held_to_three_words,
    small_words,
};
use crate::script::{script, Op, Who, Yield, EXIT_CODE, SCRIPT_LEN};
use crate::tracee::law_everything_stands_in_place;
use crate::word::word_at;
use vstd::prelude::*;

verus! {

/// Where the script opens the registers of processes that are not traced.
pub open spec fn forbidden_place() -> int {
    129
}

/// Where the script takes the status of the child.
pub open spec fn reap_place() -> int {
    127
}

/// Where a test stands behind a string of answers.
pub open spec fn run(replies: Seq<Reply>) -> (Progress, Outcome)
    decreases replies.len(),
{
    if replies.len() == 0 {
        (beginning(), Outcome::Going)
    } else {
        advance(run(replies.drop_last()).0, replies.last())
    }
}

/// Each answer was given to a request, and was of a kind that the request can have.
pub open spec fn conversation(replies: Seq<Reply>) -> bool
    decreases replies.len(),
{
    replies.len() > 0 ==> {
        &&& conversation(replies.drop_last())
        &&& run(replies.drop_last()).1 is Going
        &&& answers(wanted(run(replies.drop_last()).0), replies.last())
    }
}

/// The things in the script that matter for what the test has in mind stand where
/// they stand, and nowhere else.
proof fn lemma_places(k: int)
    requires
        0 <= k < SCRIPT_LEN,
    ensures
        script()[k] is OpenForbidden <==> k == forbidden_place(),
        script()[k] is Clone <==> k == 0,
        script()[k] is WriteRax <==> k == 120,
        script()[120] == Op::WriteRax(EXIT_CODE),
        script()[119] == Op::ReadRegs(Who::Tracee, Some(getpid_number()), None),
        script()[k] is Reap <==> k == reap_place(),
        script()[reap_place()] == Op::Reap(EXIT_CODE),
        script()[SCRIPT_LEN - 1] is Say,
{
    reveal(script);
}

/// The answer is one event, and that of a fork with this number.
pub open spec fn names_fork(reply: Reply, pid: usize) -> bool {
    reply is Events && reply->Events_0@.len() == 1 && reply->Events_0@[0].kind
        == EventKind::Clone(pid)
}

/// What an answer leaves of what the test has in mind.
proof fn lemma_advance(p: Progress, reply: Reply)
    requires
        valid(p),
        answers(wanted(p), reply),
        advance(p, reply).1 is Going || advance(p, reply).1 is Passed,
    ensures
        ({
            let (q, outcome) = advance(p, reply);
            let op = script()[p.at as int];
            &&& valid(q)
            &&& outcome is Going ==> q.over == p.over
            &&& op is Clone || q.pid == p.pid
            &&& op is Clone ==> reply == Reply::Value(q.pid) && q.pid != 0
            &&& op is ReadRegs ==> reply == Reply::Registers(q.regs)
            &&& op is ReadRegs || q.regs == p.regs
            &&& op is GetPid ==> reply == Reply::Value(q.own)
            &&& op is GetPid || q.own == p.own
            &&& op == Op::Events(Yield::ForkEvent) ==> names_fork(reply, q.fork)
            &&& op is Events || q.fork == p.fork
            &&& op is OpenForbidden ==> refused(reply_code(reply)) && wanted(p)
                == Request::OpenRegs(p.id)
            &&& outcome is Passed ==> p.at == SCRIPT_LEN - 1 && q.id == p.id
            &&& outcome is Going && !(op is OpenForbidden) ==> q.at == p.at + 1 && q.id == p.id
            &&& outcome is Going && op is OpenForbidden && p.id < LAST_ID ==> q.at == p.at && q.id
                == p.id + 1
            &&& outcome is Going && op is OpenForbidden && p.id == LAST_ID ==> q.at == p.at + 1
                && q.id == p.id
        }),
{
    lemma_places(p.at as int);
}

/// What an answer leaves of what the test has in mind: a process number, the own number, the
/// number of a fork and the registers are what was answered, and stay that until they are
/// asked for again. The test goes on to the next thing, except that it asks for process
/// after process where it must be refused.
pub proof fn law_what_an_answer_leaves(p: Progress, reply: Reply)
    requires
        valid(p),
        answers(wanted(p), reply),
        advance(p, reply).1 is Going || advance(p, reply).1 is Passed,
    ensures
        ({
            let (q, outcome) = advance(p, reply);
            let op = script()[p.at as int];
            &&& valid(q)
            &&& outcome is Going ==> q.over == p.over
            &&& op is Clone || q.pid == p.pid
            &&& op is Clone ==> reply == Reply::Value(q.pid) && q.pid != 0
            &&& op is ReadRegs ==> reply == Reply::Registers(q.regs)
            &&& op is ReadRegs || q.regs == p.regs
            &&& op is GetPid ==> reply == Reply::Value(q.own)
            &&& op is GetPid || q.own == p.own
            &&& op == Op::Events(Yield::ForkEvent) ==> names_fork(reply, q.fork)
            &&& op is Events || q.fork == p.fork
            &&& op is OpenForbidden ==> refused(reply_code(reply)) && wanted(p)
                == Request::OpenRegs(p.id)
            &&& outcome is Passed ==> p.at == SCRIPT_LEN - 1 && q.id == p.id
            &&& outcome is Going && !(op is OpenForbidden) ==> q.at == p.at + 1 && q.id == p.id
            &&& outcome is Going && op is OpenForbidden && p.id < LAST_ID ==> q.at == p.at && q.id
                == p.id + 1
            &&& outcome is Going && op is OpenForbidden && p.id == LAST_ID ==> q.at == p.at + 1
                && q.id == p.id
        }),
{
    lemma_advance(p, reply);
}

/// A test that is going is on its way through the script: one thing for each answer,
/// and one number of a process for each answer to the forbidden requests.
pub proof fn law_one_answer_one_step(replies: Seq<Reply>)
    requires
        conversation(replies),
        run(replies).1 is Going,
    ensures
        ({
            let p = run(replies).0;
            &&& valid(p)
            &&& !p.over
            &&& p.at + p.id == replies.len()
            &&& p.at < forbidden_place() ==> p.id == 0
            &&& p.at > forbidden_place() ==> p.id == LAST_ID
        }),
    decreases replies.len(),
{
    if replies.len() > 0 {
        let before = run(replies.drop_last()).0;
        law_one_answer_one_step(replies.drop_last());
        lemma_places(before.at as int);
        lemma_advance(before, replies.last());
    }
}

/// Every conversation ends: a test that passes has had exactly one answer for each
/// thing in the script and one for each further process that it tried, and no test
/// takes more.
pub proof fn law_every_test_ends(replies: Seq<Reply>)
    requires
        conversation(replies),
    ensures
        replies.len() <= SCRIPT_LEN + LAST_ID,
        run(replies).1 is Going ==> replies.len() < SCRIPT_LEN + LAST_ID,
        run(replies).1 is Passed <==> replies.len() == SCRIPT_LEN + LAST_ID,
{
    if replies.len() > 0 {
        let before = run(replies.drop_last()).0;
        law_one_answer_one_step(replies.drop_last());
        lemma_places(before.at as int);
        if run(replies).1 is Going {
            law_one_answer_one_step(replies);
        } else if run(replies).1 is Passed {
            lemma_advance(before, replies.last());
        }
    }
}

/// The beginning of a conversation is a conversation, and the test was going then.
pub proof fn law_conversation_was_going(replies: Seq<Reply>, n: int)
    requires
        conversation(replies),
        0 <= n < replies.len(),
    ensures
        conversation(replies.take(n)),
        run(replies.take(n)).1 is Going,
        answers(wanted(run(replies.take(n)).0), replies[n]),
        run(replies.take(n + 1)) == advance(run(replies.take(n)).0, replies[n]),
    decreases replies.len(),
{
    assert(replies.take(n + 1).drop_last() =~= replies.take(n));
    if n == replies.len() - 1 {
        assert(replies.take(n) =~= replies.drop_last());
    } else {
        law_conversation_was_going(replies.drop_last(), n);
        assert(replies.drop_last().take(n) =~= replies.take(n));
        assert(replies.drop_last().take(n + 1) =~= replies.take(n + 1));
    }
}

/// A test passes only if every answer was the one that was insisted on.
pub proof fn law_passing_meets_every_check(replies: Seq<Reply>, n: int)
    requires
        conversation(replies),
        run(replies).1 is Passed,
        0 <= n < replies.len(),
    ensures
        ({
            let p = run(replies.take(n)).0;
            let verdict = judge(script()[p.at as int], p, replies[n]);
            verdict is Next || verdict is Again
        }),
{
    law_conversation_was_going(replies, n);
    if n + 1 < replies.len() {
        law_conversation_was_going(replies, n + 1);
    } else {
        assert(replies.take(n + 1) =~= replies);
    }
}

/// An error of the kernel ends the test, and its text is the failure, unless the
/// test wants to see that very request fail.
pub proof fn law_errors_are_reported(p: Progress, reply: Reply)
    requires
        valid(p),
        reply is Failed,
        !(script()[p.at as int] is ExpectGone),
        !(script()[p.at as int] is OpenForbidden),
    ensures
        advance(p, reply).0.over,
        advance(p, reply).1 == Outcome::Failed(Failure::Reported(reply->Failed_0.message)),
{
}

/// The child takes no further part in the test.
pub proof fn law_child_leaves(replies: Seq<Reply>)
    requires
        conversation(replies),
        replies.len() > 0,
        replies[0] == Reply::Value(0),
    ensures
        replies.len() == 1,
        run(replies).1 is Tracee,
{
    lemma_places(0);
    law_conversation_was_going(replies, 0);
    assert(replies.take(0) =~= Seq::<Reply>::empty());
    assert(run(replies.take(0)) == (beginning(), Outcome::Going));
    assert(run(replies.take(1)).1 is Tracee);
    if replies.len() > 1 {
        law_conversation_was_going(replies, 1);
    }
    assert(replies.take(1) =~= replies);
}

/// The process that is traced is the one that was split off first: every request
/// that names it has its number.
pub proof fn law_one_child_is_traced(replies: Seq<Reply>)
    requires
        conversation(replies),
        replies.len() > 0,
        run(replies).1 is Going,
    ensures
        ({
            let pid = run(replies).0.pid;
            &&& replies[0] == Reply::Value(pid)
            &&& pid != 0
            &&& match wanted(run(replies).0) {
                Request::WaitPid(named, _) | Request::OpenTrace(named)
                | Request::AttachMemory(named) | Request::Kill(named, _) => named == pid,
                _ => true,
            }
        }),
    decreases replies.len(),
{
    let before = run(replies.drop_last()).0;
    law_one_answer_one_step(replies.drop_last());
    lemma_places(before.at as int);
    lemma_advance(before, replies.last());
    if replies.len() > 1 {
        law_one_child_is_traced(replies.drop_last());
    }
}

/// What is wanted at the places where the files of the child are opened.
pub open spec fn opening_request(n: int, pid: usize) -> Request {
    if n == 6 {
        Request::OpenTrace(pid)
    } else if n == 7 {
        Request::Dup(Handle::Trace, RegsFile::Int)
    } else if n == 8 {
        Request::Dup(Handle::IntRegs, RegsFile::Float)
    } else {
        Request::AttachMemory(pid)
    }
}

/// The test goes on from such a place only if the file was opened.
proof fn lemma_opening_step(p: Progress, reply: Reply)
    requires
        valid(p),
        6 <= p.at < 10,
        answers(wanted(p), reply),
        advance(p, reply).1 is Going,
    ensures
        wanted(p) == opening_request(p.at as int, p.pid),
        reply is Done,
{
    reveal(script);
    let s = script();
    assert(s[6] is OpenTrace && s[7] is DupIntRegs && s[8] is DupFloatRegs && s[9] is AttachMemory);
}

/// What was wanted at such a place of a conversation, and that it was done.
#[verifier::spinoff_prover]
proof fn lemma_file_was_opened(replies: Seq<Reply>, n: int)
    requires
        conversation(replies),
        6 <= n < 10,
        n + 1 < replies.len(),
    ensures
        replies[n] is Done,
        replies[0] is Value,
        wanted(run(replies.take(n)).0) == opening_request(n, replies[0]->Value_0),
{
    let p = run(replies.take(n)).0;
    assert(answers(wanted(p), replies[n]) && advance(p, replies[n]).1 is Going && conversation(
        replies.take(n),
    ) && run(replies.take(n)).1 is Going) by {
        law_conversation_was_going(replies, n);
        law_conversation_was_going(replies, n + 1);
    }
    assert(valid(p) && p.at == n) by {
        lemma_place_of_answer(replies, n);
        law_one_answer_one_step(replies.take(n));
    }
    assert(replies[0] == Reply::Value(p.pid)) by {
        law_one_child_is_traced(replies.take(n));
        assert(replies.take(n)[0] == replies[0]);
    }
    lemma_opening_step(p, replies[n]);
}

/// The files of the child are reached one from the other: its trace file by its number,
/// the integer registers from the trace file, the floating-point registers from the
/// integer registers, and its memory by its number again. Each of them was opened in a
/// conversation that got behind them.
pub proof fn law_how_the_child_is_reached(replies: Seq<Reply>)
    requires
        conversation(replies),
        replies.len() > 10,
    ensures
        replies[0] is Value,
        ({
            let pid = replies[0]->Value_0;
            &&& wanted(run(replies.take(6)).0) == Request::OpenTrace(pid)
            &&& wanted(run(replies.take(7)).0) == Request::Dup(Handle::Trace, RegsFile::Int)
            &&& wanted(run(replies.take(8)).0) == Request::Dup(Handle::IntRegs, RegsFile::Float)
            &&& wanted(run(replies.take(9)).0) == Request::AttachMemory(pid)
            &&& forall|n: int| 6 <= n < 10 ==> #[trigger] replies[n] is Done
        }),
{
    lemma_file_was_opened(replies, 6);
    lemma_file_was_opened(replies, 7);
    lemma_file_was_opened(replies, 8);
    lemma_file_was_opened(replies, 9);
}

/// Only `rax` is changed in the tracee: the registers that are written are those
/// that were read just before, at the entry to `getpid`, with another `rax`.
pub proof fn law_only_rax_is_overridden(replies: Seq<Reply>)
    requires
        conversation(replies),
        run(replies).1 is Going,
        wanted(run(replies).0) is SetInt,
    ensures
        replies.len() > 0,
        replies.last() is Registers,
        replies.last()->Registers_0.rax == getpid_number(),
        wanted(run(replies).0)->SetInt_0 == (IntRegisters {
            rax: EXIT_CODE,
            ..replies.last()->Registers_0
        }),
{
    let p = run(replies).0;
    law_one_answer_one_step(replies);
    lemma_places(p.at as int);
    let before = run(replies.drop_last()).0;
    law_one_answer_one_step(replies.drop_last());
    lemma_places(before.at as int);
    lemma_advance(before, replies.last());
}

/// The answer at a place before the forbidden requests is to the thing at that place.
proof fn lemma_place_of_answer(replies: Seq<Reply>, n: int)
    requires
        conversation(replies),
        0 <= n < replies.len(),
    ensures
        ({
            let p = run(replies.take(n)).0;
            &&& n < forbidden_place() ==> p.at == n && p.id == 0 && wanted(p) == request_for(
                script()[n],
                p,
            )
            &&& forbidden_place() <= n <= forbidden_place() + LAST_ID ==> p.at == forbidden_place()
                && p.id == n - forbidden_place()
        }),
{
    law_conversation_was_going(replies, n);
    law_one_answer_one_step(replies.take(n));
}

/// The answers go through the script in order: one for each thing before the forbidden
/// requests, and behind that one for each process, by its number.
pub proof fn law_answers_follow_the_script(replies: Seq<Reply>, n: int)
    requires
        conversation(replies),
        0 <= n < replies.len(),
    ensures
        ({
            let p = run(replies.take(n)).0;
            &&& n < forbidden_place() ==> p.at == n && p.id == 0 && wanted(p) == request_for(
                script()[n],
                p,
            )
            &&& forbidden_place() <= n <= forbidden_place() + LAST_ID ==> p.at == forbidden_place()
                && p.id == n - forbidden_place()
        }),
{
    lemma_place_of_answer(replies, n);
}

/// A test that passes has asked for the registers of every process from number zero
/// to the last, in order, and has been refused each time.
pub proof fn law_every_forbidden_request_was_refused(replies: Seq<Reply>, id: int)
    requires
        conversation(replies),
        run(replies).1 is Passed,
        0 <= id <= LAST_ID,
    ensures
        ({
            let n = forbidden_place() + id;
            &&& n < replies.len()
            &&& wanted(run(replies.take(n)).0) == Request::OpenRegs(id as usize)
            &&& refused(reply_code(replies[n]))
        }),
{
    let n = forbidden_place() + id;
    law_every_test_ends(replies);
    law_passing_meets_every_check(replies, n);
    lemma_place_of_answer(replies, n);
    lemma_places(forbidden_place());
}

/// In a test that passes the status of the child was taken once, and it says that the
/// child exited with the number that was put in place of its process number.
pub proof fn law_override_is_the_exit_code(replies: Seq<Reply>, n: int)
    requires
        conversation(replies),
        run(replies).1 is Passed,
        0 <= n < replies.len(),
    ensures
        ({
            let request = wanted(run(replies.take(n)).0);
            &&& n == reap_place() ==> request == Request::WaitPid(
                run(replies.take(n)).0.pid,
                WaitFor::NoHang,
            )
            &&& request is WaitPid && request->WaitPid_1 is NoHang ==> n == reap_place() && (
            replies[n] matches Reply::Value(status) && exited(status) && exit_code(status)
                == EXIT_CODE)
        }),
{
    law_every_test_ends(replies);
    law_passing_meets_every_check(replies, n);
    law_conversation_was_going(replies, n);
    law_one_answer_one_step(replies.take(n));
    let p = run(replies.take(n)).0;
    lemma_places(p.at as int);
}

/// Nothing is done to the child before its trace file, both register files and its
/// memory have been opened.
pub proof fn law_child_is_opened_before_it_is_traced(k: int)
    requires
        0 <= k < SCRIPT_LEN,
        match script()[k] {
            Op::Next(_, _) | Op::ReadRegs(_, _, _) | Op::ReadStack | Op::ReadCursor
            | Op::ReadFloats | Op::NextEvent(_) | Op::Wait | Op::WriteRax(_)
            | Op::ExpectGone(_, _) | Op::Continue => true,
            _ => false,
        },
    ensures
        exists|a: int, b: int, c: int, d: int|
            0 <= a < b < c < d < k && #[trigger] script()[a] == Op::OpenTrace
                && #[trigger] script()[b] == Op::DupIntRegs && #[trigger] script()[c]
                == Op::DupFloatRegs && #[trigger] script()[d] == Op::AttachMemory,
{
    reveal(script);
    let s = script();
    assert(s[6] == Op::OpenTrace && s[7] == Op::DupIntRegs && s[8] == Op::DupFloatRegs && s[9]
        == Op::AttachMemory);
}

/// The child is waited for only while requests return at once.
pub proof fn law_waiting_is_nonblocking(k: int)
    requires
        0 <= k < SCRIPT_LEN,
        script()[k] is Wait,
    ensures
        exists|a: int|
            0 <= a < k && #[trigger] script()[a] == Op::Nonblocking && forall|b: int|
                a < b < k ==> !(#[trigger] script()[b] is Blocking),
{
    reveal(script);
    let s = script();
    assert(s[89] == Op::Nonblocking);
}

/// An event that comes up is looked at at once, and waiting is taken up again behind
/// it before the next one.
pub proof fn law_every_event_is_settled(k: int)
    requires
        0 <= k < SCRIPT_LEN,
        script()[k] is NextEvent,
        script()[k]->NextEvent_0 != Yield::Nothing,
    ensures
        k + 1 < SCRIPT_LEN,
        script()[k + 1] == Op::Events(script()[k]->NextEvent_0),
        exists|r: int|
            k < r < SCRIPT_LEN && #[trigger] script()[r] == Op::Retry && forall|b: int|
                k < b < r ==> !(#[trigger] script()[b] is NextEvent),
{
    reveal(script);
    let s = script();
    assert(k == 42 || k == 50 || k == 72);
    assert(s[45] == Op::Retry && s[62] == Op::Retry && s[75] == Op::Retry);
}

/// The numbers that the test prints and asks with are those that it was answered just
/// before: its own number, the `rax` that was read, the fork in the event, and the stack
/// pointer.
pub proof fn law_numbers_come_from_answers(replies: Seq<Reply>)
    requires
        conversation(replies),
        run(replies).1 is Going,
        replies.len() > 1,
    ensures
        match wanted(run(replies).0) {
            Request::Print(Line::MyPid(own)) => replies.last() == Reply::Value(own),
            Request::Print(Line::Rax(value)) => replies.last() is Registers
                && replies.last()->Registers_0.rax == value,
            Request::Print(Line::ForkObtained(pid)) | Request::AttachFork(pid) => names_fork(
                replies.last(),
                pid,
            ),
            Request::Print(Line::ForkAttached(pid)) => names_fork(replies[replies.len() - 2], pid),
            Request::Print(Line::WaitingFor(pid)) => replies[0] == Reply::Value(pid),
            Request::ReadMemory(address) => replies.last() is Registers
                && replies.last()->Registers_0.rsp == address,
            _ => true,
        },
{
    let p = run(replies).0;
    let earlier = replies.drop_last();
    let before = run(earlier).0;
    law_one_answer_one_step(replies);
    law_one_answer_one_step(earlier);
    law_one_child_is_traced(replies);
    lemma_advance(before, replies.last());
    law_everything_stands_in_place(p.at as int);
    lemma_places(p.at as int);
    lemma_places(before.at as int);
    if script()[p.at as int] is SayForkAttached {
        reveal_with_fuel(conversation, 2);
        reveal_with_fuel(run, 2);
        law_everything_stands_in_place(before.at as int);
        let first = run(earlier.drop_last()).0;
        law_one_answer_one_step(earlier.drop_last());
        lemma_places(first.at as int);
        lemma_advance(first, earlier.last());
    }
}

/// The test went on behind an answer of a test that passed.
proof fn lemma_went_on(replies: Seq<Reply>, n: int)
    requires
        conversation(replies),
        run(replies).1 is Passed,
        0 <= n < replies.len(),
    ensures
        valid(run(replies.take(n)).0),
        answers(wanted(run(replies.take(n)).0), replies[n]),
        run(replies.take(n + 1)) == advance(run(replies.take(n)).0, replies[n]),
        run(replies.take(n + 1)).1 is Going || run(replies.take(n + 1)).1 is Passed,
{
    law_conversation_was_going(replies, n);
    law_one_answer_one_step(replies.take(n));
    if n + 1 < replies.len() {
        law_conversation_was_going(replies, n + 1);
    } else {
        assert(replies.take(n + 1) =~= replies);
    }
}

/// In a test that passes the memory of the child was read at the stack pointer that had
/// just been read, it held the words one, two and three, and the position behind that was
/// three words further on.
pub proof fn law_a_passing_test_read_one_two_three(replies: Seq<Reply>)
    requires
        conversation(replies),
        run(replies).1 is Passed,
    ensures
        replies.len() > 33,
        replies[31] is Registers,
        ({
            let rsp = replies[31]->Registers_0.rsp;
            &&& wanted(run(replies.take(32)).0) == Request::ReadMemory(rsp)
            &&& wanted(run(replies.take(33)).0) is Cursor
            &&& replies[33] is Value
            &&& replies[33]->Value_0 == rsp + 24
        }),
        replies[32] is Bytes,
        small_words(replies[32]->Bytes_0@, 1, 2, 3),
        word_at(replies[32]->Bytes_0@, 0) == 1,
        word_at(replies[32]->Bytes_0@, 1) == 2,
        word_at(replies[32]->Bytes_0@, 2) == 3,
{
    law_every_test_ends(replies);
    lemma_memory_places();
    lemma_went_on(replies, 31);
    lemma_went_on(replies, 32);
    lemma_went_on(replies, 33);
    lemma_place_of_answer(replies, 31);
    lemma_place_of_answer(replies, 32);
    lemma_place_of_answer(replies, 33);
    let p = run(replies.take(31)).0;
    let q = run(replies.take(32)).0;
    let r = run(replies.take(33)).0;
    lemma_advance(p, replies[31]);
    lemma_advance(q, replies[32]);
    lemma_advance(r, replies[33]);
    law_the_stack_is_held_to_three_words(q, replies[32]->Bytes_0);
}

/// Where the memory and the floating-point registers of the child are read.
proof fn lemma_memory_places()
    ensures
        script()[31] == Op::ReadRegs(Who::Tracee, None, None),
        script()[32] is ReadStack,
        script()[33] is ReadCursor,
        script()[39] is ReadFloats,
{
    reveal(script);
}

/// The memory of the child is read in that place and in no other, so that no test passes on
/// another reading.
pub proof fn law_memory_is_read_once(replies: Seq<Reply>, n: int)
    requires
        conversation(replies),
        0 <= n < replies.len(),
    ensures
        wanted(run(replies.take(n)).0) is ReadMemory <==> n == 32,
        wanted(run(replies.take(n)).0) is GetFloat <==> n == 39,
{
    lemma_place_of_answer(replies, n);
    law_conversation_was_going(replies, n);
    law_one_answer_one_step(replies.take(n));
    lemma_memory_is_read_there(run(replies.take(n)).0.at as int);
}

proof fn lemma_memory_is_read_there(k: int)
    requires
        0 <= k < SCRIPT_LEN,
    ensures
        script()[k] is ReadStack <==> k == 32,
        script()[k] is ReadFloats <==> k == 39,
{
    reveal(script);
}

/// In a test that passes the first floating-point register held the square root of
/// thirty-two, and the others nothing.
pub proof fn law_a_passing_test_read_the_root(replies: Seq<Reply>)
    requires
        conversation(replies),
        run(replies).1 is Passed,
    ensures
        replies.len() > 39,
        wanted(run(replies.take(39)).0) is GetFloat,
        replies[39] is Floats,
        replies[39]->Floats_0.top == ROOT,
        replies[39]->Floats_0.all@[0] == ROOT,
        forall|i: int| 1 <= i < 8 ==> either_zero(#[trigger] replies[39]->Floats_0.all@[i]),
{
    law_every_test_ends(replies);
    lemma_memory_places();
    lemma_went_on(replies, 39);
    lemma_place_of_answer(replies, 39);
    let p = run(replies.take(39)).0;
    law_the_floats_are_held_to_the_root(p, replies[39]->Floats_0);
}

/// What every answer of a test that passes was, by the thing that it was given to: registers
/// held the numbers that were insisted on, events came up where they were due and nowhere
/// else, what had to be gone was gone, and every other request was met.
pub proof fn law_what_a_passing_test_was_answered(replies: Seq<Reply>, n: int)
    requires
        conversation(replies),
        run(replies).1 is Passed,
        0 <= n < forbidden_place(),
    ensures
        n < replies.len(),
        match script()[n] {
            Op::ReadRegs(_, rax, rdi) => {
                &&& replies[n] is Registers
                &&& rax matches Some(number) ==> replies[n]->Registers_0.rax == number
                &&& rdi matches Some(number) ==> replies[n]->Registers_0.rdi == number
            },
            Op::NextEvent(due) => replies[n] == Reply::Handler(!(due is Nothing)),
            Op::Retry => replies[n] == Reply::Handler(false),
            Op::Events(due) => {
                &&& replies[n] is Events
                &&& replies[n]->Events_0@.len() == 1
                &&& due is ForkEvent ==> replies[n]->Events_0@[0].kind is Clone
                &&& due is SignalEvent ==> replies[n]->Events_0@[0].kind == EventKind::Signal(10)
            },
            Op::ExpectGone(_, _) => replies[n] is Failed && replies[n]->Failed_0.code == Some(3i32),
            Op::Clone => replies[n] is Value && replies[n]->Value_0 != 0,
            _ => !(replies[n] is Failed),
        },
{
    law_every_test_ends(replies);
    lemma_went_on(replies, n);
    lemma_place_of_answer(replies, n);
    law_everything_stands_in_place(n);
    lemma_places(n);
}

} // verus!

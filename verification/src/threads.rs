//! The `thread` test: the kernel is kept busy, and then given more threads than it
//! may like.
//!
//! The test goes through [`ThreadStage`]s, and each thread that it starts goes through
//! [`Duty`]s.

use crate::text::{
    append_decimal, decimal, is_numeral, law_a_number_has_one_numeral, law_decimal_is_injective,
    lemma_decimal_is_digits,
};
use vstd::prelude::*;

verus! {

/// How many threads are started, and how many each of them starts.
pub const WIDTH: usize = 10;

/// A thread: the threads that it starts first, by what each tells the shell, and what
/// it then tells the shell itself. It joins its threads at the end.
#[derive(Clone, Debug, PartialEq, Eq)]
pub struct Worker {
    pub children: Vec<String>,
    pub command: String,
}

/// What the test is about to do.
#[derive(Clone, Copy, Debug, PartialEq, Eq)]
pub enum ThreadStage {
    /// Print the line of a moment.
    Say(Moment),
    /// Keep the processor busy, and look how many seconds that has gone on.
    Spin,
    /// Start a thread of the plan.
    Start(usize),
    /// Join that thread, whatever has become of it.
    Join(usize),
}

/// What a thread of the plan is about to do.
#[derive(Clone, Copy, Debug, PartialEq, Eq)]
pub enum Duty {
    /// Start one of its own threads.
    Start(usize),
    /// Tell the shell its command.
    Tell,
    /// Join one of its own threads, whatever has become of it.
    Join(usize),
}

/// What came of telling the shell something.
#[derive(Clone, Copy, Debug, PartialEq, Eq)]
pub enum ShellEnd {
    /// The shell was not started.
    NotStarted,
    /// The shell was started and could not be waited for.
    NotAwaited,
    /// The shell ended, with this status where it has one.
    Ended(Option<i32>),
}

/// How a thread of the plan stands.
#[derive(Clone, Copy, Debug, PartialEq, Eq)]
pub enum WorkerOutcome {
    /// There is another thing to do.
    Next(Duty),
    /// The thread is done.
    Done,
    /// The thread broke off.
    Panicked,
}

/// How the test goes on from a stage: it keeps the processor busy for a full second.
/// Behind the last line it has passed.
pub open spec fn next_stage(stage: ThreadStage, elapsed_seconds: u64) -> Option<ThreadStage> {
    match stage {
        ThreadStage::Say(Moment::Stopping) => Some(ThreadStage::Spin),
        ThreadStage::Spin => if elapsed_seconds == 0 {
            Some(ThreadStage::Spin)
        } else {
            Some(ThreadStage::Say(Moment::Preempted))
        },
        ThreadStage::Say(Moment::Preempted) => Some(ThreadStage::Say(Moment::Killing)),
        ThreadStage::Say(Moment::Killing) => Some(ThreadStage::Start(0)),
        ThreadStage::Start(i) => if i < WIDTH - 1 {
            Some(ThreadStage::Start((i + 1) as usize))
        } else {
            Some(ThreadStage::Join(0))
        },
        ThreadStage::Join(i) => if i < WIDTH - 1 {
            Some(ThreadStage::Join((i + 1) as usize))
        } else {
            Some(ThreadStage::Say(Moment::Survived))
        },
        ThreadStage::Say(Moment::Survived) => None,
    }
}

/// A thread goes on behind what it told the shell: the shell ended, with any status.
pub open spec fn goes_on(end: ShellEnd) -> bool {
    end is Ended
}

/// How a thread of the plan goes on from a duty.
pub open spec fn next_duty(duty: Duty, told: bool) -> WorkerOutcome {
    match duty {
        Duty::Start(j) => if j < WIDTH - 1 {
            WorkerOutcome::Next(Duty::Start((j + 1) as usize))
        } else {
            WorkerOutcome::Next(Duty::Tell)
        },
        Duty::Tell => if told {
            WorkerOutcome::Next(Duty::Join(0))
        } else {
            WorkerOutcome::Panicked
        },
        Duty::Join(j) => if j < WIDTH - 1 {
            WorkerOutcome::Next(Duty::Join((j + 1) as usize))
        } else {
            WorkerOutcome::Done
        },
    }
}

/// What thread `i` tells the shell.
pub open spec fn command_text(i: nat) -> Seq<char> {
    "echo "@ + decimal(i)
}

/// What thread `j` of thread `i` tells the shell.
pub open spec fn child_text(i: nat, j: nat) -> Seq<char> {
    "echo "@ + decimal(i) + ":"@ + decimal(j)
}

/// The worker is thread `i`.
pub open spec fn is_worker(worker: Worker, i: nat) -> bool {
    &&& worker.command@ == command_text(i)
    &&& worker.children@.len() == WIDTH
    &&& forall|j: int| 0 <= j < WIDTH ==> #[trigger] worker.children@[j]@ == child_text(i, j as nat)
}

/// The moments at which the test prints a line.
#[derive(Clone, Copy, Debug, PartialEq, Eq)]
pub enum Moment {
    /// The processor is about to be kept busy.
    Stopping,
    /// The processor was kept busy, and the test is still running.
    Preempted,
    /// The threads are about to be started.
    Killing,
    /// The threads have been joined.
    Survived,
}

/// The line that is printed at a moment.
pub open spec fn moment_text(moment: Moment) -> Seq<char> {
    match moment {
        Moment::Stopping => "Trying to stop kernel..."@,
        Moment::Preempted => "Kernel preempted!"@,
        Moment::Killing => "Trying to kill kernel..."@,
        Moment::Survived => "Kernel survived thread test!"@,
    }
}

impl Moment {
    /// The line that is printed.
    pub fn line(self) -> (text: &'static str)
        ensures
            text@ == moment_text(self),
    {
        match self {
            Moment::Stopping => "Trying to stop kernel...",
            Moment::Preempted => "Kernel preempted!",
            Moment::Killing => "Trying to kill kernel...",
            Moment::Survived => "Kernel survived thread test!",
        }
    }
}

/// The shell that is run.
pub fn shell() -> (name: &'static str)
    ensures
        name@ == "ion"@,
{
    "ion"
}

/// The flag by which the shell takes a command.
pub fn shell_flag() -> (flag: &'static str)
    ensures
        flag@ == "-c"@,
{
    "-c"
}

/// What thread `i` tells the shell.
pub fn command(i: usize) -> (text: String)
    ensures
        text@ == command_text(i as nat),
{
    let mut text = "echo ".to_owned();
    append_decimal(&mut text, i as u64);
    text
}

/// What thread `j` of thread `i` tells the shell.
pub fn child_command(i: usize, j: usize) -> (text: String)
    ensures
        text@ == child_text(i as nat, j as nat),
{
    let mut text = command(i);
    text.append(":");
    append_decimal(&mut text, j as u64);
    text
}

/// Thread `i` with the threads that it starts.
fn worker(i: usize) -> (worker: Worker)
    ensures
        is_worker(worker, i as nat),
{
    let mut children: Vec<String> = Vec::new();
    let mut j: usize = 0;
    while j < WIDTH
        invariant
            j <= WIDTH,
            children@.len() == j,
            forall|k: int| 0 <= k < j ==> #[trigger] children@[k]@ == child_text(i as nat, k as nat),
        decreases WIDTH - j,
    {
        children.push(child_command(i, j));
        j = j + 1;
    }
    Worker { children, command: command(i) }
}

/// All threads that are started, in order. They are joined in the same order.
pub fn thread_test() -> (workers: Vec<Worker>)
    ensures
        workers@.len() == WIDTH,
        forall|i: int| 0 <= i < WIDTH ==> is_worker(#[trigger] workers@[i], i as nat),
{
    let mut workers: Vec<Worker> = Vec::new();
    let mut i: usize = 0;
    while i < WIDTH
        invariant
            i <= WIDTH,
            workers@.len() == i,
            forall|k: int| 0 <= k < i ==> is_worker(#[trigger] workers@[k], k as nat),
        decreases WIDTH - i,
    {
        workers.push(worker(i));
        i = i + 1;
    }
    workers
}

impl ThreadStage {
    /// Where the test begins.
    pub fn start() -> (stage: ThreadStage)
        ensures
            stage == ThreadStage::Say(Moment::Stopping),
    {
        ThreadStage::Say(Moment::Stopping)
    }
}

impl Duty {
    /// Where every thread of the plan begins.
    pub fn start() -> (duty: Duty)
        ensures
            duty == Duty::Start(0),
    {
        Duty::Start(0)
    }
}

/// Says what the test does behind a stage, and nothing if it has passed. The time
/// matters while the processor is kept busy.
pub fn thread_step(stage: ThreadStage, elapsed_seconds: u64) -> (next: Option<ThreadStage>)
    ensures
        next == next_stage(stage, elapsed_seconds),
{
    match stage {
        ThreadStage::Say(Moment::Stopping) => Some(ThreadStage::Spin),
        ThreadStage::Spin => if elapsed_seconds == 0 {
            Some(ThreadStage::Spin)
        } else {
            Some(ThreadStage::Say(Moment::Preempted))
        },
        ThreadStage::Say(Moment::Preempted) => Some(ThreadStage::Say(Moment::Killing)),
        ThreadStage::Say(Moment::Killing) => Some(ThreadStage::Start(0)),
        ThreadStage::Start(i) => if i < WIDTH - 1 {
            Some(ThreadStage::Start(i + 1))
        } else {
            Some(ThreadStage::Join(0))
        },
        ThreadStage::Join(i) => if i < WIDTH - 1 {
            Some(ThreadStage::Join(i + 1))
        } else {
            Some(ThreadStage::Say(Moment::Survived))
        },
        ThreadStage::Say(Moment::Survived) => None,
    }
}

/// Tells whether a thread goes on behind what it told the shell, or breaks off.
pub fn shell_ended(end: ShellEnd) -> (result: bool)
    ensures
        result == goes_on(end),
{
    match end {
        ShellEnd::Ended(_) => true,
        _ => false,
    }
}

/// Says what a thread of the plan does behind a duty. Whether it goes on behind what it
/// told the shell matters for that duty alone.
pub fn worker_step(duty: Duty, told: bool) -> (outcome: WorkerOutcome)
    ensures
        outcome == next_duty(duty, told),
{
    match duty {
        Duty::Start(j) => if j < WIDTH - 1 {
            WorkerOutcome::Next(Duty::Start(j + 1))
        } else {
            WorkerOutcome::Next(Duty::Tell)
        },
        Duty::Tell => if told {
            WorkerOutcome::Next(Duty::Join(0))
        } else {
            WorkerOutcome::Panicked
        },
        Duty::Join(j) => if j < WIDTH - 1 {
            WorkerOutcome::Next(Duty::Join(j + 1))
        } else {
            WorkerOutcome::Done
        },
    }
}

/// The place of a stage in the test.
pub open spec fn place(stage: ThreadStage) -> int {
    match stage {
        ThreadStage::Say(Moment::Stopping) => 0,
        ThreadStage::Spin => 1,
        ThreadStage::Say(Moment::Preempted) => 2,
        ThreadStage::Say(Moment::Killing) => 3,
        ThreadStage::Start(i) => 4 + i,
        ThreadStage::Join(i) => 4 + WIDTH + i,
        ThreadStage::Say(Moment::Survived) => 4 + 2 * WIDTH,
    }
}

/// The stage is one of a thread in the plan, or of none.
pub open spec fn in_plan(stage: ThreadStage) -> bool {
    match stage {
        ThreadStage::Start(i) | ThreadStage::Join(i) => i < WIDTH,
        _ => true,
    }
}

/// The lines come in their order, the processor is kept busy until a second has gone by,
/// only then are the threads started, one after the other, and only when all have been
/// started are they joined in the same order: every stage leads to the one at the next
/// place, except that keeping busy leads to itself while no second has gone by. No two
/// stages have one place.
pub proof fn law_stages_come_in_order(stage: ThreadStage, elapsed_seconds: u64)
    requires
        in_plan(stage),
    ensures
        match next_stage(stage, elapsed_seconds) {
            Some(next) => in_plan(next) && if stage is Spin && elapsed_seconds == 0 {
                next == stage
            } else {
                place(next) == place(stage) + 1
            },
            None => stage == ThreadStage::Say(Moment::Survived),
        },
        forall|other: ThreadStage|
            in_plan(other) && #[trigger] place(other) == place(stage) ==> other == stage,
{
}

/// How many duties a thread of the plan has left at most.
pub open spec fn duties_left(duty: Duty) -> nat {
    match duty {
        Duty::Start(j) => if j < WIDTH {
            (2 * WIDTH + 1 - j) as nat
        } else {
            (WIDTH + 2) as nat
        },
        Duty::Tell => (WIDTH + 1) as nat,
        Duty::Join(j) => if j < WIDTH {
            (WIDTH - j) as nat
        } else {
            1
        },
    }
}

/// All that a thread of the plan does from a duty on, if telling the shell ends so.
pub open spec fn duties_from(duty: Duty, end: ShellEnd) -> Seq<Duty>
    decreases duties_left(duty),
{
    match next_duty(duty, goes_on(end)) {
        WorkerOutcome::Next(next) => seq![duty] + duties_from(next, end),
        _ => seq![duty],
    }
}

/// The duty at a place of a thread that does not break off.
pub open spec fn duty_at(n: int) -> Duty {
    if n < WIDTH {
        Duty::Start(n as usize)
    } else if n == WIDTH {
        Duty::Tell
    } else {
        Duty::Join((n - WIDTH - 1) as usize)
    }
}

/// All duties of a thread that does not break off: it starts its threads, tells the
/// shell its command, and joins its threads in the order in which it started them.
pub open spec fn all_duties() -> Seq<Duty> {
    Seq::new((2 * WIDTH + 1) as nat, |n: int| duty_at(n))
}

/// From each of its duties on a thread that does not break off has the rest of them.
proof fn lemma_rest_of_duties(n: int, end: ShellEnd)
    requires
        0 <= n < 2 * WIDTH + 1,
        goes_on(end),
    ensures
        duties_from(duty_at(n), end) == all_duties().skip(n),
    decreases 2 * WIDTH + 1 - n,
{
    let rest = all_duties().skip(n);
    if n < 2 * WIDTH {
        lemma_rest_of_duties(n + 1, end);
        assert(next_duty(duty_at(n), true) == WorkerOutcome::Next(duty_at(n + 1)));
        assert(rest =~= seq![duty_at(n)] + all_duties().skip(n + 1));
    } else {
        assert(rest =~= seq![duty_at(n)]);
    }
}

/// What thread `i` and the threads that it starts tell the shell, in the course of some
/// duties of thread `i`.
pub open spec fn commands_in(i: nat, duties: Seq<Duty>) -> Seq<Seq<char>>
    decreases duties.len(),
{
    if duties.len() == 0 {
        Seq::empty()
    } else {
        (match duties[0] {
            Duty::Start(j) => seq![child_text(i, j as nat)],
            Duty::Tell => seq![command_text(i)],
            Duty::Join(_) => Seq::empty(),
        }) + commands_in(i, duties.drop_first())
    }
}

/// All that the test tells the shell, thread by thread, if what its threads tell the
/// shell ends so.
pub open spec fn all_commands(ends: Seq<ShellEnd>) -> Seq<Seq<Seq<char>>> {
    Seq::new(
        WIDTH as nat,
        |i: int| commands_in(i as nat, duties_from(Duty::Start(0), ends[i])),
    )
}

/// What thread `i` and the threads that it starts tell the shell from the duty at place
/// `n` on, if thread `i` does not break off: the commands of its threads that are still to
/// be started, and then its own.
pub open spec fn commands_from(i: nat, n: int) -> Seq<Seq<char>> {
    Seq::new(
        if n <= WIDTH {
            (WIDTH + 1 - n) as nat
        } else {
            0
        },
        |k: int|
            if n + k < WIDTH {
                child_text(i, (n + k) as nat)
            } else {
                command_text(i)
            },
    )
}

/// The commands of thread `i` that are still to come from a place on.
proof fn lemma_commands_left(i: nat, n: int)
    requires
        0 <= n <= 2 * WIDTH + 1,
    ensures
        commands_in(i, all_duties().skip(n)) == commands_from(i, n),
    decreases 2 * WIDTH + 1 - n,
{
    let rest = all_duties().skip(n);
    if n < 2 * WIDTH + 1 {
        lemma_commands_left(i, n + 1);
        assert(rest.drop_first() =~= all_duties().skip(n + 1));
        assert(rest[0] == duty_at(n));
    }
    assert(commands_in(i, rest) =~= commands_from(i, n));
}

/// The exit statuses of the shell do not matter: whatever they are, each of the ten
/// threads does all of its duties, and with its threads tells the shell the same eleven
/// commands.
pub proof fn law_exit_statuses_do_not_matter(ends: Seq<ShellEnd>, others: Seq<ShellEnd>, i: int)
    requires
        ends.len() == WIDTH,
        others.len() == WIDTH,
        forall|k: int| 0 <= k < WIDTH ==> #[trigger] ends[k] is Ended,
        forall|k: int| 0 <= k < WIDTH ==> #[trigger] others[k] is Ended,
        0 <= i < WIDTH,
    ensures
        all_commands(ends) == all_commands(others),
        all_commands(ends)[i] == commands_from(i as nat, 0),
        commands_from(i as nat, 0).len() == WIDTH + 1,
        duties_from(Duty::Start(0), ends[i]) == all_duties(),
{
    assert forall|k: int| 0 <= k < WIDTH implies #[trigger] duties_from(Duty::Start(0), ends[k])
        == all_duties() && duties_from(Duty::Start(0), others[k]) == all_duties() by {
        lemma_rest_of_duties(0, ends[k]);
        lemma_rest_of_duties(0, others[k]);
        assert(all_duties().skip(0) =~= all_duties());
    }
    assert(all_commands(ends) =~= all_commands(others));
    lemma_commands_left(i as nat, 0);
    assert(all_duties().skip(0) =~= all_duties());
}

/// Where the colon stands in what a thread of a thread tells the shell.
proof fn lemma_colon(i: nat, j: nat)
    ensures
        child_text(i, j).len() == 6 + decimal(i).len() + decimal(j).len(),
        child_text(i, j)[5 + decimal(i).len() as int] == ':',
        child_text(i, j).subrange(5, 5 + decimal(i).len() as int) == decimal(i),
        child_text(i, j).subrange(
            6 + decimal(i).len() as int,
            child_text(i, j).len() as int,
        ) == decimal(j),
        forall|k: int|
            5 <= k < child_text(i, j).len() && k != 5 + decimal(i).len() ==> #[trigger] child_text(
                i,
                j,
            )[k] != ':',
{
    reveal_strlit("echo ");
    reveal_strlit(":");
    lemma_decimal_is_digits(i);
    lemma_decimal_is_digits(j);
    let text = child_text(i, j);
    let width = decimal(i).len() as int;
    assert(text.subrange(5, 5 + width) =~= decimal(i));
    assert(text.subrange(6 + width, text.len() as int) =~= decimal(j));
    assert forall|k: int| 5 <= k < text.len() && k != 5 + width implies #[trigger] text[k] != ':' by {
        if k < 5 + width {
            assert(text[k] == decimal(i)[k - 5]);
        } else {
            assert(text[k] == decimal(j)[k - 6 - width]);
        }
    }
}

/// No two threads tell the shell the same, whether they are started by the test or by
/// one of its threads.
pub proof fn law_commands_differ(i: nat, j: nat, k: nat, l: nat)
    ensures
        command_text(i) == command_text(k) ==> i == k,
        child_text(i, j) == child_text(k, l) ==> i == k && j == l,
        command_text(i) != child_text(k, l),
{
    reveal_strlit("echo ");
    lemma_decimal_is_digits(i);
    lemma_decimal_is_digits(k);
    if command_text(i) == command_text(k) {
        assert(command_text(i).subrange(5, command_text(i).len() as int) =~= decimal(i));
        assert(command_text(k).subrange(5, command_text(k).len() as int) =~= decimal(k));
        law_decimal_is_injective(i, k);
    }
    lemma_colon(i, j);
    lemma_colon(k, l);
    if child_text(i, j) == child_text(k, l) {
        assert(decimal(i).len() == decimal(k).len());
        law_decimal_is_injective(i, k);
        law_decimal_is_injective(j, l);
    }
    if command_text(i) == child_text(k, l) {
        let place = 5 + decimal(k).len() as int;
        assert(command_text(i)[place] == decimal(i)[place - 5]);
    }
}

/// What a thread tells the shell names the thread: the digits behind `echo ` are its
/// number, and a thread of a thread adds a colon and the digits of its own.
pub proof fn law_commands_name_their_thread(i: nat, j: nat)
    ensures
        ({
            let command = command_text(i);
            let child = child_text(i, j);
            let width = command.len() as int;
            &&& command.len() > 5
            &&& command.take(5) == seq!['e', 'c', 'h', 'o', ' ']
            &&& is_numeral(command.skip(5), i as int)
            &&& child.len() > width + 1
            &&& child.take(width) == command
            &&& child[width] == ':'
            &&& is_numeral(child.skip(width + 1), j as int)
        }),
{
    reveal_strlit("echo ");
    reveal_strlit(":");
    law_a_number_has_one_numeral(decimal(i), i);
    law_a_number_has_one_numeral(decimal(j), j);
    let command = command_text(i);
    let child = child_text(i, j);
    let width = command.len() as int;
    assert(command.take(5) =~= seq!['e', 'c', 'h', 'o', ' ']);
    assert(command.skip(5) =~= decimal(i));
    assert(child.take(width) =~= command);
    assert(child.skip(width + 1) =~= decimal(j));
}

/// A thread looks at what came of the shell behind its own command alone: it breaks off
/// there if the shell could not be started or waited for, and nowhere else.
pub proof fn law_only_the_own_shell_matters(duty: Duty, end: ShellEnd)
    ensures
        next_duty(duty, goes_on(end)) is Panicked <==> duty is Tell && (end is NotStarted
            || end is NotAwaited),
        !(duty is Tell) ==> next_duty(duty, true) == next_duty(duty, false),
        end matches ShellEnd::Ended(_) ==> goes_on(end),
{
}

/// A thread whose shell cannot be started or waited for has started all of its threads by
/// then, and joins none of them.
pub proof fn law_a_broken_thread_joins_nothing(end: ShellEnd)
    requires
        !(end is Ended),
    ensures
        duties_from(Duty::Start(0), end).len() == 11,
        duties_from(Duty::Start(0), end).last() is Tell,
        forall|j: int|
            0 <= j < 10 ==> #[trigger] duties_from(Duty::Start(0), end)[j] == Duty::Start(
                j as usize,
            ),
{
    lemma_duties_up_to_the_shell(0, end);
    let all = duties_from(Duty::Start(0), end);
    assert forall|j: int| 0 <= j < 10 implies #[trigger] all[j] == Duty::Start(j as usize) by {
        assert(duties_from(duty_at(0), end)[j - 0] == Duty::Start(j as usize));
    }
}

/// What such a thread does from the start of one of its threads on.
proof fn lemma_duties_up_to_the_shell(n: int, end: ShellEnd)
    requires
        0 <= n <= 10,
        !(end is Ended),
    ensures
        duties_from(duty_at(n), end).len() == 11 - n,
        duties_from(duty_at(n), end).last() is Tell,
        forall|j: int|
            n <= j < 10 ==> #[trigger] duties_from(duty_at(n), end)[j - n] == Duty::Start(
                j as usize,
            ),
    decreases 10 - n,
{
    if n < 10 {
        lemma_duties_up_to_the_shell(n + 1, end);
        let rest = duties_from(duty_at(n + 1), end);
        assert(duties_from(duty_at(n), end) == seq![duty_at(n)] + rest);
        assert forall|j: int| n <= j < 10 implies #[trigger] duties_from(duty_at(n), end)[j - n]
            == Duty::Start(j as usize) by {
            if j > n {
                assert(rest[j - (n + 1)] == Duty::Start(j as usize));
            }
        }
    }
}

/// The processor is kept busy as long as no full second has gone by, however often the
/// test looks, and no longer. At no other stage does the time matter.
pub proof fn law_the_processor_is_busy_for_a_second(elapsed_seconds: u64)
    ensures
        next_stage(ThreadStage::Spin, elapsed_seconds) == Some(ThreadStage::Spin)
            <==> elapsed_seconds < 1,
        elapsed_seconds >= 1 ==> next_stage(ThreadStage::Spin, elapsed_seconds) == Some(
            ThreadStage::Say(Moment::Preempted),
        ),
        forall|stage: ThreadStage|
            !(stage is Spin) ==> #[trigger] next_stage(stage, elapsed_seconds) == next_stage(
                stage,
                0,
            ),
{
}

/// Ten threads are started before the first is joined, and all ten are joined before the
/// test says that the kernel survived.
pub proof fn law_every_thread_is_joined(i: usize, elapsed_seconds: u64)
    requires
        i < 10,
    ensures
        i + 1 < 10 ==> next_stage(ThreadStage::Start(i), elapsed_seconds) == Some(
            ThreadStage::Start((i + 1) as usize),
        ) && next_stage(ThreadStage::Join(i), elapsed_seconds) == Some(
            ThreadStage::Join((i + 1) as usize),
        ),
        i + 1 == 10 ==> next_stage(ThreadStage::Start(i), elapsed_seconds) == Some(
            ThreadStage::Join(0),
        ) && next_stage(ThreadStage::Join(i), elapsed_seconds) == Some(
            ThreadStage::Say(Moment::Survived),
        ),
{
}

} // verus!

//! The command line: every argument names a test, which is run and reported; with no
//! arguments the names are listed.

use crate::text::{
    append_decimal, decimal, is_numeral, law_a_number_has_one_numeral, law_decimal_is_injective,
};
use vstd::prelude::*;

verus! {

/// A test.
#[derive(Clone, Copy, Debug, PartialEq, Eq)]
pub enum Test {
    /// A file is made, written, and read back.
    Create,
    /// A thread reads memory that is not there.
    PageFault,
    /// A child is traced.
    Ptrace,
    /// Two threads give up the processor to each other.
    Switch,
    /// A connection is dropped.
    TcpFin,
    /// Many threads are started.
    Thread,
    /// Every thread has its own variables.
    Tls,
}

/// What is done with an argument.
#[derive(Clone, Debug, PartialEq, Eq)]
pub enum ArgumentAction {
    /// Run the test, and report it.
    Run(Test),
    /// Print the line, and end the program with [`NOT_FOUND_CODE`].
    NotFound(String),
}

/// The exit code of the program for a name that no test has.
pub const NOT_FOUND_CODE: i32 = 1;

/// The number of tests.
pub const TEST_COUNT: usize = 7;

/// How many nanoseconds a second has.
pub const NANOS_PER_SECOND: u64 = 1_000_000_000;

/// All tests, in the order of their names.
pub open spec fn tests() -> Seq<Test> {
    seq![
        Test::Create,
        Test::PageFault,
        Test::Ptrace,
        Test::Switch,
        Test::TcpFin,
        Test::Thread,
        Test::Tls,
    ]
}

/// The name of a test.
pub open spec fn test_name(test: Test) -> Seq<char> {
    match test {
        Test::Create => "create_test"@,
        Test::PageFault => "page_fault"@,
        Test::Ptrace => "ptrace"@,
        Test::Switch => "switch"@,
        Test::TcpFin => "tcp_fin"@,
        Test::Thread => "thread"@,
        Test::Tls => "tls"@,
    }
}

/// A text comes before another in the order of a dictionary.
pub open spec fn sorts_before(left: Seq<char>, right: Seq<char>) -> bool
    decreases left.len(),
{
    if right.len() == 0 {
        false
    } else if left.len() == 0 {
        true
    } else if left[0] == right[0] {
        sorts_before(left.drop_first(), right.drop_first())
    } else {
        left[0] < right[0]
    }
}

/// Some test has the name.
pub open spec fn is_test_name(name: Seq<char>) -> bool {
    exists|test: Test| #[trigger] test_name(test) == name
}

/// A test has been run, behind an argument.
pub open spec fn ran_behind(ran: bool, name: Seq<char>) -> bool {
    ran || is_test_name(name)
}

/// The line for a name that no test has.
pub open spec fn not_found_text(name: Seq<char>) -> Seq<char> {
    "acid: "@ + name + ": not found"@
}

/// The line for a test that passed.
pub open spec fn passed_text(name: Seq<char>, nanoseconds: nat) -> Seq<char> {
    "acid: "@ + name + ": passed: "@ + decimal(nanoseconds) + " ns"@
}

/// The line for a test that failed.
pub open spec fn failed_text(name: Seq<char>, message: Seq<char>) -> Seq<char> {
    "acid: "@ + name + ": failed: "@ + message
}

/// A time in nanoseconds.
pub open spec fn nanoseconds(seconds: u64, nanos: u32) -> nat {
    (seconds * NANOS_PER_SECOND + nanos) as nat
}

/// What the literals of the names hold.
proof fn lemma_names()
    ensures
        "create_test"@.len() == 11,
        "page_fault"@.len() == 10,
        "ptrace"@.len() == 6,
        "switch"@.len() == 6,
        "tcp_fin"@.len() == 7,
        "thread"@.len() == 6,
        "tls"@.len() == 3,
        "create_test"@[0] == 'c',
        "page_fault"@[0] == 'p',
        "page_fault"@[1] == 'a',
        "ptrace"@[0] == 'p',
        "ptrace"@[1] == 't',
        "switch"@[0] == 's',
        "tcp_fin"@[0] == 't',
        "tcp_fin"@[1] == 'c',
        "thread"@[0] == 't',
        "thread"@[1] == 'h',
        "tls"@[0] == 't',
        "tls"@[1] == 'l',
{
    reveal_strlit("create_test");
    reveal_strlit("page_fault");
    reveal_strlit("ptrace");
    reveal_strlit("switch");
    reveal_strlit("tcp_fin");
    reveal_strlit("thread");
    reveal_strlit("tls");
}

/// Different tests have different names.
pub proof fn law_names_differ(left: Test, right: Test)
    requires
        test_name(left) == test_name(right),
    ensures
        left == right,
{
    lemma_names();
}

/// Every test is listed once, and the names come in the order of a dictionary.
pub proof fn law_tests_are_listed_in_order(i: int, j: int)
    requires
        0 <= i < j < tests().len(),
    ensures
        sorts_before(test_name(tests()[i]), test_name(tests()[j])),
        tests()[i] != tests()[j],
{
    lemma_names();
    reveal_with_fuel(sorts_before, 2);
}

/// No test is left out of the list.
pub proof fn law_every_test_is_listed(test: Test)
    ensures
        tests().contains(test),
{
    let all = tests();
    assert(all[0] is Create && all[1] is PageFault && all[2] is Ptrace && all[3] is Switch && all[4]
        is TcpFin && all[5] is Thread && all[6] is Tls);
}

impl Test {
    /// The name of the test.
    pub fn name(self) -> (name: &'static str)
        ensures
            name@ == test_name(self),
    {
        match self {
            Test::Create => "create_test",
            Test::PageFault => "page_fault",
            Test::Ptrace => "ptrace",
            Test::Switch => "switch",
            Test::TcpFin => "tcp_fin",
            Test::Thread => "thread",
            Test::Tls => "tls",
        }
    }
}

/// All tests, in the order of their names.
pub fn all_tests() -> (all: Vec<Test>)
    ensures
        all@ == tests(),
{
    let all = vec![
        Test::Create,
        Test::PageFault,
        Test::Ptrace,
        Test::Switch,
        Test::TcpFin,
        Test::Thread,
        Test::Tls,
    ];
    assert(all@ =~= tests());
    all
}

/// The test with a name, if there is one.
pub fn find_test(name: &str) -> (found: Option<Test>)
    ensures
        found matches Some(test) ==> test_name(test) == name@,
        found is None ==> !is_test_name(name@),
{
    let wanted = name.to_owned();
    let all = all_tests();
    let mut i: usize = 0;
    while i < all.len()
        invariant
            i <= all@.len(),
            all@ == tests(),
            wanted@ == name@,
            forall|j: int| 0 <= j < i ==> test_name(#[trigger] tests()[j]) != name@,
        decreases all@.len() - i,
    {
        if all[i].name().to_owned() == wanted {
            return Some(all[i]);
        }
        i = i + 1;
    }
    assert forall|test: Test| #[trigger] test_name(test) != name@ by {
        law_every_test_is_listed(test);
        let j = choose|j: int| 0 <= j < tests().len() && tests()[j] == test;
        assert(test_name(tests()[j]) != name@);
    }
    None
}

/// The program between two arguments.
pub struct Runner {
    ran_test: bool,
}

impl View for Runner {
    type V = bool;

    /// A test has been run.
    closed spec fn view(&self) -> bool {
        self.ran_test
    }
}

impl Runner {
    /// The program before its first argument.
    pub fn start() -> (runner: Runner)
        ensures
            !runner@,
    {
        Runner { ran_test: false }
    }

    /// Takes an argument, and says what is done with it.
    pub fn argument(&mut self, name: &str) -> (action: ArgumentAction)
        ensures
            final(self)@ == ran_behind(old(self)@, name@),
            is_test_name(name@) ==> (action matches ArgumentAction::Run(test) && test_name(test)
                == name@),
            !is_test_name(name@) ==> (action matches ArgumentAction::NotFound(line) && line@
                == not_found_text(name@)),
    {
        match find_test(name) {
            Some(test) => {
                assert(is_test_name(test_name(test)));
                self.ran_test = true;
                ArgumentAction::Run(test)
            },
            None => {
                let mut line = "acid: ".to_owned();
                line.append(name);
                line.append(": not found");
                ArgumentAction::NotFound(line)
            },
        }
    }

    /// What is listed behind the last argument: every test if none was run, and else
    /// nothing.
    pub fn listing(&self) -> (listed: Vec<Test>)
        ensures
            self@ ==> listed@ == Seq::<Test>::empty(),
            !self@ ==> listed@ == tests(),
    {
        if self.ran_test {
            Vec::new()
        } else {
            all_tests()
        }
    }
}

/// The line for a test that passed in a time, which must fit into so many nanoseconds.
pub fn passed_line(name: &str, seconds: u64, nanos: u32) -> (line: String)
    requires
        nanoseconds(seconds, nanos) <= u64::MAX,
    ensures
        line@ == passed_text(name@, nanoseconds(seconds, nanos)),
{
    let mut line = "acid: ".to_owned();
    line.append(name);
    line.append(": passed: ");
    append_decimal(&mut line, seconds * NANOS_PER_SECOND + nanos as u64);
    line.append(" ns");
    line
}

/// The line for a test that failed.
pub fn failed_line(name: &str, message: &str) -> (line: String)
    ensures
        line@ == failed_text(name@, message@),
{
    let mut line = "acid: ".to_owned();
    line.append(name);
    line.append(": failed: ");
    line.append(message);
    line
}

/// The line for a test that has ended: how long it took if it passed, which must then
/// fit into so many nanoseconds, and why if it failed.
pub fn report_line(name: &str, result: Result<(), String>, seconds: u64, nanos: u32) -> (line:
    String)
    requires
        result is Ok ==> nanoseconds(seconds, nanos) <= u64::MAX,
    ensures
        result is Ok ==> line@ == passed_text(name@, nanoseconds(seconds, nanos)),
        result matches Err(message) ==> line@ == failed_text(name@, message@),
{
    match result {
        Ok(_) => passed_line(name, seconds, nanos),
        Err(message) => failed_line(name, message.as_str()),
    }
}

/// The tests that a command line runs: those that its arguments name, in order, up to
/// the first that names none.
pub open spec fn runs(arguments: Seq<Seq<char>>) -> Seq<Test>
    decreases arguments.len(),
{
    if arguments.len() == 0 || !is_test_name(arguments[0]) {
        Seq::empty()
    } else {
        seq![choose|test: Test| #[trigger] test_name(test) == arguments[0]] + runs(
            arguments.drop_first(),
        )
    }
}

/// The program gets to the end of its arguments: all of them name tests.
pub open spec fn all_named(arguments: Seq<Seq<char>>) -> bool {
    forall|i: int| 0 <= i < arguments.len() ==> is_test_name(#[trigger] arguments[i])
}

/// Each argument runs the test that it names, as long as those before it name tests
/// too. A test that is named twice is run twice.
pub proof fn law_arguments_run_in_order(arguments: Seq<Seq<char>>, i: int)
    ensures
        runs(arguments).len() <= arguments.len(),
        0 <= i < runs(arguments).len() ==> test_name(runs(arguments)[i]) == arguments[i],
        all_named(arguments) ==> runs(arguments).len() == arguments.len(),
        runs(arguments).len() < arguments.len() ==> !is_test_name(
            arguments[runs(arguments).len() as int],
        ),
    decreases arguments.len(),
{
    if arguments.len() > 0 && is_test_name(arguments[0]) {
        let rest = arguments.drop_first();
        law_arguments_run_in_order(rest, i - 1);
        assert(all_named(arguments) ==> all_named(rest)) by {
            if all_named(arguments) {
                assert forall|j: int| 0 <= j < rest.len() implies is_test_name(#[trigger] rest[j]) by {
                    assert(rest[j] == arguments[j + 1]);
                }
            }
        }
    }
}

/// A test has been run behind all arguments.
pub open spec fn ran_behind_all(arguments: Seq<Seq<char>>) -> bool
    decreases arguments.len(),
{
    arguments.len() > 0 && ran_behind(ran_behind_all(arguments.drop_last()), arguments.last())
}

/// The names are listed exactly when there are no arguments: a program that gets to
/// the end of its arguments has run a test for each of them.
pub proof fn law_names_are_listed_without_arguments(arguments: Seq<Seq<char>>)
    requires
        all_named(arguments),
    ensures
        ran_behind_all(arguments) <==> arguments.len() > 0,
        runs(arguments).len() == arguments.len(),
{
    law_arguments_run_in_order(arguments, 0);
    if arguments.len() > 0 {
        assert(is_test_name(arguments[arguments.len() - 1]));
    }
}

/// The line for a test that passed holds its name and its time: between `passed: ` and
/// ` ns` stand the digits of all its nanoseconds, whether it took a second or not.
pub proof fn law_the_time_is_read_back(name: Seq<char>, seconds: u64, nanos: u32)
    ensures
        ({
            let line = passed_text(name, nanoseconds(seconds, nanos));
            let digits = line.subrange(16 + name.len() as int, line.len() - 3);
            &&& line.len() > 19 + name.len()
            &&& line.take(6) == seq!['a', 'c', 'i', 'd', ':', ' ']
            &&& line.subrange(6, 6 + name.len() as int) == name
            &&& line.subrange(6 + name.len() as int, 16 + name.len() as int) == seq![
                ':',
                ' ',
                'p',
                'a',
                's',
                's',
                'e',
                'd',
                ':',
                ' ',
            ]
            &&& line.skip(line.len() - 3) == seq![' ', 'n', 's']
            &&& is_numeral(digits, seconds * 1_000_000_000 + nanos)
        }),
{
    reveal_strlit("acid: ");
    reveal_strlit(": passed: ");
    reveal_strlit(" ns");
    let time = nanoseconds(seconds, nanos);
    let line = passed_text(name, time);
    let width = name.len() as int;
    law_a_number_has_one_numeral(decimal(time), time);
    assert(line.take(6) =~= seq!['a', 'c', 'i', 'd', ':', ' ']);
    assert(line.subrange(6, 6 + width) =~= name);
    assert(line.subrange(6 + width, 16 + width) =~= ": passed: "@);
    assert(line.skip(line.len() - 3) =~= seq![' ', 'n', 's']);
    assert(line.subrange(16 + width, line.len() - 3) =~= decimal(time));
}

/// The line for a test that failed holds its name and, unabridged, why it failed.
pub proof fn law_the_failure_is_read_back(name: Seq<char>, message: Seq<char>)
    ensures
        ({
            let line = failed_text(name, message);
            &&& line.take(6) == seq!['a', 'c', 'i', 'd', ':', ' ']
            &&& line.subrange(6, 6 + name.len() as int) == name
            &&& line.subrange(6 + name.len() as int, 16 + name.len() as int) == seq![
                ':',
                ' ',
                'f',
                'a',
                'i',
                'l',
                'e',
                'd',
                ':',
                ' ',
            ]
            &&& line.skip(16 + name.len() as int) == message
        }),
{
    reveal_strlit("acid: ");
    reveal_strlit(": failed: ");
    let line = failed_text(name, message);
    let width = name.len() as int;
    assert(line.take(6) =~= seq!['a', 'c', 'i', 'd', ':', ' ']);
    assert(line.subrange(6, 6 + width) =~= name);
    assert(line.subrange(6 + width, 16 + width) =~= ": failed: "@);
    assert(line.skip(16 + width) =~= message);
}

/// The line for a name that no test has holds that name, whatever it is.
pub proof fn law_the_unknown_name_is_read_back(name: Seq<char>)
    ensures
        ({
            let line = not_found_text(name);
            &&& line.len() == 17 + name.len()
            &&& line.take(6) == seq!['a', 'c', 'i', 'd', ':', ' ']
            &&& line.subrange(6, 6 + name.len() as int) == name
            &&& line.skip(6 + name.len() as int) == seq![
                ':',
                ' ',
                'n',
                'o',
                't',
                ' ',
                'f',
                'o',
                'u',
                'n',
                'd',
            ]
        }),
{
    reveal_strlit("acid: ");
    reveal_strlit(": not found");
    let line = not_found_text(name);
    let width = name.len() as int;
    assert(line.take(6) =~= seq!['a', 'c', 'i', 'd', ':', ' ']);
    assert(line.subrange(6, 6 + width) =~= name);
    assert(line.skip(6 + width) =~= ": not found"@);
}

/// A test that passed is never reported as one that failed, and two times are never
/// reported alike.
pub proof fn law_reports_differ(
    name: Seq<char>,
    message: Seq<char>,
    seconds: u64,
    nanos: u32,
    later_seconds: u64,
    later_nanos: u32,
)
    ensures
        passed_text(name, nanoseconds(seconds, nanos)) != failed_text(name, message),
        passed_text(name, nanoseconds(seconds, nanos)) == passed_text(
            name,
            nanoseconds(later_seconds, later_nanos),
        ) ==> seconds * 1_000_000_000 + nanos == later_seconds * 1_000_000_000 + later_nanos,
{
    let width = name.len() as int;
    let time = nanoseconds(seconds, nanos);
    let later = nanoseconds(later_seconds, later_nanos);
    let passed = passed_text(name, time);
    assert(passed != failed_text(name, message)) by {
        reveal_strlit("acid: ");
        reveal_strlit(": passed: ");
        reveal_strlit(": failed: ");
        assert(passed[8 + width] == 'p');
        assert(failed_text(name, message)[8 + width] == 'f');
    }
    if passed == passed_text(name, later) {
        assert(decimal(time) == decimal(later)) by {
            reveal_strlit("acid: ");
            reveal_strlit(": passed: ");
            reveal_strlit(" ns");
            assert(decimal(time) =~= passed.subrange(16 + width, passed.len() - 3));
            assert(decimal(later) =~= passed.subrange(16 + width, passed.len() - 3));
        }
        law_decimal_is_injective(time, later);
    }
}

/// An argument hides the list of names exactly if it is the name of a test or another
/// before it was: a name that no test has counts for nothing.
pub proof fn law_only_a_run_hides_the_list(ran: bool, name: Seq<char>)
    ensures
        ran_behind(ran, name) <==> ran || exists|i: int|
            0 <= i < tests().len() && test_name(#[trigger] tests()[i]) == name,
{
    if is_test_name(name) {
        let test = choose|test: Test| #[trigger] test_name(test) == name;
        law_every_test_is_listed(test);
        let i = choose|i: int| 0 <= i < tests().len() && tests()[i] == test;
        assert(test_name(tests()[i]) == name);
    }
}

} // verus!

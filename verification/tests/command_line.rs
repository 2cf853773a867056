use acid::runner::{
    all_tests, failed_line, find_test, passed_line, report_line, ArgumentAction, Runner, Test,
    NOT_FOUND_CODE, TEST_COUNT,
};

#[test]
fn the_tests_are_listed_by_name() {
    let names: Vec<&str> = all_tests().iter().map(|test| test.name()).collect();
    assert_eq!(
        names,
        vec!["create_test", "page_fault", "ptrace", "switch", "tcp_fin", "thread", "tls"]
    );
    let mut sorted = names.clone();
    sorted.sort();
    assert_eq!(names, sorted);
    assert_eq!(names.len(), TEST_COUNT);
}

#[test]
fn every_test_is_found_by_its_name() {
    for test in all_tests() {
        assert_eq!(find_test(test.name()), Some(test));
    }
    for name in ["", "create", "Ptrace", "tls ", "threads"] {
        assert_eq!(find_test(name), None);
    }
}

#[test]
fn a_name_runs_its_test() {
    let mut runner = Runner::start();
    assert_eq!(runner.argument("ptrace"), ArgumentAction::Run(Test::Ptrace));
    assert_eq!(runner.argument("ptrace"), ArgumentAction::Run(Test::Ptrace));
    assert_eq!(runner.argument("tls"), ArgumentAction::Run(Test::Tls));
    assert_eq!(runner.listing(), vec![]);
}

#[test]
fn an_unknown_name_ends_the_program() {
    let mut runner = Runner::start();
    assert_eq!(
        runner.argument("fork"),
        ArgumentAction::NotFound("acid: fork: not found".to_string())
    );
    assert_eq!(NOT_FOUND_CODE, 1);
}

#[test]
fn names_are_listed_without_arguments() {
    assert_eq!(Runner::start().listing(), all_tests());
}

#[test]
fn results_read_as_they_should() {
    assert_eq!(passed_line("tls", 2, 5), "acid: tls: passed: 2000000005 ns");
    assert_eq!(passed_line("tls", 0, 0), "acid: tls: passed: 0 ns");
    assert_eq!(
        passed_line("tls", 18_446_744_073, 709_551_615),
        "acid: tls: passed: 18446744073709551615 ns"
    );
    assert_eq!(
        failed_line("tcp_fin", "connection refused"),
        "acid: tcp_fin: failed: connection refused"
    );
}

#[test]
fn a_result_is_reported_by_what_it_is() {
    assert_eq!(report_line("tls", Ok(()), 1, 7), "acid: tls: passed: 1000000007 ns");
    assert_eq!(
        report_line("tls", Err("no luck".to_string()), u64::MAX, 7),
        "acid: tls: failed: no luck"
    );
}

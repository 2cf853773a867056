use acid::create::{
    create_test, directory_path, file_data, file_path, CreateOutcome, CreateRequest, CreateStage,
    FileError, FileReply,
};
use acid::fault::{page_fault_line, page_fault_test, FaultOutcome, FAULT_ADDRESS};
use acid::switch::{
    switch_line, switch_test, yield_again, SwitchOutcome, SwitchReply, SwitchRequest, SwitchStage,
    SwitchState, YIELDS,
};
use acid::tcp::{greeting, server_address, tcp_fin_test, TcpOutcome, TcpStage};
use acid::threads::{
    shell, shell_ended, shell_flag, thread_step, thread_test, worker_step, Duty, Moment, ShellEnd,
    ThreadStage, WorkerOutcome,
};
use acid::tls::{own_turn, tls_test, TlsOutcome, TlsRequest, TlsStage, NONZERO};

fn not_there() -> FileReply {
    FileReply::Failed(FileError {
        not_found: true,
        kind: "NotFound".to_string(),
        message: "entity not found".to_string(),
    })
}

fn denied() -> FileReply {
    FileReply::Failed(FileError {
        not_found: false,
        kind: "PermissionDenied".to_string(),
        message: "permission denied".to_string(),
    })
}

#[test]
fn a_file_that_holds_what_was_written_passes() {
    let mut stage = CreateStage::start();
    let mut requests = vec![];
    let outcome = loop {
        requests.push(stage.request());
        let reply = match stage {
            CreateStage::TooEarly => not_there(),
            CreateStage::Read => FileReply::Contents(file_data().to_vec()),
            _ => FileReply::Done,
        };
        match create_test(stage, reply) {
            CreateOutcome::Next(next) => stage = next,
            outcome => break outcome,
        }
    };
    assert_eq!(outcome, CreateOutcome::Passed);
    assert_eq!(
        requests,
        vec![
            CreateRequest::CreateFile,
            CreateRequest::CreateDirectory,
            CreateRequest::CreateFile,
            CreateRequest::Write,
            CreateRequest::Open,
            CreateRequest::ReadToEnd,
        ]
    );
    assert_eq!(file_data(), b"Test data");
    assert_eq!(directory_path(), "test_dir");
    assert_eq!(file_path(), "test_dir/test_file");
}

#[test]
fn a_file_without_a_directory_must_not_be_found() {
    assert_eq!(
        create_test(CreateStage::TooEarly, FileReply::Done),
        CreateOutcome::Failed("Incorrect open error: None, should be NotFound".to_string())
    );
    assert_eq!(
        create_test(CreateStage::TooEarly, denied()),
        CreateOutcome::Failed(
            "Incorrect open error: Some(PermissionDenied), should be NotFound".to_string()
        )
    );
}

#[test]
fn file_errors_are_reported() {
    for stage in [
        CreateStage::Directory,
        CreateStage::File,
        CreateStage::Write,
        CreateStage::Open,
        CreateStage::Read,
    ] {
        assert_eq!(
            create_test(stage, denied()),
            CreateOutcome::Failed("permission denied".to_string())
        );
        assert_eq!(
            create_test(stage, not_there()),
            CreateOutcome::Failed("entity not found".to_string())
        );
    }
}

#[test]
fn other_contents_are_found_out() {
    assert_eq!(
        create_test(CreateStage::Read, FileReply::Contents(b"Test".to_vec())),
        CreateOutcome::Panicked(4)
    );
    assert_eq!(
        create_test(CreateStage::Read, FileReply::Contents(b"Test dada".to_vec())),
        CreateOutcome::Failed("test_dir/test_file did not contain the correct data".to_string())
    );
}

#[test]
fn a_dropped_connection_passes() {
    assert_eq!(tcp_fin_test(TcpStage::start(), Ok(())), TcpOutcome::Next(TcpStage::Write));
    assert_eq!(tcp_fin_test(TcpStage::Write, Ok(())), TcpOutcome::Next(TcpStage::Close));
    assert_eq!(tcp_fin_test(TcpStage::Close, Ok(())), TcpOutcome::Passed);
    assert_eq!(server_address(), "static.redox-os.org:80");
    assert_eq!(greeting(), b"TEST");
}

#[test]
fn connection_errors_are_reported_without_a_connection() {
    let refused = "connection refused".to_string();
    assert_eq!(
        tcp_fin_test(TcpStage::Connect, Err(refused.clone())),
        TcpOutcome::Failed(refused.clone())
    );
    let close = TcpStage::CloseFailed(refused.clone());
    assert_eq!(
        tcp_fin_test(TcpStage::Write, Err(refused.clone())),
        TcpOutcome::Next(close.clone())
    );
    assert_eq!(tcp_fin_test(close, Ok(())), TcpOutcome::Failed(refused));
}

#[test]
fn a_thread_yields_five_hundred_times() {
    let mut count = 0;
    let mut turns = 0;
    while let Some(next) = yield_again(count) {
        turns += 1;
        count = next;
    }
    assert_eq!(turns, 500);
    assert_eq!(count, YIELDS);
    assert_eq!(yield_again(usize::MAX), None);
}

#[test]
fn the_switch_result_reads_as_it_should() {
    assert_eq!(switch_line(500, 499, 1_000, 1_250), "P 500 C 499 T 250");
    assert_eq!(switch_line(0, 0, u64::MAX, u64::MAX), "P 0 C 0 T 0");
}

/// Goes through the test with these answers, and gives the requests, the lines that were
/// printed and the end.
fn run_switch(
    before: u64,
    joined: Option<usize>,
    after: u64,
) -> (Vec<SwitchRequest>, Vec<String>, SwitchOutcome) {
    let mut state = SwitchState::start();
    let mut requests = vec![];
    let mut lines = vec![];
    loop {
        requests.push(state.request());
        let reply = match state.request() {
            SwitchRequest::ReadClock if state.stage == SwitchStage::FirstReading => {
                SwitchReply::Reading(before)
            }
            SwitchRequest::ReadClock => SwitchReply::Reading(after),
            SwitchRequest::Join => SwitchReply::Joined(joined),
            SwitchRequest::Print => {
                lines.push(state.line().unwrap());
                SwitchReply::Done
            }
            _ => SwitchReply::Done,
        };
        assert!(state.accepts(reply));
        match switch_test(state, reply) {
            SwitchOutcome::Next(next) => state = next,
            outcome => return (requests, lines, outcome),
        }
    }
}

#[test]
fn the_clock_is_read_again_behind_the_join() {
    let (requests, lines, end) = run_switch(1_000, Some(500), 1_250);
    let mut expected = vec![SwitchRequest::ReadClock, SwitchRequest::StartThread];
    expected.extend(vec![SwitchRequest::Yield; 500]);
    expected.extend([SwitchRequest::Join, SwitchRequest::ReadClock, SwitchRequest::Print]);
    assert_eq!(requests, expected);
    assert_eq!(lines, vec!["P 500 C 500 T 250"]);
    assert_eq!(end, SwitchOutcome::Passed);
}

#[test]
fn the_switch_test_breaks_off_with_the_thread_or_the_clock() {
    let (requests, lines, end) = run_switch(1_000, None, 1_250);
    assert_eq!(end, SwitchOutcome::ThreadPanicked);
    assert_eq!(requests.len(), 503);
    assert!(lines.is_empty());
    let (requests, lines, end) = run_switch(1_000, Some(500), 999);
    assert_eq!(end, SwitchOutcome::ClockWentBack(1_000, 999));
    assert_eq!(requests.len(), 504);
    assert!(lines.is_empty());
    let (_, lines, end) = run_switch(1_000, Some(7), 1_000);
    assert_eq!(end, SwitchOutcome::Passed);
    assert_eq!(lines, vec!["P 500 C 7 T 0"]);
}

#[test]
fn switch_answers_are_told_apart() {
    let state = SwitchState::start();
    assert!(state.accepts(SwitchReply::Reading(0)));
    assert!(!state.accepts(SwitchReply::Done));
    assert!(!state.accepts(SwitchReply::Joined(Some(500))));
    let join = SwitchState { stage: SwitchStage::Join, ..state };
    assert!(join.accepts(SwitchReply::Joined(None)));
    assert!(!join.accepts(SwitchReply::Done));
    let back = SwitchState { before: 2, after: 1, ..state };
    assert_eq!(back.line(), None);
}

#[test]
fn a_broken_thread_breaks_the_page_fault_test_off() {
    assert_eq!(page_fault_test(true), FaultOutcome::Panicked);
    assert_eq!(page_fault_test(false), FaultOutcome::Passed);
}

#[test]
fn file_answers_are_told_apart() {
    for stage in [CreateStage::TooEarly, CreateStage::Directory, CreateStage::Write] {
        assert!(stage.accepts(&FileReply::Done));
        assert!(stage.accepts(&denied()));
        assert!(!stage.accepts(&FileReply::Contents(vec![])));
    }
    assert!(CreateStage::Read.accepts(&FileReply::Contents(vec![])));
    assert!(CreateStage::Read.accepts(&denied()));
    assert!(!CreateStage::Read.accepts(&FileReply::Done));
}

#[test]
fn the_faulting_byte_is_written_in_hexadecimal() {
    assert_eq!(FAULT_ADDRESS, 0xDEADC0DE);
    assert_eq!(page_fault_line(0xC0), "C0");
    assert_eq!(page_fault_line(0x0A), "A");
    assert_eq!(page_fault_line(0), "0");
}

#[test]
fn a_hundred_and_ten_threads_tell_the_shell_different_things() {
    let workers = thread_test();
    assert_eq!(workers.len(), 10);
    let mut commands = vec![];
    for (i, worker) in workers.iter().enumerate() {
        assert_eq!(worker.command, format!("echo {}", i));
        assert_eq!(worker.children.len(), 10);
        for (j, child) in worker.children.iter().enumerate() {
            assert_eq!(child, &format!("echo {}:{}", i, j));
            commands.push(child.clone());
        }
        commands.push(worker.command.clone());
    }
    commands.sort();
    commands.dedup();
    assert_eq!(commands.len(), 110);
    assert_eq!(shell(), "ion");
    assert_eq!(shell_flag(), "-c");
}

#[test]
fn the_processor_is_kept_busy_for_a_second() {
    assert_eq!(thread_step(ThreadStage::Spin, 0), Some(ThreadStage::Spin));
    let preempted = Some(ThreadStage::Say(Moment::Preempted));
    assert_eq!(thread_step(ThreadStage::Spin, 1), preempted);
    assert_eq!(thread_step(ThreadStage::Spin, u64::MAX), preempted);
    assert_eq!(Moment::Stopping.line(), "Trying to stop kernel...");
    assert_eq!(Moment::Preempted.line(), "Kernel preempted!");
    assert_eq!(Moment::Killing.line(), "Trying to kill kernel...");
    assert_eq!(Moment::Survived.line(), "Kernel survived thread test!");
}

#[test]
fn threads_are_started_behind_the_spin_and_joined_in_order() {
    let mut stages = vec![ThreadStage::start()];
    while let Some(next) = thread_step(stages[stages.len() - 1], 1) {
        stages.push(next);
    }
    let mut expected = vec![
        ThreadStage::Say(Moment::Stopping),
        ThreadStage::Spin,
        ThreadStage::Say(Moment::Preempted),
        ThreadStage::Say(Moment::Killing),
    ];
    expected.extend((0..10).map(ThreadStage::Start));
    expected.extend((0..10).map(ThreadStage::Join));
    expected.push(ThreadStage::Say(Moment::Survived));
    assert_eq!(stages, expected);
}

#[test]
fn exit_statuses_do_not_matter() {
    for status in [Some(0), Some(1), Some(-1), None] {
        assert!(shell_ended(ShellEnd::Ended(status)));
    }
    assert!(!shell_ended(ShellEnd::NotStarted));
    assert!(!shell_ended(ShellEnd::NotAwaited));
    let mut duties = vec![Duty::start()];
    while let WorkerOutcome::Next(next) = worker_step(duties[duties.len() - 1], true) {
        duties.push(next);
    }
    let mut expected: Vec<Duty> = (0..10).map(Duty::Start).collect();
    expected.push(Duty::Tell);
    expected.extend((0..10).map(Duty::Join));
    assert_eq!(duties, expected);
    assert_eq!(worker_step(Duty::Join(9), true), WorkerOutcome::Done);
    assert_eq!(worker_step(Duty::Tell, false), WorkerOutcome::Panicked);
}

#[test]
fn the_caller_waits_for_the_other_thread() {
    assert_eq!(own_turn(true), Some(TlsStage::start()));
    assert_eq!(own_turn(false), None);
}

#[test]
fn a_second_test_finds_the_file_of_the_first() {
    let mut directory = false;
    let mut file: Option<Vec<u8>> = None;
    let mut ends = vec![];
    for _ in 0..2 {
        let mut stage = CreateStage::start();
        ends.push(loop {
            let reply = match stage.request() {
                CreateRequest::CreateFile if !directory => not_there(),
                CreateRequest::CreateFile => {
                    file = Some(vec![]);
                    FileReply::Done
                }
                CreateRequest::CreateDirectory => {
                    directory = true;
                    FileReply::Done
                }
                CreateRequest::Write => {
                    file = Some(file_data().to_vec());
                    FileReply::Done
                }
                CreateRequest::Open => FileReply::Done,
                CreateRequest::ReadToEnd => FileReply::Contents(file.clone().unwrap()),
            };
            match create_test(stage, reply) {
                CreateOutcome::Next(next) => stage = next,
                outcome => break outcome,
            }
        });
    }
    let failure = "Incorrect open error: None, should be NotFound".to_string();
    assert_eq!(ends, vec![CreateOutcome::Passed, CreateOutcome::Failed(failure)]);
    assert_eq!(file, Some(vec![]));
    assert!(directory);
}

fn run_tls(zero: &mut u64, nonzero: &mut u64) -> TlsOutcome {
    let mut stage = TlsStage::start();
    loop {
        let found = match stage.request() {
            TlsRequest::ReadZero => *zero,
            TlsRequest::ReadNonzero => *nonzero,
            TlsRequest::IncrementZero => {
                *zero += 1;
                *zero
            }
            TlsRequest::DecrementNonzero => {
                *nonzero -= 1;
                *nonzero
            }
        };
        match tls_test(stage, found) {
            TlsOutcome::Next(next) => stage = next,
            outcome => return outcome,
        }
    }
}

#[test]
fn fresh_variables_pass_and_are_left_one_off() {
    let (mut zero, mut nonzero) = (0, 0xFFFFFFFFFFFFFFFF);
    assert_eq!(run_tls(&mut zero, &mut nonzero), TlsOutcome::Passed);
    assert_eq!((zero, nonzero), (1, 0xFFFFFFFFFFFFFFFE));
}

#[test]
fn shared_variables_are_found_out() {
    let (mut zero, mut nonzero) = (0, NONZERO);
    assert_eq!(run_tls(&mut zero, &mut nonzero), TlsOutcome::Passed);
    assert_eq!(run_tls(&mut zero, &mut nonzero), TlsOutcome::Panicked(0, 1));
}

#[test]
fn wrong_variables_are_found_out() {
    let (mut zero, mut nonzero) = (0, 5);
    assert_eq!(run_tls(&mut zero, &mut nonzero), TlsOutcome::Panicked(NONZERO, 5));
    assert_eq!(tls_test(TlsStage::ZeroAfter, 0), TlsOutcome::Panicked(1, 0));
    assert_eq!(
        tls_test(TlsStage::NonzeroAfter, NONZERO),
        TlsOutcome::Panicked(NONZERO - 1, NONZERO)
    );
}

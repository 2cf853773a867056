use acid::double::{is_near_root, same_double, EPSILON, ROOT};
use acid::error::e;
use acid::lines::{labelled, Line};
use acid::ptrace::{not_refused_message, regs_path, trace_path, Failure, RegsFile};
use acid::script::Banner;
use acid::text::{append_debug_option, append_decimal, hex_text};
use acid::word::word;

fn decimal(number: u64) -> String {
    let mut text = String::new();
    append_decimal(&mut text, number);
    text
}

#[test]
fn an_error_becomes_its_text() {
    let failed: Result<(), syscall::Error> = Err(syscall::Error::new(syscall::ESRCH));
    assert_eq!(e(failed), Err("No such process".to_string()));
    let text: Result<u8, &str> = Err("told so");
    assert_eq!(e(text), Err("told so".to_string()));
}

#[test]
fn a_success_is_left_alone() {
    let done: Result<usize, syscall::Error> = Ok(7);
    assert_eq!(e(done), Ok(7));
}

#[test]
fn a_second_use_changes_nothing() {
    let failed: Result<u8, syscall::Error> = Err(syscall::Error::new(syscall::EPERM));
    let once = e(failed);
    assert_eq!(e(once.clone()), once);
    let done: Result<u8, String> = Ok(4);
    assert_eq!(e(e(done)), Ok(4));
}

#[test]
fn successes_are_not_looked_at() {
    let double = |number: u8| u16::from(number) * 2;
    let done = || -> Result<u8, syscall::Error> { Ok(200) };
    assert_eq!(e(done().map(double)), e(done()).map(double));
    let failed = || -> Result<u8, syscall::Error> { Err(syscall::Error::new(syscall::EPERM)) };
    assert_eq!(e(failed().map(double)), e(failed()).map(double));
}

#[test]
fn numbers_are_written_in_decimal() {
    for number in [0, 9, 10, 99, 100, 1_000_000, u64::MAX] {
        assert_eq!(decimal(number), number.to_string());
    }
}

#[test]
fn different_numbers_read_differently() {
    assert_ne!(decimal(1), decimal(10));
    assert_eq!(decimal(4096).parse::<u64>(), Ok(4096));
}

#[test]
fn decimals_are_added_at_the_end() {
    let mut text = "n = ".to_string();
    append_decimal(&mut text, 120);
    assert_eq!(text, "n = 120");
}

#[test]
fn optional_numbers_are_written_for_debugging() {
    for value in [None, Some(0), Some(3), Some(-1), Some(i32::MIN), Some(i32::MAX)] {
        let mut text = String::new();
        append_debug_option(&mut text, value);
        assert_eq!(text, format!("{:?}", value));
    }
}

#[test]
fn bytes_are_written_in_hexadecimal() {
    for byte in 0..=255u8 {
        assert_eq!(hex_text(byte), format!("{:X}", byte));
    }
}

#[test]
fn lines_read_as_they_should() {
    assert_eq!(Line::MyPid(12).text(), "My PID: 12");
    assert_eq!(
        Line::WaitingFor(13).text(),
        "Waiting until child (pid 13) is ready to be traced..."
    );
    assert_eq!(Line::ForkObtained(14).text(), "Obtained fork (PID 14)");
    assert_eq!(Line::ForkAttached(15).text(), "-> Fork attached (PID 15)");
    assert_eq!(Line::Rax(16).text(), "Tracee RAX: 16");
    assert_eq!(
        Line::Fixed(Banner::CheckingStatus).text(),
        "Checking exit status (waitpid nohang)..."
    );
    assert_eq!(labelled("<", 5, ">"), "<5>");
}

#[test]
fn paths_read_as_they_should() {
    assert_eq!(trace_path(42), "proc:42/trace");
    assert_eq!(regs_path(0), "proc:0/regs/int");
    assert_eq!(RegsFile::Int.name(), "regs/int");
    assert_eq!(RegsFile::Float.name(), "regs/float");
}

#[test]
fn failures_read_as_they_should() {
    assert_eq!(Failure::Reported("No such process".to_string()).message(), "No such process");
    assert_eq!(
        Failure::NoForkEvent.message(),
        "Syscall completed without yielding fork event"
    );
    assert_eq!(
        Failure::NoSignalEvent.message(),
        "Syscall completed without yielding  event"
    );
    assert_eq!(
        Failure::WrongEvent("Signal(9)".to_string()).message(),
        "Wrong event type: Signal(9)"
    );
    assert_eq!(
        not_refused_message(17, None),
        "The cops ignored that I tried to illegally open PID 17: None"
    );
    assert_eq!(
        not_refused_message(18, Some(2)),
        "The cops ignored that I tried to illegally open PID 18: Some(2)"
    );
}

#[test]
fn words_are_read_lowest_byte_first() {
    let mut bytes = [0u8; 24];
    bytes[..8].copy_from_slice(&0x0102_0304_0506_0708u64.to_le_bytes());
    bytes[8..16].copy_from_slice(&u64::MAX.to_le_bytes());
    bytes[16..].copy_from_slice(&3u64.to_le_bytes());
    assert_eq!(word(&bytes, 0), 0x0102_0304_0506_0708);
    assert_eq!(word(&bytes, 1), u64::MAX);
    assert_eq!(word(&bytes, 2), 3);
}

#[test]
fn the_constants_are_the_doubles_they_stand_for() {
    assert_eq!(f64::from_bits(ROOT), 5.65685424949238);
    assert_eq!(f64::from_bits(EPSILON), f64::EPSILON);
}

#[test]
fn doubles_are_compared_as_the_processor_does() {
    let samples = [
        0.0,
        -0.0,
        1.0,
        -1.0,
        f64::MIN_POSITIVE,
        f64::MAX,
        f64::INFINITY,
        f64::NEG_INFINITY,
        f64::NAN,
        5.65685424949238,
    ];
    for left in samples {
        for right in samples {
            assert_eq!(same_double(left.to_bits(), right.to_bits()), left == right);
        }
    }
}

#[test]
fn nearness_is_decided_as_the_processor_does() {
    let mut samples = vec![0.0, -5.65685424949238, 5.0, 8.0, f64::INFINITY, f64::NAN, f64::MAX];
    for offset in 0..8u64 {
        samples.push(f64::from_bits(ROOT - offset));
        samples.push(f64::from_bits(ROOT + offset));
    }
    for sample in samples {
        let near = (sample - 5.65685424949238).abs() < f64::EPSILON;
        assert_eq!(is_near_root(sample.to_bits()), near);
    }
}

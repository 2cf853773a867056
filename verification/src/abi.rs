//! The numbers of the Redox system call interface that the tests rely on.

use vstd::prelude::*;

verus! {

/// The number of the `exit` system call.
pub open spec fn exit_number() -> usize {
    1
}

/// The number of the `getpid` system call.
pub open spec fn getpid_number() -> usize {
    20
}

/// The number of the `kill` system call.
pub open spec fn kill_number() -> usize {
    37
}

/// The number of the `sigaction` system call.
pub open spec fn sigaction_number() -> usize {
    67
}

/// The number of the `sigreturn` system call.
pub open spec fn sigreturn_number() -> usize {
    119
}

/// The number of the `yield` system call.
pub open spec fn yield_number() -> usize {
    158
}

/// The signal that resumes a stopped process.
pub open spec fn cont_signal() -> usize {
    18
}

/// The first of the two signals that are free for programs to use.
pub open spec fn user_signal() -> usize {
    10
}

/// The error code for an operation that is not permitted.
pub open spec fn not_permitted() -> i32 {
    1
}

/// The error code for a process that does not exist.
pub open spec fn no_such_process() -> i32 {
    3
}

/// The status belongs to a process that exited of its own accord: no signal
/// stands in its low seven bits.
pub open spec fn exited(status: usize) -> bool {
    status & 0x7f == 0
}

/// The exit code in a status: its second byte.
pub open spec fn exit_code(status: usize) -> usize {
    (status >> 8) & 0xff
}

/// `syscall::SYS_EXIT` has the value of [`exit_number`].
#[verifier::external_body]
pub(crate) fn sys_exit() -> (number: usize)
    ensures
        number == exit_number(),
{
    syscall::SYS_EXIT
}

/// `syscall::SYS_GETPID` has the value of [`getpid_number`].
#[verifier::external_body]
pub(crate) fn sys_getpid() -> (number: usize)
    ensures
        number == getpid_number(),
{
    syscall::SYS_GETPID
}

/// `syscall::SYS_KILL` has the value of [`kill_number`].
#[verifier::external_body]
pub(crate) fn sys_kill() -> (number: usize)
    ensures
        number == kill_number(),
{
    syscall::SYS_KILL
}

/// `syscall::SYS_SIGACTION` has the value of [`sigaction_number`].
#[verifier::external_body]
pub(crate) fn sys_sigaction() -> (number: usize)
    ensures
        number == sigaction_number(),
{
    syscall::SYS_SIGACTION
}

/// `syscall::SYS_SIGRETURN` has the value of [`sigreturn_number`].
#[verifier::external_body]
pub(crate) fn sys_sigreturn() -> (number: usize)
    ensures
        number == sigreturn_number(),
{
    syscall::SYS_SIGRETURN
}

/// `syscall::SYS_YIELD` has the value of [`yield_number`].
#[verifier::external_body]
pub(crate) fn sys_yield() -> (number: usize)
    ensures
        number == yield_number(),
{
    syscall::SYS_YIELD
}

/// `syscall::SIGCONT` has the value of [`cont_signal`].
#[verifier::external_body]
pub(crate) fn sigcont() -> (signal: usize)
    ensures
        signal == cont_signal(),
{
    syscall::SIGCONT
}

/// `syscall::SIGUSR1` has the value of [`user_signal`].
#[verifier::external_body]
pub(crate) fn sigusr1() -> (signal: usize)
    ensures
        signal == user_signal(),
{
    syscall::SIGUSR1
}

/// `syscall::EPERM` has the value of [`not_permitted`].
#[verifier::external_body]
pub(crate) fn eperm() -> (code: i32)
    ensures
        code == not_permitted(),
{
    syscall::EPERM
}

/// `syscall::ESRCH` has the value of [`no_such_process`].
#[verifier::external_body]
pub(crate) fn esrch() -> (code: i32)
    ensures
        code == no_such_process(),
{
    syscall::ESRCH
}

/// `syscall::wifexited` tells whether the low seven bits of the status are clear.
pub assume_specification[ syscall::wifexited ](status: usize) -> (result: bool)
    ensures
        result == exited(status),
;

/// `syscall::wexitstatus` gives the second byte of the status.
pub assume_specification[ syscall::wexitstatus ](status: usize) -> (result: usize)
    ensures
        result == exit_code(status),
;

/// A process that exits with a code leaves a status with that code in the second
/// byte and nothing in the first, and both are read back from it.
pub proof fn law_exit_code_is_read_back(code: usize)
    requires
        code <= 0xff,
    ensures
        exited(code << 8),
        exit_code(code << 8) == code,
{
    assert((code << 8usize) & 0x7f == 0) by (bit_vector);
    assert(code <= 0xff ==> ((code << 8usize) >> 8usize) & 0xff == code) by (bit_vector);
}

/// Of a status only two parts are looked at: its lowest seven bits say whether the process
/// exited, and its second byte says with which code.
pub proof fn law_parts_of_a_status(status: usize)
    ensures
        exited(status) <==> status % 128 == 0,
        exit_code(status) == (status / 256) % 256,
{
    assert((status & 0x7f == 0) == (status % 128 == 0)) by (bit_vector);
    assert((status >> 8usize) & 0xff == (status / 256) % 256) by (bit_vector);
}

} // verus!

//! The `page_fault` test: a thread reads memory that is not there.

use crate::text::{hex, hex_text};
use vstd::prelude::*;

verus! {

/// The address that is read.
pub const FAULT_ADDRESS: usize = 0xDEADC0DE;

/// How the test ends.
#[derive(Clone, Copy, Debug, PartialEq, Eq)]
pub enum FaultOutcome {
    /// The test passed: the thread went on behind the read.
    Passed,
    /// The test broke off, because the thread did.
    Panicked,
}

/// The line that the thread prints if the address can be read after all.
pub fn page_fault_line(byte: u8) -> (text: String)
    ensures
        text@ == hex(byte),
{
    hex_text(byte)
}

/// Says how the test ends when the thread has been joined: as the thread did.
pub fn page_fault_test(thread_broke_off: bool) -> (outcome: FaultOutcome)
    ensures
        outcome is Panicked <==> thread_broke_off,
        outcome is Passed <==> !thread_broke_off,
{
    if thread_broke_off {
        FaultOutcome::Panicked
    } else {
        FaultOutcome::Passed
    }
}

} // verus!

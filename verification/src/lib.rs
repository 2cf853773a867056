//! The decisions of an acid test for the Redox operating system.
//!
//! Each test of the program is a conversation with the kernel. This crate holds
//! the part of it that decides: what is asked for next, which answer is accepted,
//! what is printed, and how the test ends. The program around it performs the
//! requests and hands the answers back.

pub mod abi;
pub mod create;
pub mod double;
pub mod error;
pub mod fault;
pub mod lines;
pub mod ptrace;
pub mod ptrace_checks;
pub mod ptrace_laws;
pub mod runner;
pub mod script;
pub mod switch;
pub mod tcp;
pub mod text;
pub mod threads;
pub mod tls;
pub mod tracee;
pub mod word;

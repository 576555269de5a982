//! Channel switching for a multi-host USB receiver.
//!
//! The receiver is paired with one keyboard and one mouse and can be moved
//! between three host channels by writing short vendor reports to its HID
//! interface. This crate holds the decisions of that job: how a report is laid
//! out, which enumerated interface is the receiver, what to write, when to
//! reconnect and retry and when to give up, and which key presses count as a
//! request to switch. It performs no I/O itself: the caller carries out each
//! action the library asks for and reports back how it went.

pub mod command;
pub mod config;
pub mod error;
pub mod gesture;
pub mod keys;
pub mod locator;
pub mod retry;
pub mod session;
pub mod switcher;

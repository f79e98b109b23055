//! A mail-capture library. It takes mail-submission sessions, line by line,
//! turns each into a record of what was submitted, keeps the records of the
//! sessions that completed, and answers the two requests of an inspection
//! service: list everything, clear everything. It never delivers mail.
//!
//! - [`text`]: line breaks, blanks and keywords in a line of characters.
//! - [`command`]: the grammar of the five commands.
//! - [`record`]: messages and connections, the records that sessions leave.
//! - [`session`]: the protocol engine, a state machine over lines.
//! - [`transcript`]: what whole streams of lines yield, as theorems.
//! - [`repository`]: the ordered store of completed sessions.
//! - [`inspection`]: list and clear over the store.
//! - [`config`]: where the process listens, and what a port is.
//!
//! Reading from and writing to streams, threads and locks are left to the
//! program that uses the library: every function here works on plain values.

pub mod text;
pub mod command;
pub mod record;
pub mod session;
pub mod transcript;
pub mod repository;
pub mod inspection;
pub mod config;

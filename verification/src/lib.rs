//! Supervision of the Bluetooth adapter daemons of a Linux host: one daemon
//! per hci index, driven through a four-state lifecycle with bounded retries,
//! timeouts and a hardware reset as the last resort.
//!
//! - [`adapter`]: the record of an adapter and the values that transitions return.
//! - [`transitions`]: the rules of the state machine, as functions on values.
//! - [`table`], [`state_core`]: the state machine that follows these rules and
//!   returns the commands that are to be performed outside.
//! - [`state_machine`]: the state machine with a process manager and a
//!   hardware reset at hand, which performs the commands as it goes.
//! - [`command_timeout`]: one deadline per adapter behind one shared wakeup.
//! - [`event_loop`]: what one message changes and what it leaves to be done.
//! - [`listeners`], [`mgmt`], [`pid_file`], [`decimal`]: what is made of the
//!   reports of the kernel and of the pid directory.
//! - [`invoker`]: the command lines that start and stop a daemon.
//! - [`laws`]: what holds of all of this whatever happens.
//!
//! Waiting, reading and sending are the caller's: the library takes plain
//! values and hands plain values back.
pub mod adapter;
pub mod command_timeout;
pub mod decimal;
pub mod event_loop;
pub mod invoker;
pub mod laws;
pub mod listeners;
pub mod mgmt;
pub mod pid_file;
pub mod state_core;
pub mod state_machine;
pub mod table;
pub mod transitions;

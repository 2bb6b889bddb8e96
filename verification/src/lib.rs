//! Grill drives one long-lived child CLI on a pseudo-terminal and lays a small
//! control plane for switching tasks over the raw terminal stream.
//!
//! This library holds the decisions of a session: the keystroke multiplexer and
//! its command grammar, the adapter of the child and its context-switch
//! protocol, the layout and the operations of the environment, the session
//! itself and the supervisor of the child. Each is a function from plain values
//! to plain values, or a state machine that hands out one step at a time; what
//! reads the keyboard, talks to the child or touches the disk performs those
//! steps and reports back.

pub mod cli_handler;
pub mod config;
pub mod context_switch;
pub mod disk;
pub mod environment;
pub mod io;
pub mod process;
pub mod session;
pub mod session_model;
pub mod task;
pub mod text;

//! Unattended maintenance of a host-local package manager.
//!
//! The library holds the verified core: the command descriptor and its argv
//! rendering, the prompt detector, the supervised-call state machine, the
//! outdated-report decoder and the orchestrator that sequences the four
//! maintenance phases. Spawning processes, pipes, timers and logging are the
//! calling program's concern; it drives the state machines defined here.

pub mod brew_command;
pub mod formulae;
pub mod prompt;
pub mod supervisor;
pub mod outdated_json;
pub mod service;

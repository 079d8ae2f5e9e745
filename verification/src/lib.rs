//! Orchestration of a zero-knowledge proof demo around an external toolchain.
//!
//! The library decides what is run and where its artifacts lie; it never runs
//! anything itself. A caller performs each action it is handed (write the
//! input file, run a shell command) and reports back what happened.

pub mod error;
pub mod input;
pub mod layout;
pub mod mpc;
pub mod prove;
pub mod runner;
pub mod shell;
pub mod verify;

pub use error::Error;
pub use input::PaillierDemoInput;
pub use layout::ProveResult;
pub use prove::{prove_demo_with_tools, ProveAction, ProveEvent};
pub use runner::{run, Invocation, ProcessOutput};
pub use verify::{verify_offchain, VerifyAction, VerifyEvent};

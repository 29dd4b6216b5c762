//! Classification of a finished child process: its exit status and standard
//! error decide between failure and success, and on success the captured
//! standard output is handed to a caller's transformation.

pub mod process;
pub mod text;

pub use process::{
    failure_of, interpret_output, interpret_stdout, lemma_outcome_deterministic, outcome_of, CommandError, ExitStatus, Failure, Output,
};

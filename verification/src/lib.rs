//! A local execution harness that emulates how a function-as-a-service
//! platform runs a single user-supplied action (a JavaScript or Python
//! entry script) against a set of sample input events. This library is
//! the engine's decision core: the validation rules, extension-based
//! runtime dispatch, the invocation protocol and its failure
//! classification, the execution loop with its running metrics maxima,
//! the lifecycle event model, and the orchestration around them. The
//! surrounding process — filesystem, subprocesses, HTTP — performs the
//! actions this core asks for and hands back their outcomes.

pub mod events;
pub mod sink;
pub mod text;
pub mod jsontext;
pub mod error;
pub mod config;
pub mod inline;
pub mod validate;
pub mod metrics;
pub mod invoke;
pub mod execute;
pub mod summary;
pub mod run;
pub mod types;

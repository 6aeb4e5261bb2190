//! The resolved, filesystem-anchored execution configuration: an
//! action entry on disk, ordered fixture paths, environment, runtime
//! binaries, snapshot settings, a repeat count and a mode.

use vstd::prelude::*;

verus! {

/// The language the action entry is written in.
#[derive(Clone, Copy, Debug, PartialEq, Eq, Structural)]
pub enum ActionType {
    Js,
    Python,
}

/// The user-supplied action under test: its language and entry path.
#[derive(Clone, Debug)]
pub struct Action {
    pub action_type: ActionType,
    pub entry: String,
}

/// Paths of the runtime binaries, one per supported language.
#[derive(Clone, Debug)]
pub struct Runtime {
    pub node: String,
    pub python: String,
}

/// Snapshot comparison settings.
#[derive(Clone, Debug)]
pub struct SnapshotConfig {
    pub enabled: bool,
    pub ignore: Vec<String>,
}

/// Whether a run executes the action or stops after validation.
#[derive(Clone, Copy, Debug, PartialEq, Eq, Structural)]
pub enum ExecutionMode {
    Normal,
    Validate,
}

impl Default for ExecutionMode {
    /// The default mode runs the action.
    fn default() -> (r: ExecutionMode)
        ensures
            r == ExecutionMode::Normal,
    {
        ExecutionMode::Normal
    }
}

/// A resolved execution configuration. Fixture order is significant:
/// fixtures are processed exactly in the order of `fixtures`.
#[derive(Clone, Debug)]
pub struct Config {
    pub action: Option<Action>,
    pub fixtures: Vec<String>,
    /// Environment variables handed to every runtime process, in
    /// declaration order.
    pub env: Vec<(String, String)>,
    pub runtime: Runtime,
    pub snapshots: SnapshotConfig,
    pub repeat: u32,
    pub mode: ExecutionMode,
}

} // verus!

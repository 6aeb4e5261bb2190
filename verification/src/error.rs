//! Error model: validation findings (one per rule) and the hard
//! failures that abort a whole execution. Soft failures are never
//! errors; they only appear in a summary's failures list.

use vstd::prelude::*;

use vstd::string::StringExecFns;

verus! {

/// One violated validation rule; the first violation found is the
/// whole outcome of validation.
#[derive(Clone, Debug, PartialEq, Eq)]
pub enum ValidationError {
    /// The action has no configuration at all (file form).
    MissingAction,
    /// The action entry path is blank (file form).
    EmptyEntry,
    /// The inline action source is blank.
    EmptyActionSource,
    /// A JavaScript action whose entry is not `.js`/`.mjs`/`.cjs`.
    JsEntryExtension { entry: String },
    /// A Python action whose entry is not `.py`.
    PythonEntryExtension { entry: String },
    /// No fixture was supplied.
    NoFixtures,
    /// A fixture's name is blank.
    EmptyFixtureName,
    /// A fixture's source is blank.
    EmptyFixtureSource { name: String },
    /// A fixture's source does not parse as JSON.
    FixtureNotJson { name: String },
    /// The repeat count is zero.
    ZeroRepeat,
}

impl ValidationError {
    /// The human-readable text of this finding.
    pub open spec fn message_spec(self) -> Seq<char> {
        match self {
            ValidationError::MissingAction => "Missing action configuration"@,
            ValidationError::EmptyEntry => "Unable to resolve action entry"@,
            ValidationError::EmptyActionSource => "action.source must not be empty"@,
            ValidationError::JsEntryExtension { entry } => "JavaScript action must use .js/.mjs/.cjs (got '"@
                + entry@ + "')"@,
            ValidationError::PythonEntryExtension { entry } => "Python action must use .py (got '"@
                + entry@ + "')"@,
            ValidationError::NoFixtures => "At least one fixture must be provided"@,
            ValidationError::EmptyFixtureName => "Fixture name must not be empty"@,
            ValidationError::EmptyFixtureSource { name } => "Fixture '"@ + name@ + "' is empty"@,
            ValidationError::FixtureNotJson { name } => "Fixture '"@ + name@
                + "' contains invalid JSON"@,
            ValidationError::ZeroRepeat => "repeat must be >= 1"@,
        }
    }

    /// Render this finding as text.
    pub fn message(&self) -> (r: String)
        ensures
            r@ == self.message_spec(),
    {
        match self {
            ValidationError::MissingAction => String::from_str("Missing action configuration"),
            ValidationError::EmptyEntry => String::from_str("Unable to resolve action entry"),
            ValidationError::EmptyActionSource => String::from_str(
                "action.source must not be empty",
            ),
            ValidationError::JsEntryExtension { entry } => String::from_str(
                "JavaScript action must use .js/.mjs/.cjs (got '",
            ).concat(entry.as_str()).concat("')"),
            ValidationError::PythonEntryExtension { entry } => String::from_str(
                "Python action must use .py (got '",
            ).concat(entry.as_str()).concat("')"),
            ValidationError::NoFixtures => String::from_str("At least one fixture must be provided"),
            ValidationError::EmptyFixtureName => String::from_str("Fixture name must not be empty"),
            ValidationError::EmptyFixtureSource { name } => String::from_str("Fixture '").concat(
                name.as_str(),
            ).concat("' is empty"),
            ValidationError::FixtureNotJson { name } => String::from_str("Fixture '").concat(
                name.as_str(),
            ).concat("' contains invalid JSON"),
            ValidationError::ZeroRepeat => String::from_str("repeat must be >= 1"),
        }
    }
}

/// A hard failure: it aborts the whole execution and reaches the
/// caller as an error, never as a summary.
#[derive(Clone, Debug, PartialEq, Eq)]
pub enum EngineError {
    /// Validation rejected the configuration.
    Validation { error: ValidationError },
    /// The entry's extension names no supported runtime.
    UnsupportedActionType { extension: String },
    /// The runtime process could not be started.
    RuntimeSpawnError,
    /// A pipe read from the runtime failed.
    RuntimeIOError,
    /// The runtime exited with a non-zero status.
    RuntimeExitError,
    /// The adapter's standard output was not a JSON document.
    AdapterOutputError,
    /// A fixture file could not be read.
    FixtureReadError { path: String },
    /// A fixture file's contents do not parse as JSON.
    FixtureNotJson { path: String },
    /// A workspace file or directory could not be created.
    WorkspaceWriteError,
}

impl EngineError {
    /// The human-readable text of this failure.
    pub open spec fn message_spec(self) -> Seq<char> {
        match self {
            EngineError::Validation { error } => error.message_spec(),
            EngineError::UnsupportedActionType { extension } => "Unsupported action file extension: "@
                + extension@,
            EngineError::RuntimeSpawnError => "Failed to spawn runtime"@,
            EngineError::RuntimeIOError => "Failed to read runtime output"@,
            EngineError::RuntimeExitError => "Runtime exited with non-zero status"@,
            EngineError::AdapterOutputError => "Shim did not emit valid JSON"@,
            EngineError::FixtureReadError { path } => "Failed to read fixture: "@ + path@,
            EngineError::FixtureNotJson { path } => "Fixture is not valid JSON: "@ + path@,
            EngineError::WorkspaceWriteError => "Failed to write workspace file"@,
        }
    }

    /// Render this failure as text.
    pub fn message(&self) -> (r: String)
        ensures
            r@ == self.message_spec(),
    {
        match self {
            EngineError::Validation { error } => error.message(),
            EngineError::UnsupportedActionType { extension } => String::from_str(
                "Unsupported action file extension: ",
            ).concat(extension.as_str()),
            EngineError::RuntimeSpawnError => String::from_str("Failed to spawn runtime"),
            EngineError::RuntimeIOError => String::from_str("Failed to read runtime output"),
            EngineError::RuntimeExitError => String::from_str("Runtime exited with non-zero status"),
            EngineError::AdapterOutputError => String::from_str("Shim did not emit valid JSON"),
            EngineError::FixtureReadError { path } => String::from_str("Failed to read fixture: ")
                .concat(path.as_str()),
            EngineError::FixtureNotJson { path } => String::from_str("Fixture is not valid JSON: ")
                .concat(path.as_str()),
            EngineError::WorkspaceWriteError => String::from_str("Failed to write workspace file"),
        }
    }
}

} // verus!

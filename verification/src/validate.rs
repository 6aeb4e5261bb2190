//! The validation stage. Rules are evaluated in a fixed order and the
//! first violation wins; nothing is spawned or written before every
//! rule passes. Validation operates on both configuration forms.

use vstd::prelude::*;

use crate::config::{ActionType, Config};
use crate::error::ValidationError;
use crate::inline::{InlineConfig, InlineFixture, InlineLanguage};
use crate::jsontext::{blank, is_blank, json_source_well_formed, json_well_formed};
use crate::text::{entry_matches_js, entry_matches_python, is_js_entry, is_python_entry};

verus! {

/// The first finding among the per-fixture rules, scanning fixtures
/// in declared order: a blank name, then a blank source, then a
/// source that is not JSON.
pub open spec fn first_fixture_issue(fs: Seq<InlineFixture>) -> Option<ValidationError>
    decreases fs.len(),
{
    if fs.len() == 0 {
        None
    } else if blank(fs[0].name@) {
        Some(ValidationError::EmptyFixtureName)
    } else if blank(fs[0].source@) {
        Some(ValidationError::EmptyFixtureSource { name: fs[0].name })
    } else if !json_well_formed(fs[0].source@) {
        Some(ValidationError::FixtureNotJson { name: fs[0].name })
    } else {
        first_fixture_issue(fs.drop_first())
    }
}

/// The entry's extension matches the declared inline language.
pub open spec fn inline_extension_ok(language: InlineLanguage, entry: Seq<char>) -> bool {
    match language {
        InlineLanguage::Js => is_js_entry(entry),
        InlineLanguage::Python => is_python_entry(entry),
    }
}

/// The verdict on an inline configuration: the first violated
/// rule, in the fixed order — action source, entry extension, fixture
/// presence, per-fixture findings, repeat count — or nothing.
pub open spec fn spec_validate_inline(cfg: InlineConfig) -> Option<ValidationError> {
    if blank(cfg.action.source@) {
        Some(ValidationError::EmptyActionSource)
    } else if !inline_extension_ok(cfg.action.language, cfg.action.entry@) {
        match cfg.action.language {
            InlineLanguage::Js => Some(ValidationError::JsEntryExtension { entry: cfg.action.entry }),
            InlineLanguage::Python => Some(
                ValidationError::PythonEntryExtension { entry: cfg.action.entry },
            ),
        }
    } else if cfg.fixtures@.len() == 0 {
        Some(ValidationError::NoFixtures)
    } else if first_fixture_issue(cfg.fixtures@) is Some {
        first_fixture_issue(cfg.fixtures@)
    } else if cfg.repeat == 0 {
        Some(ValidationError::ZeroRepeat)
    } else {
        None
    }
}

/// Check the fixtures in declared order, returning the first finding.
fn scan_fixtures(fs: &Vec<InlineFixture>) -> (r: Option<ValidationError>)
    ensures
        r == first_fixture_issue(fs@),
{
    let n = fs.len();
    let mut i: usize = 0;
    proof {
        assert(fs@.skip(0) =~= fs@);
    }
    while i < n
        invariant
            i <= n,
            n == fs@.len(),
            first_fixture_issue(fs@) == first_fixture_issue(fs@.skip(i as int)),
        decreases n - i,
    {
        proof {
            assert(fs@.skip(i as int)[0] == fs@[i as int]);
        }
        if is_blank(fs[i].name.as_str()) {
            return Some(ValidationError::EmptyFixtureName);
        }
        if is_blank(fs[i].source.as_str()) {
            return Some(ValidationError::EmptyFixtureSource { name: fs[i].name.clone() });
        }
        if !json_source_well_formed(fs[i].source.as_str()) {
            return Some(ValidationError::FixtureNotJson { name: fs[i].name.clone() });
        }
        proof {
            assert(fs@.skip(i as int).drop_first() =~= fs@.skip(i as int + 1));
        }
        i = i + 1;
    }
    proof {
        assert(fs@.skip(n as int).len() == 0);
    }
    None
}

/// Validate an inline configuration, fail-fast: the result is exactly
/// the first finding, or `Ok` when every rule passes.
pub fn validate_inline_config(cfg: &InlineConfig) -> (r: Result<(), ValidationError>)
    ensures
        match spec_validate_inline(*cfg) {
            None => r is Ok,
            Some(e) => r == Err::<(), ValidationError>(e),
        },
{
    if is_blank(cfg.action.source.as_str()) {
        return Err(ValidationError::EmptyActionSource);
    }
    match cfg.action.language {
        InlineLanguage::Js => {
            if !entry_matches_js(cfg.action.entry.as_str()) {
                return Err(ValidationError::JsEntryExtension { entry: cfg.action.entry.clone() });
            }
        },
        InlineLanguage::Python => {
            if !entry_matches_python(cfg.action.entry.as_str()) {
                return Err(
                    ValidationError::PythonEntryExtension { entry: cfg.action.entry.clone() },
                );
            }
        },
    }
    if cfg.fixtures.len() == 0 {
        return Err(ValidationError::NoFixtures);
    }
    match scan_fixtures(&cfg.fixtures) {
        Some(e) => {
            return Err(e);
        },
        None => {},
    }
    if cfg.repeat == 0 {
        return Err(ValidationError::ZeroRepeat);
    }
    Ok(())
}

/// Fail-fast ordering of validation: on a configuration that violates
/// both the extension rule and the repeat rule, the outcome is the
/// extension finding alone — the repeat violation is never reported.
pub proof fn lemma_validation_fail_fast(cfg: InlineConfig)
    requires
        !blank(cfg.action.source@),
        !inline_extension_ok(cfg.action.language, cfg.action.entry@),
        cfg.repeat == 0,
    ensures
        spec_validate_inline(cfg) == (match cfg.action.language {
            InlineLanguage::Js => Some(ValidationError::JsEntryExtension { entry: cfg.action.entry }),
            InlineLanguage::Python => Some(
                ValidationError::PythonEntryExtension { entry: cfg.action.entry },
            ),
        }),
        spec_validate_inline(cfg) != Some(ValidationError::ZeroRepeat),
{
}

/// The entry's extension matches the declared action type.
pub open spec fn config_extension_ok(action_type: ActionType, entry: Seq<char>) -> bool {
    match action_type {
        ActionType::Js => is_js_entry(entry),
        ActionType::Python => is_python_entry(entry),
    }
}

/// The verdict on a resolved configuration: the first violated
/// structural rule — action presence, entry path, entry extension,
/// fixture presence, repeat count — or nothing. Fixture file contents
/// are checked later, when the execution loop reads each file.
pub open spec fn spec_validate_config(cfg: Config) -> Option<ValidationError> {
    if cfg.action is None {
        Some(ValidationError::MissingAction)
    } else if blank(cfg.action->Some_0.entry@) {
        Some(ValidationError::EmptyEntry)
    } else if !config_extension_ok(cfg.action->Some_0.action_type, cfg.action->Some_0.entry@) {
        match cfg.action->Some_0.action_type {
            ActionType::Js => Some(
                ValidationError::JsEntryExtension { entry: cfg.action->Some_0.entry },
            ),
            ActionType::Python => Some(
                ValidationError::PythonEntryExtension { entry: cfg.action->Some_0.entry },
            ),
        }
    } else if cfg.fixtures@.len() == 0 {
        Some(ValidationError::NoFixtures)
    } else if cfg.repeat == 0 {
        Some(ValidationError::ZeroRepeat)
    } else {
        None
    }
}

/// Validate a resolved configuration's structure, fail-fast: the
/// result is exactly the first finding, or `Ok` when every
/// structural rule passes.
pub fn validate_config(cfg: &Config) -> (r: Result<(), ValidationError>)
    ensures
        match spec_validate_config(*cfg) {
            None => r is Ok,
            Some(e) => r == Err::<(), ValidationError>(e),
        },
{
    let action = match &cfg.action {
        None => {
            return Err(ValidationError::MissingAction);
        },
        Some(a) => a,
    };
    if is_blank(action.entry.as_str()) {
        return Err(ValidationError::EmptyEntry);
    }
    match action.action_type {
        ActionType::Js => {
            if !entry_matches_js(action.entry.as_str()) {
                return Err(ValidationError::JsEntryExtension { entry: action.entry.clone() });
            }
        },
        ActionType::Python => {
            if !entry_matches_python(action.entry.as_str()) {
                return Err(ValidationError::PythonEntryExtension { entry: action.entry.clone() });
            }
        },
    }
    if cfg.fixtures.len() == 0 {
        return Err(ValidationError::NoFixtures);
    }
    if cfg.repeat == 0 {
        return Err(ValidationError::ZeroRepeat);
    }
    Ok(())
}

} // verus!

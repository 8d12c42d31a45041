//! Locating the tool and settling on its capability level.

use crate::metadata::optional_text;
use vstd::prelude::*;

verus! {

/// The capability level taken where the tool's version cannot be read. No
/// behaviour that depends on a newer tool is switched on at this level.
pub const UNKNOWN_LEVEL: u32 = 0;

/// The executable that is run where nothing names another.
pub open spec fn default_binary() -> Seq<char> {
    "cargo"@
}

/// The executable that two optional overrides select: the first where it is
/// set, else the second, else the default.
pub open spec fn binary_choice(specific: Option<Seq<char>>, general: Option<Seq<char>>) -> Seq<
    char,
> {
    match specific {
        Some(path) => path,
        None => match general {
            Some(path) => path,
            None => default_binary(),
        },
    }
}

/// The executable to run, given what the two overrides hold: `specific` is
/// meant for this harness alone, `general` is the one that the tool itself
/// sets for the programs it starts.
pub fn cargo_binary(specific: Option<String>, general: Option<String>) -> (binary: String)
    ensures
        binary@ == binary_choice(optional_text(specific), optional_text(general)),
{
    match specific {
        Some(path) => path,
        None => match general {
            Some(path) => path,
            None => "cargo".to_owned(),
        },
    }
}

/// What follows from an attempt to read the tool's version.
#[derive(Debug)]
pub struct Probe {
    /// The capability level to go on with.
    pub level: u32,
    /// Why the version could not be read, for the caller to report.
    pub warning: Option<String>,
}

/// Settles on a capability level. A version that could not be read is no
/// reason to stop: the session goes on at the lowest level, and the failure
/// is handed back to be reported as a warning.
pub fn capability_level(probe: Result<u32, String>) -> (outcome: Probe)
    ensures
        match probe {
            Ok(minor) => outcome.level == minor && outcome.warning is None,
            Err(reason) => outcome.level == UNKNOWN_LEVEL && outcome.warning == Some(reason),
        },
{
    match probe {
        Ok(minor) => Probe { level: minor, warning: None },
        Err(reason) => Probe { level: UNKNOWN_LEVEL, warning: Some(reason) },
    }
}

} // verus!

//! Fallback values for persisted application settings.
//!
//! Settings live on disk as JSON and are read and written by the
//! surrounding application; when a field is missing there, these defaults
//! fill it in.

use vstd::prelude::*;
use vstd::string::StringExecFns;

verus! {

/// Default for boolean settings that are on unless switched off, such as
/// the warning about unsaved changes.
pub fn default_true() -> (b: bool)
    ensures
        b,
{
    true
}

/// Name of the theme used when none is configured.
pub fn default_theme() -> (s: String)
    ensures
        s@ == "Default Light"@,
{
    String::from_str("Default Light")
}

} // verus!

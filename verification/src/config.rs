//! Configuration-side types and decisions: where the analyst configuration
//! lives, and which indicator families a configuration entry may name.

use vstd::prelude::*;
use crate::text::str_eq;

verus! {

/// Where the analyst configuration file is found.
pub struct Config {
    pub analyst_config_path: String,
}

/// Whether a name is one of the recognized indicator families.
pub open spec fn spec_supported_indicator(s: Seq<char>) -> bool {
    s == "sma"@ || s == "ema"@ || s == "rsi"@ || s == "macd"@ || s == "bollinger_bands"@
}

/// Decides whether a configuration entry names a recognized indicator family;
/// an entry that does not is reported as incorrectly formatted.
pub fn is_supported_indicator(name: &str) -> (r: bool)
    ensures
        r == spec_supported_indicator(name@),
{
    str_eq(name, "sma") || str_eq(name, "ema") || str_eq(name, "rsi") || str_eq(name, "macd")
        || str_eq(name, "bollinger_bands")
}

} // verus!

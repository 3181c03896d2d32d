//! The generation configuration handed to the template materializer: a
//! fully-resolved record with no optional fields. Defaults are substituted
//! once, at the boundary, so absence never reaches the core workflow.

use vstd::prelude::*;

verus! {

/// The token configuration a template is materialized with. Every field is
/// present: callers substitute the documented defaults before constructing
/// one.
#[derive(Debug, PartialEq)]
pub struct Config {
    pub symbol: String,
    pub decimals: u8,
    pub initial_endowment: String,
}

/// The default token symbol.
pub open spec fn default_symbol() -> Seq<char> {
    "UNIT"@
}

/// The default token decimals.
pub open spec fn default_decimals() -> u8 {
    12u8
}

/// The default endowment expression for development accounts.
pub open spec fn default_endowment() -> Seq<char> {
    "1u64 << 60"@
}

impl Config {
    /// Builds the configuration from optional inputs, substituting the
    /// documented default wherever a field is absent.
    pub fn resolve(
        symbol: &Option<String>,
        decimals: &Option<u8>,
        initial_endowment: &Option<String>,
    ) -> (r: Config)
        ensures
            r.symbol@ == (match *symbol {
                Some(s) => s@,
                None => default_symbol(),
            }),
            r.decimals == (match *decimals {
                Some(d) => d,
                None => default_decimals(),
            }),
            r.initial_endowment@ == (match *initial_endowment {
                Some(e) => e@,
                None => default_endowment(),
            }),
    {
        let symbol = match symbol {
            Some(s) => s.clone(),
            None => String::from_str("UNIT"),
        };
        let decimals = match decimals {
            Some(d) => *d,
            None => 12u8,
        };
        let initial_endowment = match initial_endowment {
            Some(e) => e.clone(),
            None => String::from_str("1u64 << 60"),
        };
        Config { symbol, decimals, initial_endowment }
    }
}

impl Clone for Config {
    /// A clone is equal to the original, field for field.
    fn clone(&self) -> (r: Config)
        ensures
            r == *self,
    {
        Config {
            symbol: self.symbol.clone(),
            decimals: self.decimals,
            initial_endowment: self.initial_endowment.clone(),
        }
    }
}

} // verus!

//! The currencies that the API supports.

use vstd::prelude::*;

verus! {

/// A three-letter ISO currency code in uppercase. As of the moment, only the
/// Philippine peso is supported.
#[derive(Debug, Clone, Copy, PartialEq, Eq, Hash, Structural)]
pub enum Currency {
    /// The Philippine peso.
    PHP,
}

impl Default for Currency {
    fn default() -> (r: Self)
        ensures
            r == Currency::PHP,
    {
        Currency::PHP
    }
}

impl Currency {
    /// The code of the currency.
    pub fn as_str(&self) -> (s: &'static str)
        ensures
            s@ == "PHP"@,
    {
        "PHP"
    }
}

} // verus!

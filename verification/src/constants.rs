//! The game versions a mod can declare compatibility with.
use vstd::prelude::*;

verus! {

/// A Factorio release line: one of the known numbered lines, or any
/// other version text verbatim.
#[derive(Debug, PartialEq, Eq)]
pub enum FactorioVersions {
    V0_13,
    V0_14,
    V0_15,
    V0_16,
    V0_17,
    V0_18,
    V1_0,
    V1_1,
    Other(String),
}

impl FactorioVersions {
    /// The version text as it appears on the wire.
    pub open spec fn spec_text(self) -> Seq<char> {
        match self {
            FactorioVersions::V0_13 => "0.13"@,
            FactorioVersions::V0_14 => "0.14"@,
            FactorioVersions::V0_15 => "0.15"@,
            FactorioVersions::V0_16 => "0.16"@,
            FactorioVersions::V0_17 => "0.17"@,
            FactorioVersions::V0_18 => "0.18"@,
            FactorioVersions::V1_0 => "1.0"@,
            FactorioVersions::V1_1 => "1.1"@,
            FactorioVersions::Other(s) => s@,
        }
    }

    /// Renders the version text.
    pub fn text(&self) -> (r: String)
        ensures
            r@ == self.spec_text(),
    {
        match self {
            FactorioVersions::V0_13 => String::from_str("0.13"),
            FactorioVersions::V0_14 => String::from_str("0.14"),
            FactorioVersions::V0_15 => String::from_str("0.15"),
            FactorioVersions::V0_16 => String::from_str("0.16"),
            FactorioVersions::V0_17 => String::from_str("0.17"),
            FactorioVersions::V0_18 => String::from_str("0.18"),
            FactorioVersions::V1_0 => String::from_str("1.0"),
            FactorioVersions::V1_1 => String::from_str("1.1"),
            FactorioVersions::Other(s) => s.clone(),
        }
    }
}

} // verus!

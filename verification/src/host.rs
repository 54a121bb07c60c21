//! Projection of a failure kind into the host execution environment's
//! generic numeric error channel, and the constant catalog tag that generic
//! decoders use to pick the right ordinal table.
use crate::catalog::AmmError;
use vstd::prelude::*;

verus! {

/// The host's generic failure representation: a single unsigned numeric
/// code, the only channel through which a failure crosses the program
/// boundary.
#[derive(Clone, Copy, Debug, PartialEq, Eq, Structural)]
pub struct HostError {
    /// The numeric code the host records as the failure reason.
    pub code: u32,
}

impl AmmError {
    /// Projects the kind into the host's error channel. The code is exactly
    /// the kind's ordinal, widened with no truncation, so an observer that
    /// knows the catalog's ordinal table can recover the kind.
    pub fn to_host_error(&self) -> (e: HostError)
        ensures
            e.code == self.spec_ordinal(),
    {
        HostError { code: self.ordinal() }
    }

    /// The constant tag naming this catalog. A generic decoder facing a bare
    /// numeric code uses it to select this catalog's ordinal table; it never
    /// varies with the kind that occurred.
    pub fn type_of() -> (name: &'static str)
        ensures
            name@ == "Amm Error"@,
    {
        "Amm Error"
    }
}

} // verus!

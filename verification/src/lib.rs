//! Error taxonomy for an on-chain AMM pool program: a closed catalog of
//! failure kinds with stable ordinals, a lossless projection of each kind
//! into the host's generic numeric error channel, a constant tag that
//! disambiguates this catalog among many for generic decoders, and one
//! fixed human-readable log line per kind.

pub mod catalog;
pub mod diagnostics;
pub mod host;

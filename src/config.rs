//! Resolution of untyped configuration documents into macros.

use vstd::prelude::*;

verus! {

/// Why a configuration could not be resolved.
#[derive(Clone, Debug, PartialEq)]
pub enum ConfigError {
    /// A field is missing, has the wrong shape, or holds a value out of its domain.
    InvalidConfig(String),
}

impl ConfigError {
    /// Human-readable description of the error.
    pub fn description(&self) -> (r: &str)
        ensures
            r@ == match self {
                ConfigError::InvalidConfig(m) => m@,
            },
    {
        match self {
            ConfigError::InvalidConfig(m) => m.as_str(),
        }
    }
}

} // verus!

//! The errors that can occur when managing configs.

use vstd::prelude::*;

verus! {

/// The errors that can occur when managing configs.
#[derive(Debug)]
pub enum ConfigError {
    /// The config contains a key that is invalid for its domain.
    IllegalKey(String),
    /// The config domain was not recognized.
    UnknownDomain(String),
}

/// What a `ConfigError` stands for.
pub enum ConfigErrorModel {
    IllegalKey(Seq<char>),
    UnknownDomain(Seq<char>),
}

impl View for ConfigError {
    type V = ConfigErrorModel;

    open spec fn view(&self) -> ConfigErrorModel {
        match self {
            ConfigError::IllegalKey(key) => ConfigErrorModel::IllegalKey(key@),
            ConfigError::UnknownDomain(name) => ConfigErrorModel::UnknownDomain(name@),
        }
    }
}

/// What the outcome of a mutation stands for.
pub open spec fn outcome(r: Result<(), ConfigError>) -> Result<(), ConfigErrorModel> {
    match r {
        Ok(_) => Ok(()),
        Err(e) => Err(e@),
    }
}

impl ConfigError {
    /// A short description of the kind of error.
    pub fn description(&self) -> (r: &'static str)
        ensures
            r@ == (match self@ {
                ConfigErrorModel::IllegalKey(_) => "illegal key"@,
                ConfigErrorModel::UnknownDomain(_) => "unknown domain"@,
            }),
    {
        match self {
            ConfigError::IllegalKey(_) => "illegal key",
            ConfigError::UnknownDomain(_) => "unknown domain",
        }
    }
}

} // verus!

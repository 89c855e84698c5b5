//! Why a configuration cannot be turned into a sink.

use vstd::prelude::*;

verus! {

/// What the operator is told when no credential is configured.
pub const MISSING_CREDENTIAL_MESSAGE: &'static str =
    "must provide either 'license_key' or 'insert_key'";

/// A configuration that no sink can be built from.
#[derive(Clone, Copy, Debug, PartialEq, Eq, Structural)]
pub enum ConfigurationError {
    /// Neither a license key nor an insert key is configured.
    MissingCredential,
}

impl ConfigurationError {
    /// The text shown to the operator, naming the fields to set.
    pub fn message(&self) -> (text: String)
        ensures
            text@ == MISSING_CREDENTIAL_MESSAGE@,
    {
        match self {
            ConfigurationError::MissingCredential => MISSING_CREDENTIAL_MESSAGE.to_owned(),
        }
    }
}

} // verus!

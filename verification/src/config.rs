//! The generator's configuration: the worker identifier, given as text.
use vstd::prelude::*;
use vstd::string::StringSliceAdditionalSpecFns;
use crate::text::{parse_u8, spec_parse_u8};

verus! {

/// The name of the setting that holds the worker identifier.
pub const WORKER_ID_SETTING: &'static str = "WORKER_ID";

/// Why no generator can be built from the configuration.
#[derive(Debug, Clone, Copy, PartialEq, Eq, Structural)]
pub enum ConfigError {
    /// No worker identifier is set.
    MissingWorkerId,
    /// The worker identifier is not a number from 0 to 255.
    InvalidWorkerId,
}

/// The worker identifier that the configuration gives: the setting must be
/// there and write a number that fits the worker field.
pub open spec fn spec_worker_id_from(setting: Option<&str>) -> Result<u8, ConfigError> {
    match setting {
        None => Err(ConfigError::MissingWorkerId),
        Some(text) => match spec_parse_u8(text.spec_bytes()) {
            Some(worker_id) => Ok(worker_id),
            None => Err(ConfigError::InvalidWorkerId),
        },
    }
}

/// Reads the worker identifier from its setting.
pub fn worker_id_from(setting: Option<&str>) -> (outcome: Result<u8, ConfigError>)
    ensures
        outcome == spec_worker_id_from(setting),
{
    match setting {
        None => Err(ConfigError::MissingWorkerId),
        Some(text) => match parse_u8(text) {
            Some(worker_id) => Ok(worker_id),
            None => Err(ConfigError::InvalidWorkerId),
        },
    }
}

} // verus!

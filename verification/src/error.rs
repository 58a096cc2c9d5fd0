//! What can go wrong during a run.

use vstd::prelude::*;
use crate::inspector::InspectionError;
use crate::publisher::PublishingError;

verus! {

/// `std::io::Error`, named so that it can be carried through.
#[verifier::external_type_specification]
#[verifier::external_body]
pub struct ExIoError(std::io::Error);

/// A failure that the companion has classified as worth surfacing.
#[derive(Debug)]
pub enum CompanionError {
    /// The inspection backend failed.
    Inspection(InspectionError),
    /// The publishing backend failed.
    Publishing(PublishingError),
    /// A container lacks the configured environment variable. Holds the
    /// container's name, then the variable's.
    EnvVarMissing(String, String),
    /// The service manager could not be told.
    Systemd(std::io::Error),
}

impl CompanionError {
    /// A one-line account of the failure kind.
    pub fn description(&self) -> (text: &'static str)
        ensures
            text@ == match self {
                CompanionError::Inspection(_) => "Error during inspection."@,
                CompanionError::Publishing(_) => "Error during publishing."@,
                CompanionError::EnvVarMissing(_, _) =>
                    "Configured environment variable missing on container."@,
                CompanionError::Systemd(_) => "Error communicating with systemd"@,
            },
    {
        match self {
            CompanionError::Inspection(_) => "Error during inspection.",
            CompanionError::Publishing(_) => "Error during publishing.",
            CompanionError::EnvVarMissing(_, _) =>
                "Configured environment variable missing on container.",
            CompanionError::Systemd(_) => "Error communicating with systemd",
        }
    }
}

} // verus!

//! The failure kinds that registry operations surface.

use vstd::prelude::*;

verus! {

/// Why a registry operation was refused. Every kind is terminal for the
/// operation that raised it, and no operation applies any effect before
/// failing.
#[derive(Clone, Copy, Debug, PartialEq, Eq, Structural)]
pub enum RegistryError {
    /// The registry has no administrator yet.
    NotInitialized,
    /// The caller did not authorize as the identity the operation demands.
    AuthorizationError,
    /// The certificate id was already used, live or revoked.
    DuplicateId,
    /// No certificate was ever issued under the id.
    NotFound,
    /// The certificate is revoked and can no longer be transferred.
    InvalidCertificate,
}

impl RegistryError {
    /// The transport status each kind maps to: `NotFound` is the one
    /// not-found condition; every other kind is a bad request.
    pub open spec fn spec_status_code(self) -> u16 {
        match self {
            RegistryError::NotFound => 404,
            _ => 400,
        }
    }

    /// Status code for a transport layer that fronts the registry.
    pub fn status_code(&self) -> (code: u16)
        ensures
            code == self.spec_status_code(),
    {
        match self {
            RegistryError::NotFound => 404,
            _ => 400,
        }
    }

    /// A human-readable message for each kind.
    pub fn describe(&self) -> (m: String)
        ensures
            *self is NotInitialized ==> m@ == "Contract not initialized"@,
            *self is AuthorizationError ==> m@ == "Authorization failed"@,
            *self is DuplicateId ==> m@ == "Certificate already exists"@,
            *self is NotFound ==> m@ == "Certificate not found"@,
            *self is InvalidCertificate ==> m@ == "Cannot transfer invalid certificate"@,
    {
        match self {
            RegistryError::NotInitialized => "Contract not initialized".to_owned(),
            RegistryError::AuthorizationError => "Authorization failed".to_owned(),
            RegistryError::DuplicateId => "Certificate already exists".to_owned(),
            RegistryError::NotFound => "Certificate not found".to_owned(),
            RegistryError::InvalidCertificate => "Cannot transfer invalid certificate".to_owned(),
        }
    }
}

} // verus!

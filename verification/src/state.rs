//! The mathematical model of the certificate registry.
//!
//! A registry is pictured as an administrator slot together with a map from
//! certificate ids to certificate records, all over sequences of characters.
//! Each operation of the registry is given by a pair of spec functions: a
//! `*_result` function saying which outcome the operation reports, and a
//! `*_next` function saying which state it leaves behind. The executable
//! registry in [`crate::registry`] is proved to follow these functions
//! exactly, and the laws in [`crate::laws`] are stated over them.

use vstd::prelude::*;

use crate::errors::RegistryError;

verus! {

/// Model of one certificate record: the owning identity, the bound metadata
/// hash, and whether the certificate is still valid.
pub ghost struct CertState {
    pub owner: Seq<char>,
    pub metadata_hash: Seq<char>,
    pub is_valid: bool,
}

/// Model of the whole registry: the administrator slot and the record held
/// under each certificate id ever issued.
pub ghost struct RegistryState {
    pub admin: Option<Seq<char>>,
    pub certs: Map<Seq<char>, CertState>,
}

impl RegistryState {
    /// The state of a freshly created registry: no administrator, no
    /// certificates.
    pub open spec fn initial() -> RegistryState {
        RegistryState { admin: None, certs: Map::empty() }
    }

    /// Whether a certificate id was ever issued, valid or revoked.
    pub open spec fn exists_cert(self, cert_id: Seq<char>) -> bool {
        self.certs.dom().contains(cert_id)
    }
}

/// Outcome of initialization: the caller must authorize as the very identity
/// being installed as administrator.
pub open spec fn init_result(pre: RegistryState, caller: Seq<char>, admin: Seq<char>) -> Result<
    (),
    RegistryError,
> {
    if caller != admin {
        Err(RegistryError::AuthorizationError)
    } else {
        Ok(())
    }
}

/// State after initialization: on success the administrator is installed and
/// the certificate map is reset to empty, even if the registry was already
/// initialized; on failure nothing changes.
pub open spec fn init_next(pre: RegistryState, caller: Seq<char>, admin: Seq<char>) -> RegistryState {
    if init_result(pre, caller, admin) is Ok {
        RegistryState { admin: Some(admin), certs: Map::empty() }
    } else {
        pre
    }
}

/// Outcome of issuance. The checks run in this order: the registry must be
/// initialized, the caller must authorize as the administrator, and the id
/// must never have been used before.
pub open spec fn issue_result(pre: RegistryState, caller: Seq<char>, cert_id: Seq<char>) -> Result<
    (),
    RegistryError,
> {
    if pre.admin is None {
        Err(RegistryError::NotInitialized)
    } else if caller != pre.admin->0 {
        Err(RegistryError::AuthorizationError)
    } else if pre.exists_cert(cert_id) {
        Err(RegistryError::DuplicateId)
    } else {
        Ok(())
    }
}

/// State after issuance: on success exactly one record is added, valid and
/// bound to the given owner and metadata hash; on failure nothing changes.
pub open spec fn issue_next(
    pre: RegistryState,
    caller: Seq<char>,
    cert_id: Seq<char>,
    metadata_hash: Seq<char>,
    owner: Seq<char>,
) -> RegistryState {
    if issue_result(pre, caller, cert_id) is Ok {
        RegistryState {
            certs: pre.certs.insert(
                cert_id,
                CertState { owner, metadata_hash, is_valid: true },
            ),
            ..pre
        }
    } else {
        pre
    }
}

/// What verification answers: true exactly when a record exists under the id,
/// it is still valid, and its stored hash equals the supplied one character
/// for character.
pub open spec fn verify_outcome(
    reg: RegistryState,
    cert_id: Seq<char>,
    metadata_hash: Seq<char>,
) -> bool {
    reg.exists_cert(cert_id) && reg.certs[cert_id].is_valid && reg.certs[cert_id].metadata_hash
        == metadata_hash
}

/// Outcome of a details lookup: the full record, revoked or not, or
/// `NotFound` for an id never issued.
pub open spec fn details_result(reg: RegistryState, cert_id: Seq<char>) -> Result<
    CertState,
    RegistryError,
> {
    if reg.exists_cert(cert_id) {
        Ok(reg.certs[cert_id])
    } else {
        Err(RegistryError::NotFound)
    }
}

/// Outcome of a transfer. The checks run in this order: the record must
/// exist, the caller must authorize as its current owner, and the record must
/// still be valid.
pub open spec fn transfer_result(
    reg: RegistryState,
    caller: Seq<char>,
    cert_id: Seq<char>,
) -> Result<(), RegistryError> {
    if !reg.exists_cert(cert_id) {
        Err(RegistryError::NotFound)
    } else if caller != reg.certs[cert_id].owner {
        Err(RegistryError::AuthorizationError)
    } else if !reg.certs[cert_id].is_valid {
        Err(RegistryError::InvalidCertificate)
    } else {
        Ok(())
    }
}

/// State after a transfer: on success only the owner of the one record
/// changes; on failure nothing changes.
pub open spec fn transfer_next(
    reg: RegistryState,
    caller: Seq<char>,
    cert_id: Seq<char>,
    new_owner: Seq<char>,
) -> RegistryState {
    if transfer_result(reg, caller, cert_id) is Ok {
        RegistryState {
            certs: reg.certs.insert(
                cert_id,
                CertState { owner: new_owner, ..reg.certs[cert_id] },
            ),
            ..reg
        }
    } else {
        reg
    }
}

/// Outcome of a revocation. The checks run in this order: the registry must
/// be initialized, the caller must authorize as the administrator, and the
/// record must exist. Revoking an already revoked certificate succeeds again.
pub open spec fn revoke_result(
    reg: RegistryState,
    caller: Seq<char>,
    cert_id: Seq<char>,
) -> Result<(), RegistryError> {
    if reg.admin is None {
        Err(RegistryError::NotInitialized)
    } else if caller != reg.admin->0 {
        Err(RegistryError::AuthorizationError)
    } else if !reg.exists_cert(cert_id) {
        Err(RegistryError::NotFound)
    } else {
        Ok(())
    }
}

/// State after a revocation: on success only the validity flag of the one
/// record drops to false; on failure nothing changes.
pub open spec fn revoke_next(
    reg: RegistryState,
    caller: Seq<char>,
    cert_id: Seq<char>,
) -> RegistryState {
    if revoke_result(reg, caller, cert_id) is Ok {
        RegistryState {
            certs: reg.certs.insert(
                cert_id,
                CertState { is_valid: false, ..reg.certs[cert_id] },
            ),
            ..reg
        }
    } else {
        reg
    }
}

/// Outcome of reading the administrator slot.
pub open spec fn admin_result(reg: RegistryState) -> Result<Seq<char>, RegistryError> {
    match reg.admin {
        Some(a) => Ok(a),
        None => Err(RegistryError::NotInitialized),
    }
}

} // verus!

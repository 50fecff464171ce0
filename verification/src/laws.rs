//! The laws the certificate registry obeys.
//!
//! Each proof function here states one guarantee of the registry over the
//! transition functions of [`crate::state`], for every state and every
//! choice of caller and arguments. Because each executable operation of
//! [`crate::registry::FashionAuthContract`] is proved to return exactly
//! `*_result` and to leave exactly `*_next` behind, these laws carry over to
//! every run of the executable registry. Initialization stands apart
//! throughout: a repeated `init` deliberately wipes the store, so no law
//! quantifies over it.

use vstd::prelude::*;

use crate::errors::RegistryError;
use crate::state::RegistryState;
use crate::state::issue_next;
use crate::state::issue_result;
use crate::state::revoke_next;
use crate::state::revoke_result;
use crate::state::transfer_next;
use crate::state::transfer_result;
use crate::state::verify_outcome;

verus! {

/// Once a certificate id exists, it exists forever: issuance, transfer and
/// revocation never remove an id, whoever calls them, with whatever
/// arguments, and whatever their outcome.
pub proof fn lemma_existence_is_permanent(
    reg: RegistryState,
    caller: Seq<char>,
    id: Seq<char>,
    cert_id: Seq<char>,
    metadata_hash: Seq<char>,
    owner: Seq<char>,
)
    requires
        reg.exists_cert(id),
    ensures
        issue_next(reg, caller, cert_id, metadata_hash, owner).exists_cert(id),
        transfer_next(reg, caller, cert_id, owner).exists_cert(id),
        revoke_next(reg, caller, cert_id).exists_cert(id),
{
}

/// A certificate id is used at most once in the registry's lifetime:
/// issuance under an existing id, valid or revoked, always fails and leaves
/// the state unchanged, and when an authorized administrator asks, the
/// failure kind is precisely `DuplicateId`. (An unauthorized or
/// uninitialized call fails earlier, with its own kind.)
pub proof fn lemma_used_id_never_reissued(
    reg: RegistryState,
    caller: Seq<char>,
    cert_id: Seq<char>,
    metadata_hash: Seq<char>,
    owner: Seq<char>,
)
    requires
        reg.exists_cert(cert_id),
    ensures
        issue_result(reg, caller, cert_id) is Err,
        reg.admin == Some(caller) ==> issue_result(reg, caller, cert_id) == Err::<
            (),
            RegistryError,
        >(RegistryError::DuplicateId),
        issue_next(reg, caller, cert_id, metadata_hash, owner) == reg,
{
}

/// Revocation is absorbing. After a successful revocation, verification of
/// the id answers false for every hash, and a transfer of the id always
/// fails and changes nothing; for the rightful owner the failure kind is
/// precisely `InvalidCertificate`. (Any other caller fails earlier, with
/// `AuthorizationError`.)
pub proof fn lemma_revocation_is_final(
    reg: RegistryState,
    admin_caller: Seq<char>,
    cert_id: Seq<char>,
    metadata_hash: Seq<char>,
    caller: Seq<char>,
    new_owner: Seq<char>,
)
    requires
        revoke_result(reg, admin_caller, cert_id) is Ok,
    ensures
        ({
            let post = revoke_next(reg, admin_caller, cert_id);
            &&& !verify_outcome(post, cert_id, metadata_hash)
            &&& transfer_result(post, caller, cert_id) is Err
            &&& caller == post.certs[cert_id].owner ==> transfer_result(post, caller, cert_id)
                == Err::<(), RegistryError>(RegistryError::InvalidCertificate)
            &&& transfer_next(post, caller, cert_id, new_owner) == post
        }),
{
}

/// Only the current owner can transfer a certificate: any other caller gets
/// precisely `AuthorizationError`, and the record is unchanged.
pub proof fn lemma_transfer_requires_owner(
    reg: RegistryState,
    caller: Seq<char>,
    cert_id: Seq<char>,
    new_owner: Seq<char>,
)
    requires
        reg.exists_cert(cert_id),
        caller != reg.certs[cert_id].owner,
    ensures
        transfer_result(reg, caller, cert_id) == Err::<(), RegistryError>(
            RegistryError::AuthorizationError,
        ),
        transfer_next(reg, caller, cert_id, new_owner) == reg,
{
}

/// The administrator slot is immutable under issuance, transfer and
/// revocation: only initialization writes it.
pub proof fn lemma_admin_is_stable(
    reg: RegistryState,
    caller: Seq<char>,
    cert_id: Seq<char>,
    metadata_hash: Seq<char>,
    owner: Seq<char>,
)
    ensures
        issue_next(reg, caller, cert_id, metadata_hash, owner).admin == reg.admin,
        transfer_next(reg, caller, cert_id, owner).admin == reg.admin,
        revoke_next(reg, caller, cert_id).admin == reg.admin,
{
}

/// Validity only ever falls: a record that is invalid stays present and
/// invalid under issuance, transfer and revocation, whoever calls them and
/// with whatever arguments. There is no re-validation operation.
pub proof fn lemma_validity_is_monotonic(
    reg: RegistryState,
    caller: Seq<char>,
    id: Seq<char>,
    cert_id: Seq<char>,
    metadata_hash: Seq<char>,
    owner: Seq<char>,
)
    requires
        reg.exists_cert(id),
        !reg.certs[id].is_valid,
    ensures
        !issue_next(reg, caller, cert_id, metadata_hash, owner).certs[id].is_valid,
        !transfer_next(reg, caller, cert_id, owner).certs[id].is_valid,
        !revoke_next(reg, caller, cert_id).certs[id].is_valid,
{
}

} // verus!

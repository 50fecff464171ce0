//! The certificate registry: an explicit store of authenticity certificates.
//!
//! The registry owns a single administrator slot and the full history of
//! certificate records, and enforces every authorization and transition rule.
//! Authorization follows the explicit-proof style: each mutating operation
//! takes an [`AuthProof`] naming the identity that approved the call, and the
//! operation checks that identity against the one it demands. Each operation
//! is specified exactly by the transition functions of [`crate::state`].

use vstd::prelude::*;

use crate::errors::RegistryError;
use crate::state::CertState;
use crate::state::RegistryState;
use crate::state::admin_result;
use crate::state::details_result;
use crate::state::init_next;
use crate::state::init_result;
use crate::state::issue_next;
use crate::state::issue_result;
use crate::state::revoke_next;
use crate::state::revoke_result;
use crate::state::transfer_next;
use crate::state::transfer_result;
use crate::state::verify_outcome;

verus! {

/// One authenticity certificate: the current owner, the hash of the item's
/// metadata, and whether the certificate is still valid.
#[derive(Clone, Debug, PartialEq, Eq)]
pub struct Certificate {
    /// Identity that currently owns the certificate.
    pub owner: String,
    /// Opaque content-addressing hash of the item's metadata.
    pub metadata_hash: String,
    /// True from issuance until revocation, then false forever.
    pub is_valid: bool,
}

impl View for Certificate {
    type V = CertState;

    open spec fn view(&self) -> CertState {
        CertState {
            owner: self.owner@,
            metadata_hash: self.metadata_hash@,
            is_valid: self.is_valid,
        }
    }
}

/// Evidence that one identity authorized the current call. The registry
/// treats authorization as a boolean oracle: producing the proof is the
/// business of the host (a verified signature, a ledger's auth framework);
/// the registry only compares the proven identity against the one the
/// operation demands.
pub struct AuthProof {
    identity: String,
}

impl View for AuthProof {
    type V = Seq<char>;

    closed spec fn view(&self) -> Seq<char> {
        self.identity@
    }
}

impl AuthProof {
    /// Package an authorization for the given identity.
    pub fn for_identity(identity: String) -> (p: AuthProof)
        ensures
            p@ == identity@,
    {
        AuthProof { identity }
    }

    /// Whether this proof authorizes the given identity.
    fn covers(&self, id: &String) -> (b: bool)
        ensures
            b == (self@ == id@),
    {
        self.identity.eq(id)
    }
}

/// One slot of the registry's store: a certificate under its id.
struct CertEntry {
    cert_id: String,
    cert: Certificate,
}

/// No two slots hold the same certificate id.
spec fn entry_keys_distinct(s: Seq<CertEntry>) -> bool {
    forall|i: int, j: int|
        0 <= i < j < s.len() ==> s[i].cert_id@ != s[j].cert_id@
}

/// The map held by a sequence of slots: each slot contributes its record
/// under its id.
spec fn entries_map(s: Seq<CertEntry>) -> Map<Seq<char>, CertState>
    decreases s.len(),
{
    if s.len() == 0 {
        Map::empty()
    } else {
        entries_map(s.drop_last()).insert(s.last().cert_id@, s.last().cert@)
    }
}

proof fn lemma_entries_map_dom(s: Seq<CertEntry>, k: Seq<char>)
    ensures
        entries_map(s).dom().contains(k) <==> exists|i: int|
            0 <= i < s.len() && s[i].cert_id@ == k,
    decreases s.len(),
{
    if s.len() == 0 {
    } else {
        lemma_entries_map_dom(s.drop_last(), k);
        if entries_map(s).dom().contains(k) {
            if s.last().cert_id@ == k {
                assert(s[s.len() - 1].cert_id@ == k);
            } else {
                let i = choose|i: int|
                    0 <= i < s.drop_last().len() && s.drop_last()[i].cert_id@ == k;
                assert(s[i].cert_id@ == k);
            }
        }
        if exists|i: int| 0 <= i < s.len() && s[i].cert_id@ == k {
            let i = choose|i: int| 0 <= i < s.len() && s[i].cert_id@ == k;
            if i < s.len() - 1 {
                assert(s.drop_last()[i].cert_id@ == k);
            }
        }
    }
}

proof fn lemma_entries_map_at(s: Seq<CertEntry>, i: int)
    requires
        entry_keys_distinct(s),
        0 <= i < s.len(),
    ensures
        entries_map(s).dom().contains(s[i].cert_id@),
        entries_map(s)[s[i].cert_id@] == s[i].cert@,
    decreases s.len(),
{
    if i == s.len() - 1 {
    } else {
        assert(entry_keys_distinct(s.drop_last())) by {
            assert forall|p: int, q: int|
                0 <= p < q < s.drop_last().len() implies s.drop_last()[p].cert_id@
                != s.drop_last()[q].cert_id@ by {
                assert(s[p].cert_id@ != s[q].cert_id@);
            }
        }
        lemma_entries_map_at(s.drop_last(), i);
        assert(s.last().cert_id@ != s[i].cert_id@);
        assert(s.drop_last()[i] == s[i]);
    }
}

proof fn lemma_entries_map_push(s: Seq<CertEntry>, e: CertEntry)
    requires
        entry_keys_distinct(s),
        !entries_map(s).dom().contains(e.cert_id@),
    ensures
        entry_keys_distinct(s.push(e)),
        entries_map(s.push(e)) == entries_map(s).insert(e.cert_id@, e.cert@),
{
    lemma_entries_map_dom(s, e.cert_id@);
    assert(s.push(e).drop_last() =~= s);
    assert(s.push(e).last() == e);
    assert(entry_keys_distinct(s.push(e))) by {
        assert forall|p: int, q: int|
            0 <= p < q < s.push(e).len() implies s.push(e)[p].cert_id@
            != s.push(e)[q].cert_id@ by {
            if q == s.len() {
                assert(s.push(e)[p] == s[p]);
            } else {
                assert(s.push(e)[p] == s[p]);
                assert(s.push(e)[q] == s[q]);
            }
        }
    }
}

proof fn lemma_entries_map_update(s: Seq<CertEntry>, i: int, e: CertEntry)
    requires
        entry_keys_distinct(s),
        0 <= i < s.len(),
        e.cert_id@ == s[i].cert_id@,
    ensures
        entry_keys_distinct(s.update(i, e)),
        entries_map(s.update(i, e)) == entries_map(s).insert(e.cert_id@, e.cert@),
    decreases s.len(),
{
    let su = s.update(i, e);
    assert(entry_keys_distinct(su)) by {
        assert forall|p: int, q: int|
            0 <= p < q < su.len() implies su[p].cert_id@ != su[q].cert_id@ by {
            assert(s[p].cert_id@ != s[q].cert_id@);
        }
    }
    if i == s.len() - 1 {
        assert(su.drop_last() =~= s.drop_last());
        assert(su.last() == e);
        assert(entries_map(s).insert(e.cert_id@, e.cert@) =~= entries_map(s.drop_last()).insert(
            e.cert_id@,
            e.cert@,
        ));
        assert(entries_map(su) =~= entries_map(s).insert(e.cert_id@, e.cert@));
    } else {
        assert(entry_keys_distinct(s.drop_last())) by {
            assert forall|p: int, q: int|
                0 <= p < q < s.drop_last().len() implies s.drop_last()[p].cert_id@
                != s.drop_last()[q].cert_id@ by {
                assert(s[p].cert_id@ != s[q].cert_id@);
            }
        }
        assert(s.drop_last()[i] == s[i]);
        lemma_entries_map_update(s.drop_last(), i, e);
        assert(su.drop_last() =~= s.drop_last().update(i, e));
        assert(su.last() == s.last());
        assert(s.last().cert_id@ != e.cert_id@);
        assert(entries_map(su) =~= entries_map(s).insert(e.cert_id@, e.cert@));
    }
}

/// The certificate registry. It owns the administrator slot and the record
/// of every certificate ever issued; revoked certificates stay queryable
/// forever as tombstoned records.
pub struct FashionAuthContract {
    admin: Option<String>,
    certs: Vec<CertEntry>,
}

impl View for FashionAuthContract {
    type V = RegistryState;

    closed spec fn view(&self) -> RegistryState {
        RegistryState {
            admin: match self.admin {
                Some(a) => Some(a@),
                None => None,
            },
            certs: entries_map(self.certs@),
        }
    }
}

impl FashionAuthContract {
    /// The store never holds two records under one id.
    pub closed spec fn wf(&self) -> bool {
        entry_keys_distinct(self.certs@)
    }

    /// A fresh, uninitialized registry.
    pub fn new() -> (reg: FashionAuthContract)
        ensures
            reg.wf(),
            reg@ == RegistryState::initial(),
    {
        let reg = FashionAuthContract { admin: None, certs: Vec::new() };
        proof {
            assert(reg@.certs =~= Map::<Seq<char>, CertState>::empty());
            assert(reg@ =~~= RegistryState::initial());
        }
        reg
    }

    /// Index of the slot holding `cert_id`, tied to the map view.
    fn find_entry_index(&self, cert_id: &String) -> (r: Option<usize>)
        requires
            self.wf(),
        ensures
            match r {
                Some(i) => i < self.certs@.len() && self.certs@[i as int].cert_id@ == cert_id@
                    && self@.certs.dom().contains(cert_id@) && self@.certs[cert_id@]
                    == self.certs@[i as int].cert@,
                None => !self@.certs.dom().contains(cert_id@),
            },
    {
        let n = self.certs.len();
        let mut j: usize = 0;
        while j < n
            invariant
                j <= n,
                n == self.certs@.len(),
                self.wf(),
                forall|k: int| 0 <= k < j ==> self.certs@[k].cert_id@ != cert_id@,
            decreases n - j,
        {
            if self.certs[j].cert_id.eq(cert_id) {
                proof {
                    lemma_entries_map_at(self.certs@, j as int);
                }
                return Some(j);
            }
            j += 1;
        }
        proof {
            lemma_entries_map_dom(self.certs@, cert_id@);
        }
        None
    }

    /// Install the administrator. The caller must authorize as the identity
    /// being installed. A repeated initialization is not guarded against: it
    /// overwrites the administrator and wipes the certificate map.
    pub fn init(&mut self, auth: &AuthProof, admin: String) -> (r: Result<(), RegistryError>)
        requires
            old(self).wf(),
        ensures
            final(self).wf(),
            r == init_result(old(self)@, auth@, admin@),
            final(self)@ == init_next(old(self)@, auth@, admin@),
    {
        if !auth.covers(&admin) {
            return Err(RegistryError::AuthorizationError);
        }
        self.admin = Some(admin);
        self.certs = Vec::new();
        proof {
            assert(self@.certs =~= Map::<Seq<char>, CertState>::empty());
            assert(self@ =~~= init_next(old(self)@, auth@, admin@));
        }
        Ok(())
    }

    /// Issue a new certificate under a never-used id (administrator only).
    pub fn issue_certificate(
        &mut self,
        auth: &AuthProof,
        cert_id: String,
        metadata_hash: String,
        owner: String,
    ) -> (r: Result<(), RegistryError>)
        requires
            old(self).wf(),
        ensures
            final(self).wf(),
            r == issue_result(old(self)@, auth@, cert_id@),
            final(self)@ == issue_next(old(self)@, auth@, cert_id@, metadata_hash@, owner@),
    {
        let admin_ok = match &self.admin {
            None => {
                return Err(RegistryError::NotInitialized);
            },
            Some(a) => auth.covers(a),
        };
        if !admin_ok {
            return Err(RegistryError::AuthorizationError);
        }
        if self.find_entry_index(&cert_id).is_some() {
            return Err(RegistryError::DuplicateId);
        }
        let entry = CertEntry {
            cert_id,
            cert: Certificate { owner, metadata_hash, is_valid: true },
        };
        let ghost pre = self.certs@;
        let ghost entry_snapshot = entry;
        self.certs.push(entry);
        proof {
            lemma_entries_map_push(pre, entry_snapshot);
            assert(self@ =~~= issue_next(old(self)@, auth@, cert_id@, metadata_hash@, owner@));
        }
        Ok(())
    }

    /// Answer whether a certificate exists, is valid, and carries exactly
    /// the supplied metadata hash. A pure read; missing id, revoked record
    /// and hash mismatch are indistinguishable in the answer.
    pub fn verify(&self, cert_id: String, metadata_hash: String) -> (r: bool)
        requires
            self.wf(),
        ensures
            r == verify_outcome(self@, cert_id@, metadata_hash@),
    {
        match self.find_entry_index(&cert_id) {
            None => false,
            Some(i) => {
                let entry = &self.certs[i];
                entry.cert.is_valid && entry.cert.metadata_hash.eq(&metadata_hash)
            },
        }
    }

    /// The full record under an id, revoked or not. A pure read.
    pub fn get_certificate_details(&self, cert_id: String) -> (r: Result<
        Certificate,
        RegistryError,
    >)
        requires
            self.wf(),
        ensures
            match r {
                Ok(c) => details_result(self@, cert_id@) is Ok && c@ == details_result(
                    self@,
                    cert_id@,
                )->Ok_0,
                Err(e) => details_result(self@, cert_id@) is Err && e == details_result(
                    self@,
                    cert_id@,
                )->Err_0,
            },
    {
        match self.find_entry_index(&cert_id) {
            None => Err(RegistryError::NotFound),
            Some(i) => {
                let entry = &self.certs[i];
                Ok(
                    Certificate {
                        owner: entry.cert.owner.clone(),
                        metadata_hash: entry.cert.metadata_hash.clone(),
                        is_valid: entry.cert.is_valid,
                    },
                )
            },
        }
    }

    /// Move a valid certificate to a new owner. The caller must authorize as
    /// the current owner; the metadata hash and validity are untouched.
    pub fn transfer(&mut self, auth: &AuthProof, cert_id: String, new_owner: String) -> (r: Result<
        (),
        RegistryError,
    >)
        requires
            old(self).wf(),
        ensures
            final(self).wf(),
            r == transfer_result(old(self)@, auth@, cert_id@),
            final(self)@ == transfer_next(old(self)@, auth@, cert_id@, new_owner@),
    {
        let idx = match self.find_entry_index(&cert_id) {
            None => {
                return Err(RegistryError::NotFound);
            },
            Some(i) => i,
        };
        if !auth.covers(&self.certs[idx].cert.owner) {
            return Err(RegistryError::AuthorizationError);
        }
        if !self.certs[idx].cert.is_valid {
            return Err(RegistryError::InvalidCertificate);
        }
        let entry = CertEntry {
            cert_id: self.certs[idx].cert_id.clone(),
            cert: Certificate {
                owner: new_owner,
                metadata_hash: self.certs[idx].cert.metadata_hash.clone(),
                is_valid: true,
            },
        };
        let ghost pre = self.certs@;
        let ghost entry_snapshot = entry;
        self.certs.set(idx, entry);
        proof {
            lemma_entries_map_update(pre, idx as int, entry_snapshot);
            assert(self@ =~~= transfer_next(old(self)@, auth@, cert_id@, new_owner@));
        }
        Ok(())
    }

    /// Mark a certificate invalid forever (administrator only). Revoking an
    /// already revoked certificate is accepted and leaves the same state.
    pub fn revoke(&mut self, auth: &AuthProof, cert_id: String) -> (r: Result<(), RegistryError>)
        requires
            old(self).wf(),
        ensures
            final(self).wf(),
            r == revoke_result(old(self)@, auth@, cert_id@),
            final(self)@ == revoke_next(old(self)@, auth@, cert_id@),
    {
        let admin_ok = match &self.admin {
            None => {
                return Err(RegistryError::NotInitialized);
            },
            Some(a) => auth.covers(a),
        };
        if !admin_ok {
            return Err(RegistryError::AuthorizationError);
        }
        let idx = match self.find_entry_index(&cert_id) {
            None => {
                return Err(RegistryError::NotFound);
            },
            Some(i) => i,
        };
        let entry = CertEntry {
            cert_id: self.certs[idx].cert_id.clone(),
            cert: Certificate {
                owner: self.certs[idx].cert.owner.clone(),
                metadata_hash: self.certs[idx].cert.metadata_hash.clone(),
                is_valid: false,
            },
        };
        let ghost pre = self.certs@;
        let ghost entry_snapshot = entry;
        self.certs.set(idx, entry);
        proof {
            lemma_entries_map_update(pre, idx as int, entry_snapshot);
            assert(self@ =~~= revoke_next(old(self)@, auth@, cert_id@));
        }
        Ok(())
    }

    /// The administrator identity, or `NotInitialized` if never set.
    pub fn get_admin(&self) -> (r: Result<String, RegistryError>)
        ensures
            match r {
                Ok(a) => admin_result(self@) is Ok && a@ == admin_result(self@)->Ok_0,
                Err(e) => admin_result(self@) is Err && e == admin_result(self@)->Err_0,
            },
    {
        match &self.admin {
            Some(a) => Ok(a.clone()),
            None => Err(RegistryError::NotInitialized),
        }
    }

    /// Whether any certificate, valid or revoked, was ever issued under the
    /// id. A pure read; never fails.
    pub fn certificate_exists(&self, cert_id: String) -> (r: bool)
        requires
            self.wf(),
        ensures
            r == self@.exists_cert(cert_id@),
    {
        self.find_entry_index(&cert_id).is_some()
    }
}

} // verus!

//! Certificate content and its rules.
//!
//! A certificate is an attestation: an agent is certified over a post, with
//! references to the prior certificates the attestation builds on.
//! Certificates are append-only and non-retractable by design: the update
//! and delete rules reject unconditionally. Creation must bottom out in real
//! content: the certified post must resolve to Post content, and every entry
//! in `certifications_hashes` must resolve to existing Certificate content.

use vstd::prelude::*;

use crate::hash::ActionHash;
use crate::hash::AgentPubKey;
use crate::hash::AnyLinkableHash;
use crate::hash::DnaHash;
use crate::hash::EntryHash;
use crate::record::CreateLink;
use crate::record::Delete;
use crate::record::DeleteLink;
use crate::record::Entry;
use crate::record::EntryCreationAction;
use crate::record::LinkTag;
use crate::record::UnitEntryTypes;
use crate::record::Update;
use crate::store::check_dependant_record;
use crate::store::check_linked_content;
use crate::store::check_linked_record;
use crate::store::check_referenced_content;
use crate::store::spec_dependant_record_verdict;
use crate::store::spec_linked_content_verdict;
use crate::store::spec_linked_record_verdict;
use crate::store::spec_referenced_content_verdict;
use crate::store::Store;
use crate::verdict::Reason;
use crate::verdict::Verdict;

verus! {

/// The flavour of an attestation.
#[derive(Clone, Copy, Debug, PartialEq, Eq, Structural)]
pub enum CertificateType {
    TypeOne,
    TypeTwo,
}

/// An attestation over a post, naming the certified agent and the prior
/// certificates it builds on.
#[derive(Clone, Debug)]
pub struct Certificate {
    /// Creation mutation of the post being certified.
    pub post_hash: ActionHash,
    /// The agent being certified.
    pub agent: AgentPubKey,
    /// Content addresses of the prior certificates endorsed here.
    pub certifications_hashes: Vec<EntryHash>,
    pub certificate_type: CertificateType,
    /// The network this certificate was issued in.
    pub dna_hash: DnaHash,
}

/// Verdict over the endorsement references, first failure deciding: a
/// reference that has not replicated is pending, one that resolves to
/// anything but Certificate content is invalid.
pub open spec fn spec_check_certifications(hashes: Seq<EntryHash>, store: Store) -> Verdict
    decreases hashes.len(),
{
    if hashes.len() == 0 {
        Verdict::Valid
    } else {
        let first = spec_referenced_content_verdict(store, hashes[0], UnitEntryTypes::Certificate);
        if first != Verdict::Valid {
            first
        } else {
            spec_check_certifications(hashes.skip(1), store)
        }
    }
}

/// Whether one endorsement reference resolves to Certificate content in
/// this snapshot.
pub open spec fn spec_certification_resolves(store: Store, hash: EntryHash) -> bool {
    spec_referenced_content_verdict(store, hash, UnitEntryTypes::Certificate) == Verdict::Valid
}

/// The endorsement checks pass as a whole exactly when every single
/// reference resolves to Certificate content.
pub proof fn lemma_check_certifications_all_resolve(hashes: Seq<EntryHash>, store: Store)
    ensures
        (spec_check_certifications(hashes, store) == Verdict::Valid) <==> (forall|i: int|
            0 <= i < hashes.len() ==> spec_certification_resolves(store, #[trigger] hashes[i])),
    decreases hashes.len(),
{
    if hashes.len() > 0 {
        lemma_check_certifications_all_resolve(hashes.skip(1), store);
        assert forall|i: int| 1 <= i < hashes.len() implies hashes.skip(1)[i - 1] == #[trigger] hashes[i] by {}
    }
}

/// What creating a certificate amounts to: the certified post first, the
/// endorsement references after, first failure deciding.
pub open spec fn spec_validate_create_certificate(certificate: Certificate, store: Store) -> Verdict {
    let post_check = spec_dependant_record_verdict(store, certificate.post_hash, UnitEntryTypes::Post);
    if post_check != Verdict::Valid {
        post_check
    } else {
        spec_check_certifications(certificate.certifications_hashes@, store)
    }
}

/// Creating a certificate is valid exactly when the certified post
/// resolves to Post content and every endorsement reference resolves to
/// Certificate content. A post reference that resolves to anything else is
/// invalid outright; one that has not replicated yet leaves the creation
/// pending.
pub proof fn lemma_create_certificate_verdict(certificate: Certificate, store: Store)
    ensures
        (spec_validate_create_certificate(certificate, store) == Verdict::Valid) <==> ({
            &&& spec_dependant_record_verdict(store, certificate.post_hash, UnitEntryTypes::Post)
                == Verdict::Valid
            &&& forall|i: int|
                0 <= i < certificate.certifications_hashes@.len()
                    ==> spec_certification_resolves(
                    store,
                    #[trigger] certificate.certifications_hashes@[i],
                )
        }),
        (match store.spec_fetch_record(certificate.post_hash) {
            Some(record) => !(record.entry matches Some(Entry::App(et)) && et.spec_unit()
                == UnitEntryTypes::Post) ==> (spec_validate_create_certificate(certificate, store)
                matches Verdict::Invalid(_)),
            None => spec_validate_create_certificate(certificate, store) == Verdict::Pending,
        }),
{
    lemma_check_certifications_all_resolve(certificate.certifications_hashes@, store);
}

/// A certificate must certify a real post, and its endorsement chain must
/// bottom out in real certificates.
#[verifier::loop_isolation(false)]
pub fn validate_create_certificate(
    _action: &EntryCreationAction,
    certificate: &Certificate,
    store: &Store,
) -> (v: Verdict)
    ensures
        v == spec_validate_create_certificate(*certificate, *store),
{
    let post_check = check_dependant_record(store, certificate.post_hash, UnitEntryTypes::Post);
    if !post_check.is_valid() {
        return post_check;
    }
    let hashes = &certificate.certifications_hashes;
    let ghost all: Seq<EntryHash> = hashes@;
    let mut i: usize = 0;
    proof {
        assert(all.skip(0) =~= all);
    }
    while i < hashes.len()
        invariant
            0 <= i <= all.len(),
            all == hashes@,
            spec_check_certifications(all.skip(i as int), *store) == spec_check_certifications(
                all,
                *store,
            ),
        decreases all.len() - i,
    {
        let check = check_referenced_content(store, hashes[i], UnitEntryTypes::Certificate);
        proof {
            assert(all.skip(i as int)[0] == all[i as int]);
            assert(all.skip(i as int).skip(1) =~= all.skip(i as int + 1));
        }
        if !check.is_valid() {
            return check;
        }
        i = i + 1;
    }
    proof {
        assert(all.skip(all.len() as int) =~= Seq::<EntryHash>::empty());
    }
    Verdict::Valid
}

/// Certificates are append-only: no update path is accepted.
pub fn validate_update_certificate(
    _action: &Update,
    _certificate: &Certificate,
    _original_action: &EntryCreationAction,
    _original_certificate: &Certificate,
) -> (v: Verdict)
    ensures
        v == Verdict::Invalid(Reason::CertificatesCannotBeUpdated),
{
    Verdict::Invalid(Reason::CertificatesCannotBeUpdated)
}

/// Certificates are non-retractable: no delete path is accepted.
pub fn validate_delete_certificate(
    _action: &Delete,
    _original_action: &EntryCreationAction,
    _original_certificate: &Certificate,
) -> (v: Verdict)
    ensures
        v == Verdict::Invalid(Reason::CertificatesCannotBeDeleted),
{
    Verdict::Invalid(Reason::CertificatesCannotBeDeleted)
}

/// What creating a PostToCertificates link amounts to: the base must
/// resolve to Post content and the target to Certificate content, the base
/// checked first.
pub open spec fn spec_validate_create_link_post_to_certificates(
    base_address: AnyLinkableHash,
    target_address: AnyLinkableHash,
    store: Store,
) -> Verdict {
    let base_check = spec_linked_record_verdict(store, base_address, UnitEntryTypes::Post);
    if base_check != Verdict::Valid {
        base_check
    } else {
        spec_linked_record_verdict(store, target_address, UnitEntryTypes::Certificate)
    }
}

/// A PostToCertificates link indexes a certificate under the certified
/// post: the base must be a post and the target a certificate.
pub fn validate_create_link_post_to_certificates(
    _action: &CreateLink,
    base_address: AnyLinkableHash,
    target_address: AnyLinkableHash,
    _tag: &LinkTag,
    store: &Store,
) -> (v: Verdict)
    ensures
        v == spec_validate_create_link_post_to_certificates(base_address, target_address, *store),
{
    let base_check = check_linked_record(store, &base_address, UnitEntryTypes::Post);
    if !base_check.is_valid() {
        return base_check;
    }
    check_linked_record(store, &target_address, UnitEntryTypes::Certificate)
}

/// The post-to-certificate index is permanent once established.
pub fn validate_delete_link_post_to_certificates(
    _action: &DeleteLink,
    _original_action: &CreateLink,
    _base: AnyLinkableHash,
    _target: AnyLinkableHash,
    _tag: &LinkTag,
) -> (v: Verdict)
    ensures
        v == Verdict::Invalid(Reason::PostToCertificatesLinksCannotBeDeleted),
{
    Verdict::Invalid(Reason::PostToCertificatesLinksCannotBeDeleted)
}

/// What creating a CertifiedToCertificates link amounts to: only the
/// target is checked — it must resolve to Certificate content — because the
/// base is an agent identity, not a content address.
pub open spec fn spec_validate_create_link_certified_to_certificates(
    target_address: AnyLinkableHash,
    store: Store,
) -> Verdict {
    spec_linked_record_verdict(store, target_address, UnitEntryTypes::Certificate)
}

/// A CertifiedToCertificates link indexes a certificate under the certified
/// agent: the target must be a certificate.
pub fn validate_create_link_certified_to_certificates(
    _action: &CreateLink,
    _base_address: AnyLinkableHash,
    target_address: AnyLinkableHash,
    _tag: &LinkTag,
    store: &Store,
) -> (v: Verdict)
    ensures
        v == spec_validate_create_link_certified_to_certificates(target_address, *store),
{
    check_linked_record(store, &target_address, UnitEntryTypes::Certificate)
}

/// The agent-to-certificate index is permanent once established.
pub fn validate_delete_link_certified_to_certificates(
    _action: &DeleteLink,
    _original_action: &CreateLink,
    _base: AnyLinkableHash,
    _target: AnyLinkableHash,
    _tag: &LinkTag,
) -> (v: Verdict)
    ensures
        v == Verdict::Invalid(Reason::CertifiedToCertificatesLinksCannotBeDeleted),
{
    Verdict::Invalid(Reason::CertifiedToCertificatesLinksCannotBeDeleted)
}

/// What creating a CertificateToCertificates link amounts to: the base must
/// be a content address resolving to Certificate content, the target a
/// mutation address resolving to Certificate content, the base checked
/// first.
pub open spec fn spec_validate_create_link_certificate_to_certificates(
    base_address: AnyLinkableHash,
    target_address: AnyLinkableHash,
    store: Store,
) -> Verdict {
    let base_check = spec_linked_content_verdict(store, base_address, UnitEntryTypes::Certificate);
    if base_check != Verdict::Valid {
        base_check
    } else {
        spec_linked_record_verdict(store, target_address, UnitEntryTypes::Certificate)
    }
}

/// A CertificateToCertificates link hangs a new certificate under one it
/// endorses: both ends must be certificates.
pub fn validate_create_link_certificate_to_certificates(
    _action: &CreateLink,
    base_address: AnyLinkableHash,
    target_address: AnyLinkableHash,
    _tag: &LinkTag,
    store: &Store,
) -> (v: Verdict)
    ensures
        v == spec_validate_create_link_certificate_to_certificates(
            base_address,
            target_address,
            *store,
        ),
{
    let base_check = check_linked_content(store, &base_address, UnitEntryTypes::Certificate);
    if !base_check.is_valid() {
        return base_check;
    }
    check_linked_record(store, &target_address, UnitEntryTypes::Certificate)
}

/// The endorsement index is permanent once established.
pub fn validate_delete_link_certificate_to_certificates(
    _action: &DeleteLink,
    _original_action: &CreateLink,
    _base: AnyLinkableHash,
    _target: AnyLinkableHash,
    _tag: &LinkTag,
) -> (v: Verdict)
    ensures
        v == Verdict::Invalid(Reason::CertificateToCertificatesLinksCannotBeDeleted),
{
    Verdict::Invalid(Reason::CertificateToCertificatesLinksCannotBeDeleted)
}

} // verus!

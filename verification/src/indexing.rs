//! Index maintenance around the validator.
//!
//! The CRUD layer that writes through the store keeps the link indexes the
//! rules check: it plans which links a new certificate or like is indexed
//! by, finds the back-links a like retraction must remove, and picks the
//! authoritative delete among several. Reading and writing the store is the
//! store layer's business; the decisions are made here.

use vstd::prelude::*;

use crate::certificate::Certificate;
use crate::hash::ActionHash;
use crate::hash::AnyLinkableHash;
use crate::like::Like;
use crate::record::LinkTypes;

verus! {

/// A link as the store hands it back when listing from a base address.
#[derive(Clone, Copy, Debug, PartialEq, Eq, Structural)]
pub struct Link {
    /// The mutation that created this link; deleting the link addresses it.
    pub create_link_hash: ActionHash,
    /// The endpoint the link points at.
    pub target: AnyLinkableHash,
}

/// A link the CRUD layer is asked to create: base, target and kind.
#[derive(Clone, Copy, Debug, PartialEq, Eq, Structural)]
pub struct PlannedLink {
    pub base: AnyLinkableHash,
    pub target: AnyLinkableHash,
    pub link_type: LinkTypes,
}

/// The creation mutations of the links in `links` that point at the
/// mutation address `target`, in order.
pub open spec fn spec_links_targeting(links: Seq<Link>, target: ActionHash) -> Seq<ActionHash>
    decreases links.len(),
{
    if links.len() == 0 {
        Seq::empty()
    } else {
        let rest = spec_links_targeting(links.skip(1), target);
        if links[0].target == AnyLinkableHash::Action(target) {
            seq![links[0].create_link_hash] + rest
        } else {
            rest
        }
    }
}

/// Retracting a like of a like also removes the LikeToLikes back-links that
/// point at it: those among the forward links of the liked mutation whose
/// target is the retracted like. This walks every forward link of the
/// base — linear in the number of likes cast at the same like; the store
/// offers no narrower query, so the cost is inherent, not incidental.
#[verifier::loop_isolation(false)]
pub fn select_backlink_deletes(links: &Vec<Link>, like_hash: ActionHash) -> (r: Vec<ActionHash>)
    ensures
        r@ == spec_links_targeting(links@, like_hash),
{
    let ghost all: Seq<Link> = links@;
    let mut r: Vec<ActionHash> = Vec::new();
    let mut i: usize = 0;
    proof {
        assert(all.skip(0) =~= all);
    }
    while i < links.len()
        invariant
            0 <= i <= all.len(),
            r@ + spec_links_targeting(all.skip(i as int), like_hash) == spec_links_targeting(
                all,
                like_hash,
            ),
        decreases all.len() - i,
    {
        proof {
            assert(all.skip(i as int)[0] == all[i as int]);
            assert(all.skip(i as int).skip(1) =~= all.skip(i as int + 1));
        }
        let ghost r_before: Seq<ActionHash> = r@;
        match links[i].target {
            AnyLinkableHash::Action(h) => {
                if h == like_hash {
                    r.push(links[i].create_link_hash);
                    proof {
                        assert(r@ + spec_links_targeting(all.skip(i as int + 1), like_hash)
                            =~= r_before + spec_links_targeting(all.skip(i as int), like_hash));
                    }
                }
            },
            _ => {},
        }
        i = i + 1;
    }
    proof {
        assert(all.skip(all.len() as int) =~= Seq::<Link>::empty());
        assert(r@ + Seq::<ActionHash>::empty() =~= r@);
    }
    r
}

/// The planned endorsement links: each endorsed certificate's content
/// address to the new certificate's creation mutation.
pub open spec fn spec_certification_links(
    certificate: Certificate,
    certificate_hash: ActionHash,
) -> Seq<PlannedLink> {
    certificate.certifications_hashes@.map_values(
        |h|
            PlannedLink {
                base: AnyLinkableHash::Entry(h),
                target: AnyLinkableHash::Action(certificate_hash),
                link_type: LinkTypes::CertificateToCertificates,
            },
    )
}

/// The links a newly created certificate is indexed by: the certified post
/// to the certificate, the certified agent to the certificate, and each
/// endorsed certificate to the new one, in that order.
pub open spec fn spec_certificate_index_links(
    certificate: Certificate,
    certificate_hash: ActionHash,
) -> Seq<PlannedLink> {
    seq![
        PlannedLink {
            base: AnyLinkableHash::Action(certificate.post_hash),
            target: AnyLinkableHash::Action(certificate_hash),
            link_type: LinkTypes::PostToCertificates,
        },
        PlannedLink {
            base: AnyLinkableHash::Agent(certificate.agent),
            target: AnyLinkableHash::Action(certificate_hash),
            link_type: LinkTypes::CertifiedToCertificates,
        },
    ] + spec_certification_links(certificate, certificate_hash)
}

/// Plan the index links for a newly created certificate.
#[verifier::loop_isolation(false)]
pub fn certificate_index_links(certificate: &Certificate, certificate_hash: ActionHash) -> (r: Vec<
    PlannedLink,
>)
    ensures
        r@ == spec_certificate_index_links(*certificate, certificate_hash),
{
    let mut r: Vec<PlannedLink> = Vec::new();
    r.push(
        PlannedLink {
            base: AnyLinkableHash::Action(certificate.post_hash),
            target: AnyLinkableHash::Action(certificate_hash),
            link_type: LinkTypes::PostToCertificates,
        },
    );
    r.push(
        PlannedLink {
            base: AnyLinkableHash::Agent(certificate.agent),
            target: AnyLinkableHash::Action(certificate_hash),
            link_type: LinkTypes::CertifiedToCertificates,
        },
    );
    let ghost prefix: Seq<PlannedLink> = r@;
    let mut i: usize = 0;
    while i < certificate.certifications_hashes.len()
        invariant
            0 <= i <= certificate.certifications_hashes@.len(),
            r@ == prefix + spec_certification_links(*certificate, certificate_hash).take(i as int),
        decreases certificate.certifications_hashes@.len() - i,
    {
        let h = certificate.certifications_hashes[i];
        r.push(
            PlannedLink {
                base: AnyLinkableHash::Entry(h),
                target: AnyLinkableHash::Action(certificate_hash),
                link_type: LinkTypes::CertificateToCertificates,
            },
        );
        proof {
            assert(spec_certification_links(*certificate, certificate_hash).take(i as int + 1)
                =~= spec_certification_links(*certificate, certificate_hash).take(i as int).push(
                spec_certification_links(*certificate, certificate_hash)[i as int],
            ));
            assert(r@ =~= prefix + spec_certification_links(*certificate, certificate_hash).take(
                i as int + 1,
            ));
        }
        i = i + 1;
    }
    proof {
        let links = spec_certification_links(*certificate, certificate_hash);
        assert(links.take(links.len() as int) =~= links);
        assert(prefix + links =~= spec_certificate_index_links(*certificate, certificate_hash));
    }
    r
}

/// The index link a newly cast like asks for: where it is a like of a
/// like, one LikeToLikes link from the liked mutation to the new one;
/// a plain like asks for none.
pub open spec fn spec_like_index_links(like: Like, like_hash_new: ActionHash) -> Seq<PlannedLink> {
    match like.like_hash {
        None => Seq::empty(),
        Some(base) => seq![
            PlannedLink {
                base: AnyLinkableHash::Action(base),
                target: AnyLinkableHash::Action(like_hash_new),
                link_type: LinkTypes::LikeToLikes,
            },
        ],
    }
}

/// Plan the index links for a newly cast like.
pub fn like_index_links(like: &Like, like_hash_new: ActionHash) -> (r: Vec<PlannedLink>)
    ensures
        r@ == spec_like_index_links(*like, like_hash_new),
{
    let mut r: Vec<PlannedLink> = Vec::new();
    match like.like_hash {
        None => {},
        Some(base) => {
            r.push(
                PlannedLink {
                    base: AnyLinkableHash::Action(base),
                    target: AnyLinkableHash::Action(like_hash_new),
                    link_type: LinkTypes::LikeToLikes,
                },
            );
            proof {
                assert(r@ =~= spec_like_index_links(*like, like_hash_new));
            }
        },
    }
    r
}

/// Among the delete records for one mutation, the authoritative one is the
/// oldest: the first record whose timestamp no other undercuts. Returns its
/// index, or nothing when there are no deletes.
pub fn index_of_oldest(timestamps: &Vec<u64>) -> (r: Option<usize>)
    ensures
        match r {
            None => timestamps@.len() == 0,
            Some(i) => {
                &&& 0 <= i < timestamps@.len()
                &&& forall|j: int|
                    0 <= j < timestamps@.len() ==> timestamps@[i as int] <= #[trigger] timestamps@[j]
                &&& forall|j: int| 0 <= j < i ==> timestamps@[i as int] < #[trigger] timestamps@[j]
            },
        },
{
    if timestamps.len() == 0 {
        return None;
    }
    let mut best: usize = 0;
    let mut i: usize = 1;
    while i < timestamps.len()
        invariant
            0 <= best < i <= timestamps@.len(),
            forall|j: int| 0 <= j < i ==> timestamps@[best as int] <= #[trigger] timestamps@[j],
            forall|j: int| 0 <= j < best ==> timestamps@[best as int] < #[trigger] timestamps@[j],
        decreases timestamps@.len() - i,
    {
        if timestamps[i] < timestamps[best] {
            best = i;
        }
        i = i + 1;
    }
    Some(best)
}

/// Which of the listed links have been deleted at least once: the indices,
/// in order, of the entries whose delete count is positive. The store lists
/// each link's creation together with the mutations that deleted it; the
/// caller keeps the pairs and asks here which to report as deleted.
pub fn indices_with_deletes(delete_counts: &Vec<usize>) -> (r: Vec<usize>)
    ensures
        forall|k: int|
            0 <= k < r@.len() ==> 0 <= #[trigger] r@[k] < delete_counts@.len() && delete_counts@[r@[k] as int]
                > 0,
        forall|i: int|
            0 <= i < delete_counts@.len() && #[trigger] delete_counts@[i] > 0 ==> r@.contains(
                i as usize,
            ),
        forall|k1: int, k2: int| 0 <= k1 < k2 < r@.len() ==> #[trigger] r@[k1] < #[trigger] r@[k2],
{
    let mut r: Vec<usize> = Vec::new();
    let mut i: usize = 0;
    while i < delete_counts.len()
        invariant
            0 <= i <= delete_counts@.len(),
            forall|k: int|
                0 <= k < r@.len() ==> 0 <= #[trigger] r@[k] < i && delete_counts@[r@[k] as int] > 0,
            forall|j: int|
                0 <= j < i && #[trigger] delete_counts@[j] > 0 ==> r@.contains(j as usize),
            forall|k1: int, k2: int|
                0 <= k1 < k2 < r@.len() ==> #[trigger] r@[k1] < #[trigger] r@[k2],
        decreases delete_counts@.len() - i,
    {
        let ghost r_before: Seq<usize> = r@;
        if delete_counts[i] > 0 {
            r.push(i);
            proof {
                assert(r@[r@.len() - 1] == i);
                assert forall|x: usize| r_before.contains(x) implies r@.contains(x) by {
                    let k = choose|k: int| 0 <= k < r_before.len() && r_before[k] == x;
                    assert(r@[k] == x);
                }
            }
        }
        i = i + 1;
    }
    r
}

} // verus!

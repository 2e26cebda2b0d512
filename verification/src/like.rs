//! Like content and its rules.
//!
//! A like is cast by an agent, optionally at another like (a like of a
//! like). Likes are immutable once cast: the update rule rejects
//! unconditionally. Retracting a like is permitted, so the delete rule
//! accepts. A like of a like must point at something that really is a like:
//! the create rule follows `like_hash` through the store.

use vstd::prelude::*;

use crate::hash::ActionHash;
use crate::hash::AgentPubKey;
use crate::hash::AnyLinkableHash;
use crate::record::CreateLink;
use crate::record::Delete;
use crate::record::DeleteLink;
use crate::record::EntryCreationAction;
use crate::record::LinkTag;
use crate::record::UnitEntryTypes;
use crate::record::Update;
use crate::store::check_dependant_record;
use crate::store::check_linked_record;
use crate::store::spec_dependant_record_verdict;
use crate::store::spec_linked_record_verdict;
use crate::store::Store;
use crate::verdict::Reason;
use crate::verdict::Verdict;

verus! {

/// A like, optionally of another like.
#[derive(Clone, Copy, Debug, PartialEq, Eq, Structural)]
pub struct Like {
    /// Creation mutation of the like this like is cast at, if any.
    pub like_hash: Option<ActionHash>,
    /// The agent casting the like.
    pub agent: AgentPubKey,
}

/// What creating a like amounts to: with no reference it is valid outright;
/// with one, the referenced mutation must resolve to Like content.
pub open spec fn spec_validate_create_like(like: Like, store: Store) -> Verdict {
    match like.like_hash {
        None => Verdict::Valid,
        Some(h) => spec_dependant_record_verdict(store, h, UnitEntryTypes::Like),
    }
}

/// A like of a like must reference an existing like; a plain like is always
/// accepted.
pub fn validate_create_like(
    _action: &EntryCreationAction,
    like: &Like,
    store: &Store,
) -> (v: Verdict)
    ensures
        v == spec_validate_create_like(*like, *store),
{
    match like.like_hash {
        None => Verdict::Valid,
        Some(h) => check_dependant_record(store, h, UnitEntryTypes::Like),
    }
}

/// Likes are immutable once cast.
pub fn validate_update_like(
    _action: &Update,
    _like: &Like,
    _original_action: &EntryCreationAction,
    _original_like: &Like,
) -> (v: Verdict)
    ensures
        v == Verdict::Invalid(Reason::LikesCannotBeUpdated),
{
    Verdict::Invalid(Reason::LikesCannotBeUpdated)
}

/// Retracting a like is permitted, whatever the like was.
pub fn validate_delete_like(
    _action: &Delete,
    _original_action: &EntryCreationAction,
    _original_like: &Like,
) -> (v: Verdict)
    ensures
        v == Verdict::Valid,
{
    Verdict::Valid
}

/// What creating a LikeToLikes link amounts to: both endpoints must be
/// mutation addresses resolving to Like content, the base checked first.
pub open spec fn spec_validate_create_link_like_to_likes(
    base_address: AnyLinkableHash,
    target_address: AnyLinkableHash,
    store: Store,
) -> Verdict {
    let base_check = spec_linked_record_verdict(store, base_address, UnitEntryTypes::Like);
    if base_check != Verdict::Valid {
        base_check
    } else {
        spec_linked_record_verdict(store, target_address, UnitEntryTypes::Like)
    }
}

/// A LikeToLikes link signals a like of a like, and is also what deletion
/// walks to find back-links: both ends must be likes.
pub fn validate_create_link_like_to_likes(
    _action: &CreateLink,
    base_address: AnyLinkableHash,
    target_address: AnyLinkableHash,
    _tag: &LinkTag,
    store: &Store,
) -> (v: Verdict)
    ensures
        v == spec_validate_create_link_like_to_likes(base_address, target_address, *store),
{
    let base_check = check_linked_record(store, &base_address, UnitEntryTypes::Like);
    if !base_check.is_valid() {
        return base_check;
    }
    check_linked_record(store, &target_address, UnitEntryTypes::Like)
}

/// LikeToLikes links may be pruned when a like is retracted.
pub fn validate_delete_link_like_to_likes(
    _action: &DeleteLink,
    _original_action: &CreateLink,
    _base: AnyLinkableHash,
    _target: AnyLinkableHash,
    _tag: &LinkTag,
) -> (v: Verdict)
    ensures
        v == Verdict::Valid,
{
    Verdict::Valid
}

} // verus!

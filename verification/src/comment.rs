//! Comment content and its rules.
//!
//! A comment names the post it belongs to, but the entry rules place no
//! structural constraint on it: like a post it may always be created,
//! updated and deleted. The PostToComments link kind is what ties a comment
//! into the graph, and its endpoints are checked when the link is created.

use vstd::prelude::*;

use crate::hash::ActionHash;
use crate::hash::AnyLinkableHash;
use crate::record::CreateLink;
use crate::record::Delete;
use crate::record::DeleteLink;
use crate::record::EntryCreationAction;
use crate::record::LinkTag;
use crate::record::UnitEntryTypes;
use crate::record::Update;
use crate::store::check_linked_record;
use crate::store::spec_linked_record_verdict;
use crate::store::Store;
use crate::verdict::Verdict;

verus! {

/// A comment under a post; `post_hash` is the post's creation mutation.
#[derive(Clone, Copy, Debug, PartialEq, Eq, Structural)]
pub struct Comment {
    pub post_hash: ActionHash,
}

/// A comment may always be created.
pub fn validate_create_comment(_action: &EntryCreationAction, _comment: &Comment) -> (v: Verdict)
    ensures
        v == Verdict::Valid,
{
    Verdict::Valid
}

/// A comment may always be updated.
pub fn validate_update_comment(
    _action: &Update,
    _comment: &Comment,
    _original_action: &EntryCreationAction,
    _original_comment: &Comment,
) -> (v: Verdict)
    ensures
        v == Verdict::Valid,
{
    Verdict::Valid
}

/// A comment may always be deleted.
pub fn validate_delete_comment(
    _action: &Delete,
    _original_action: &EntryCreationAction,
    _original_comment: &Comment,
) -> (v: Verdict)
    ensures
        v == Verdict::Valid,
{
    Verdict::Valid
}

/// What creating a PostToComments link amounts to: the base must resolve to
/// Post content and the target to Comment content, the base checked first.
pub open spec fn spec_validate_create_link_post_to_comments(
    base_address: AnyLinkableHash,
    target_address: AnyLinkableHash,
    store: Store,
) -> Verdict {
    let base_check = spec_linked_record_verdict(store, base_address, UnitEntryTypes::Post);
    if base_check != Verdict::Valid {
        base_check
    } else {
        spec_linked_record_verdict(store, target_address, UnitEntryTypes::Comment)
    }
}

/// A PostToComments link hangs a comment under a post: the base must be a
/// post and the target a comment.
pub fn validate_create_link_post_to_comments(
    _action: &CreateLink,
    base_address: AnyLinkableHash,
    target_address: AnyLinkableHash,
    _tag: &LinkTag,
    store: &Store,
) -> (v: Verdict)
    ensures
        v == spec_validate_create_link_post_to_comments(base_address, target_address, *store),
{
    let base_check = check_linked_record(store, &base_address, UnitEntryTypes::Post);
    if !base_check.is_valid() {
        return base_check;
    }
    check_linked_record(store, &target_address, UnitEntryTypes::Comment)
}

/// PostToComments links may be pruned when a comment is deleted.
pub fn validate_delete_link_post_to_comments(
    _action: &DeleteLink,
    _original_action: &CreateLink,
    _base: AnyLinkableHash,
    _target: AnyLinkableHash,
    _tag: &LinkTag,
) -> (v: Verdict)
    ensures
        v == Verdict::Valid,
{
    Verdict::Valid
}

} // verus!

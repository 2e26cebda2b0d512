//! Post content and its rules.
//!
//! A post is leaf content: a title and an ordered list of needs, with no
//! cross-references to other records. Creation, update and deletion carry no
//! structural constraint beyond the type match the classifier has already
//! established, so the entry rules all accept. The link kinds that index
//! posts do carry constraints: their post endpoint must resolve to real Post
//! content.

use vstd::prelude::*;

use crate::hash::AnyLinkableHash;
use crate::record::CreateLink;
use crate::record::Delete;
use crate::record::DeleteLink;
use crate::record::EntryCreationAction;
use crate::record::LinkTag;
use crate::record::UnitEntryTypes;
use crate::record::Update;
use crate::store::check_linked_content;
use crate::store::check_linked_record;
use crate::store::spec_linked_content_verdict;
use crate::store::spec_linked_record_verdict;
use crate::store::Store;
use crate::verdict::Reason;
use crate::verdict::Verdict;

verus! {

/// A post: the root content type of the graph.
#[derive(Clone, Debug)]
pub struct Post {
    pub title: String,
    pub needs: Vec<String>,
}

/// A post may always be created: it references nothing.
pub fn validate_create_post(_action: &EntryCreationAction, _post: &Post) -> (v: Verdict)
    ensures
        v == Verdict::Valid,
{
    Verdict::Valid
}

/// A post may always be updated; revisions form a chain the caller records
/// with PostUpdates links.
pub fn validate_update_post(
    _action: &Update,
    _post: &Post,
    _original_action: &EntryCreationAction,
    _original_post: &Post,
) -> (v: Verdict)
    ensures
        v == Verdict::Valid,
{
    Verdict::Valid
}

/// A post may always be deleted.
pub fn validate_delete_post(
    _action: &Delete,
    _original_action: &EntryCreationAction,
    _original_post: &Post,
) -> (v: Verdict)
    ensures
        v == Verdict::Valid,
{
    Verdict::Valid
}

/// What creating a PostUpdates link amounts to: both endpoints must be
/// mutation addresses resolving to Post content, the base checked first.
pub open spec fn spec_validate_create_link_post_updates(
    base_address: AnyLinkableHash,
    target_address: AnyLinkableHash,
    store: Store,
) -> Verdict {
    let base_check = spec_linked_record_verdict(store, base_address, UnitEntryTypes::Post);
    if base_check != Verdict::Valid {
        base_check
    } else {
        spec_linked_record_verdict(store, target_address, UnitEntryTypes::Post)
    }
}

/// A PostUpdates link chains a post revision to its predecessor: both ends
/// must be posts.
pub fn validate_create_link_post_updates(
    _action: &CreateLink,
    base_address: AnyLinkableHash,
    target_address: AnyLinkableHash,
    _tag: &LinkTag,
    store: &Store,
) -> (v: Verdict)
    ensures
        v == spec_validate_create_link_post_updates(base_address, target_address, *store),
{
    let base_check = check_linked_record(store, &base_address, UnitEntryTypes::Post);
    if !base_check.is_valid() {
        return base_check;
    }
    check_linked_record(store, &target_address, UnitEntryTypes::Post)
}

/// A post's revision chain is permanent once established.
pub fn validate_delete_link_post_updates(
    _action: &DeleteLink,
    _original_action: &CreateLink,
    _base: AnyLinkableHash,
    _target: AnyLinkableHash,
    _tag: &LinkTag,
) -> (v: Verdict)
    ensures
        v == Verdict::Invalid(Reason::PostUpdatesLinksCannotBeDeleted),
{
    Verdict::Invalid(Reason::PostUpdatesLinksCannotBeDeleted)
}

/// What creating an AllPosts link amounts to: the target must be a mutation
/// address resolving to Post content; the base is the global index anchor
/// and goes unchecked.
pub open spec fn spec_validate_create_link_all_posts(
    target_address: AnyLinkableHash,
    store: Store,
) -> Verdict {
    spec_linked_record_verdict(store, target_address, UnitEntryTypes::Post)
}

/// An AllPosts link indexes a post globally: the target must be a post.
pub fn validate_create_link_all_posts(
    _action: &CreateLink,
    _base_address: AnyLinkableHash,
    target_address: AnyLinkableHash,
    _tag: &LinkTag,
    store: &Store,
) -> (v: Verdict)
    ensures
        v == spec_validate_create_link_all_posts(target_address, *store),
{
    check_linked_record(store, &target_address, UnitEntryTypes::Post)
}

/// The global post index may be pruned.
pub fn validate_delete_link_all_posts(
    _action: &DeleteLink,
    _original_action: &CreateLink,
    _base: AnyLinkableHash,
    _target: AnyLinkableHash,
    _tag: &LinkTag,
) -> (v: Verdict)
    ensures
        v == Verdict::Valid,
{
    Verdict::Valid
}

/// What creating a PostsByAuthor link amounts to: the target must be a
/// mutation address resolving to Post content; the base is an agent.
pub open spec fn spec_validate_create_link_posts_by_author(
    target_address: AnyLinkableHash,
    store: Store,
) -> Verdict {
    spec_linked_record_verdict(store, target_address, UnitEntryTypes::Post)
}

/// A PostsByAuthor link indexes a post under its author: the target must be
/// a post.
pub fn validate_create_link_posts_by_author(
    _action: &CreateLink,
    _base_address: AnyLinkableHash,
    target_address: AnyLinkableHash,
    _tag: &LinkTag,
    store: &Store,
) -> (v: Verdict)
    ensures
        v == spec_validate_create_link_posts_by_author(target_address, *store),
{
    check_linked_record(store, &target_address, UnitEntryTypes::Post)
}

/// The per-author post index may be pruned.
pub fn validate_delete_link_posts_by_author(
    _action: &DeleteLink,
    _original_action: &CreateLink,
    _base: AnyLinkableHash,
    _target: AnyLinkableHash,
    _tag: &LinkTag,
) -> (v: Verdict)
    ensures
        v == Verdict::Valid,
{
    Verdict::Valid
}

/// What creating an AllPostsEntryHash link amounts to: the target must be a
/// content address resolving to Post content.
pub open spec fn spec_validate_create_link_all_posts_entry_hash(
    target_address: AnyLinkableHash,
    store: Store,
) -> Verdict {
    spec_linked_content_verdict(store, target_address, UnitEntryTypes::Post)
}

/// An AllPostsEntryHash link indexes a post globally by content address.
pub fn validate_create_link_all_posts_entry_hash(
    _action: &CreateLink,
    _base_address: AnyLinkableHash,
    target_address: AnyLinkableHash,
    _tag: &LinkTag,
    store: &Store,
) -> (v: Verdict)
    ensures
        v == spec_validate_create_link_all_posts_entry_hash(target_address, *store),
{
    check_linked_content(store, &target_address, UnitEntryTypes::Post)
}

/// The content-addressed global post index may be pruned.
pub fn validate_delete_link_all_posts_entry_hash(
    _action: &DeleteLink,
    _original_action: &CreateLink,
    _base: AnyLinkableHash,
    _target: AnyLinkableHash,
    _tag: &LinkTag,
) -> (v: Verdict)
    ensures
        v == Verdict::Valid,
{
    Verdict::Valid
}

/// What creating a PostsByAuthorEntryHash link amounts to: the target must
/// be a content address resolving to Post content.
pub open spec fn spec_validate_create_link_posts_by_author_entry_hash(
    target_address: AnyLinkableHash,
    store: Store,
) -> Verdict {
    spec_linked_content_verdict(store, target_address, UnitEntryTypes::Post)
}

/// A PostsByAuthorEntryHash link indexes a post under its author by content
/// address.
pub fn validate_create_link_posts_by_author_entry_hash(
    _action: &CreateLink,
    _base_address: AnyLinkableHash,
    target_address: AnyLinkableHash,
    _tag: &LinkTag,
    store: &Store,
) -> (v: Verdict)
    ensures
        v == spec_validate_create_link_posts_by_author_entry_hash(target_address, *store),
{
    check_linked_content(store, &target_address, UnitEntryTypes::Post)
}

/// The content-addressed per-author post index may be pruned.
pub fn validate_delete_link_posts_by_author_entry_hash(
    _action: &DeleteLink,
    _original_action: &CreateLink,
    _base: AnyLinkableHash,
    _target: AnyLinkableHash,
    _tag: &LinkTag,
) -> (v: Verdict)
    ensures
        v == Verdict::Valid,
{
    Verdict::Valid
}

} // verus!

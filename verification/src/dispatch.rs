//! The dispatch entry point.
//!
//! `validate` receives one candidate operation and the dependency snapshot,
//! classifies the operation by its kind and by the content or link type it
//! declares, and routes it to the rule for that pair. The routing is total:
//! every operation the log layer can produce gets a verdict, and types this
//! application does not recognize pass as valid so that third-party
//! extensions sharing the network are not rejected.
//!
//! Each exec function is pinned to a spec twin; `spec_validate` is the
//! complete mathematical description of the validator, and everything the
//! library claims about verdicts is stated over it.

use vstd::prelude::*;

use crate::certificate::spec_validate_create_certificate;
use crate::certificate::spec_validate_create_link_certificate_to_certificates;
use crate::certificate::spec_validate_create_link_certified_to_certificates;
use crate::certificate::spec_validate_create_link_post_to_certificates;
use crate::certificate::validate_create_certificate;
use crate::certificate::validate_create_link_certificate_to_certificates;
use crate::certificate::validate_create_link_certified_to_certificates;
use crate::certificate::validate_create_link_post_to_certificates;
use crate::certificate::validate_delete_certificate;
use crate::certificate::validate_delete_link_certificate_to_certificates;
use crate::certificate::validate_delete_link_certified_to_certificates;
use crate::certificate::validate_delete_link_post_to_certificates;
use crate::certificate::validate_update_certificate;
use crate::comment::spec_validate_create_link_post_to_comments;
use crate::comment::validate_create_comment;
use crate::comment::validate_create_link_post_to_comments;
use crate::comment::validate_delete_comment;
use crate::comment::validate_delete_link_post_to_comments;
use crate::comment::validate_update_comment;
use crate::hash::ActionHash;
use crate::hash::AgentPubKey;
use crate::hash::AnyLinkableHash;
use crate::like::spec_validate_create_like;
use crate::like::spec_validate_create_link_like_to_likes;
use crate::like::validate_create_like;
use crate::like::validate_create_link_like_to_likes;
use crate::like::validate_delete_like;
use crate::like::validate_delete_link_like_to_likes;
use crate::like::validate_update_like;
use crate::post::spec_validate_create_link_all_posts;
use crate::post::spec_validate_create_link_all_posts_entry_hash;
use crate::post::spec_validate_create_link_post_updates;
use crate::post::spec_validate_create_link_posts_by_author;
use crate::post::spec_validate_create_link_posts_by_author_entry_hash;
use crate::post::validate_create_link_all_posts;
use crate::post::validate_create_link_all_posts_entry_hash;
use crate::post::validate_create_link_post_updates;
use crate::post::validate_create_link_posts_by_author;
use crate::post::validate_create_link_posts_by_author_entry_hash;
use crate::post::validate_create_post;
use crate::post::validate_delete_link_all_posts;
use crate::post::validate_delete_link_all_posts_entry_hash;
use crate::post::validate_delete_link_post_updates;
use crate::post::validate_delete_link_posts_by_author;
use crate::post::validate_delete_link_posts_by_author_entry_hash;
use crate::post::validate_delete_post;
use crate::post::validate_update_post;
use crate::record::Action;
use crate::record::CreateLink;
use crate::record::Delete;
use crate::record::DeleteLink;
use crate::record::Entry;
use crate::record::EntryCreationAction;
use crate::record::EntryType;
use crate::record::EntryTypes;
use crate::record::EntryVisibility;
use crate::record::LinkTag;
use crate::record::LinkTypeTag;
use crate::record::LinkTypes;
use crate::record::Op;
use crate::record::OpActivity;
use crate::record::Record;
use crate::record::UnitEntryTypes;
use crate::record::Update;
use crate::store::Store;
use crate::verdict::Reason;
use crate::verdict::Verdict;

verus! {

/// Rule for creating content of any of this application's types, keyed by
/// the decoded payload. Posts and comments are leaf content and always
/// valid; likes and certificates carry references that must resolve.
pub open spec fn spec_validate_entry_create(app_entry: EntryTypes, store: Store) -> Verdict {
    match app_entry {
        EntryTypes::Post(_) => Verdict::Valid,
        EntryTypes::Comment(_) => Verdict::Valid,
        EntryTypes::Like(like) => spec_validate_create_like(like, store),
        EntryTypes::Certificate(certificate) => spec_validate_create_certificate(
            certificate,
            store,
        ),
    }
}

/// Rule for updating content: the new and original payloads must be of the
/// same type, and that type must admit updates at all.
pub open spec fn spec_validate_entry_update(
    app_entry: EntryTypes,
    original_app_entry: EntryTypes,
) -> Verdict {
    match (app_entry, original_app_entry) {
        (EntryTypes::Post(_), EntryTypes::Post(_)) => Verdict::Valid,
        (EntryTypes::Comment(_), EntryTypes::Comment(_)) => Verdict::Valid,
        (EntryTypes::Like(_), EntryTypes::Like(_)) => Verdict::Invalid(
            Reason::LikesCannotBeUpdated,
        ),
        (EntryTypes::Certificate(_), EntryTypes::Certificate(_)) => Verdict::Invalid(
            Reason::CertificatesCannotBeUpdated,
        ),
        _ => Verdict::Invalid(Reason::UpdateTypePairMismatch),
    }
}

/// Rule for deleting content, keyed by the type of the deleted payload.
pub open spec fn spec_validate_entry_delete(original_app_entry: EntryTypes) -> Verdict {
    match original_app_entry {
        EntryTypes::Post(_) => Verdict::Valid,
        EntryTypes::Comment(_) => Verdict::Valid,
        EntryTypes::Like(_) => Verdict::Valid,
        EntryTypes::Certificate(_) => Verdict::Invalid(Reason::CertificatesCannotBeDeleted),
    }
}

/// Rule for creating a link, keyed by its kind: each kind names which
/// endpoints must resolve to which content type.
pub open spec fn spec_validate_link_create(
    link_type: LinkTypes,
    base_address: AnyLinkableHash,
    target_address: AnyLinkableHash,
    store: Store,
) -> Verdict {
    match link_type {
        LinkTypes::PostUpdates => spec_validate_create_link_post_updates(
            base_address,
            target_address,
            store,
        ),
        LinkTypes::PostToComments => spec_validate_create_link_post_to_comments(
            base_address,
            target_address,
            store,
        ),
        LinkTypes::LikeToLikes => spec_validate_create_link_like_to_likes(
            base_address,
            target_address,
            store,
        ),
        LinkTypes::PostToCertificates => spec_validate_create_link_post_to_certificates(
            base_address,
            target_address,
            store,
        ),
        LinkTypes::CertifiedToCertificates => spec_validate_create_link_certified_to_certificates(
            target_address,
            store,
        ),
        LinkTypes::CertificateToCertificates => spec_validate_create_link_certificate_to_certificates(
            base_address,
            target_address,
            store,
        ),
        LinkTypes::AllPosts => spec_validate_create_link_all_posts(target_address, store),
        LinkTypes::PostsByAuthor => spec_validate_create_link_posts_by_author(
            target_address,
            store,
        ),
        LinkTypes::AllPostsEntryHash => spec_validate_create_link_all_posts_entry_hash(
            target_address,
            store,
        ),
        LinkTypes::PostsByAuthorEntryHash => spec_validate_create_link_posts_by_author_entry_hash(
            target_address,
            store,
        ),
    }
}

/// Rule for deleting a link, keyed by its kind: the relational indexes are
/// permanent, the prunable indexes are not.
pub open spec fn spec_validate_link_delete(link_type: LinkTypes) -> Verdict {
    match link_type {
        LinkTypes::PostUpdates => Verdict::Invalid(Reason::PostUpdatesLinksCannotBeDeleted),
        LinkTypes::PostToComments => Verdict::Valid,
        LinkTypes::LikeToLikes => Verdict::Valid,
        LinkTypes::PostToCertificates => Verdict::Invalid(
            Reason::PostToCertificatesLinksCannotBeDeleted,
        ),
        LinkTypes::CertifiedToCertificates => Verdict::Invalid(
            Reason::CertifiedToCertificatesLinksCannotBeDeleted,
        ),
        LinkTypes::CertificateToCertificates => Verdict::Invalid(
            Reason::CertificateToCertificatesLinksCannotBeDeleted,
        ),
        LinkTypes::AllPosts => Verdict::Valid,
        LinkTypes::PostsByAuthor => Verdict::Valid,
        LinkTypes::AllPostsEntryHash => Verdict::Valid,
        LinkTypes::PostsByAuthorEntryHash => Verdict::Valid,
    }
}

/// Verdict on a stored update record: the revised mutation must resolve to
/// a creation whose entry decodes to the same type as the new payload, the
/// creation rule must accept the new payload, and then the update rule for
/// the type decides.
pub open spec fn spec_validate_store_record_update(
    update: Update,
    app_entry: EntryTypes,
    store: Store,
) -> Verdict {
    match store.spec_fetch_record(update.original_action_address) {
        None => Verdict::Pending,
        Some(original_record) => match original_record.action {
            Action::Create(_) | Action::Update(_) => {
                let create_check = spec_validate_entry_create(app_entry, store);
                if create_check != Verdict::Valid {
                    create_check
                } else {
                    match original_record.entry {
                        Some(Entry::App(original_app_entry)) => if original_app_entry.spec_unit()
                            == app_entry.spec_unit() {
                            spec_validate_entry_update(app_entry, original_app_entry)
                        } else {
                            Verdict::Invalid(Reason::UpdatedEntryTypeDiffers)
                        },
                        _ => Verdict::Invalid(Reason::UpdatedEntryTypeDiffers),
                    }
                }
            },
            _ => Verdict::Invalid(Reason::UpdateOriginalNotCreation),
        },
    }
}

/// Verdict on a stored delete record: the deleted mutation must resolve to
/// a creation; system entry types pass; a public application entry must
/// still carry its payload, which must decode to one of this application's
/// types, and then the delete rule for the type decides.
pub open spec fn spec_validate_store_record_delete(delete: Delete, store: Store) -> Verdict {
    match store.spec_fetch_record(delete.deletes_address) {
        None => Verdict::Pending,
        Some(original_record) => {
            let creation = match original_record.action {
                Action::Create(c) => Some(EntryCreationAction::Create(c)),
                Action::Update(u) => Some(EntryCreationAction::Update(u)),
                _ => None,
            };
            match creation {
                None => Verdict::Invalid(Reason::DeleteOriginalNotCreation),
                Some(creation) => match creation.spec_entry_type() {
                    EntryType::App(def) => match original_record.entry {
                        None => if def.visibility == EntryVisibility::Public {
                            Verdict::Invalid(Reason::DeletedEntryAbsent)
                        } else {
                            Verdict::Valid
                        },
                        Some(Entry::App(original_app_entry)) => spec_validate_entry_delete(
                            original_app_entry,
                        ),
                        Some(Entry::Other) => Verdict::Invalid(Reason::DeleteOriginalForeignType),
                    },
                    _ => Verdict::Valid,
                },
            }
        },
    }
}

/// Verdict on a stored link-delete record: the deleted mutation must
/// resolve to a link creation; foreign link kinds pass; for a kind of this
/// application the link-delete rule decides.
pub open spec fn spec_validate_store_record_delete_link(
    delete_link: DeleteLink,
    store: Store,
) -> Verdict {
    match store.spec_fetch_record(delete_link.link_add_address) {
        None => Verdict::Pending,
        Some(record) => match record.action {
            Action::CreateLink(create_link) => match create_link.link_type {
                LinkTypeTag::Known(link_type) => spec_validate_link_delete(link_type),
                LinkTypeTag::Foreign => Verdict::Valid,
            },
            _ => Verdict::Invalid(Reason::DeleteLinkOriginalNotCreateLink),
        },
    }
}

/// Verdict on a stored record, keyed by the kind of action it carries.
pub open spec fn spec_validate_store_record(record: Record, store: Store) -> Verdict {
    match record.action {
        Action::Create(_) => match record.entry {
            Some(Entry::App(app_entry)) => spec_validate_entry_create(app_entry, store),
            _ => Verdict::Valid,
        },
        Action::Update(update) => match record.entry {
            Some(Entry::App(app_entry)) => spec_validate_store_record_update(
                update,
                app_entry,
                store,
            ),
            _ => Verdict::Valid,
        },
        Action::Delete(delete) => spec_validate_store_record_delete(delete, store),
        Action::CreateLink(create_link) => match create_link.link_type {
            LinkTypeTag::Known(link_type) => spec_validate_link_create(
                link_type,
                create_link.base_address,
                create_link.target_address,
                store,
            ),
            LinkTypeTag::Foreign => Verdict::Valid,
        },
        Action::DeleteLink(delete_link) => spec_validate_store_record_delete_link(
            delete_link,
            store,
        ),
        Action::AgentValidationPkg(_) => Verdict::Valid,
        Action::Other => Verdict::Valid,
    }
}

/// Verdict on a chain-activity record: a peer's create-agent record must be
/// immediately preceded in its own chain by an admission-package record;
/// the credential itself is accepted unconditionally (open membership).
pub open spec fn spec_validate_agent_activity(activity: OpActivity, store: Store) -> Verdict {
    match activity {
        OpActivity::CreateAgent { agent: _, prev_action } => match store.spec_fetch_record(
            prev_action,
        ) {
            None => Verdict::Pending,
            Some(record) => match record.action {
                Action::AgentValidationPkg(_) => Verdict::Valid,
                _ => Verdict::Invalid(Reason::PreviousActionNotAdmissionPackage),
            },
        },
        OpActivity::Other => Verdict::Valid,
    }
}

/// The complete mathematical description of the validator: one verdict for
/// every operation the log layer can produce, as a pure function of the
/// operation and the dependency snapshot.
pub open spec fn spec_validate(op: Op, store: Store) -> Verdict {
    match op {
        Op::StoreEntry { action: _, entry } => match entry {
            Entry::App(app_entry) => spec_validate_entry_create(app_entry, store),
            Entry::Other => Verdict::Valid,
        },
        Op::StoreRecord { record } => spec_validate_store_record(record, store),
        Op::RegisterUpdate { update: _, new_entry, original_action: _, original_entry } => match new_entry {
            Some(Entry::App(app_entry)) => match original_entry {
                Some(Entry::App(original_app_entry)) => spec_validate_entry_update(
                    app_entry,
                    original_app_entry,
                ),
                _ => Verdict::Invalid(Reason::UpdateTypePairMismatch),
            },
            _ => Verdict::Valid,
        },
        Op::RegisterDelete { delete: _, original_action: _, original_entry } => match original_entry {
            Some(Entry::App(original_app_entry)) => spec_validate_entry_delete(original_app_entry),
            _ => Verdict::Valid,
        },
        Op::RegisterCreateLink { create_link } => match create_link.link_type {
            LinkTypeTag::Known(link_type) => spec_validate_link_create(
                link_type,
                create_link.base_address,
                create_link.target_address,
                store,
            ),
            LinkTypeTag::Foreign => Verdict::Valid,
        },
        Op::RegisterDeleteLink { delete_link: _, create_link } => match create_link.link_type {
            LinkTypeTag::Known(link_type) => spec_validate_link_delete(link_type),
            LinkTypeTag::Foreign => Verdict::Valid,
        },
        Op::RegisterAgentActivity { activity } => spec_validate_agent_activity(activity, store),
    }
}

/// Certificates are immutable: an update operation whose payloads decode
/// to certificates is invalid with the fixed reason, whatever the payloads
/// hold.
pub proof fn lemma_certificate_update_rejected(op: Op, store: Store)
    requires
        op matches Op::RegisterUpdate { new_entry, original_entry, .. } && new_entry matches Some(
            Entry::App(EntryTypes::Certificate(_)),
        ) && original_entry matches Some(Entry::App(EntryTypes::Certificate(_))),
    ensures
        spec_validate(op, store) == Verdict::Invalid(Reason::CertificatesCannotBeUpdated),
{
}

/// Certificates are non-retractable: a delete operation whose original
/// payload decodes to a certificate is invalid with the fixed reason,
/// whatever the payload holds.
pub proof fn lemma_certificate_delete_rejected(op: Op, store: Store)
    requires
        op matches Op::RegisterDelete { original_entry, .. } && original_entry matches Some(
            Entry::App(EntryTypes::Certificate(_)),
        ),
    ensures
        spec_validate(op, store) == Verdict::Invalid(Reason::CertificatesCannotBeDeleted),
{
}

/// The same holds where the delete arrives as a stored record and its
/// target has replicated: a deleted mutation that resolves to a creation
/// carrying certificate content is invalid with the fixed reason.
pub proof fn lemma_certificate_record_delete_rejected(op: Op, store: Store, delete: Delete)
    requires
        op matches Op::StoreRecord { record } && record.action == Action::Delete(delete)
            && record.entry is None,
        store.spec_fetch_record(delete.deletes_address) matches Some(original_record) && (match
            original_record.action {
            Action::Create(c) => c.entry_type matches EntryType::App(_),
            Action::Update(u) => u.entry_type matches EntryType::App(_),
            _ => false,
        }) && original_record.entry matches Some(Entry::App(EntryTypes::Certificate(_))),
    ensures
        spec_validate(op, store) == Verdict::Invalid(Reason::CertificatesCannotBeDeleted),
{
}

/// Likes are immutable: an update operation whose payloads decode to likes
/// is invalid with the fixed reason, whatever the payloads hold.
pub proof fn lemma_like_update_rejected(op: Op, store: Store)
    requires
        op matches Op::RegisterUpdate { new_entry, original_entry, .. } && new_entry matches Some(
            Entry::App(EntryTypes::Like(_)),
        ) && original_entry matches Some(Entry::App(EntryTypes::Like(_))),
    ensures
        spec_validate(op, store) == Verdict::Invalid(Reason::LikesCannotBeUpdated),
{
}

/// Retracting a like is always accepted: a delete operation whose original
/// payload decodes to a like is valid, whatever the payload holds.
pub proof fn lemma_like_delete_accepted(op: Op, store: Store)
    requires
        op matches Op::RegisterDelete { original_entry, .. } && original_entry matches Some(
            Entry::App(EntryTypes::Like(_)),
        ),
    ensures
        spec_validate(op, store) == Verdict::Valid,
{
}

/// Deleting a link of a known kind is decided by the kind alone, before
/// any dependency is consulted: the relational indexes (PostUpdates,
/// PostToCertificates, CertifiedToCertificates, CertificateToCertificates)
/// reject, every other kind accepts.
pub proof fn lemma_link_delete_policy(op: Op, store: Store, link_type: LinkTypes)
    requires
        op matches Op::RegisterDeleteLink { create_link, .. } && create_link.link_type
            == LinkTypeTag::Known(link_type),
    ensures
        spec_validate(op, store) == spec_validate_link_delete(link_type),
        (spec_validate(op, store) matches Verdict::Invalid(_)) <==> (link_type
            == LinkTypes::PostUpdates || link_type == LinkTypes::PostToCertificates || link_type
            == LinkTypes::CertifiedToCertificates || link_type
            == LinkTypes::CertificateToCertificates),
        (spec_validate(op, store) == Verdict::Valid) <==> !(link_type == LinkTypes::PostUpdates
            || link_type == LinkTypes::PostToCertificates || link_type
            == LinkTypes::CertifiedToCertificates || link_type
            == LinkTypes::CertificateToCertificates),
{
}

/// The validator is a pure function of the operation and the snapshot:
/// every run of `validate` returns `spec_validate` of its arguments, so two
/// runs on the same operation and the same snapshot return equal verdicts.
pub proof fn lemma_validate_deterministic(op: Op, store: Store, v1: Verdict, v2: Verdict)
    requires
        v1 == spec_validate(op, store),
        v2 == spec_validate(op, store),
    ensures
        v1 == v2,
{
}

/// Apply the creation rule for the type of a decoded payload.
pub fn validate_entry_create(
    action: &EntryCreationAction,
    app_entry: &EntryTypes,
    store: &Store,
) -> (v: Verdict)
    ensures
        v == spec_validate_entry_create(*app_entry, *store),
{
    match app_entry {
        EntryTypes::Post(post) => validate_create_post(action, post),
        EntryTypes::Comment(comment) => validate_create_comment(action, comment),
        EntryTypes::Like(like) => validate_create_like(action, like, store),
        EntryTypes::Certificate(certificate) => validate_create_certificate(
            action,
            certificate,
            store,
        ),
    }
}

/// Apply the update rule for a pair of decoded payloads.
pub fn validate_entry_update(
    action: &Update,
    app_entry: &EntryTypes,
    original_action: &EntryCreationAction,
    original_app_entry: &EntryTypes,
) -> (v: Verdict)
    ensures
        v == spec_validate_entry_update(*app_entry, *original_app_entry),
{
    match (app_entry, original_app_entry) {
        (EntryTypes::Post(post), EntryTypes::Post(original_post)) => validate_update_post(
            action,
            post,
            original_action,
            original_post,
        ),
        (EntryTypes::Comment(comment), EntryTypes::Comment(original_comment)) => validate_update_comment(
            action,
            comment,
            original_action,
            original_comment,
        ),
        (EntryTypes::Like(like), EntryTypes::Like(original_like)) => validate_update_like(
            action,
            like,
            original_action,
            original_like,
        ),
        (EntryTypes::Certificate(certificate), EntryTypes::Certificate(original_certificate)) => validate_update_certificate(
            action,
            certificate,
            original_action,
            original_certificate,
        ),
        _ => Verdict::Invalid(Reason::UpdateTypePairMismatch),
    }
}

/// Apply the delete rule for the type of the deleted payload.
pub fn validate_entry_delete(
    action: &Delete,
    original_action: &EntryCreationAction,
    original_app_entry: &EntryTypes,
) -> (v: Verdict)
    ensures
        v == spec_validate_entry_delete(*original_app_entry),
{
    match original_app_entry {
        EntryTypes::Post(original_post) => validate_delete_post(
            action,
            original_action,
            original_post,
        ),
        EntryTypes::Comment(original_comment) => validate_delete_comment(
            action,
            original_action,
            original_comment,
        ),
        EntryTypes::Like(original_like) => validate_delete_like(
            action,
            original_action,
            original_like,
        ),
        EntryTypes::Certificate(original_certificate) => validate_delete_certificate(
            action,
            original_action,
            original_certificate,
        ),
    }
}

/// Apply the link-creation rule for a link kind of this application.
pub fn validate_link_create(
    link_type: LinkTypes,
    action: &CreateLink,
    base_address: AnyLinkableHash,
    target_address: AnyLinkableHash,
    tag: &LinkTag,
    store: &Store,
) -> (v: Verdict)
    ensures
        v == spec_validate_link_create(link_type, base_address, target_address, *store),
{
    match link_type {
        LinkTypes::PostUpdates => validate_create_link_post_updates(
            action,
            base_address,
            target_address,
            tag,
            store,
        ),
        LinkTypes::PostToComments => validate_create_link_post_to_comments(
            action,
            base_address,
            target_address,
            tag,
            store,
        ),
        LinkTypes::LikeToLikes => validate_create_link_like_to_likes(
            action,
            base_address,
            target_address,
            tag,
            store,
        ),
        LinkTypes::PostToCertificates => validate_create_link_post_to_certificates(
            action,
            base_address,
            target_address,
            tag,
            store,
        ),
        LinkTypes::CertifiedToCertificates => validate_create_link_certified_to_certificates(
            action,
            base_address,
            target_address,
            tag,
            store,
        ),
        LinkTypes::CertificateToCertificates => validate_create_link_certificate_to_certificates(
            action,
            base_address,
            target_address,
            tag,
            store,
        ),
        LinkTypes::AllPosts => validate_create_link_all_posts(
            action,
            base_address,
            target_address,
            tag,
            store,
        ),
        LinkTypes::PostsByAuthor => validate_create_link_posts_by_author(
            action,
            base_address,
            target_address,
            tag,
            store,
        ),
        LinkTypes::AllPostsEntryHash => validate_create_link_all_posts_entry_hash(
            action,
            base_address,
            target_address,
            tag,
            store,
        ),
        LinkTypes::PostsByAuthorEntryHash => validate_create_link_posts_by_author_entry_hash(
            action,
            base_address,
            target_address,
            tag,
            store,
        ),
    }
}

/// Apply the link-deletion rule for a link kind of this application.
pub fn validate_link_delete(
    link_type: LinkTypes,
    action: &DeleteLink,
    original_action: &CreateLink,
    base_address: AnyLinkableHash,
    target_address: AnyLinkableHash,
    tag: &LinkTag,
) -> (v: Verdict)
    ensures
        v == spec_validate_link_delete(link_type),
{
    match link_type {
        LinkTypes::PostUpdates => validate_delete_link_post_updates(
            action,
            original_action,
            base_address,
            target_address,
            tag,
        ),
        LinkTypes::PostToComments => validate_delete_link_post_to_comments(
            action,
            original_action,
            base_address,
            target_address,
            tag,
        ),
        LinkTypes::LikeToLikes => validate_delete_link_like_to_likes(
            action,
            original_action,
            base_address,
            target_address,
            tag,
        ),
        LinkTypes::PostToCertificates => validate_delete_link_post_to_certificates(
            action,
            original_action,
            base_address,
            target_address,
            tag,
        ),
        LinkTypes::CertifiedToCertificates => validate_delete_link_certified_to_certificates(
            action,
            original_action,
            base_address,
            target_address,
            tag,
        ),
        LinkTypes::CertificateToCertificates => validate_delete_link_certificate_to_certificates(
            action,
            original_action,
            base_address,
            target_address,
            tag,
        ),
        LinkTypes::AllPosts => validate_delete_link_all_posts(
            action,
            original_action,
            base_address,
            target_address,
            tag,
        ),
        LinkTypes::PostsByAuthor => validate_delete_link_posts_by_author(
            action,
            original_action,
            base_address,
            target_address,
            tag,
        ),
        LinkTypes::AllPostsEntryHash => validate_delete_link_all_posts_entry_hash(
            action,
            original_action,
            base_address,
            target_address,
            tag,
        ),
        LinkTypes::PostsByAuthorEntryHash => validate_delete_link_posts_by_author_entry_hash(
            action,
            original_action,
            base_address,
            target_address,
            tag,
        ),
    }
}

/// Handle a stored update record: resolve the revised mutation, demand a
/// creation of the same type, then run the creation and update rules.
fn validate_store_record_update(update: &Update, app_entry: &EntryTypes, store: &Store) -> (v:
    Verdict)
    ensures
        v == spec_validate_store_record_update(*update, *app_entry, *store),
{
    let original_record = match store.fetch_record(update.original_action_address) {
        None => { return Verdict::Pending },
        Some(r) => r,
    };
    let original_action = match &original_record.action {
        Action::Create(c) => EntryCreationAction::Create(*c),
        Action::Update(u) => EntryCreationAction::Update(*u),
        _ => { return Verdict::Invalid(Reason::UpdateOriginalNotCreation) },
    };
    let create_check = validate_entry_create(
        &EntryCreationAction::Update(*update),
        app_entry,
        store,
    );
    if !create_check.is_valid() {
        return create_check;
    }
    match &original_record.entry {
        Some(Entry::App(original_app_entry)) => {
            if original_app_entry.unit() == app_entry.unit() {
                validate_entry_update(update, app_entry, &original_action, original_app_entry)
            } else {
                Verdict::Invalid(Reason::UpdatedEntryTypeDiffers)
            }
        },
        _ => Verdict::Invalid(Reason::UpdatedEntryTypeDiffers),
    }
}

/// Handle a stored delete record: resolve the deleted mutation, demand a
/// creation, and run the delete rule when a payload of this application is
/// at stake.
fn validate_store_record_delete(delete: &Delete, store: &Store) -> (v: Verdict)
    ensures
        v == spec_validate_store_record_delete(*delete, *store),
{
    let original_record = match store.fetch_record(delete.deletes_address) {
        None => { return Verdict::Pending },
        Some(r) => r,
    };
    let original_action = match &original_record.action {
        Action::Create(c) => EntryCreationAction::Create(*c),
        Action::Update(u) => EntryCreationAction::Update(*u),
        _ => { return Verdict::Invalid(Reason::DeleteOriginalNotCreation) },
    };
    let def = match original_action.entry_type() {
        EntryType::App(def) => def,
        _ => { return Verdict::Valid },
    };
    match &original_record.entry {
        None => {
            if def.visibility == EntryVisibility::Public {
                Verdict::Invalid(Reason::DeletedEntryAbsent)
            } else {
                Verdict::Valid
            }
        },
        Some(Entry::App(original_app_entry)) => validate_entry_delete(
            delete,
            &original_action,
            original_app_entry,
        ),
        Some(Entry::Other) => Verdict::Invalid(Reason::DeleteOriginalForeignType),
    }
}

/// Handle a stored link-delete record: resolve the deleted mutation, demand
/// a link creation, and run the link-delete rule for its kind.
fn validate_store_record_delete_link(delete_link: &DeleteLink, store: &Store) -> (v: Verdict)
    ensures
        v == spec_validate_store_record_delete_link(*delete_link, *store),
{
    let record = match store.fetch_record(delete_link.link_add_address) {
        None => { return Verdict::Pending },
        Some(r) => r,
    };
    let create_link = match &record.action {
        Action::CreateLink(cl) => cl,
        _ => { return Verdict::Invalid(Reason::DeleteLinkOriginalNotCreateLink) },
    };
    match create_link.link_type {
        LinkTypeTag::Known(link_type) => validate_link_delete(
            link_type,
            delete_link,
            create_link,
            delete_link.base_address,
            create_link.target_address,
            &create_link.tag,
        ),
        LinkTypeTag::Foreign => Verdict::Valid,
    }
}

/// Handle a stored record, keyed by the kind of action it carries.
fn validate_store_record(record: &Record, store: &Store) -> (v: Verdict)
    ensures
        v == spec_validate_store_record(*record, *store),
{
    match &record.action {
        Action::Create(c) => match &record.entry {
            Some(Entry::App(app_entry)) => validate_entry_create(
                &EntryCreationAction::Create(*c),
                app_entry,
                store,
            ),
            _ => Verdict::Valid,
        },
        Action::Update(update) => match &record.entry {
            Some(Entry::App(app_entry)) => validate_store_record_update(update, app_entry, store),
            _ => Verdict::Valid,
        },
        Action::Delete(delete) => validate_store_record_delete(delete, store),
        Action::CreateLink(create_link) => match create_link.link_type {
            LinkTypeTag::Known(link_type) => validate_link_create(
                link_type,
                create_link,
                create_link.base_address,
                create_link.target_address,
                &create_link.tag,
                store,
            ),
            LinkTypeTag::Foreign => Verdict::Valid,
        },
        Action::DeleteLink(delete_link) => validate_store_record_delete_link(delete_link, store),
        Action::AgentValidationPkg(_) => Verdict::Valid,
        Action::Other => Verdict::Valid,
    }
}

/// A peer checks its own genesis records before joining; there is nothing
/// to reject locally in this deployment.
pub fn genesis_self_check(_membrane_proof: &Option<Vec<u8>>) -> (v: Verdict)
    ensures
        v == Verdict::Valid,
{
    Verdict::Valid
}

/// Admission rule for a joining peer: membership is open, so any credential
/// — or none — is accepted. The shape of the chain is enforced by the
/// agent-activity arm of `validate`, not here.
pub fn validate_agent_joining(
    _agent_pub_key: &AgentPubKey,
    _membrane_proof: &Option<Vec<u8>>,
) -> (v: Verdict)
    ensures
        v == Verdict::Valid,
{
    Verdict::Valid
}

/// Handle a chain-activity record: a create-agent record demands that the
/// preceding chain record be an admission package.
fn validate_register_agent_activity(activity: &OpActivity, store: &Store) -> (v: Verdict)
    ensures
        v == spec_validate_agent_activity(*activity, *store),
{
    match activity {
        OpActivity::CreateAgent { agent, prev_action } => {
            let previous = match store.fetch_record(*prev_action) {
                None => { return Verdict::Pending },
                Some(r) => r,
            };
            match &previous.action {
                Action::AgentValidationPkg(pkg) => validate_agent_joining(
                    agent,
                    &pkg.membrane_proof,
                ),
                _ => Verdict::Invalid(Reason::PreviousActionNotAdmissionPackage),
            }
        },
        OpActivity::Other => Verdict::Valid,
    }
}

/// The sole entry point: decide one operation against one dependency
/// snapshot. Total over every operation the log layer can produce, and a
/// pure function of its two arguments — the same operation validated twice
/// against the same snapshot yields the same verdict.
pub fn validate(op: &Op, store: &Store) -> (v: Verdict)
    ensures
        v == spec_validate(*op, *store),
{
    match op {
        Op::StoreEntry { action, entry } => match entry {
            Entry::App(app_entry) => validate_entry_create(action, app_entry, store),
            Entry::Other => Verdict::Valid,
        },
        Op::StoreRecord { record } => validate_store_record(record, store),
        Op::RegisterUpdate { update, new_entry, original_action, original_entry } => match new_entry {
            Some(Entry::App(app_entry)) => match original_entry {
                Some(Entry::App(original_app_entry)) => validate_entry_update(
                    update,
                    app_entry,
                    original_action,
                    original_app_entry,
                ),
                _ => Verdict::Invalid(Reason::UpdateTypePairMismatch),
            },
            _ => Verdict::Valid,
        },
        Op::RegisterDelete { delete, original_action, original_entry } => match original_entry {
            Some(Entry::App(original_app_entry)) => validate_entry_delete(
                delete,
                original_action,
                original_app_entry,
            ),
            _ => Verdict::Valid,
        },
        Op::RegisterCreateLink { create_link } => match create_link.link_type {
            LinkTypeTag::Known(link_type) => validate_link_create(
                link_type,
                create_link,
                create_link.base_address,
                create_link.target_address,
                &create_link.tag,
                store,
            ),
            LinkTypeTag::Foreign => Verdict::Valid,
        },
        Op::RegisterDeleteLink { delete_link, create_link } => match create_link.link_type {
            LinkTypeTag::Known(link_type) => validate_link_delete(
                link_type,
                delete_link,
                create_link,
                delete_link.base_address,
                create_link.target_address,
                &create_link.tag,
            ),
            LinkTypeTag::Foreign => Verdict::Valid,
        },
        Op::RegisterAgentActivity { activity } => validate_register_agent_activity(activity, store),
    }
}

} // verus!

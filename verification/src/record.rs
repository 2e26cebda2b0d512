//! The shape of the distributed log: entries, actions, records, operations.
//!
//! The validator receives fully formed candidate operations from the log
//! layer. This module models exactly the parts of a mutation that the rules
//! consult: what an entry payload decodes to, which kind of action produced
//! it, and how the seven operation kinds package them. Payload types of
//! other applications sharing the network are not decodable here and appear
//! as `Entry::Other`; the validator is permissive towards them by design.

use vstd::prelude::*;

use crate::certificate::Certificate;
use crate::comment::Comment;
use crate::hash::ActionHash;
use crate::hash::AgentPubKey;
use crate::hash::AnyLinkableHash;
use crate::hash::EntryHash;
use crate::like::Like;
use crate::post::Post;

verus! {

/// A decoded content payload of this application.
#[derive(Clone, Debug)]
pub enum EntryTypes {
    Post(Post),
    Comment(Comment),
    Like(Like),
    Certificate(Certificate),
}

/// The content types of this application, without their payloads.
#[derive(Clone, Copy, Debug, PartialEq, Eq, Structural)]
pub enum UnitEntryTypes {
    Post,
    Comment,
    Like,
    Certificate,
}

impl EntryTypes {
    /// The content type this payload belongs to.
    pub open spec fn spec_unit(self) -> UnitEntryTypes {
        match self {
            EntryTypes::Post(_) => UnitEntryTypes::Post,
            EntryTypes::Comment(_) => UnitEntryTypes::Comment,
            EntryTypes::Like(_) => UnitEntryTypes::Like,
            EntryTypes::Certificate(_) => UnitEntryTypes::Certificate,
        }
    }

    /// The content type this payload belongs to.
    pub fn unit(&self) -> (u: UnitEntryTypes)
        ensures
            u == self.spec_unit(),
    {
        match self {
            EntryTypes::Post(_) => UnitEntryTypes::Post,
            EntryTypes::Comment(_) => UnitEntryTypes::Comment,
            EntryTypes::Like(_) => UnitEntryTypes::Like,
            EntryTypes::Certificate(_) => UnitEntryTypes::Certificate,
        }
    }
}

/// A stored content payload: either one of this application's types, or
/// anything else on the shared network (a foreign app entry, an agent key,
/// a capability grant) that does not decode to one of them.
#[derive(Clone, Debug)]
pub enum Entry {
    App(EntryTypes),
    Other,
}

/// Whether a stored entry is visible to every peer. Private entries travel
/// as hashes only; their payload never replicates.
#[derive(Clone, Copy, Debug, PartialEq, Eq, Structural)]
pub enum EntryVisibility {
    Public,
    Private,
}

/// The declared type of an application entry on its creation action.
#[derive(Clone, Copy, Debug, PartialEq, Eq, Structural)]
pub struct AppEntryDef {
    pub visibility: EntryVisibility,
}

/// The declared entry type on a creation action: an application entry, or
/// one of the system entry kinds.
#[derive(Clone, Copy, Debug, PartialEq, Eq, Structural)]
pub enum EntryType {
    App(AppEntryDef),
    AgentPubKey,
    CapClaim,
    CapGrant,
}

/// An action creating a new entry.
#[derive(Clone, Copy, Debug, PartialEq, Eq, Structural)]
pub struct Create {
    pub entry_type: EntryType,
    pub entry_hash: EntryHash,
}

/// An action replacing a prior entry with a new revision.
#[derive(Clone, Copy, Debug, PartialEq, Eq, Structural)]
pub struct Update {
    /// The creation or update mutation being revised.
    pub original_action_address: ActionHash,
    /// The content address the revised entry had.
    pub original_entry_address: EntryHash,
    pub entry_type: EntryType,
    pub entry_hash: EntryHash,
}

/// An action marking a prior entry deleted.
#[derive(Clone, Copy, Debug, PartialEq, Eq, Structural)]
pub struct Delete {
    /// The creation or update mutation being deleted.
    pub deletes_address: ActionHash,
}

/// The typed edges of the graph. PostUpdates chains revisions;
/// PostToComments, LikeToLikes and the three certificate kinds relate
/// content; AllPosts and PostsByAuthor index posts globally and per author
/// by mutation address, and the EntryHash variants do the same by content
/// address.
#[derive(Clone, Copy, Debug, PartialEq, Eq, Structural)]
pub enum LinkTypes {
    PostUpdates,
    PostToComments,
    LikeToLikes,
    PostToCertificates,
    CertifiedToCertificates,
    CertificateToCertificates,
    AllPosts,
    PostsByAuthor,
    AllPostsEntryHash,
    PostsByAuthorEntryHash,
}

/// The declared kind of a link on its creation action: one of this
/// application's kinds, or a kind of another application on the network.
#[derive(Clone, Copy, Debug, PartialEq, Eq, Structural)]
pub enum LinkTypeTag {
    Known(LinkTypes),
    Foreign,
}

/// The opaque tag carried by every link.
#[derive(Clone, Debug)]
pub struct LinkTag {
    pub bytes: Vec<u8>,
}

/// An action creating a typed, tagged, directed edge.
#[derive(Clone, Debug)]
pub struct CreateLink {
    pub base_address: AnyLinkableHash,
    pub target_address: AnyLinkableHash,
    pub link_type: LinkTypeTag,
    pub tag: LinkTag,
}

/// An action deleting a previously created link.
#[derive(Clone, Copy, Debug, PartialEq, Eq, Structural)]
pub struct DeleteLink {
    /// The link-creation mutation being deleted.
    pub link_add_address: ActionHash,
    pub base_address: AnyLinkableHash,
}

/// An admission-package action in a peer's chain, carrying the membrane
/// credential presented on joining.
#[derive(Clone, Debug)]
pub struct AgentValidationPkg {
    pub membrane_proof: Option<Vec<u8>>,
}

/// One mutation of the append-only log, as far as the validator reads it.
/// System actions the rules never inspect (genesis markers, chain opening
/// and closing, capability management) fall under `Other`.
#[derive(Clone, Debug)]
pub enum Action {
    Create(Create),
    Update(Update),
    Delete(Delete),
    CreateLink(CreateLink),
    DeleteLink(DeleteLink),
    AgentValidationPkg(AgentValidationPkg),
    Other,
}

/// An action that brought an entry into being: a creation or an update.
#[derive(Clone, Copy, Debug, PartialEq, Eq, Structural)]
pub enum EntryCreationAction {
    Create(Create),
    Update(Update),
}

impl EntryCreationAction {
    /// The entry type this creation declared.
    pub open spec fn spec_entry_type(self) -> EntryType {
        match self {
            EntryCreationAction::Create(c) => c.entry_type,
            EntryCreationAction::Update(u) => u.entry_type,
        }
    }

    /// The entry type this creation declared.
    pub fn entry_type(&self) -> (t: EntryType)
        ensures
            t == self.spec_entry_type(),
    {
        match self {
            EntryCreationAction::Create(c) => c.entry_type,
            EntryCreationAction::Update(u) => u.entry_type,
        }
    }
}

/// An action paired with the entry it carried, if any. This is what the
/// store hands back for a mutation address.
#[derive(Clone, Debug)]
pub struct Record {
    pub action: Action,
    pub entry: Option<Entry>,
}

/// A peer's chain activity, as far as the admission check reads it.
#[derive(Clone, Copy, Debug, PartialEq, Eq, Structural)]
pub enum OpActivity {
    /// A peer recorded its own joining; `prev_action` is the chain record
    /// immediately preceding it.
    CreateAgent { agent: AgentPubKey, prev_action: ActionHash },
    /// Any other activity record; it carries no domain constraint.
    Other,
}

/// One candidate operation as the log layer produces it. The seven kinds
/// mirror the stations a mutation passes on its way into the shared state.
#[derive(Clone, Debug)]
pub enum Op {
    /// The content payload of a mutation is being stored.
    StoreEntry { action: EntryCreationAction, entry: Entry },
    /// A full record is being stored.
    StoreRecord { record: Record },
    /// An update is being registered against the entry it revises; the log
    /// layer hands over the original alongside.
    RegisterUpdate {
        update: Update,
        new_entry: Option<Entry>,
        original_action: EntryCreationAction,
        original_entry: Option<Entry>,
    },
    /// A delete is being registered against the entry it removes.
    RegisterDelete { delete: Delete, original_action: EntryCreationAction, original_entry: Option<Entry> },
    /// A link creation is being registered.
    RegisterCreateLink { create_link: CreateLink },
    /// A link deletion is being registered against the creation it undoes.
    RegisterDeleteLink { delete_link: DeleteLink, create_link: CreateLink },
    /// A record is being registered as part of its author's chain.
    RegisterAgentActivity { activity: OpActivity },
}

} // verus!

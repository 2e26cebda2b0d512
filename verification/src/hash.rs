//! Addresses of the content graph.
//!
//! Every record in the shared log is content-addressed. A mutation (action)
//! is identified by an `ActionHash`, a content payload by an `EntryHash`,
//! a peer by its `AgentPubKey`, and the network itself by a `DnaHash`.
//! The validator never inspects the bytes of an address; it only compares
//! addresses and follows them through the store, so each address is modelled
//! as an opaque numeric identifier.

use vstd::prelude::*;

verus! {

/// Address of one mutation (action) in the append-only log.
#[derive(Clone, Copy, Debug, PartialEq, Eq, Structural)]
pub struct ActionHash(pub u64);

/// Address of a content payload, independent of the mutation that produced it.
#[derive(Clone, Copy, Debug, PartialEq, Eq, Structural)]
pub struct EntryHash(pub u64);

/// Identity of a peer.
#[derive(Clone, Copy, Debug, PartialEq, Eq, Structural)]
pub struct AgentPubKey(pub u64);

/// Identifier of the network this content graph lives in.
#[derive(Clone, Copy, Debug, PartialEq, Eq, Structural)]
pub struct DnaHash(pub u64);

/// Address of something outside this network that a link may point at.
#[derive(Clone, Copy, Debug, PartialEq, Eq, Structural)]
pub struct ExternalHash(pub u64);

/// An address a link endpoint may carry: a mutation, a content payload,
/// a peer, or something outside the network entirely.
#[derive(Clone, Copy, Debug, PartialEq, Eq, Structural)]
pub enum AnyLinkableHash {
    Action(ActionHash),
    Entry(EntryHash),
    Agent(AgentPubKey),
    External(ExternalHash),
}

impl AnyLinkableHash {
    /// The mutation address behind this endpoint, if it is one.
    pub fn into_action_hash(self) -> (r: Option<ActionHash>)
        ensures
            r == (match self {
                AnyLinkableHash::Action(h) => Some(h),
                _ => None::<ActionHash>,
            }),
    {
        match self {
            AnyLinkableHash::Action(h) => Some(h),
            _ => None,
        }
    }

    /// The content address behind this endpoint, if it is one.
    pub fn into_entry_hash(self) -> (r: Option<EntryHash>)
        ensures
            r == (match self {
                AnyLinkableHash::Entry(h) => Some(h),
                _ => None::<EntryHash>,
            }),
    {
        match self {
            AnyLinkableHash::Entry(h) => Some(h),
            _ => None,
        }
    }
}

} // verus!

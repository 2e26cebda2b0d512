//! The dependency snapshot a validation runs against.
//!
//! Replication is asynchronous: when an operation is validated, the records
//! it depends on may or may not have arrived at this peer. The store is the
//! snapshot of what has: mutation addresses resolved to records, content
//! addresses resolved to payloads. The validator is a pure function of the
//! operation and this snapshot; an address the snapshot cannot resolve
//! yields `Pending`, never `Invalid`, because the dependency may simply not
//! have replicated yet.
//!
//! The second half of this module holds the shared fetch-and-decode steps
//! of the rules. A resolved dependency that is not what the rule demands —
//! a record without an entry, or content of another type — is a structural
//! mismatch and yields `Invalid` with a descriptive reason.

use vstd::prelude::*;

use crate::hash::ActionHash;
use crate::hash::AnyLinkableHash;
use crate::hash::EntryHash;
use crate::record::Entry;
use crate::record::Record;
use crate::record::UnitEntryTypes;
use crate::verdict::Reason;
use crate::verdict::Verdict;

verus! {

/// What one peer has of the shared state when a validation runs. Addresses
/// resolve to the first pair that carries them.
#[derive(Clone, Debug)]
pub struct Store {
    /// Records by the address of the mutation that produced them.
    pub records: Vec<(ActionHash, Record)>,
    /// Content payloads by their content address.
    pub entries: Vec<(EntryHash, Entry)>,
}

/// First record in `s` stored under `hash`, if any.
pub open spec fn spec_lookup_record(s: Seq<(ActionHash, Record)>, hash: ActionHash) -> Option<
    Record,
>
    decreases s.len(),
{
    if s.len() == 0 {
        None
    } else if s[0].0 == hash {
        Some(s[0].1)
    } else {
        spec_lookup_record(s.skip(1), hash)
    }
}

/// First payload in `s` stored under `hash`, if any.
pub open spec fn spec_lookup_entry(s: Seq<(EntryHash, Entry)>, hash: EntryHash) -> Option<Entry>
    decreases s.len(),
{
    if s.len() == 0 {
        None
    } else if s[0].0 == hash {
        Some(s[0].1)
    } else {
        spec_lookup_entry(s.skip(1), hash)
    }
}

impl Store {
    /// The record this snapshot holds for a mutation address.
    pub open spec fn spec_fetch_record(self, hash: ActionHash) -> Option<Record> {
        spec_lookup_record(self.records@, hash)
    }

    /// The payload this snapshot holds for a content address.
    pub open spec fn spec_fetch_content(self, hash: EntryHash) -> Option<Entry> {
        spec_lookup_entry(self.entries@, hash)
    }

    /// Resolve a mutation address, or report that it has not replicated.
    pub fn fetch_record(&self, hash: ActionHash) -> (r: Option<&Record>)
        ensures
            match r {
                Some(rec) => self.spec_fetch_record(hash) == Some(*rec),
                None => self.spec_fetch_record(hash) is None,
            },
    {
        let ghost all: Seq<(ActionHash, Record)> = self.records@;
        let mut i: usize = 0;
        proof {
            assert(all.skip(0) =~= all);
        }
        while i < self.records.len()
            invariant
                0 <= i <= all.len(),
                all == self.records@,
                spec_lookup_record(all.skip(i as int), hash) == spec_lookup_record(all, hash),
            decreases all.len() - i,
        {
            proof {
                assert(all.skip(i as int)[0] == all[i as int]);
                assert(all.skip(i as int).skip(1) =~= all.skip(i as int + 1));
            }
            if self.records[i].0 == hash {
                return Some(&self.records[i].1);
            }
            i = i + 1;
        }
        proof {
            assert(all.skip(all.len() as int) =~= Seq::<(ActionHash, Record)>::empty());
        }
        None
    }

    /// Resolve a content address, or report that it has not replicated.
    pub fn fetch_content(&self, hash: EntryHash) -> (r: Option<&Entry>)
        ensures
            match r {
                Some(e) => self.spec_fetch_content(hash) == Some(*e),
                None => self.spec_fetch_content(hash) is None,
            },
    {
        let ghost all: Seq<(EntryHash, Entry)> = self.entries@;
        let mut i: usize = 0;
        proof {
            assert(all.skip(0) =~= all);
        }
        while i < self.entries.len()
            invariant
                0 <= i <= all.len(),
                all == self.entries@,
                spec_lookup_entry(all.skip(i as int), hash) == spec_lookup_entry(all, hash),
            decreases all.len() - i,
        {
            proof {
                assert(all.skip(i as int)[0] == all[i as int]);
                assert(all.skip(i as int).skip(1) =~= all.skip(i as int + 1));
            }
            if self.entries[i].0 == hash {
                return Some(&self.entries[i].1);
            }
            i = i + 1;
        }
        proof {
            assert(all.skip(all.len() as int) =~= Seq::<(EntryHash, Entry)>::empty());
        }
        None
    }
}

/// Whether a stored payload decodes to the given content type.
pub open spec fn spec_entry_matches(entry: Entry, kind: UnitEntryTypes) -> bool {
    match entry {
        Entry::App(et) => et.spec_unit() == kind,
        Entry::Other => false,
    }
}

/// Whether a stored payload decodes to the given content type.
pub fn entry_matches(entry: &Entry, kind: UnitEntryTypes) -> (r: bool)
    ensures
        r == spec_entry_matches(*entry, kind),
{
    match entry {
        Entry::App(et) => et.unit() == kind,
        Entry::Other => false,
    }
}

/// Verdict on a record a content entry depends on: pending while the record
/// has not replicated, invalid when it carries no entry or the wrong type.
pub open spec fn spec_dependant_record_verdict(
    store: Store,
    hash: ActionHash,
    kind: UnitEntryTypes,
) -> Verdict {
    match store.spec_fetch_record(hash) {
        None => Verdict::Pending,
        Some(rec) => match rec.entry {
            None => Verdict::Invalid(Reason::DependantEntryAbsent),
            Some(Entry::Other) => Verdict::Invalid(Reason::DependantEntryAbsent),
            Some(Entry::App(et)) => if et.spec_unit() == kind {
                Verdict::Valid
            } else {
                Verdict::Invalid(Reason::DependencyWrongType)
            },
        },
    }
}

/// Fetch a record a content entry depends on and decode its entry as the
/// given type.
pub fn check_dependant_record(store: &Store, hash: ActionHash, kind: UnitEntryTypes) -> (v:
    Verdict)
    ensures
        v == spec_dependant_record_verdict(*store, hash, kind),
{
    match store.fetch_record(hash) {
        None => Verdict::Pending,
        Some(rec) => match &rec.entry {
            None => Verdict::Invalid(Reason::DependantEntryAbsent),
            Some(Entry::Other) => Verdict::Invalid(Reason::DependantEntryAbsent),
            Some(e) => if entry_matches(e, kind) {
                Verdict::Valid
            } else {
                Verdict::Invalid(Reason::DependencyWrongType)
            },
        },
    }
}

/// Verdict on a content address a rule follows: pending while the payload
/// has not replicated, invalid when it decodes to another type.
pub open spec fn spec_referenced_content_verdict(
    store: Store,
    hash: EntryHash,
    kind: UnitEntryTypes,
) -> Verdict {
    match store.spec_fetch_content(hash) {
        None => Verdict::Pending,
        Some(e) => if spec_entry_matches(e, kind) {
            Verdict::Valid
        } else {
            Verdict::Invalid(Reason::DependencyWrongType)
        },
    }
}

/// Fetch a content payload and decode it as the given type.
pub fn check_referenced_content(store: &Store, hash: EntryHash, kind: UnitEntryTypes) -> (v:
    Verdict)
    ensures
        v == spec_referenced_content_verdict(*store, hash, kind),
{
    match store.fetch_content(hash) {
        None => Verdict::Pending,
        Some(e) => if entry_matches(e, kind) {
            Verdict::Valid
        } else {
            Verdict::Invalid(Reason::DependencyWrongType)
        },
    }
}

/// Verdict on a link endpoint that must be a mutation address resolving to
/// an entry of the given type.
pub open spec fn spec_linked_record_verdict(
    store: Store,
    address: AnyLinkableHash,
    kind: UnitEntryTypes,
) -> Verdict {
    match address {
        AnyLinkableHash::Action(hash) => match store.spec_fetch_record(hash) {
            None => Verdict::Pending,
            Some(rec) => match rec.entry {
                None => Verdict::Invalid(Reason::LinkedActionEntryAbsent),
                Some(Entry::Other) => Verdict::Invalid(Reason::LinkedActionEntryAbsent),
                Some(Entry::App(et)) => if et.spec_unit() == kind {
                    Verdict::Valid
                } else {
                    Verdict::Invalid(Reason::DependencyWrongType)
                },
            },
        },
        _ => Verdict::Invalid(Reason::NoActionHashInLink),
    }
}

/// Check a link endpoint that must be a mutation address resolving to an
/// entry of the given type.
pub fn check_linked_record(store: &Store, address: &AnyLinkableHash, kind: UnitEntryTypes) -> (v:
    Verdict)
    ensures
        v == spec_linked_record_verdict(*store, *address, kind),
{
    match address.into_action_hash() {
        None => Verdict::Invalid(Reason::NoActionHashInLink),
        Some(hash) => match store.fetch_record(hash) {
            None => Verdict::Pending,
            Some(rec) => match &rec.entry {
                None => Verdict::Invalid(Reason::LinkedActionEntryAbsent),
                Some(Entry::Other) => Verdict::Invalid(Reason::LinkedActionEntryAbsent),
                Some(e) => if entry_matches(e, kind) {
                    Verdict::Valid
                } else {
                    Verdict::Invalid(Reason::DependencyWrongType)
                },
            },
        },
    }
}

/// Verdict on a link endpoint that must be a content address resolving to
/// a payload of the given type.
pub open spec fn spec_linked_content_verdict(
    store: Store,
    address: AnyLinkableHash,
    kind: UnitEntryTypes,
) -> Verdict {
    match address {
        AnyLinkableHash::Entry(hash) => spec_referenced_content_verdict(store, hash, kind),
        _ => Verdict::Invalid(Reason::NoEntryHashInLink),
    }
}

/// Check a link endpoint that must be a content address resolving to a
/// payload of the given type.
pub fn check_linked_content(store: &Store, address: &AnyLinkableHash, kind: UnitEntryTypes) -> (v:
    Verdict)
    ensures
        v == spec_linked_content_verdict(*store, *address, kind),
{
    match address.into_entry_hash() {
        None => Verdict::Invalid(Reason::NoEntryHashInLink),
        Some(hash) => check_referenced_content(store, hash, kind),
    }
}

} // verus!

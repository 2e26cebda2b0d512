//! Integrity validation for a peer-replicated, append-only content graph.
//!
//! Peers exchange mutations (entry creations, updates, deletions, link
//! creations and deletions, agent-activity records) over an eventually
//! consistent log. Before a mutation is merged into the shared state, every
//! peer runs it through the validator: a pure decision function over the
//! operation and a snapshot of the dependency records that have replicated so
//! far. The verdict is `Valid`, `Invalid` with a fixed reason, or `Pending`
//! when a dependency has not yet arrived and the caller should retry later.

mod certificate;
mod comment;
mod dispatch;
mod hash;
mod indexing;
mod like;
mod post;
mod record;
mod store;
mod verdict;

pub use certificate::lemma_check_certifications_all_resolve;
pub use certificate::lemma_create_certificate_verdict;
pub use certificate::spec_certification_resolves;
pub use certificate::spec_check_certifications;
pub use certificate::spec_validate_create_certificate;
pub use certificate::spec_validate_create_link_certificate_to_certificates;
pub use certificate::spec_validate_create_link_certified_to_certificates;
pub use certificate::spec_validate_create_link_post_to_certificates;
pub use certificate::validate_create_certificate;
pub use certificate::validate_create_link_certificate_to_certificates;
pub use certificate::validate_create_link_certified_to_certificates;
pub use certificate::validate_create_link_post_to_certificates;
pub use certificate::validate_delete_certificate;
pub use certificate::validate_delete_link_certificate_to_certificates;
pub use certificate::validate_delete_link_certified_to_certificates;
pub use certificate::validate_delete_link_post_to_certificates;
pub use certificate::validate_update_certificate;
pub use certificate::Certificate;
pub use certificate::CertificateType;
pub use comment::spec_validate_create_link_post_to_comments;
pub use comment::validate_create_comment;
pub use comment::validate_create_link_post_to_comments;
pub use comment::validate_delete_comment;
pub use comment::validate_delete_link_post_to_comments;
pub use comment::validate_update_comment;
pub use comment::Comment;
pub use dispatch::genesis_self_check;
pub use dispatch::lemma_certificate_delete_rejected;
pub use dispatch::lemma_certificate_record_delete_rejected;
pub use dispatch::lemma_certificate_update_rejected;
pub use dispatch::lemma_like_delete_accepted;
pub use dispatch::lemma_like_update_rejected;
pub use dispatch::lemma_link_delete_policy;
pub use dispatch::lemma_validate_deterministic;
pub use dispatch::spec_validate;
pub use dispatch::spec_validate_agent_activity;
pub use dispatch::spec_validate_entry_create;
pub use dispatch::spec_validate_entry_delete;
pub use dispatch::spec_validate_entry_update;
pub use dispatch::spec_validate_link_create;
pub use dispatch::spec_validate_link_delete;
pub use dispatch::spec_validate_store_record;
pub use dispatch::spec_validate_store_record_delete;
pub use dispatch::spec_validate_store_record_delete_link;
pub use dispatch::spec_validate_store_record_update;
pub use dispatch::validate;
pub use dispatch::validate_agent_joining;
pub use dispatch::validate_entry_create;
pub use dispatch::validate_entry_delete;
pub use dispatch::validate_entry_update;
pub use dispatch::validate_link_create;
pub use dispatch::validate_link_delete;
pub use hash::ActionHash;
pub use hash::AgentPubKey;
pub use hash::AnyLinkableHash;
pub use hash::DnaHash;
pub use hash::EntryHash;
pub use hash::ExternalHash;
pub use indexing::certificate_index_links;
pub use indexing::index_of_oldest;
pub use indexing::indices_with_deletes;
pub use indexing::like_index_links;
pub use indexing::select_backlink_deletes;
pub use indexing::spec_certificate_index_links;
pub use indexing::spec_certification_links;
pub use indexing::spec_like_index_links;
pub use indexing::spec_links_targeting;
pub use indexing::Link;
pub use indexing::PlannedLink;
pub use like::spec_validate_create_like;
pub use like::spec_validate_create_link_like_to_likes;
pub use like::validate_create_like;
pub use like::validate_create_link_like_to_likes;
pub use like::validate_delete_like;
pub use like::validate_delete_link_like_to_likes;
pub use like::validate_update_like;
pub use like::Like;
pub use post::spec_validate_create_link_all_posts;
pub use post::spec_validate_create_link_all_posts_entry_hash;
pub use post::spec_validate_create_link_post_updates;
pub use post::spec_validate_create_link_posts_by_author;
pub use post::spec_validate_create_link_posts_by_author_entry_hash;
pub use post::validate_create_link_all_posts;
pub use post::validate_create_link_all_posts_entry_hash;
pub use post::validate_create_link_post_updates;
pub use post::validate_create_link_posts_by_author;
pub use post::validate_create_link_posts_by_author_entry_hash;
pub use post::validate_create_post;
pub use post::validate_delete_link_all_posts;
pub use post::validate_delete_link_all_posts_entry_hash;
pub use post::validate_delete_link_post_updates;
pub use post::validate_delete_link_posts_by_author;
pub use post::validate_delete_link_posts_by_author_entry_hash;
pub use post::validate_delete_post;
pub use post::validate_update_post;
pub use post::Post;
pub use record::Action;
pub use record::AgentValidationPkg;
pub use record::AppEntryDef;
pub use record::Create;
pub use record::CreateLink;
pub use record::Delete;
pub use record::DeleteLink;
pub use record::Entry;
pub use record::EntryCreationAction;
pub use record::EntryType;
pub use record::EntryTypes;
pub use record::EntryVisibility;
pub use record::LinkTag;
pub use record::LinkTypeTag;
pub use record::LinkTypes;
pub use record::Op;
pub use record::OpActivity;
pub use record::Record;
pub use record::UnitEntryTypes;
pub use record::Update;
pub use store::check_dependant_record;
pub use store::check_linked_content;
pub use store::check_linked_record;
pub use store::check_referenced_content;
pub use store::entry_matches;
pub use store::spec_dependant_record_verdict;
pub use store::spec_entry_matches;
pub use store::spec_linked_content_verdict;
pub use store::spec_linked_record_verdict;
pub use store::spec_lookup_entry;
pub use store::spec_lookup_record;
pub use store::spec_referenced_content_verdict;
pub use store::Store;
pub use verdict::Reason;
pub use verdict::Verdict;

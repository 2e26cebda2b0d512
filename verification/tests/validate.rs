//! End-to-end checks of the dispatch entry point: one operation, one
//! snapshot, one verdict.

use posts_integrity::Action;
use posts_integrity::ActionHash;
use posts_integrity::AgentPubKey;
use posts_integrity::AgentValidationPkg;
use posts_integrity::AnyLinkableHash;
use posts_integrity::AppEntryDef;
use posts_integrity::Certificate;
use posts_integrity::CertificateType;
use posts_integrity::Comment;
use posts_integrity::Create;
use posts_integrity::CreateLink;
use posts_integrity::Delete;
use posts_integrity::DeleteLink;
use posts_integrity::DnaHash;
use posts_integrity::Entry;
use posts_integrity::EntryCreationAction;
use posts_integrity::EntryHash;
use posts_integrity::EntryType;
use posts_integrity::EntryTypes;
use posts_integrity::EntryVisibility;
use posts_integrity::Like;
use posts_integrity::LinkTag;
use posts_integrity::LinkTypeTag;
use posts_integrity::LinkTypes;
use posts_integrity::Op;
use posts_integrity::OpActivity;
use posts_integrity::Post;
use posts_integrity::Reason;
use posts_integrity::Record;
use posts_integrity::Store;
use posts_integrity::Update;
use posts_integrity::Verdict;
use posts_integrity::validate;

fn empty_store() -> Store {
    Store { records: Vec::new(), entries: Vec::new() }
}

fn public_app_type() -> EntryType {
    EntryType::App(AppEntryDef { visibility: EntryVisibility::Public })
}

fn sample_post() -> Post {
    Post { title: "garden tools".to_string(), needs: vec!["spade".to_string(), "rake".to_string()] }
}

fn post_entry() -> Entry {
    Entry::App(EntryTypes::Post(sample_post()))
}

fn like_entry(like_hash: Option<ActionHash>) -> Entry {
    Entry::App(EntryTypes::Like(Like { like_hash, agent: AgentPubKey(9) }))
}

fn certificate_value(post_hash: ActionHash, refs: Vec<EntryHash>) -> Certificate {
    Certificate {
        post_hash,
        agent: AgentPubKey(9),
        certifications_hashes: refs,
        certificate_type: CertificateType::TypeOne,
        dna_hash: DnaHash(1),
    }
}

fn certificate_entry(post_hash: ActionHash, refs: Vec<EntryHash>) -> Entry {
    Entry::App(EntryTypes::Certificate(certificate_value(post_hash, refs)))
}

fn creation_record(entry: Entry) -> Record {
    Record {
        action: Action::Create(Create { entry_type: public_app_type(), entry_hash: EntryHash(0) }),
        entry: Some(entry),
    }
}

fn create_action() -> EntryCreationAction {
    EntryCreationAction::Create(Create { entry_type: public_app_type(), entry_hash: EntryHash(0) })
}

fn update_action(original: ActionHash) -> Update {
    Update {
        original_action_address: original,
        original_entry_address: EntryHash(0),
        entry_type: public_app_type(),
        entry_hash: EntryHash(1),
    }
}

fn store_entry_op(entry: Entry) -> Op {
    Op::StoreEntry { action: create_action(), entry }
}

fn create_link_op(link_type: LinkTypes, base: AnyLinkableHash, target: AnyLinkableHash) -> Op {
    Op::RegisterCreateLink {
        create_link: CreateLink {
            base_address: base,
            target_address: target,
            link_type: LinkTypeTag::Known(link_type),
            tag: LinkTag { bytes: Vec::new() },
        },
    }
}

fn delete_link_op(link_type: LinkTypeTag) -> Op {
    Op::RegisterDeleteLink {
        delete_link: DeleteLink {
            link_add_address: ActionHash(50),
            base_address: AnyLinkableHash::Action(ActionHash(1)),
        },
        create_link: CreateLink {
            base_address: AnyLinkableHash::Action(ActionHash(1)),
            target_address: AnyLinkableHash::Action(ActionHash(2)),
            link_type,
            tag: LinkTag { bytes: Vec::new() },
        },
    }
}

#[test]
fn post_and_global_index_are_valid() {
    // One peer creates a post, then indexes it globally: both operations
    // pass, the second once the post's record has replicated.
    let store = empty_store();
    assert_eq!(validate(&store_entry_op(post_entry()), &store), Verdict::Valid);

    let indexed = Store {
        records: vec![(ActionHash(1), creation_record(post_entry()))],
        entries: Vec::new(),
    };
    let link = create_link_op(
        LinkTypes::AllPosts,
        AnyLinkableHash::External(posts_integrity::ExternalHash(0)),
        AnyLinkableHash::Action(ActionHash(1)),
    );
    assert_eq!(validate(&link, &indexed), Verdict::Valid);
}

#[test]
fn certificate_of_entryless_record_is_invalid() {
    // The certified post resolves to a record that carries no entry: the
    // creation is rejected, not left pending.
    let store = Store {
        records: vec![(
            ActionHash(1),
            Record { action: Action::Other, entry: None },
        )],
        entries: Vec::new(),
    };
    let op = store_entry_op(certificate_entry(ActionHash(1), Vec::new()));
    let verdict = validate(&op, &store);
    assert_eq!(verdict, Verdict::Invalid(Reason::DependantEntryAbsent));
    match verdict {
        Verdict::Invalid(reason) => {
            assert_eq!(reason.text(), "Dependant action must be accompanied by an entry");
        }
        other => panic!("expected invalid, got {:?}", other),
    }
}

#[test]
fn like_of_like_waits_for_replication() {
    // L2 likes L1. While L1 has not replicated the verdict is pending;
    // once it has, the same operation is valid.
    let op = store_entry_op(like_entry(Some(ActionHash(7))));
    assert_eq!(validate(&op, &empty_store()), Verdict::Pending);

    let replicated = Store {
        records: vec![(ActionHash(7), creation_record(like_entry(None)))],
        entries: Vec::new(),
    };
    assert_eq!(validate(&op, &replicated), Verdict::Valid);
}

#[test]
fn post_to_certificates_link_delete_is_invalid() {
    let verdict = validate(
        &delete_link_op(LinkTypeTag::Known(LinkTypes::PostToCertificates)),
        &empty_store(),
    );
    assert_eq!(verdict, Verdict::Invalid(Reason::PostToCertificatesLinksCannotBeDeleted));
    match verdict {
        Verdict::Invalid(reason) => {
            assert_eq!(reason.text(), "PostToCertificates links cannot be deleted");
        }
        other => panic!("expected invalid, got {:?}", other),
    }
}

#[test]
fn create_agent_needs_admission_package() {
    // The record preceding a peer's create-agent record is a plain
    // creation, not an admission package: the peer is rejected.
    let store = Store {
        records: vec![(ActionHash(3), creation_record(post_entry()))],
        entries: Vec::new(),
    };
    let op = Op::RegisterAgentActivity {
        activity: OpActivity::CreateAgent { agent: AgentPubKey(4), prev_action: ActionHash(3) },
    };
    let verdict = validate(&op, &store);
    assert_eq!(verdict, Verdict::Invalid(Reason::PreviousActionNotAdmissionPackage));

    let admitted = Store {
        records: vec![(
            ActionHash(3),
            Record {
                action: Action::AgentValidationPkg(AgentValidationPkg { membrane_proof: None }),
                entry: None,
            },
        )],
        entries: Vec::new(),
    };
    assert_eq!(validate(&op, &admitted), Verdict::Valid);
}

#[test]
fn certificate_update_and_delete_are_invalid() {
    let cert = || certificate_entry(ActionHash(1), Vec::new());
    let update_op = Op::RegisterUpdate {
        update: update_action(ActionHash(10)),
        new_entry: Some(cert()),
        original_action: create_action(),
        original_entry: Some(cert()),
    };
    assert_eq!(
        validate(&update_op, &empty_store()),
        Verdict::Invalid(Reason::CertificatesCannotBeUpdated)
    );
    assert_eq!(
        Reason::CertificatesCannotBeUpdated.text(),
        "Certificates cannot be updated"
    );

    let delete_op = Op::RegisterDelete {
        delete: Delete { deletes_address: ActionHash(10) },
        original_action: create_action(),
        original_entry: Some(cert()),
    };
    assert_eq!(
        validate(&delete_op, &empty_store()),
        Verdict::Invalid(Reason::CertificatesCannotBeDeleted)
    );
    assert_eq!(
        Reason::CertificatesCannotBeDeleted.text(),
        "Certificates cannot be deleted"
    );
}

#[test]
fn certificate_delete_of_stored_record_is_invalid() {
    // The delete arrives as a stored record; the deleted mutation resolves
    // to the certificate's creation, so the fixed policy reason comes back.
    let store = Store {
        records: vec![(
            ActionHash(10),
            creation_record(certificate_entry(ActionHash(1), Vec::new())),
        )],
        entries: Vec::new(),
    };
    let op = Op::StoreRecord {
        record: Record {
            action: Action::Delete(Delete { deletes_address: ActionHash(10) }),
            entry: None,
        },
    };
    assert_eq!(validate(&op, &store), Verdict::Invalid(Reason::CertificatesCannotBeDeleted));
}

#[test]
fn like_update_is_invalid_and_delete_is_valid() {
    let like = || like_entry(None);
    let update_op = Op::RegisterUpdate {
        update: update_action(ActionHash(10)),
        new_entry: Some(like()),
        original_action: create_action(),
        original_entry: Some(like()),
    };
    let verdict = validate(&update_op, &empty_store());
    assert_eq!(verdict, Verdict::Invalid(Reason::LikesCannotBeUpdated));
    assert_eq!(Reason::LikesCannotBeUpdated.text(), "Likes cannot be updated");

    let delete_op = Op::RegisterDelete {
        delete: Delete { deletes_address: ActionHash(10) },
        original_action: create_action(),
        original_entry: Some(like()),
    };
    assert_eq!(validate(&delete_op, &empty_store()), Verdict::Valid);
}

#[test]
fn certificate_creation_checks_post_and_references() {
    let post_hash = ActionHash(1);
    let good_refs = vec![EntryHash(21), EntryHash(22)];
    let store = Store {
        records: vec![(post_hash, creation_record(post_entry()))],
        entries: vec![
            (EntryHash(21), certificate_entry(post_hash, Vec::new())),
            (EntryHash(22), certificate_entry(post_hash, Vec::new())),
        ],
    };

    // Post and every reference resolve: valid.
    let op = store_entry_op(certificate_entry(post_hash, good_refs.clone()));
    assert_eq!(validate(&op, &store), Verdict::Valid);

    // The post reference resolves to a like: invalid.
    let wrong_post = Store {
        records: vec![(post_hash, creation_record(like_entry(None)))],
        entries: store.entries.clone(),
    };
    assert_eq!(validate(&op, &wrong_post), Verdict::Invalid(Reason::DependencyWrongType));

    // One endorsement reference resolves to a post: invalid.
    let wrong_ref = Store {
        records: store.records.clone(),
        entries: vec![
            (EntryHash(21), certificate_entry(post_hash, Vec::new())),
            (EntryHash(22), post_entry()),
        ],
    };
    assert_eq!(validate(&op, &wrong_ref), Verdict::Invalid(Reason::DependencyWrongType));

    // One endorsement reference has not replicated: pending.
    let missing_ref = Store {
        records: store.records.clone(),
        entries: vec![(EntryHash(21), certificate_entry(post_hash, Vec::new()))],
    };
    assert_eq!(validate(&op, &missing_ref), Verdict::Pending);

    // The post record has not replicated: pending.
    let missing_post = Store { records: Vec::new(), entries: store.entries.clone() };
    assert_eq!(validate(&op, &missing_post), Verdict::Pending);
}

#[test]
fn link_delete_policy_per_kind() {
    let store = empty_store();
    let verdict_of = |lt: LinkTypes| validate(&delete_link_op(LinkTypeTag::Known(lt)), &store);

    assert_eq!(
        verdict_of(LinkTypes::PostUpdates),
        Verdict::Invalid(Reason::PostUpdatesLinksCannotBeDeleted)
    );
    assert_eq!(
        verdict_of(LinkTypes::PostToCertificates),
        Verdict::Invalid(Reason::PostToCertificatesLinksCannotBeDeleted)
    );
    assert_eq!(
        verdict_of(LinkTypes::CertifiedToCertificates),
        Verdict::Invalid(Reason::CertifiedToCertificatesLinksCannotBeDeleted)
    );
    assert_eq!(
        verdict_of(LinkTypes::CertificateToCertificates),
        Verdict::Invalid(Reason::CertificateToCertificatesLinksCannotBeDeleted)
    );
    assert_eq!(verdict_of(LinkTypes::PostToComments), Verdict::Valid);
    assert_eq!(verdict_of(LinkTypes::LikeToLikes), Verdict::Valid);
    assert_eq!(verdict_of(LinkTypes::AllPosts), Verdict::Valid);
    assert_eq!(verdict_of(LinkTypes::PostsByAuthor), Verdict::Valid);
    assert_eq!(verdict_of(LinkTypes::AllPostsEntryHash), Verdict::Valid);
    assert_eq!(verdict_of(LinkTypes::PostsByAuthorEntryHash), Verdict::Valid);

    // A link kind of another application passes.
    assert_eq!(validate(&delete_link_op(LinkTypeTag::Foreign), &store), Verdict::Valid);
}

#[test]
fn validation_is_repeatable() {
    // The verdict is a pure function of operation and snapshot: running
    // the same validation twice gives the same answer, valid or not.
    let store = Store {
        records: vec![(ActionHash(7), creation_record(like_entry(None)))],
        entries: Vec::new(),
    };
    let ops = vec![
        store_entry_op(like_entry(Some(ActionHash(7)))),
        store_entry_op(like_entry(Some(ActionHash(8)))),
        store_entry_op(certificate_entry(ActionHash(7), Vec::new())),
        delete_link_op(LinkTypeTag::Known(LinkTypes::PostUpdates)),
    ];
    for op in &ops {
        assert_eq!(validate(op, &store), validate(op, &store));
    }
}

#[test]
fn unknown_content_passes() {
    // Payloads of other applications on the same network are no concern of
    // these rules.
    assert_eq!(validate(&store_entry_op(Entry::Other), &empty_store()), Verdict::Valid);

    let foreign_link = Op::RegisterCreateLink {
        create_link: CreateLink {
            base_address: AnyLinkableHash::Action(ActionHash(1)),
            target_address: AnyLinkableHash::Action(ActionHash(2)),
            link_type: LinkTypeTag::Foreign,
            tag: LinkTag { bytes: vec![1, 2, 3] },
        },
    };
    assert_eq!(validate(&foreign_link, &empty_store()), Verdict::Valid);

    let foreign_update = Op::RegisterUpdate {
        update: update_action(ActionHash(10)),
        new_entry: Some(Entry::Other),
        original_action: create_action(),
        original_entry: Some(Entry::Other),
    };
    assert_eq!(validate(&foreign_update, &empty_store()), Verdict::Valid);
}

#[test]
fn update_type_pair_must_match() {
    let op = Op::RegisterUpdate {
        update: update_action(ActionHash(10)),
        new_entry: Some(post_entry()),
        original_action: create_action(),
        original_entry: Some(like_entry(None)),
    };
    let verdict = validate(&op, &empty_store());
    assert_eq!(verdict, Verdict::Invalid(Reason::UpdateTypePairMismatch));
    assert_eq!(
        Reason::UpdateTypePairMismatch.text(),
        "Original and updated entry types must be the same"
    );
}

#[test]
fn post_update_and_comment_lifecycle_are_valid() {
    let update_op = Op::RegisterUpdate {
        update: update_action(ActionHash(10)),
        new_entry: Some(post_entry()),
        original_action: create_action(),
        original_entry: Some(post_entry()),
    };
    assert_eq!(validate(&update_op, &empty_store()), Verdict::Valid);

    let comment = Entry::App(EntryTypes::Comment(Comment { post_hash: ActionHash(1) }));
    assert_eq!(validate(&store_entry_op(comment.clone()), &empty_store()), Verdict::Valid);

    let delete_op = Op::RegisterDelete {
        delete: Delete { deletes_address: ActionHash(10) },
        original_action: create_action(),
        original_entry: Some(comment),
    };
    assert_eq!(validate(&delete_op, &empty_store()), Verdict::Valid);
}

#[test]
fn stored_update_record_follows_the_original() {
    let update = update_action(ActionHash(10));
    let op = Op::StoreRecord {
        record: Record { action: Action::Update(update), entry: Some(post_entry()) },
    };

    // The revised mutation has not replicated: pending.
    assert_eq!(validate(&op, &empty_store()), Verdict::Pending);

    // It resolves to a post creation: valid.
    let good = Store {
        records: vec![(ActionHash(10), creation_record(post_entry()))],
        entries: Vec::new(),
    };
    assert_eq!(validate(&op, &good), Verdict::Valid);

    // It resolves to a like creation: the types differ.
    let mismatched = Store {
        records: vec![(ActionHash(10), creation_record(like_entry(None)))],
        entries: Vec::new(),
    };
    assert_eq!(validate(&op, &mismatched), Verdict::Invalid(Reason::UpdatedEntryTypeDiffers));
    assert_eq!(
        Reason::UpdatedEntryTypeDiffers.text(),
        "The updated entry type must be the same as the original entry type"
    );

    // It resolves to a delete action: no creation to revise.
    let not_creation = Store {
        records: vec![(
            ActionHash(10),
            Record {
                action: Action::Delete(Delete { deletes_address: ActionHash(2) }),
                entry: None,
            },
        )],
        entries: Vec::new(),
    };
    assert_eq!(validate(&op, &not_creation), Verdict::Invalid(Reason::UpdateOriginalNotCreation));
    assert_eq!(
        Reason::UpdateOriginalNotCreation.text(),
        "Original action for an update must be a Create or Update action"
    );
}

#[test]
fn stored_delete_record_follows_the_original() {
    let op = Op::StoreRecord {
        record: Record {
            action: Action::Delete(Delete { deletes_address: ActionHash(10) }),
            entry: None,
        },
    };

    // The deleted mutation has not replicated: pending.
    assert_eq!(validate(&op, &empty_store()), Verdict::Pending);

    // It resolves to a post creation: valid.
    let good = Store {
        records: vec![(ActionHash(10), creation_record(post_entry()))],
        entries: Vec::new(),
    };
    assert_eq!(validate(&op, &good), Verdict::Valid);

    // It resolves to something that is not a creation.
    let not_creation = Store {
        records: vec![(ActionHash(10), Record { action: Action::Other, entry: None })],
        entries: Vec::new(),
    };
    assert_eq!(validate(&op, &not_creation), Verdict::Invalid(Reason::DeleteOriginalNotCreation));
    assert_eq!(
        Reason::DeleteOriginalNotCreation.text(),
        "Original action for a delete must be a Create or Update action"
    );

    // A public app entry whose payload is gone.
    let entryless = Store {
        records: vec![(
            ActionHash(10),
            Record {
                action: Action::Create(Create {
                    entry_type: EntryType::App(AppEntryDef {
                        visibility: EntryVisibility::Public,
                    }),
                    entry_hash: EntryHash(0),
                }),
                entry: None,
            },
        )],
        entries: Vec::new(),
    };
    assert_eq!(validate(&op, &entryless), Verdict::Invalid(Reason::DeletedEntryAbsent));
    assert_eq!(
        Reason::DeletedEntryAbsent.text(),
        "Original record for a delete of a public entry must contain an entry"
    );

    // A private app entry never replicates its payload: nothing to check.
    let private = Store {
        records: vec![(
            ActionHash(10),
            Record {
                action: Action::Create(Create {
                    entry_type: EntryType::App(AppEntryDef {
                        visibility: EntryVisibility::Private,
                    }),
                    entry_hash: EntryHash(0),
                }),
                entry: None,
            },
        )],
        entries: Vec::new(),
    };
    assert_eq!(validate(&op, &private), Verdict::Valid);

    // A system entry type carries no domain constraint.
    let system = Store {
        records: vec![(
            ActionHash(10),
            Record {
                action: Action::Create(Create {
                    entry_type: EntryType::AgentPubKey,
                    entry_hash: EntryHash(0),
                }),
                entry: None,
            },
        )],
        entries: Vec::new(),
    };
    assert_eq!(validate(&op, &system), Verdict::Valid);

    // An app entry of another application: not one of the types here.
    let foreign = Store {
        records: vec![(ActionHash(10), creation_record(Entry::Other))],
        entries: Vec::new(),
    };
    assert_eq!(validate(&op, &foreign), Verdict::Invalid(Reason::DeleteOriginalForeignType));
    assert_eq!(
        Reason::DeleteOriginalForeignType.text(),
        "Original app entry must be one of the defined entry types for this application"
    );
}

#[test]
fn stored_link_delete_follows_the_creation() {
    let op = Op::StoreRecord {
        record: Record {
            action: Action::DeleteLink(DeleteLink {
                link_add_address: ActionHash(50),
                base_address: AnyLinkableHash::Action(ActionHash(1)),
            }),
            entry: None,
        },
    };

    // The deleted mutation has not replicated: pending.
    assert_eq!(validate(&op, &empty_store()), Verdict::Pending);

    // It resolves to a PostUpdates link creation: permanent, rejected.
    let permanent = Store {
        records: vec![(
            ActionHash(50),
            Record {
                action: Action::CreateLink(CreateLink {
                    base_address: AnyLinkableHash::Action(ActionHash(1)),
                    target_address: AnyLinkableHash::Action(ActionHash(2)),
                    link_type: LinkTypeTag::Known(LinkTypes::PostUpdates),
                    tag: LinkTag { bytes: Vec::new() },
                }),
                entry: None,
            },
        )],
        entries: Vec::new(),
    };
    assert_eq!(
        validate(&op, &permanent),
        Verdict::Invalid(Reason::PostUpdatesLinksCannotBeDeleted)
    );
    assert_eq!(
        Reason::PostUpdatesLinksCannotBeDeleted.text(),
        "PostUpdates links cannot be deleted"
    );

    // It resolves to something that is not a link creation.
    let not_link = Store {
        records: vec![(ActionHash(50), creation_record(post_entry()))],
        entries: Vec::new(),
    };
    assert_eq!(
        validate(&op, &not_link),
        Verdict::Invalid(Reason::DeleteLinkOriginalNotCreateLink)
    );
    assert_eq!(
        Reason::DeleteLinkOriginalNotCreateLink.text(),
        "The action that a DeleteLink deletes must be a CreateLink"
    );
}

#[test]
fn stored_records_run_the_same_rules() {
    // A stored record carrying a creation runs the creation rule.
    let cert_op = Op::StoreRecord {
        record: creation_record(certificate_entry(ActionHash(1), Vec::new())),
    };
    assert_eq!(validate(&cert_op, &empty_store()), Verdict::Pending);
    let with_post = Store {
        records: vec![(ActionHash(1), creation_record(post_entry()))],
        entries: Vec::new(),
    };
    assert_eq!(validate(&cert_op, &with_post), Verdict::Valid);

    // A stored record carrying a creation of no type defined here passes.
    let foreign = Op::StoreRecord { record: creation_record(Entry::Other) };
    assert_eq!(validate(&foreign, &empty_store()), Verdict::Valid);

    // A stored record carrying a link creation runs the link rule.
    let link_op = Op::StoreRecord {
        record: Record {
            action: Action::CreateLink(CreateLink {
                base_address: AnyLinkableHash::Agent(AgentPubKey(9)),
                target_address: AnyLinkableHash::Action(ActionHash(1)),
                link_type: LinkTypeTag::Known(LinkTypes::PostsByAuthor),
                tag: LinkTag { bytes: Vec::new() },
            }),
            entry: None,
        },
    };
    assert_eq!(validate(&link_op, &with_post), Verdict::Valid);
    assert_eq!(validate(&link_op, &empty_store()), Verdict::Pending);
}

#[test]
fn stored_certificate_update_is_still_rejected() {
    // Even when every dependency resolves — the revised mutation is a
    // certificate creation and the new certificate's references check out —
    // updating a certificate stays forbidden.
    let cert = certificate_entry(ActionHash(1), Vec::new());
    let store = Store {
        records: vec![
            (ActionHash(1), creation_record(post_entry())),
            (ActionHash(10), creation_record(cert.clone())),
        ],
        entries: Vec::new(),
    };
    let op = Op::StoreRecord {
        record: Record {
            action: Action::Update(update_action(ActionHash(10))),
            entry: Some(cert),
        },
    };
    assert_eq!(validate(&op, &store), Verdict::Invalid(Reason::CertificatesCannotBeUpdated));
}

#[test]
fn first_stored_record_wins() {
    // A snapshot resolves an address to the first record stored under it.
    let store = Store {
        records: vec![
            (ActionHash(7), creation_record(like_entry(None))),
            (ActionHash(7), creation_record(post_entry())),
        ],
        entries: Vec::new(),
    };
    let op = store_entry_op(like_entry(Some(ActionHash(7))));
    assert_eq!(validate(&op, &store), Verdict::Valid);

    let reversed = Store {
        records: vec![
            (ActionHash(7), creation_record(post_entry())),
            (ActionHash(7), creation_record(like_entry(None))),
        ],
        entries: Vec::new(),
    };
    assert_eq!(validate(&op, &reversed), Verdict::Invalid(Reason::DependencyWrongType));
}

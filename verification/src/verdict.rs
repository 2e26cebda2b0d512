//! The validator's output.
//!
//! Every path through the validator ends in a verdict; nothing is fatal.
//! `Invalid` carries one of a closed set of reasons, each with a fixed,
//! human-readable message. `Pending` means a dependency record has not yet
//! replicated to this peer: the caller is expected to retry later, so it is
//! deliberately distinct from `Invalid`.

use vstd::prelude::*;

verus! {

/// Why an operation was rejected.
///
/// The first group are policy violations: the operation is categorically
/// forbidden regardless of content. The rest are structural mismatches: a
/// dependency the operation relies on is not what the operation claims.
#[derive(Clone, Copy, Debug, PartialEq, Eq, Structural)]
pub enum Reason {
    /// An update mutation addressed prior Like content.
    LikesCannotBeUpdated,
    /// An update mutation addressed prior Certificate content.
    CertificatesCannotBeUpdated,
    /// A delete mutation addressed prior Certificate content.
    CertificatesCannotBeDeleted,
    /// A delete addressed a link of the PostUpdates kind.
    PostUpdatesLinksCannotBeDeleted,
    /// A delete addressed a link of the PostToCertificates kind.
    PostToCertificatesLinksCannotBeDeleted,
    /// A delete addressed a link of the CertifiedToCertificates kind.
    CertifiedToCertificatesLinksCannotBeDeleted,
    /// A delete addressed a link of the CertificateToCertificates kind.
    CertificateToCertificatesLinksCannotBeDeleted,
    /// A referenced mutation resolved to a record that carries no entry.
    DependantEntryAbsent,
    /// A referenced record or payload resolved to content of another type
    /// than the rule demands.
    DependencyWrongType,
    /// A link endpoint resolved to a record that carries no entry.
    LinkedActionEntryAbsent,
    /// A link endpoint had to be a mutation address but was not one.
    NoActionHashInLink,
    /// A link endpoint had to be a content address but was not one.
    NoEntryHashInLink,
    /// The mutation an update addresses is neither a creation nor an update.
    UpdateOriginalNotCreation,
    /// The mutation a delete addresses is neither a creation nor an update.
    DeleteOriginalNotCreation,
    /// The record a delete addresses holds a public entry type but no entry.
    DeletedEntryAbsent,
    /// The entry a delete addresses is an app entry of no type defined here.
    DeleteOriginalForeignType,
    /// An updated entry decodes to a type other than the original entry's.
    UpdatedEntryTypeDiffers,
    /// Within one update operation the new and original entry types differ.
    UpdateTypePairMismatch,
    /// The mutation a link delete addresses is not a link creation.
    DeleteLinkOriginalNotCreateLink,
    /// A peer's create-agent record is not preceded by an admission package.
    PreviousActionNotAdmissionPackage,
}

impl Reason {
    /// The fixed message attached to this reason.
    pub open spec fn spec_text(self) -> Seq<char> {
        match self {
            Reason::LikesCannotBeUpdated => "Likes cannot be updated"@,
            Reason::CertificatesCannotBeUpdated => "Certificates cannot be updated"@,
            Reason::CertificatesCannotBeDeleted => "Certificates cannot be deleted"@,
            Reason::PostUpdatesLinksCannotBeDeleted => "PostUpdates links cannot be deleted"@,
            Reason::PostToCertificatesLinksCannotBeDeleted => "PostToCertificates links cannot be deleted"@,
            Reason::CertifiedToCertificatesLinksCannotBeDeleted => "CertifiedToCertificates links cannot be deleted"@,
            Reason::CertificateToCertificatesLinksCannotBeDeleted => "CertificateToCertificates links cannot be deleted"@,
            Reason::DependantEntryAbsent => "Dependant action must be accompanied by an entry"@,
            Reason::DependencyWrongType => "Dependency must decode to the expected entry type"@,
            Reason::LinkedActionEntryAbsent => "Linked action must reference an entry"@,
            Reason::NoActionHashInLink => "No action hash associated with link"@,
            Reason::NoEntryHashInLink => "No entry hash associated with link"@,
            Reason::UpdateOriginalNotCreation => "Original action for an update must be a Create or Update action"@,
            Reason::DeleteOriginalNotCreation => "Original action for a delete must be a Create or Update action"@,
            Reason::DeletedEntryAbsent => "Original record for a delete of a public entry must contain an entry"@,
            Reason::DeleteOriginalForeignType => "Original app entry must be one of the defined entry types for this application"@,
            Reason::UpdatedEntryTypeDiffers => "The updated entry type must be the same as the original entry type"@,
            Reason::UpdateTypePairMismatch => "Original and updated entry types must be the same"@,
            Reason::DeleteLinkOriginalNotCreateLink => "The action that a DeleteLink deletes must be a CreateLink"@,
            Reason::PreviousActionNotAdmissionPackage => "The previous action for a `CreateAgent` action must be an `AgentValidationPkg`"@,
        }
    }

    /// The fixed message attached to this reason.
    pub fn text(&self) -> (r: String)
        ensures
            r@ == self.spec_text(),
    {
        match self {
            Reason::LikesCannotBeUpdated => "Likes cannot be updated".to_owned(),
            Reason::CertificatesCannotBeUpdated => "Certificates cannot be updated".to_owned(),
            Reason::CertificatesCannotBeDeleted => "Certificates cannot be deleted".to_owned(),
            Reason::PostUpdatesLinksCannotBeDeleted => "PostUpdates links cannot be deleted".to_owned(),
            Reason::PostToCertificatesLinksCannotBeDeleted => "PostToCertificates links cannot be deleted".to_owned(),
            Reason::CertifiedToCertificatesLinksCannotBeDeleted => "CertifiedToCertificates links cannot be deleted".to_owned(),
            Reason::CertificateToCertificatesLinksCannotBeDeleted => "CertificateToCertificates links cannot be deleted".to_owned(),
            Reason::DependantEntryAbsent => "Dependant action must be accompanied by an entry".to_owned(),
            Reason::DependencyWrongType => "Dependency must decode to the expected entry type".to_owned(),
            Reason::LinkedActionEntryAbsent => "Linked action must reference an entry".to_owned(),
            Reason::NoActionHashInLink => "No action hash associated with link".to_owned(),
            Reason::NoEntryHashInLink => "No entry hash associated with link".to_owned(),
            Reason::UpdateOriginalNotCreation => "Original action for an update must be a Create or Update action".to_owned(),
            Reason::DeleteOriginalNotCreation => "Original action for a delete must be a Create or Update action".to_owned(),
            Reason::DeletedEntryAbsent => "Original record for a delete of a public entry must contain an entry".to_owned(),
            Reason::DeleteOriginalForeignType => "Original app entry must be one of the defined entry types for this application".to_owned(),
            Reason::UpdatedEntryTypeDiffers => "The updated entry type must be the same as the original entry type".to_owned(),
            Reason::UpdateTypePairMismatch => "Original and updated entry types must be the same".to_owned(),
            Reason::DeleteLinkOriginalNotCreateLink => "The action that a DeleteLink deletes must be a CreateLink".to_owned(),
            Reason::PreviousActionNotAdmissionPackage => "The previous action for a `CreateAgent` action must be an `AgentValidationPkg`".to_owned(),
        }
    }
}

/// The outcome of validating one operation.
#[derive(Clone, Copy, Debug, PartialEq, Eq, Structural)]
pub enum Verdict {
    /// The operation may be merged into the shared state.
    Valid,
    /// The operation is rejected for the given reason.
    Invalid(Reason),
    /// A dependency has not yet replicated; the caller should retry later.
    Pending,
}

impl Verdict {
    /// Whether this verdict lets the operation through.
    pub fn is_valid(&self) -> (r: bool)
        ensures
            r == (*self is Valid),
    {
        match self {
            Verdict::Valid => true,
            _ => false,
        }
    }
}

} // verus!

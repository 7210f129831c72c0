//! Errors of the business-architecture domain (capabilities, processes,
//! value streams, spaces).
use vstd::prelude::*;

use crate::text::{concat2, concat3, owned};

verus! {

/// Failure of a business-architecture operation.
#[derive(Debug)]
pub enum DomainError {
    CapabilityNotFound,
    ProcessNotFound,
    ValueStreamNotFound,
    ProcessVersionNotFound,
    CannotReferenceArchived,
    NotOwner,
    SpaceNotFound,
    NotSpaceMember,
    NotSpaceEditor,
    NotSpaceOwner,
    SpaceNameEmpty,
    SpaceQuotaExceeded,
    AlreadyMember,
    CannotRemoveLastOwner,
    InvitationNotFound,
    InvalidTransition { from: String, to: String, entity: String },
    CannotModifyArchived { entity: String },
    Validation(String),
    Semver(String),
    Database(String),
}

/// `e` is the lifecycle-transition error with exactly these texts.
pub open spec fn is_invalid_transition(
    e: DomainError,
    from: Seq<char>,
    to: Seq<char>,
    entity: Seq<char>,
) -> bool {
    e matches DomainError::InvalidTransition { from: f, to: t, entity: n } && f@ == from && t@
        == to && n@ == entity
}

/// `e` is the "archived entity cannot be modified" error for `entity`.
pub open spec fn is_cannot_modify_archived(e: DomainError, entity: Seq<char>) -> bool {
    e matches DomainError::CannotModifyArchived { entity: n } && n@ == entity
}

/// The human-readable message of an error.
pub open spec fn domain_error_message(e: DomainError) -> Seq<char> {
    match e {
        DomainError::CapabilityNotFound => "capability not found"@,
        DomainError::ProcessNotFound => "process not found"@,
        DomainError::ValueStreamNotFound => "value stream not found"@,
        DomainError::ProcessVersionNotFound => "process version not found"@,
        DomainError::CannotReferenceArchived => "cannot reference archived process"@,
        DomainError::NotOwner => "only owner or admin can modify"@,
        DomainError::SpaceNotFound => "space not found"@,
        DomainError::NotSpaceMember => "not a member of this space"@,
        DomainError::NotSpaceEditor => "only space editors can modify content"@,
        DomainError::NotSpaceOwner => "only space owners can manage members"@,
        DomainError::SpaceNameEmpty => "space name cannot be empty"@,
        DomainError::SpaceQuotaExceeded =>
            "space quota exceeded: non-admin users may own at most one space"@,
        DomainError::AlreadyMember => "user is already a member of this space"@,
        DomainError::CannotRemoveLastOwner => "cannot remove the last owner of a space"@,
        DomainError::InvitationNotFound => "invitation not found"@,
        DomainError::InvalidTransition { from, to, entity } => "invalid lifecycle transition: "@
            + from@ + " → "@ + to@ + " on "@ + entity@,
        DomainError::CannotModifyArchived { entity } => "cannot modify archived "@ + entity@,
        DomainError::Validation(m) => "validation error: "@ + m@,
        DomainError::Semver(m) => "semver error: "@ + m@,
        DomainError::Database(m) => "database error: "@ + m@,
    }
}

impl DomainError {
    /// The human-readable message of this error.
    pub fn message(&self) -> (r: String)
        ensures
            r@ == domain_error_message(*self),
    {
        match self {
            DomainError::CapabilityNotFound => owned("capability not found"),
            DomainError::ProcessNotFound => owned("process not found"),
            DomainError::ValueStreamNotFound => owned("value stream not found"),
            DomainError::ProcessVersionNotFound => owned("process version not found"),
            DomainError::CannotReferenceArchived => owned("cannot reference archived process"),
            DomainError::NotOwner => owned("only owner or admin can modify"),
            DomainError::SpaceNotFound => owned("space not found"),
            DomainError::NotSpaceMember => owned("not a member of this space"),
            DomainError::NotSpaceEditor => owned("only space editors can modify content"),
            DomainError::NotSpaceOwner => owned("only space owners can manage members"),
            DomainError::SpaceNameEmpty => owned("space name cannot be empty"),
            DomainError::SpaceQuotaExceeded => owned(
                "space quota exceeded: non-admin users may own at most one space",
            ),
            DomainError::AlreadyMember => owned("user is already a member of this space"),
            DomainError::CannotRemoveLastOwner => owned("cannot remove the last owner of a space"),
            DomainError::InvitationNotFound => owned("invitation not found"),
            DomainError::InvalidTransition { from, to, entity } => {
                let mut r = concat3("invalid lifecycle transition: ", from.as_str(), " → ");
                r.append(to.as_str());
                r.append(" on ");
                r.append(entity.as_str());
                r
            },
            DomainError::CannotModifyArchived { entity } => concat2(
                "cannot modify archived ",
                entity.as_str(),
            ),
            DomainError::Validation(m) => concat2("validation error: ", m.as_str()),
            DomainError::Semver(m) => concat2("semver error: ", m.as_str()),
            DomainError::Database(m) => concat2("database error: ", m.as_str()),
        }
    }
}

} // verus!

//! Shared domain enumerations and the textual values under which they are
//! stored and exchanged.
use vstd::prelude::*;

use crate::text::str_eq;

verus! {

/// Hierarchy level of a business capability.
#[derive(Debug, Clone, Copy, PartialEq, Eq, Hash, Structural)]
pub enum CapabilityLevel {
    L1,
    L2,
    L3,
}

/// Maturity of a business capability.
#[derive(Debug, Clone, Copy, PartialEq, Eq, Hash, Structural)]
pub enum MaturityLevel {
    Level1,
    Level2,
    Level3,
    Level4,
    Level5,
}

/// Business value rating of a capability.
#[derive(Debug, Clone, Copy, PartialEq, Eq, Hash, Structural)]
pub enum BusinessValueRating {
    High,
    Medium,
    Low,
}

/// Cost rating of a capability.
#[derive(Debug, Clone, Copy, PartialEq, Eq, Hash, Structural)]
pub enum CostRating {
    High,
    Medium,
    Low,
}

/// Lifecycle of a versioned business entity: a version is active until it is
/// archived, and archiving is one-way.
#[derive(Debug, Clone, Copy, PartialEq, Eq, Hash, Structural)]
pub enum LifecycleStatus {
    Active,
    Archived,
}

/// Importance of a value stream.
#[derive(Debug, Clone, Copy, PartialEq, Eq, Hash, Structural)]
pub enum ValueStreamImportance {
    Critical,
    High,
    Medium,
    Low,
}

/// Platform-wide role of a user account.
#[derive(Debug, Clone, Copy, PartialEq, Eq, Hash, Structural)]
pub enum UserRole {
    Admin,
    Architect,
    Viewer,
}

/// Account status of a user.
#[derive(Debug, Clone, Copy, PartialEq, Eq, Hash, Structural)]
pub enum UserStatus {
    Active,
    Inactive,
    Banned,
}

/// Role of a member inside one space.
#[derive(Debug, Clone, Copy, PartialEq, Eq, Hash, Structural)]
pub enum SpaceRole {
    Owner,
    Editor,
}

/// Stored value of a user role.
pub open spec fn user_role_name(r: UserRole) -> Seq<char> {
    match r {
        UserRole::Admin => "admin"@,
        UserRole::Architect => "architect"@,
        UserRole::Viewer => "viewer"@,
    }
}

/// The role whose stored value is `s`, if any.
pub open spec fn user_role_from_name(s: Seq<char>) -> Option<UserRole> {
    if s == "admin"@ {
        Some(UserRole::Admin)
    } else if s == "architect"@ {
        Some(UserRole::Architect)
    } else if s == "viewer"@ {
        Some(UserRole::Viewer)
    } else {
        None
    }
}

/// Stored value of a user status.
pub open spec fn user_status_name(s: UserStatus) -> Seq<char> {
    match s {
        UserStatus::Active => "active"@,
        UserStatus::Inactive => "inactive"@,
        UserStatus::Banned => "banned"@,
    }
}

/// The user status whose stored value is `s`, if any.
pub open spec fn user_status_from_name(s: Seq<char>) -> Option<UserStatus> {
    if s == "active"@ {
        Some(UserStatus::Active)
    } else if s == "inactive"@ {
        Some(UserStatus::Inactive)
    } else if s == "banned"@ {
        Some(UserStatus::Banned)
    } else {
        None
    }
}

/// Stored value of a lifecycle status.
pub open spec fn lifecycle_status_name(s: LifecycleStatus) -> Seq<char> {
    match s {
        LifecycleStatus::Active => "active"@,
        LifecycleStatus::Archived => "archived"@,
    }
}

/// The lifecycle status whose stored value is `s`, if any.
pub open spec fn lifecycle_status_from_name(s: Seq<char>) -> Option<LifecycleStatus> {
    if s == "active"@ {
        Some(LifecycleStatus::Active)
    } else if s == "archived"@ {
        Some(LifecycleStatus::Archived)
    } else {
        None
    }
}

/// Stored value of a value-stream importance.
pub open spec fn importance_name(i: ValueStreamImportance) -> Seq<char> {
    match i {
        ValueStreamImportance::Critical => "critical"@,
        ValueStreamImportance::High => "high"@,
        ValueStreamImportance::Medium => "medium"@,
        ValueStreamImportance::Low => "low"@,
    }
}

/// The importance whose stored value is `s`, if any.
pub open spec fn importance_from_name(s: Seq<char>) -> Option<ValueStreamImportance> {
    if s == "critical"@ {
        Some(ValueStreamImportance::Critical)
    } else if s == "high"@ {
        Some(ValueStreamImportance::High)
    } else if s == "medium"@ {
        Some(ValueStreamImportance::Medium)
    } else if s == "low"@ {
        Some(ValueStreamImportance::Low)
    } else {
        None
    }
}

/// Stored value of a space role.
pub open spec fn space_role_name(r: SpaceRole) -> Seq<char> {
    match r {
        SpaceRole::Owner => "owner"@,
        SpaceRole::Editor => "editor"@,
    }
}

/// The space role whose stored value is `s`, if any.
pub open spec fn space_role_from_name(s: Seq<char>) -> Option<SpaceRole> {
    if s == "owner"@ {
        Some(SpaceRole::Owner)
    } else if s == "editor"@ {
        Some(SpaceRole::Editor)
    } else {
        None
    }
}

/// Name of a lifecycle status as its variant is spelled.
pub open spec fn lifecycle_status_label(s: LifecycleStatus) -> Seq<char> {
    match s {
        LifecycleStatus::Active => "Active"@,
        LifecycleStatus::Archived => "Archived"@,
    }
}

/// Roles that may create, update or delete content and use the assistant.
pub open spec fn is_contributor(r: UserRole) -> bool {
    r == UserRole::Admin || r == UserRole::Architect
}

impl UserRole {
    pub fn is_admin(&self) -> (r: bool)
        ensures
            r == (*self == UserRole::Admin),
    {
        matches!(self, UserRole::Admin)
    }

    pub fn is_architect(&self) -> (r: bool)
        ensures
            r == (*self == UserRole::Architect),
    {
        matches!(self, UserRole::Architect)
    }

    pub fn is_viewer(&self) -> (r: bool)
        ensures
            r == (*self == UserRole::Viewer),
    {
        matches!(self, UserRole::Viewer)
    }

    pub fn can_create(&self) -> (r: bool)
        ensures
            r == is_contributor(*self),
    {
        matches!(self, UserRole::Admin | UserRole::Architect)
    }

    pub fn can_update(&self) -> (r: bool)
        ensures
            r == is_contributor(*self),
    {
        matches!(self, UserRole::Admin | UserRole::Architect)
    }

    pub fn can_delete(&self) -> (r: bool)
        ensures
            r == is_contributor(*self),
    {
        matches!(self, UserRole::Admin | UserRole::Architect)
    }

    pub fn can_use_ai(&self) -> (r: bool)
        ensures
            r == is_contributor(*self),
    {
        matches!(self, UserRole::Admin | UserRole::Architect)
    }

    pub fn can_manage_users(&self) -> (r: bool)
        ensures
            r == (*self == UserRole::Admin),
    {
        matches!(self, UserRole::Admin)
    }

    pub fn can_transfer_owner(&self) -> (r: bool)
        ensures
            r == (*self == UserRole::Admin),
    {
        matches!(self, UserRole::Admin)
    }

    /// Parses the stored value of a role (`admin`, `architect`, `viewer`).
    pub fn from_str(s: &str) -> (r: Option<UserRole>)
        ensures
            r == user_role_from_name(s@),
    {
        if str_eq(s, "admin") {
            Some(UserRole::Admin)
        } else if str_eq(s, "architect") {
            Some(UserRole::Architect)
        } else if str_eq(s, "viewer") {
            Some(UserRole::Viewer)
        } else {
            None
        }
    }

    /// The stored value of this role; it is also the lower-cased variant name.
    pub fn as_str(&self) -> (r: &'static str)
        ensures
            r@ == user_role_name(*self),
    {
        match self {
            UserRole::Admin => "admin",
            UserRole::Architect => "architect",
            UserRole::Viewer => "viewer",
        }
    }
}

impl UserStatus {
    pub fn is_active(&self) -> (r: bool)
        ensures
            r == (*self == UserStatus::Active),
    {
        matches!(self, UserStatus::Active)
    }

    /// The stored value of this status; it is also the lower-cased variant name.
    pub fn as_str(&self) -> (r: &'static str)
        ensures
            r@ == user_status_name(*self),
    {
        match self {
            UserStatus::Active => "active",
            UserStatus::Inactive => "inactive",
            UserStatus::Banned => "banned",
        }
    }
}

impl UserStatus {
    /// Parses the stored value of a user status (`active`, `inactive`,
    /// `banned`).
    pub fn from_str(s: &str) -> (r: Option<UserStatus>)
        ensures
            r == user_status_from_name(s@),
    {
        if str_eq(s, "active") {
            Some(UserStatus::Active)
        } else if str_eq(s, "inactive") {
            Some(UserStatus::Inactive)
        } else if str_eq(s, "banned") {
            Some(UserStatus::Banned)
        } else {
            None
        }
    }
}

impl ValueStreamImportance {
    /// The stored value of this importance.
    pub fn as_str(&self) -> (r: &'static str)
        ensures
            r@ == importance_name(*self),
    {
        match self {
            ValueStreamImportance::Critical => "critical",
            ValueStreamImportance::High => "high",
            ValueStreamImportance::Medium => "medium",
            ValueStreamImportance::Low => "low",
        }
    }

    /// Parses the stored value of an importance.
    pub fn from_str(s: &str) -> (r: Option<ValueStreamImportance>)
        ensures
            r == importance_from_name(s@),
    {
        if str_eq(s, "critical") {
            Some(ValueStreamImportance::Critical)
        } else if str_eq(s, "high") {
            Some(ValueStreamImportance::High)
        } else if str_eq(s, "medium") {
            Some(ValueStreamImportance::Medium)
        } else if str_eq(s, "low") {
            Some(ValueStreamImportance::Low)
        } else {
            None
        }
    }
}

impl SpaceRole {
    /// Owners manage the space and its members.
    pub fn is_owner(&self) -> (r: bool)
        ensures
            r == (*self == SpaceRole::Owner),
    {
        matches!(self, SpaceRole::Owner)
    }

    /// Editors may modify content; owners may too.
    pub fn is_editor(&self) -> (r: bool)
        ensures
            r,
    {
        matches!(self, SpaceRole::Owner | SpaceRole::Editor)
    }

    /// Parses the stored value of a space role (`owner`, `editor`).
    pub fn from_str(s: &str) -> (r: Option<SpaceRole>)
        ensures
            r == space_role_from_name(s@),
    {
        if str_eq(s, "owner") {
            Some(SpaceRole::Owner)
        } else if str_eq(s, "editor") {
            Some(SpaceRole::Editor)
        } else {
            None
        }
    }

    /// The stored value of this space role.
    pub fn as_str(&self) -> (r: &'static str)
        ensures
            r@ == space_role_name(*self),
    {
        match self {
            SpaceRole::Owner => "owner",
            SpaceRole::Editor => "editor",
        }
    }
}

impl LifecycleStatus {
    /// The stored value of this status (`active`, `archived`).
    pub fn as_str(&self) -> (r: &'static str)
        ensures
            r@ == lifecycle_status_name(*self),
    {
        match self {
            LifecycleStatus::Active => "active",
            LifecycleStatus::Archived => "archived",
        }
    }

    /// Parses the stored value of a lifecycle status.
    pub fn from_str(s: &str) -> (r: Option<LifecycleStatus>)
        ensures
            r == lifecycle_status_from_name(s@),
    {
        if str_eq(s, "active") {
            Some(LifecycleStatus::Active)
        } else if str_eq(s, "archived") {
            Some(LifecycleStatus::Archived)
        } else {
            None
        }
    }

    /// The variant name of this status (`Active`, `Archived`), as it appears in
    /// lifecycle error messages.
    pub fn label(&self) -> (r: &'static str)
        ensures
            r@ == lifecycle_status_label(*self),
    {
        match self {
            LifecycleStatus::Active => "Active",
            LifecycleStatus::Archived => "Archived",
        }
    }
}

/// Parsing the stored value of a user role gives the role back.
pub proof fn lemma_user_role_name_roundtrip(r: UserRole)
    ensures
        user_role_from_name(user_role_name(r)) == Some(r),
{
    reveal_strlit("admin");
    reveal_strlit("architect");
    reveal_strlit("viewer");
    assert("admin"@.len() == 5);
    assert("architect"@.len() == 9);
    assert("viewer"@.len() == 6);
}

/// Parsing the stored value of a space role gives the role back.
pub proof fn lemma_space_role_name_roundtrip(r: SpaceRole)
    ensures
        space_role_from_name(space_role_name(r)) == Some(r),
{
    reveal_strlit("owner");
    reveal_strlit("editor");
    assert("owner"@.len() == 5);
    assert("editor"@.len() == 6);
}

/// Parsing the stored value of a user status, a lifecycle status or an
/// importance gives it back.
pub proof fn lemma_stored_names_roundtrip(
    s: UserStatus,
    l: LifecycleStatus,
    i: ValueStreamImportance,
)
    ensures
        user_status_from_name(user_status_name(s)) == Some(s),
        lifecycle_status_from_name(lifecycle_status_name(l)) == Some(l),
        importance_from_name(importance_name(i)) == Some(i),
{
    reveal_strlit("active");
    reveal_strlit("inactive");
    reveal_strlit("banned");
    reveal_strlit("archived");
    reveal_strlit("critical");
    reveal_strlit("high");
    reveal_strlit("medium");
    reveal_strlit("low");
    assert("active"@.len() == 6);
    assert("inactive"@.len() == 8);
    assert("banned"@.len() == 6);
    assert("archived"@.len() == 8);
    assert("critical"@.len() == 8);
    assert("high"@.len() == 4);
    assert("medium"@.len() == 6);
    assert("low"@.len() == 3);
    assert("active"@[0] != "banned"@[0]);
}

/// The permission table of platform roles: creating, updating, deleting and
/// using the assistant are granted together, exactly to admins and
/// architects; managing users and transferring ownership exactly to admins;
/// every admin permission is also a contributor permission.
pub proof fn lemma_role_permissions(r: UserRole)
    ensures
        is_contributor(r) <==> r != UserRole::Viewer,
        r == UserRole::Admin ==> is_contributor(r),
{
}

} // verus!

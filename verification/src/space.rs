//! Spaces (the multi-tenant containers of one enterprise's architecture),
//! their members, and the space-level access rules: the ownership quota, who
//! may edit, who may manage, and the guard that keeps an owner in every space.
use vstd::prelude::*;

use crate::business_error::DomainError;
use crate::enums::{SpaceRole, UserRole, space_role_from_name};
use crate::ids::{EntityId, Timestamp};
use crate::text::{copy_opt_string, trim, trim_spec};

verus! {

/// A space. Archiving is a soft delete through `deleted_at`.
#[derive(Debug)]
pub struct Space {
    pub id: EntityId,
    pub name: String,
    pub description: Option<String>,
    pub created_at: Timestamp,
    pub updated_at: Timestamp,
    pub deleted_at: Option<Timestamp>,
}

/// Membership of a user in a space.
#[derive(Debug)]
pub struct SpaceMember {
    pub space_id: EntityId,
    pub user_id: EntityId,
    pub role: SpaceRole,
    pub created_at: Timestamp,
    pub updated_at: Timestamp,
}

impl Space {
    /// Creates a space named by `name` without its surrounding white space.
    /// A name that is empty or only white space is refused.
    pub fn create(id: EntityId, name: String, description: Option<String>, now: Timestamp) -> (r:
        Result<Space, DomainError>)
        ensures
            r is Ok <==> trim_spec(name@).len() > 0,
            r matches Err(e) ==> e is SpaceNameEmpty,
            r matches Ok(s) ==> {
                &&& s.id == id
                &&& s.name@ == trim_spec(name@)
                &&& s.description == description
                &&& s.created_at == now
                &&& s.updated_at == now
                &&& s.deleted_at is None
            },
    {
        let trimmed: String = trim(name.as_str());
        if trimmed.as_str().is_empty() {
            return Err(DomainError::SpaceNameEmpty);
        }
        Ok(
            Space {
                id,
                name: trimmed,
                description,
                created_at: now,
                updated_at: now,
                deleted_at: None,
            },
        )
    }

    /// Renames the space to `name` without its surrounding white space. A
    /// blank name is refused and the space stays as it was.
    pub fn rename(&mut self, name: String, now: Timestamp) -> (r: Result<(), DomainError>)
        ensures
            r is Ok <==> trim_spec(name@).len() > 0,
            r matches Err(e) ==> e is SpaceNameEmpty && *final(self) == *old(self),
            r is Ok ==> {
                &&& final(self).name@ == trim_spec(name@)
                &&& final(self).updated_at == now
                &&& final(self).id == old(self).id
                &&& final(self).description == old(self).description
                &&& final(self).created_at == old(self).created_at
                &&& final(self).deleted_at == old(self).deleted_at
            },
    {
        let trimmed: String = trim(name.as_str());
        if trimmed.as_str().is_empty() {
            return Err(DomainError::SpaceNameEmpty);
        }
        self.name = trimmed;
        self.updated_at = now;
        Ok(())
    }

    /// Replaces the description.
    pub fn set_description(&mut self, description: Option<String>, now: Timestamp)
        ensures
            *final(self) == (Space { description, updated_at: now, ..*old(self) }),
    {
        self.description = description;
        self.updated_at = now;
    }

    /// Archives (soft-deletes) the space at `now`.
    pub fn archive(&mut self, now: Timestamp)
        ensures
            *final(self) == (Space { deleted_at: Some(now), updated_at: now, ..*old(self) }),
    {
        self.deleted_at = Some(now);
        self.updated_at = now;
    }
}

/// The space role stored as `text`; an unrecognised text reads as editor.
pub open spec fn stored_space_role(text: Seq<char>) -> SpaceRole {
    match space_role_from_name(text) {
        Some(r) => r,
        None => SpaceRole::Editor,
    }
}

impl SpaceMember {
    /// A membership read back from storage, where the role is kept as text.
    pub fn from_row(
        space_id: EntityId,
        user_id: EntityId,
        role: &str,
        created_at: Timestamp,
        updated_at: Timestamp,
    ) -> (m: SpaceMember)
        ensures
            m == (SpaceMember {
                space_id,
                user_id,
                role: stored_space_role(role@),
                created_at,
                updated_at,
            }),
    {
        let role: SpaceRole = match SpaceRole::from_str(role) {
            Some(r) => r,
            None => SpaceRole::Editor,
        };
        SpaceMember { space_id, user_id, role, created_at, updated_at }
    }
}

/// Creation of a space by a user who owns `owned` spaces already: the quota
/// is checked, the space is created, and its creator becomes its owner.
pub fn plan_space_creation(
    creator_id: EntityId,
    creator_role: UserRole,
    owned: u64,
    id: EntityId,
    name: String,
    description: Option<String>,
    now: Timestamp,
) -> (r: Result<(Space, SpaceMember), DomainError>)
    ensures
        !may_create_space(creator_role, owned) ==> (r matches Err(e) && e is SpaceQuotaExceeded),
        may_create_space(creator_role, owned) && trim_spec(name@).len() == 0 ==> (r matches Err(e)
            && e is SpaceNameEmpty),
        r is Ok <==> may_create_space(creator_role, owned) && trim_spec(name@).len() > 0,
        r matches Ok(p) ==> {
            &&& p.0.id == id
            &&& p.0.name@ == trim_spec(name@)
            &&& p.0.description == description
            &&& p.0.created_at == now
            &&& p.0.deleted_at is None
            &&& p.1 == (SpaceMember {
                space_id: id,
                user_id: creator_id,
                role: SpaceRole::Owner,
                created_at: now,
                updated_at: now,
            })
        },
{
    match check_create_quota(creator_role, owned) {
        Ok(()) => {},
        Err(e) => {
            return Err(e);
        },
    }
    let space: Space = match Space::create(id, name, description, now) {
        Ok(s) => s,
        Err(e) => {
            return Err(e);
        },
    };
    let member = SpaceMember {
        space_id: space.id,
        user_id: creator_id,
        role: SpaceRole::Owner,
        created_at: now,
        updated_at: now,
    };
    Ok((space, member))
}

/// The optional new name of a space is acceptable: absent, or not blank.
pub open spec fn name_change_allowed(name: Option<String>) -> bool {
    name matches Some(n) ==> trim_spec(n@).len() > 0
}

/// `after` is `before` with the update applied at `now`: a new name without
/// its surrounding white space, a new description (which may clear it), the
/// update instant moved to `now` when anything was given.
pub open spec fn is_space_updated(
    before: Space,
    after: Space,
    name: Option<String>,
    description: Option<Option<String>>,
    now: Timestamp,
) -> bool {
    &&& after.id == before.id
    &&& after.name@ == (match name {
        Some(n) => trim_spec(n@),
        None => before.name@,
    })
    &&& after.description == (match description {
        Some(d) => d,
        None => before.description,
    })
    &&& after.created_at == before.created_at
    &&& after.deleted_at == before.deleted_at
    &&& (name is Some || description is Some ==> after.updated_at == now)
    &&& (name is None && description is None ==> after.updated_at == before.updated_at)
}

/// The changes of a space update, applied in order: a rename (refused when
/// blank), then a new description (which may clear it).
pub fn apply_space_update(
    space: &mut Space,
    name: Option<String>,
    description: Option<Option<String>>,
    now: Timestamp,
) -> (r: Result<(), DomainError>)
    ensures
        name matches Some(n) && trim_spec(n@).len() == 0 ==> (r matches Err(e) && e is SpaceNameEmpty
            && *final(space) == *old(space)),
        r is Ok <==> name_change_allowed(name),
        r is Ok ==> is_space_updated(*old(space), *final(space), name, description, now),
{
    match name {
        Some(n) => {
            match space.rename(n, now) {
                Ok(()) => {},
                Err(e) => {
                    return Err(e);
                },
            }
        },
        None => {},
    }
    match description {
        Some(d) => {
            space.set_description(d, now);
        },
        None => {},
    }
    Ok(())
}

/// A space update by an actor, given the actor's membership in the space and
/// the looked-up space: only owners and admins may update (`NotSpaceOwner`);
/// a missing space is `SpaceNotFound`; then the changes are applied as
/// `apply_space_update` applies them (a blank name is `SpaceNameEmpty`).
pub fn update_space_found(
    actor_role: UserRole,
    membership: Option<SpaceRole>,
    found: Option<Space>,
    name: Option<String>,
    description: Option<Option<String>>,
    now: Timestamp,
) -> (r: Result<Space, DomainError>)
    ensures
        !may_manage(actor_role, membership) ==> (r matches Err(e) && e is NotSpaceOwner),
        may_manage(actor_role, membership) && found is None ==> (r matches Err(e)
            && e is SpaceNotFound),
        may_manage(actor_role, membership) && found is Some && !name_change_allowed(name) ==> (
        r matches Err(e) && e is SpaceNameEmpty),
        r is Ok <==> may_manage(actor_role, membership) && found is Some && name_change_allowed(
            name,
        ),
        r matches Ok(u) ==> (found matches Some(s) && is_space_updated(s, u, name, description, now)),
{
    match check_can_manage(actor_role, membership) {
        Ok(()) => {},
        Err(e) => {
            return Err(e);
        },
    }
    let mut space: Space = match found {
        None => {
            return Err(DomainError::SpaceNotFound);
        },
        Some(s) => s,
    };
    match apply_space_update(&mut space, name, description, now) {
        Ok(()) => Ok(space),
        Err(e) => Err(e),
    }
}

/// The membership granted when a member is added.
pub fn new_membership(space_id: EntityId, user_id: EntityId, role: SpaceRole, now: Timestamp) -> (m:
    SpaceMember)
    ensures
        m == (SpaceMember { space_id, user_id, role, created_at: now, updated_at: now }),
{
    SpaceMember { space_id, user_id, role, created_at: now, updated_at: now }
}

/// The stored space that saving `space` leaves, given the one stored under
/// its id, if any. An update writes the name, description, update instant
/// and deletion mark of `space` and keeps the stored id and creation
/// instant; an insert writes `space` whole.
pub fn space_for_save(existing: Option<Space>, space: &Space) -> (r: Space)
    ensures
        r.name == space.name,
        r.description == space.description,
        r.updated_at == space.updated_at,
        r.deleted_at == space.deleted_at,
        existing matches Some(old) ==> r.id == old.id && r.created_at == old.created_at,
        existing is None ==> r.id == space.id && r.created_at == space.created_at,
{
    let (id, created_at) = match existing {
        Some(old) => (old.id, old.created_at),
        None => (space.id, space.created_at),
    };
    Space {
        id,
        name: space.name.clone(),
        description: copy_opt_string(&space.description),
        created_at,
        updated_at: space.updated_at,
        deleted_at: space.deleted_at,
    }
}

/// The stored membership that adding `member` leaves, given the one stored
/// for the same space and user, if any. An update writes the role and the
/// update instant and keeps the stored creation instant; an insert writes
/// `member` whole.
pub fn membership_for_save(existing: Option<SpaceMember>, member: &SpaceMember) -> (r: SpaceMember)
    ensures
        r.space_id == member.space_id,
        r.user_id == member.user_id,
        r.role == member.role,
        r.updated_at == member.updated_at,
        existing matches Some(old) ==> r.created_at == old.created_at,
        existing is None ==> r.created_at == member.created_at,
{
    let created_at: Timestamp = match existing {
        Some(old) => old.created_at,
        None => member.created_at,
    };
    SpaceMember {
        space_id: member.space_id,
        user_id: member.user_id,
        role: member.role,
        created_at,
        updated_at: member.updated_at,
    }
}

/// A user may create a space when they are an admin or own no space yet.
pub open spec fn may_create_space(role: UserRole, owned: u64) -> bool {
    role == UserRole::Admin || owned == 0
}

/// An actor may edit the content of a space: admins always, other users when
/// they are a member (editors and owners alike).
pub open spec fn may_edit(role: UserRole, membership: Option<SpaceRole>) -> bool {
    role == UserRole::Admin || membership is Some
}

/// An actor may manage a space (its settings and members): admins always,
/// other users when they own it.
pub open spec fn may_manage(role: UserRole, membership: Option<SpaceRole>) -> bool {
    role == UserRole::Admin || membership == Some(SpaceRole::Owner)
}

/// A member may be removed when they are a member and are not the only owner
/// (`owners` counts the owners of the space).
pub open spec fn may_remove(target: Option<SpaceRole>, owners: u64) -> bool {
    target is Some && (target == Some(SpaceRole::Owner) ==> owners > 1)
}

/// The ownership quota applied when a space is created: non-admin users may
/// own at most one space; `owned` is how many they own already.
pub fn check_create_quota(creator_role: UserRole, owned: u64) -> (r: Result<(), DomainError>)
    ensures
        r is Ok <==> may_create_space(creator_role, owned),
        r matches Err(e) ==> e is SpaceQuotaExceeded,
{
    if !creator_role.is_admin() {
        if owned >= 1 {
            return Err(DomainError::SpaceQuotaExceeded);
        }
    }
    Ok(())
}

/// Whether the actor may edit content in a space, given the actor's
/// membership there.
pub fn check_can_edit(actor_role: UserRole, membership: Option<SpaceRole>) -> (r: Result<
    (),
    DomainError,
>)
    ensures
        r is Ok <==> may_edit(actor_role, membership),
        r matches Err(e) ==> e is NotSpaceMember && membership is None,
{
    if actor_role.is_admin() {
        return Ok(());
    }
    match membership {
        None => Err(DomainError::NotSpaceMember),
        Some(role) => {
            if !role.is_editor() {
                return Err(DomainError::NotSpaceEditor);
            }
            Ok(())
        },
    }
}

/// Whether the actor may manage a space, given the actor's membership there.
pub fn check_can_manage(actor_role: UserRole, membership: Option<SpaceRole>) -> (r: Result<
    (),
    DomainError,
>)
    ensures
        r is Ok <==> may_manage(actor_role, membership),
        r matches Err(e) ==> e is NotSpaceOwner,
{
    if actor_role.is_admin() {
        return Ok(());
    }
    match membership {
        None => Err(DomainError::NotSpaceOwner),
        Some(role) => {
            if !role.is_owner() {
                return Err(DomainError::NotSpaceOwner);
            }
            Ok(())
        },
    }
}

/// Whether a user can be added, given their current membership: nobody is a
/// member of a space twice.
pub fn check_new_member(existing: Option<SpaceRole>) -> (r: Result<(), DomainError>)
    ensures
        r is Ok <==> existing is None,
        r matches Err(e) ==> e is AlreadyMember,
{
    match existing {
        Some(_) => Err(DomainError::AlreadyMember),
        None => Ok(()),
    }
}

/// Whether a member can be removed, given their membership and the number of
/// owners of the space: the last owner cannot be removed.
pub fn check_member_removal(target: Option<SpaceRole>, owners: u64) -> (r: Result<(), DomainError>)
    ensures
        r is Ok <==> may_remove(target, owners),
        r matches Err(e) ==> (target is None ==> e is NotSpaceMember) && (target is Some
            ==> e is CannotRemoveLastOwner),
{
    match target {
        Some(role) => {
            if role.is_owner() {
                if owners <= 1 {
                    return Err(DomainError::CannotRemoveLastOwner);
                }
            }
            Ok(())
        },
        None => Err(DomainError::NotSpaceMember),
    }
}

/// The owners among the members of a space (members keyed by user id).
pub open spec fn owners_of(members: Map<EntityId, SpaceRole>) -> Set<EntityId> {
    members.dom().filter(|u: EntityId| members[u] == SpaceRole::Owner)
}

/// Managing implies editing: whoever may manage a space may edit it.
pub proof fn lemma_manage_implies_edit(role: UserRole, membership: Option<SpaceRole>)
    ensures
        may_manage(role, membership) ==> may_edit(role, membership),
{
}

/// A space never loses its last owner through member removal: when a space
/// has at least one owner and the removal of `user` is allowed, the members
/// that remain still include an owner.
pub proof fn lemma_removal_keeps_an_owner(members: Map<EntityId, SpaceRole>, user: EntityId)
    requires
        members.dom().finite(),
        owners_of(members).len() >= 1,
        owners_of(members).len() <= u64::MAX,
        may_remove(
            if members.dom().contains(user) {
                Some(members[user])
            } else {
                None
            },
            owners_of(members).len() as u64,
        ),
    ensures
        owners_of(members.remove(user)).len() >= 1,
{
    let before = owners_of(members);
    let after = owners_of(members.remove(user));
    members.dom().lemma_len_filter(|u: EntityId| members[u] == SpaceRole::Owner);
    if members[user] == SpaceRole::Owner {
        assert(after =~= before.remove(user));
        vstd::set::axiom_set_remove_len(before, user);
    } else {
        assert(after =~= before);
    }
}

} // verus!

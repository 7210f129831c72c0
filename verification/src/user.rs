//! User accounts and their public representation.
use vstd::prelude::*;

use crate::enums::{UserRole, UserStatus, user_role_name, user_status_name};
use crate::ids::{EntityId, Timestamp, current_time, new_random_id};
use crate::text::owned;

verus! {

/// A user account.
#[derive(Debug)]
pub struct User {
    pub id: EntityId,
    pub email: String,
    pub name: String,
    pub password_hash: String,
    pub role: UserRole,
    pub status: UserStatus,
    pub created_at: Timestamp,
    pub updated_at: Timestamp,
}

/// What the API shows of a user: no password hash, role and status as their
/// lower-case names.
#[derive(Debug)]
pub struct UserDto {
    pub id: EntityId,
    pub email: String,
    pub name: String,
    pub role: String,
    pub status: String,
}

impl User {
    /// A new active account with a fresh random id, created now.
    pub fn new(email: String, name: String, password_hash: String, role: UserRole) -> (u: User)
        ensures
            u.email == email,
            u.name == name,
            u.password_hash == password_hash,
            u.role == role,
            u.status == UserStatus::Active,
            u.created_at == u.updated_at,
            u.created_at >= 0,
            (u.id >> 76u128) & 0xfu128 == 4u128,
    {
        let now: Timestamp = current_time();
        User {
            id: new_random_id(),
            email,
            name,
            password_hash,
            role,
            status: UserStatus::Active,
            created_at: now,
            updated_at: now,
        }
    }

    /// Whether `actor_id` acting with `actor_role` may modify this account:
    /// admins may modify any account, others only their own.
    pub fn can_modify(&self, actor_id: EntityId, actor_role: UserRole) -> (r: bool)
        ensures
            r == (actor_role == UserRole::Admin || self.id == actor_id),
    {
        actor_role.is_admin() || self.id == actor_id
    }

    /// Gives the account a new role, stamped with the current instant.
    pub fn set_role(&mut self, new_role: UserRole)
        ensures
            final(self).role == new_role,
            final(self).id == old(self).id,
            final(self).email == old(self).email,
            final(self).name == old(self).name,
            final(self).password_hash == old(self).password_hash,
            final(self).status == old(self).status,
            final(self).created_at == old(self).created_at,
            final(self).updated_at >= 0,
    {
        self.role = new_role;
        self.updated_at = current_time();
    }
}

/// The stored account that saving `user` leaves, given the one stored under
/// its id, if any. An update writes the e-mail address, name, password hash,
/// role, status and update instant of `user` and keeps the stored id and
/// creation instant; an insert writes `user` whole.
pub fn user_for_save(existing: Option<User>, user: &User) -> (r: User)
    ensures
        r.email == user.email,
        r.name == user.name,
        r.password_hash == user.password_hash,
        r.role == user.role,
        r.status == user.status,
        r.updated_at == user.updated_at,
        existing matches Some(old) ==> r.id == old.id && r.created_at == old.created_at,
        existing is None ==> r.id == user.id && r.created_at == user.created_at,
{
    let (id, created_at) = match existing {
        Some(old) => (old.id, old.created_at),
        None => (user.id, user.created_at),
    };
    User {
        id,
        email: user.email.clone(),
        name: user.name.clone(),
        password_hash: user.password_hash.clone(),
        role: user.role,
        status: user.status,
        created_at,
        updated_at: user.updated_at,
    }
}

/// The public representation of a user.
pub fn user_to_dto(user: &User) -> (d: UserDto)
    ensures
        d.id == user.id,
        d.email == user.email,
        d.name == user.name,
        d.role@ == user_role_name(user.role),
        d.status@ == user_status_name(user.status),
{
    UserDto {
        id: user.id,
        email: user.email.clone(),
        name: user.name.clone(),
        role: owned(user.role.as_str()),
        status: owned(user.status.as_str()),
    }
}

} // verus!

//! The value-stream use cases that sit between storage and the aggregate:
//! what becomes of a stored version once it has been looked up. Looking it
//! up and saving the outcome is the caller's part.
use vstd::prelude::*;

use crate::business_error::{DomainError, is_cannot_modify_archived, is_invalid_transition};
use crate::enums::{LifecycleStatus, ValueStreamImportance, lifecycle_status_label};
use crate::ids::{EntityId, MAX_CLOCK_NANOS, Timestamp, current_time, new_time_ordered_id};
use crate::value_stream::{
    ValueStream, is_archived_from, is_first_version, is_next_version, is_updated_from,
};

verus! {

/// The first version of a new value stream, with a fresh time-ordered id,
/// created now.
pub fn new_value_stream(
    name: String,
    description: String,
    business_version: String,
    importance: ValueStreamImportance,
) -> (vs: ValueStream)
    ensures
        is_first_version(vs, vs.id, name, description, business_version, importance, vs.created_at),
        (vs.id >> 76u128) & 0xfu128 == 7u128,
        0 <= vs.created_at <= MAX_CLOCK_NANOS,
{
    let id: EntityId = new_time_ordered_id();
    let now: Timestamp = current_time();
    ValueStream::create(id, name, description, business_version, importance, now)
}

/// Archives the looked-up version at `now`. A missing version is
/// `ValueStreamNotFound`; an archived one is refused by the aggregate.
pub fn archive_found(found: Option<ValueStream>, now: Timestamp) -> (r: Result<
    ValueStream,
    DomainError,
>)
    ensures
        found is None ==> (r matches Err(e) && e is ValueStreamNotFound),
        found matches Some(v) ==> (r is Ok <==> v.status == LifecycleStatus::Active),
        r matches Ok(a) ==> (found matches Some(v) && is_archived_from(v, a, now)),
        found matches Some(v) ==> (v.status != LifecycleStatus::Active ==> (r matches Err(e)
            && is_invalid_transition(
            e,
            lifecycle_status_label(v.status),
            "Archived"@,
            "ValueStream"@,
        ))),
{
    let mut vs: ValueStream = match found {
        None => {
            return Err(DomainError::ValueStreamNotFound);
        },
        Some(v) => v,
    };
    match vs.archive(now) {
        Ok(()) => Ok(vs),
        Err(e) => Err(e),
    }
}

/// Publishes a new version of the looked-up version: the old one is
/// archived and the new one, with id `new_id`, takes the given name and
/// description or keeps the old ones where none is given. A missing version
/// is `ValueStreamNotFound`; an archived one cannot be versioned.
pub fn new_version_from_found(
    found: Option<ValueStream>,
    new_id: EntityId,
    new_version: String,
    new_name: Option<String>,
    new_description: Option<String>,
    now: Timestamp,
) -> (r: Result<(ValueStream, ValueStream), DomainError>)
    ensures
        found is None ==> (r matches Err(e) && e is ValueStreamNotFound),
        found matches Some(cur) ==> (r is Ok <==> cur.status == LifecycleStatus::Active),
        r matches Ok(p) ==> (found matches Some(cur) && is_archived_from(cur, p.0, now)
            && is_next_version(
            cur,
            p.1,
            new_id,
            new_version,
            match new_name {
                Some(n) => n,
                None => cur.name,
            },
            match new_description {
                Some(d) => d,
                None => cur.description,
            },
            now,
        )),
        found matches Some(cur) ==> (cur.status != LifecycleStatus::Active ==> (r matches Err(e)
            && is_invalid_transition(
            e,
            lifecycle_status_label(cur.status),
            "Archived (for versioning)"@,
            "ValueStream"@,
        ))),
{
    let mut current: ValueStream = match found {
        None => {
            return Err(DomainError::ValueStreamNotFound);
        },
        Some(v) => v,
    };
    let name: String = match new_name {
        Some(n) => n,
        None => current.name.clone(),
    };
    let description: String = match new_description {
        Some(d) => d,
        None => current.description.clone(),
    };
    match current.create_new_version(new_id, new_version, name, description, now) {
        Ok(next) => Ok((current, next)),
        Err(e) => Err(e),
    }
}

/// Applies an update to the looked-up version at `now`. A missing version
/// is `ValueStreamNotFound`; an archived one cannot be modified.
pub fn update_found(
    found: Option<ValueStream>,
    name: Option<String>,
    description: Option<String>,
    importance: Option<ValueStreamImportance>,
    now: Timestamp,
) -> (r: Result<ValueStream, DomainError>)
    ensures
        found is None ==> (r matches Err(e) && e is ValueStreamNotFound),
        found matches Some(v) ==> (r is Ok <==> v.status == LifecycleStatus::Active),
        r matches Ok(u) ==> (found matches Some(v) && is_updated_from(
            v,
            u,
            name,
            description,
            importance,
            now,
        )),
        found matches Some(v) ==> (v.status != LifecycleStatus::Active ==> (r matches Err(e)
            && is_cannot_modify_archived(e, "ValueStream"@))),
{
    let mut vs: ValueStream = match found {
        None => {
            return Err(DomainError::ValueStreamNotFound);
        },
        Some(v) => v,
    };
    match vs.update(name, description, importance, now) {
        Ok(()) => Ok(vs),
        Err(e) => Err(e),
    }
}

} // verus!

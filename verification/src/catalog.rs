//! Business capabilities, business processes and process steps as the
//! domain holds them, how a save merges a capability into its stored row,
//! and the publication of a new process version.
use vstd::prelude::*;

use crate::business_error::DomainError;
use crate::enums::{BusinessValueRating, CapabilityLevel, CostRating, LifecycleStatus, MaturityLevel};
use crate::ids::{EntityId, Timestamp};
use crate::text::copy_opt_string;
use crate::version::{
    checked_bump_minor, is_semver_refusal, minor_bump_fits, semver_parse_spec, version_text,
};

verus! {

/// A version of a business capability.
#[derive(Debug)]
pub struct BusinessCapability {
    pub id: EntityId,
    pub logical_id: EntityId,
    pub business_version: String,
    pub status: LifecycleStatus,
    pub name: String,
    pub description: String,
    pub level: CapabilityLevel,
    pub maturity: MaturityLevel,
    pub business_value: BusinessValueRating,
    pub cost: CostRating,
    pub owner_id: Option<EntityId>,
    pub created_by: Option<EntityId>,
    pub updated_by: Option<EntityId>,
    pub created_at: Timestamp,
    pub updated_at: Timestamp,
    pub deleted_at: Option<Timestamp>,
}

/// A step of a business process.
#[derive(Debug)]
pub struct ProcessStep {
    pub id: EntityId,
    pub name: String,
    pub description: String,
    pub sequence_order: i32,
    pub business_rules: Vec<String>,
    pub required_inputs: Vec<String>,
    pub produced_outputs: Vec<String>,
    pub role_id: Option<EntityId>,
    pub process_id: EntityId,
    pub created_at: Timestamp,
    pub updated_at: Timestamp,
    pub deleted_at: Option<Timestamp>,
}

/// A version of a business process. The cost per transaction is kept as the
/// bit pattern of its IEEE-754 double, which is only carried, never computed
/// with.
#[derive(Debug)]
pub struct BusinessProcess {
    pub id: EntityId,
    pub logical_id: EntityId,
    pub business_version: String,
    pub status: LifecycleStatus,
    pub name: String,
    pub description: String,
    pub sla: Option<String>,
    pub cost_per_transaction_bits: Option<u64>,
    pub cycle_time: Option<i64>,
    pub owner_id: Option<EntityId>,
    pub created_by: Option<EntityId>,
    pub updated_by: Option<EntityId>,
    pub created_at: Timestamp,
    pub updated_at: Timestamp,
    pub deleted_at: Option<Timestamp>,
}

/// The stored capability that saving `cap` leaves, given the one stored
/// under its id, if any. An update writes the attributes of `cap` and keeps
/// the stored id, logical id, author, creation instant and deletion mark; an
/// insert writes `cap` whole, not deleted.
pub fn capability_for_save(existing: Option<BusinessCapability>, cap: &BusinessCapability) -> (r:
    BusinessCapability)
    ensures
        r.business_version == cap.business_version,
        r.status == cap.status,
        r.name == cap.name,
        r.description == cap.description,
        r.level == cap.level,
        r.maturity == cap.maturity,
        r.business_value == cap.business_value,
        r.cost == cap.cost,
        r.owner_id == cap.owner_id,
        r.updated_by == cap.updated_by,
        r.updated_at == cap.updated_at,
        existing matches Some(old) ==> {
            &&& r.id == old.id
            &&& r.logical_id == old.logical_id
            &&& r.created_by == old.created_by
            &&& r.created_at == old.created_at
            &&& r.deleted_at == old.deleted_at
        },
        existing is None ==> {
            &&& r.id == cap.id
            &&& r.logical_id == cap.logical_id
            &&& r.created_by == cap.created_by
            &&& r.created_at == cap.created_at
            &&& r.deleted_at is None
        },
{
    let (id, logical_id, created_by, created_at, deleted_at) = match existing {
        Some(old) => (old.id, old.logical_id, old.created_by, old.created_at, old.deleted_at),
        None => (cap.id, cap.logical_id, cap.created_by, cap.created_at, None),
    };
    BusinessCapability {
        id,
        logical_id,
        business_version: cap.business_version.clone(),
        status: cap.status,
        name: cap.name.clone(),
        description: cap.description.clone(),
        level: cap.level,
        maturity: cap.maturity,
        business_value: cap.business_value,
        cost: cap.cost,
        owner_id: cap.owner_id,
        created_by,
        updated_by: cap.updated_by,
        created_at,
        updated_at: cap.updated_at,
        deleted_at,
    }
}

/// The stored process that saving `proc` leaves, given the one stored under
/// its id, if any. An update writes the attributes of `proc` and keeps the
/// stored id, logical id, author, creation instant and deletion mark; an
/// insert writes `proc` whole, not deleted.
pub fn process_for_save(existing: Option<BusinessProcess>, proc: &BusinessProcess) -> (r:
    BusinessProcess)
    ensures
        r.business_version == proc.business_version,
        r.status == proc.status,
        r.name == proc.name,
        r.description == proc.description,
        r.sla == proc.sla,
        r.cost_per_transaction_bits == proc.cost_per_transaction_bits,
        r.cycle_time == proc.cycle_time,
        r.owner_id == proc.owner_id,
        r.updated_by == proc.updated_by,
        r.updated_at == proc.updated_at,
        existing matches Some(old) ==> {
            &&& r.id == old.id
            &&& r.logical_id == old.logical_id
            &&& r.created_by == old.created_by
            &&& r.created_at == old.created_at
            &&& r.deleted_at == old.deleted_at
        },
        existing is None ==> {
            &&& r.id == proc.id
            &&& r.logical_id == proc.logical_id
            &&& r.created_by == proc.created_by
            &&& r.created_at == proc.created_at
            &&& r.deleted_at is None
        },
{
    let (id, logical_id, created_by, created_at, deleted_at) = match existing {
        Some(old) => (old.id, old.logical_id, old.created_by, old.created_at, old.deleted_at),
        None => (proc.id, proc.logical_id, proc.created_by, proc.created_at, None),
    };
    BusinessProcess {
        id,
        logical_id,
        business_version: proc.business_version.clone(),
        status: proc.status,
        name: proc.name.clone(),
        description: proc.description.clone(),
        sla: copy_opt_string(&proc.sla),
        cost_per_transaction_bits: proc.cost_per_transaction_bits,
        cycle_time: proc.cycle_time,
        owner_id: proc.owner_id,
        created_by,
        updated_by: proc.updated_by,
        created_at,
        updated_at: proc.updated_at,
        deleted_at,
    }
}

/// Whether a capability may be linked to the looked-up process: the process
/// must exist (and not be deleted) and be active; archived versions cannot
/// be referenced.
pub fn check_process_reference(found: Option<&BusinessProcess>) -> (r: Result<(), DomainError>)
    ensures
        found is None ==> (r matches Err(e) && e is ProcessNotFound),
        found matches Some(p) ==> (r is Ok <==> p.status == LifecycleStatus::Active),
        found matches Some(p) ==> (r matches Err(e) ==> e is CannotReferenceArchived),
{
    match found {
        None => Err(DomainError::ProcessNotFound),
        Some(p) => {
            if p.status != LifecycleStatus::Active {
                return Err(DomainError::CannotReferenceArchived);
            }
            Ok(())
        },
    }
}

/// `n` is the version after `old` published with id `new_id` at `now`: the
/// given version text, the same logical id and attributes, active, created
/// and updated at `now`, not deleted.
pub open spec fn is_published_after(
    old: BusinessProcess,
    n: BusinessProcess,
    new_id: EntityId,
    version: Seq<char>,
    now: Timestamp,
) -> bool {
    &&& n.id == new_id
    &&& n.logical_id == old.logical_id
    &&& n.business_version@ == version
    &&& n.status == LifecycleStatus::Active
    &&& n.name == old.name
    &&& n.description == old.description
    &&& n.sla == old.sla
    &&& n.cost_per_transaction_bits == old.cost_per_transaction_bits
    &&& n.cycle_time == old.cycle_time
    &&& n.owner_id == old.owner_id
    &&& n.created_by == old.created_by
    &&& n.updated_by == old.updated_by
    &&& n.created_at == now
    &&& n.updated_at == now
    &&& n.deleted_at is None
}

/// Publishes the next version of the looked-up active process: the minor
/// number of its version is bumped, the old version is archived (only its
/// status changes), and the new one, with id `new_id`, copies its attributes
/// and is created at `now`. A missing process is `ProcessVersionNotFound`; a
/// version text that is not a semantic version is a `Semver` error. `None`
/// when the minor number is already the largest a version can hold.
pub fn publish_process_version(found: Option<BusinessProcess>, new_id: EntityId, now: Timestamp) -> (r:
    Option<Result<(BusinessProcess, BusinessProcess), DomainError>>)
    ensures
        found is None ==> (r matches Some(Err(e)) && e is ProcessVersionNotFound),
        found matches Some(old) ==> (r is None <==> !minor_bump_fits(old.business_version@)),
        found matches Some(old) ==> (r matches Some(Ok(_)) <==> semver_parse_spec(
            old.business_version@,
        ) is Ok && minor_bump_fits(old.business_version@)),
        found matches Some(old) ==> (r matches Some(Err(e)) ==> is_semver_refusal(
            e,
            old.business_version@,
        )),
        r matches Some(Ok(p)) ==> (found matches Some(old) && semver_parse_spec(
            old.business_version@,
        ) matches Ok(v) && p.0 == (BusinessProcess { status: LifecycleStatus::Archived, ..old })
            && is_published_after(old, p.1, new_id, version_text(v.0, (v.1 + 1) as u64, v.2), now)),
{
    let mut old: BusinessProcess = match found {
        None => {
            return Some(Err(DomainError::ProcessVersionNotFound));
        },
        Some(p) => p,
    };
    let new_version: String = match checked_bump_minor(old.business_version.as_str()) {
        None => {
            return None;
        },
        Some(Err(e)) => {
            return Some(Err(e));
        },
        Some(Ok(t)) => t,
    };
    old.status = LifecycleStatus::Archived;
    let next = BusinessProcess {
        id: new_id,
        logical_id: old.logical_id,
        business_version: new_version,
        status: LifecycleStatus::Active,
        name: old.name.clone(),
        description: old.description.clone(),
        sla: copy_opt_string(&old.sla),
        cost_per_transaction_bits: old.cost_per_transaction_bits,
        cycle_time: old.cycle_time,
        owner_id: old.owner_id,
        created_by: old.created_by,
        updated_by: old.updated_by,
        created_at: now,
        updated_at: now,
        deleted_at: None,
    };
    Some(Ok((old, next)))
}

} // verus!

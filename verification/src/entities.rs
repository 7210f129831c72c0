//! Persistence records of the business tables, and their conversion to and
//! from the domain aggregates.
use vstd::prelude::*;

use crate::enums::{LifecycleStatus, ValueStreamImportance};
use crate::ids::{EntityId, Timestamp};
use crate::text::{copy_opt_string, copy_string_pairs, copy_strings};
use crate::value_stream::ValueStream;

verus! {

/// A row of the `value_streams` table.
#[derive(Debug)]
pub struct Model {
    pub id: EntityId,
    pub logical_id: EntityId,
    pub business_version: String,
    pub status: LifecycleStatus,
    pub name: String,
    pub description: String,
    pub triggering_event: Option<String>,
    pub end_deliverable: Option<String>,
    pub owner_id: Option<EntityId>,
    pub importance: ValueStreamImportance,
    pub stakeholders: Vec<String>,
    pub performance_metrics: Vec<(String, String)>,
    pub created_by: Option<EntityId>,
    pub updated_by: Option<EntityId>,
    pub created_at: Timestamp,
    pub updated_at: Timestamp,
    pub deleted_at: Option<Timestamp>,
}

/// A row and a domain value carry the same attributes, lists by content.
pub open spec fn model_matches(m: Model, vs: ValueStream) -> bool {
    &&& m.id == vs.id
    &&& m.logical_id == vs.logical_id
    &&& m.business_version == vs.business_version
    &&& m.status == vs.status
    &&& m.name == vs.name
    &&& m.description == vs.description
    &&& m.triggering_event == vs.triggering_event
    &&& m.end_deliverable == vs.end_deliverable
    &&& m.owner_id == vs.owner_id
    &&& m.importance == vs.importance
    &&& m.stakeholders@ == vs.stakeholders@
    &&& m.performance_metrics@ == vs.performance_metrics@
    &&& m.created_by == vs.created_by
    &&& m.updated_by == vs.updated_by
    &&& m.created_at == vs.created_at
    &&& m.updated_at == vs.updated_at
    &&& m.deleted_at == vs.deleted_at
}

/// The domain value that a stored row stands for.
pub open spec fn value_stream_of_model(m: Model) -> ValueStream {
    ValueStream {
        id: m.id,
        logical_id: m.logical_id,
        business_version: m.business_version,
        status: m.status,
        name: m.name,
        description: m.description,
        triggering_event: m.triggering_event,
        end_deliverable: m.end_deliverable,
        owner_id: m.owner_id,
        importance: m.importance,
        stakeholders: m.stakeholders,
        performance_metrics: m.performance_metrics,
        created_by: m.created_by,
        updated_by: m.updated_by,
        created_at: m.created_at,
        updated_at: m.updated_at,
        deleted_at: m.deleted_at,
    }
}

impl From<Model> for ValueStream {
    fn from(m: Model) -> (r: ValueStream) {
        ValueStream {
            id: m.id,
            logical_id: m.logical_id,
            business_version: m.business_version,
            status: m.status,
            name: m.name,
            description: m.description,
            triggering_event: m.triggering_event,
            end_deliverable: m.end_deliverable,
            owner_id: m.owner_id,
            importance: m.importance,
            stakeholders: m.stakeholders,
            performance_metrics: m.performance_metrics,
            created_by: m.created_by,
            updated_by: m.updated_by,
            created_at: m.created_at,
            updated_at: m.updated_at,
            deleted_at: m.deleted_at,
        }
    }
}

impl vstd::std_specs::convert::FromSpecImpl<Model> for ValueStream {
    open spec fn obeys_from_spec() -> bool {
        true
    }

    open spec fn from_spec(v: Model) -> ValueStream {
        value_stream_of_model(v)
    }
}

/// The row that stores a domain value stream (a copy; the domain value is
/// left in place).
pub fn domain_vs_to_model(vs: &ValueStream) -> (m: Model)
    ensures
        model_matches(m, *vs),
{
    Model {
        id: vs.id,
        logical_id: vs.logical_id,
        business_version: vs.business_version.clone(),
        status: vs.status,
        name: vs.name.clone(),
        description: vs.description.clone(),
        triggering_event: copy_opt_string(&vs.triggering_event),
        end_deliverable: copy_opt_string(&vs.end_deliverable),
        owner_id: vs.owner_id,
        importance: vs.importance,
        stakeholders: copy_strings(&vs.stakeholders),
        performance_metrics: copy_string_pairs(&vs.performance_metrics),
        created_by: vs.created_by,
        updated_by: vs.updated_by,
        created_at: vs.created_at,
        updated_at: vs.updated_at,
        deleted_at: vs.deleted_at,
    }
}

/// `m` carries the attributes that a save writes from `vs`: everything but
/// the stored identity, author, creation instant and deletion mark.
pub open spec fn carries_saved_attributes(m: Model, vs: ValueStream) -> bool {
    &&& m.business_version == vs.business_version
    &&& m.status == vs.status
    &&& m.name == vs.name
    &&& m.description == vs.description
    &&& m.triggering_event == vs.triggering_event
    &&& m.end_deliverable == vs.end_deliverable
    &&& m.owner_id == vs.owner_id
    &&& m.importance == vs.importance
    &&& m.stakeholders@ == vs.stakeholders@
    &&& m.performance_metrics@ == vs.performance_metrics@
    &&& m.updated_by == vs.updated_by
    &&& m.updated_at == vs.updated_at
}

/// The row that saving `vs` leaves in the table, given the row stored under
/// its id, if any. An update writes the attributes of `vs` and keeps the
/// stored id, logical id, author, creation instant and deletion mark; an
/// insert writes `vs` whole, not deleted.
pub fn row_for_save(existing: Option<Model>, vs: &ValueStream) -> (m: Model)
    ensures
        carries_saved_attributes(m, *vs),
        existing matches Some(old) ==> {
            &&& m.id == old.id
            &&& m.logical_id == old.logical_id
            &&& m.created_by == old.created_by
            &&& m.created_at == old.created_at
            &&& m.deleted_at == old.deleted_at
        },
        existing is None ==> {
            &&& m.id == vs.id
            &&& m.logical_id == vs.logical_id
            &&& m.created_by == vs.created_by
            &&& m.created_at == vs.created_at
            &&& m.deleted_at is None
        },
{
    let fresh: Model = domain_vs_to_model(vs);
    match existing {
        Some(old) => Model {
            id: old.id,
            logical_id: old.logical_id,
            created_by: old.created_by,
            created_at: old.created_at,
            deleted_at: old.deleted_at,
            ..fresh
        },
        None => Model { deleted_at: None, ..fresh },
    }
}

/// Storing a value stream and reading the row back gives the same value
/// stream (attributes and list contents).
pub proof fn lemma_model_roundtrip(vs: ValueStream, m: Model)
    requires
        model_matches(m, vs),
    ensures
        value_stream_of_model(m).id == vs.id,
        value_stream_of_model(m).logical_id == vs.logical_id,
        value_stream_of_model(m).status == vs.status,
        value_stream_of_model(m).name == vs.name,
        value_stream_of_model(m).stakeholders@ == vs.stakeholders@,
        value_stream_of_model(m).performance_metrics@ == vs.performance_metrics@,
        model_matches(m, value_stream_of_model(m)),
{
}

} // verus!

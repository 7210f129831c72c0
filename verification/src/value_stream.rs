//! The value-stream aggregate: creation, one-way archiving, versioning under a
//! stable logical id, and updates of active versions.
use vstd::prelude::*;

use crate::business_error::{DomainError, is_cannot_modify_archived, is_invalid_transition};
use crate::enums::{LifecycleStatus, ValueStreamImportance, lifecycle_status_label};
use crate::ids::{EntityId, Timestamp};
use crate::text::{copy_opt_string, copy_string_pairs, copy_strings, owned};

verus! {

/// One version of a value stream. All versions of the same stream share
/// `logical_id`; at most one of them is meant to be active.
#[derive(Debug)]
pub struct ValueStream {
    pub id: EntityId,
    pub logical_id: EntityId,
    pub business_version: String,
    pub status: LifecycleStatus,
    pub name: String,
    pub description: String,
    pub triggering_event: Option<String>,
    pub end_deliverable: Option<String>,
    pub owner_id: Option<EntityId>,
    pub importance: ValueStreamImportance,
    pub stakeholders: Vec<String>,
    pub performance_metrics: Vec<(String, String)>,
    pub created_by: Option<EntityId>,
    pub updated_by: Option<EntityId>,
    pub created_at: Timestamp,
    pub updated_at: Timestamp,
    pub deleted_at: Option<Timestamp>,
}

/// A stage of a value stream.
#[derive(Debug)]
pub struct ValueStreamStage {
    pub id: EntityId,
    pub name: String,
    pub sequence_order: i32,
    pub input: Option<String>,
    pub output: Option<String>,
    pub value_stream_id: EntityId,
    pub created_at: Timestamp,
    pub updated_at: Timestamp,
    pub deleted_at: Option<Timestamp>,
}

/// `vs` is a freshly created first version with these attributes.
pub open spec fn is_first_version(
    vs: ValueStream,
    id: EntityId,
    name: String,
    description: String,
    business_version: String,
    importance: ValueStreamImportance,
    now: Timestamp,
) -> bool {
    &&& vs.id == id
    &&& vs.logical_id == id
    &&& vs.business_version == business_version
    &&& vs.status == LifecycleStatus::Active
    &&& vs.name == name
    &&& vs.description == description
    &&& vs.triggering_event is None
    &&& vs.end_deliverable is None
    &&& vs.owner_id is None
    &&& vs.importance == importance
    &&& vs.stakeholders@.len() == 0
    &&& vs.performance_metrics@.len() == 0
    &&& vs.created_by is None
    &&& vs.updated_by is None
    &&& vs.created_at == now
    &&& vs.updated_at == now
    &&& vs.deleted_at is None
}

/// Two versions agree on every attribute except lifecycle status and the
/// update instant.
pub open spec fn same_but_status(a: ValueStream, b: ValueStream) -> bool {
    &&& a.id == b.id
    &&& a.logical_id == b.logical_id
    &&& a.business_version == b.business_version
    &&& a.name == b.name
    &&& a.description == b.description
    &&& a.triggering_event == b.triggering_event
    &&& a.end_deliverable == b.end_deliverable
    &&& a.owner_id == b.owner_id
    &&& a.importance == b.importance
    &&& a.stakeholders@ == b.stakeholders@
    &&& a.performance_metrics@ == b.performance_metrics@
    &&& a.created_by == b.created_by
    &&& a.updated_by == b.updated_by
    &&& a.created_at == b.created_at
    &&& a.deleted_at == b.deleted_at
}

/// `after` is `before` archived at `now`.
pub open spec fn is_archived_from(before: ValueStream, after: ValueStream, now: Timestamp) -> bool {
    &&& same_but_status(before, after)
    &&& after.status == LifecycleStatus::Archived
    &&& after.updated_at == now
}

/// `after` is `before` unchanged, lists compared by content.
pub open spec fn unchanged(before: ValueStream, after: ValueStream) -> bool {
    &&& same_but_status(before, after)
    &&& after.status == before.status
    &&& after.updated_at == before.updated_at
}

/// `n` is the successor version of `cur` built from these arguments: a new
/// id and version text, the same logical id, the given name and description,
/// the descriptive attributes copied, active, created at `now`.
pub open spec fn is_next_version(
    cur: ValueStream,
    n: ValueStream,
    new_id: EntityId,
    new_version: String,
    new_name: String,
    new_description: String,
    now: Timestamp,
) -> bool {
    &&& n.id == new_id
    &&& n.logical_id == cur.logical_id
    &&& n.business_version == new_version
    &&& n.status == LifecycleStatus::Active
    &&& n.name == new_name
    &&& n.description == new_description
    &&& n.triggering_event == cur.triggering_event
    &&& n.end_deliverable == cur.end_deliverable
    &&& n.owner_id == cur.owner_id
    &&& n.importance == cur.importance
    &&& n.stakeholders@ == cur.stakeholders@
    &&& n.performance_metrics@ == cur.performance_metrics@
    &&& n.created_by is None
    &&& n.updated_by is None
    &&& n.created_at == now
    &&& n.updated_at == now
    &&& n.deleted_at is None
}

/// `after` is `before` with the given optional attributes replaced and the
/// update instant set to `now`.
pub open spec fn is_updated_from(
    before: ValueStream,
    after: ValueStream,
    name: Option<String>,
    description: Option<String>,
    importance: Option<ValueStreamImportance>,
    now: Timestamp,
) -> bool {
    &&& after.id == before.id
    &&& after.logical_id == before.logical_id
    &&& after.business_version == before.business_version
    &&& after.status == before.status
    &&& after.name == (match name {
        Some(n) => n,
        None => before.name,
    })
    &&& after.description == (match description {
        Some(d) => d,
        None => before.description,
    })
    &&& after.importance == (match importance {
        Some(i) => i,
        None => before.importance,
    })
    &&& after.triggering_event == before.triggering_event
    &&& after.end_deliverable == before.end_deliverable
    &&& after.owner_id == before.owner_id
    &&& after.stakeholders@ == before.stakeholders@
    &&& after.performance_metrics@ == before.performance_metrics@
    &&& after.created_by == before.created_by
    &&& after.updated_by == before.updated_by
    &&& after.created_at == before.created_at
    &&& after.updated_at == now
    &&& after.deleted_at == before.deleted_at
}

impl ValueStream {
    /// Creates the first version of a value stream: its logical id is its own
    /// id, it is active, and it carries no optional attributes yet.
    pub fn create(
        id: EntityId,
        name: String,
        description: String,
        business_version: String,
        importance: ValueStreamImportance,
        now: Timestamp,
    ) -> (vs: ValueStream)
        ensures
            is_first_version(vs, id, name, description, business_version, importance, now),
    {
        ValueStream {
            id,
            logical_id: id,
            business_version,
            status: LifecycleStatus::Active,
            name,
            description,
            triggering_event: None,
            end_deliverable: None,
            owner_id: None,
            importance,
            stakeholders: Vec::new(),
            performance_metrics: Vec::new(),
            created_by: None,
            updated_by: None,
            created_at: now,
            updated_at: now,
            deleted_at: None,
        }
    }

    /// Archives this version: `Active` becomes `Archived` (one-way). Any
    /// other status is refused and the value stays as it was.
    pub fn archive(&mut self, now: Timestamp) -> (r: Result<(), DomainError>)
        ensures
            r is Ok <==> old(self).status == LifecycleStatus::Active,
            r is Ok ==> is_archived_from(*old(self), *final(self), now),
            r matches Err(e) ==> unchanged(*old(self), *final(self)) && is_invalid_transition(
                e,
                lifecycle_status_label(old(self).status),
                "Archived"@,
                "ValueStream"@,
            ),
    {
        if self.status != LifecycleStatus::Active {
            return Err(
                DomainError::InvalidTransition {
                    from: owned(self.status.label()),
                    to: owned("Archived"),
                    entity: owned("ValueStream"),
                },
            );
        }
        self.status = LifecycleStatus::Archived;
        self.updated_at = now;
        Ok(())
    }

    /// Publishes a new version: this (active) version is archived and the
    /// returned version is active, shares the logical id, and copies the
    /// descriptive attributes. An archived version cannot be versioned.
    pub fn create_new_version(
        &mut self,
        new_id: EntityId,
        new_version: String,
        new_name: String,
        new_description: String,
        now: Timestamp,
    ) -> (r: Result<ValueStream, DomainError>)
        ensures
            r is Ok <==> old(self).status == LifecycleStatus::Active,
            r matches Ok(n) ==> is_archived_from(*old(self), *final(self), now) && is_next_version(
                *old(self),
                n,
                new_id,
                new_version,
                new_name,
                new_description,
                now,
            ),
            r matches Err(e) ==> unchanged(*old(self), *final(self)) && is_invalid_transition(
                e,
                lifecycle_status_label(old(self).status),
                "Archived (for versioning)"@,
                "ValueStream"@,
            ),
    {
        if self.status != LifecycleStatus::Active {
            return Err(
                DomainError::InvalidTransition {
                    from: owned(self.status.label()),
                    to: owned("Archived (for versioning)"),
                    entity: owned("ValueStream"),
                },
            );
        }
        let archived = self.archive(now);
        match archived {
            Ok(()) => {},
            Err(e) => {
                return Err(e);
            },
        }
        let new_vs = ValueStream {
            id: new_id,
            logical_id: self.logical_id,
            business_version: new_version,
            status: LifecycleStatus::Active,
            name: new_name,
            description: new_description,
            triggering_event: copy_opt_string(&self.triggering_event),
            end_deliverable: copy_opt_string(&self.end_deliverable),
            owner_id: self.owner_id,
            importance: self.importance,
            stakeholders: copy_strings(&self.stakeholders),
            performance_metrics: copy_string_pairs(&self.performance_metrics),
            created_by: None,
            updated_by: None,
            created_at: now,
            updated_at: now,
            deleted_at: None,
        };
        Ok(new_vs)
    }

    /// Replaces the given attributes of an active version. Archived versions
    /// cannot be modified.
    pub fn update(
        &mut self,
        name: Option<String>,
        description: Option<String>,
        importance: Option<ValueStreamImportance>,
        now: Timestamp,
    ) -> (r: Result<(), DomainError>)
        ensures
            r is Ok <==> old(self).status == LifecycleStatus::Active,
            r is Ok ==> is_updated_from(
                *old(self),
                *final(self),
                name,
                description,
                importance,
                now,
            ),
            r matches Err(e) ==> unchanged(*old(self), *final(self)) && is_cannot_modify_archived(
                e,
                "ValueStream"@,
            ),
    {
        if self.status != LifecycleStatus::Active {
            return Err(DomainError::CannotModifyArchived { entity: owned("ValueStream") });
        }
        match name {
            Some(n) => {
                self.name = n;
            },
            None => {},
        }
        match description {
            Some(d) => {
                self.description = d;
            },
            None => {},
        }
        match importance {
            Some(i) => {
                self.importance = i;
            },
            None => {},
        }
        self.updated_at = now;
        Ok(())
    }

    /// Whether this is the active version among its versions.
    pub fn is_active(&self) -> (r: bool)
        ensures
            r == (self.status == LifecycleStatus::Active),
    {
        self.status == LifecycleStatus::Active
    }
}

/// Archiving is one-way: once archived, a version refuses archiving,
/// versioning and updating alike, so no operation of the aggregate brings it
/// back to `Active`; and every successful operation leaves a version whose
/// status is what the lifecycle allows.
pub proof fn lemma_lifecycle_is_one_way(before: ValueStream, after: ValueStream, now: Timestamp)
    ensures
        is_archived_from(before, after, now) ==> after.status == LifecycleStatus::Archived,
        unchanged(before, after) ==> after.status == before.status,
        forall|name: Option<String>, d: Option<String>, i: Option<ValueStreamImportance>|
            #[trigger] is_updated_from(before, after, name, d, i, now) ==> after.status
                == before.status,
{
}

/// Versioning keeps the identity of the stream: after a successful
/// `create_new_version`, the old version is archived, the new one is active,
/// both share the logical id, and their ids differ whenever a fresh id was
/// supplied.
pub proof fn lemma_versioning_keeps_identity(
    cur: ValueStream,
    archived: ValueStream,
    next: ValueStream,
    new_id: EntityId,
    new_version: String,
    new_name: String,
    new_description: String,
    now: Timestamp,
)
    requires
        is_archived_from(cur, archived, now),
        is_next_version(cur, next, new_id, new_version, new_name, new_description, now),
    ensures
        archived.logical_id == next.logical_id,
        archived.status == LifecycleStatus::Archived,
        next.status == LifecycleStatus::Active,
        new_id != cur.id ==> archived.id != next.id,
{
}

/// Among the stored versions (keyed by id), no two active versions share a
/// logical id.
pub open spec fn at_most_one_active(versions: Map<EntityId, ValueStream>) -> bool {
    forall|a: EntityId, b: EntityId|
        #![trigger versions[a], versions[b]]
        versions.dom().contains(a) && versions.dom().contains(b) && versions[a].status
            == LifecycleStatus::Active && versions[b].status == LifecycleStatus::Active
            && versions[a].logical_id == versions[b].logical_id ==> a == b
}

/// Publishing a new version keeps at most one active version per stream:
/// when the stored active version `cur_id` is replaced by its archived form
/// and the new version is stored under a fresh id, no two active versions
/// share a logical id afterwards.
pub proof fn lemma_versioning_keeps_one_active(
    versions: Map<EntityId, ValueStream>,
    cur_id: EntityId,
    archived: ValueStream,
    next: ValueStream,
    new_id: EntityId,
    new_version: String,
    new_name: String,
    new_description: String,
    now: Timestamp,
)
    requires
        at_most_one_active(versions),
        versions.dom().contains(cur_id),
        versions[cur_id].status == LifecycleStatus::Active,
        !versions.dom().contains(new_id),
        is_archived_from(versions[cur_id], archived, now),
        is_next_version(versions[cur_id], next, new_id, new_version, new_name, new_description, now),
    ensures
        at_most_one_active(versions.insert(cur_id, archived).insert(new_id, next)),
{
    let cur = versions[cur_id];
    let after = versions.insert(cur_id, archived).insert(new_id, next);
    assert forall|a: EntityId, b: EntityId|
        after.dom().contains(a) && after.dom().contains(b) && after[a].status
            == LifecycleStatus::Active && after[b].status == LifecycleStatus::Active
            && after[a].logical_id == after[b].logical_id implies a == b by {
        if a != new_id && b != new_id {
            assert(a != cur_id && b != cur_id);
            assert(after[a] == versions[a] && after[b] == versions[b]);
            assert(versions[a].status == LifecycleStatus::Active);
            assert(versions[b].status == LifecycleStatus::Active);
        } else if a == new_id && b != new_id {
            assert(b != cur_id);
            assert(after[b] == versions[b]);
            assert(versions[b].logical_id == cur.logical_id);
            assert(versions[b].status == LifecycleStatus::Active);
            assert(versions[cur_id].status == LifecycleStatus::Active);
            assert(b == cur_id);
        } else if b == new_id && a != new_id {
            assert(a != cur_id);
            assert(after[a] == versions[a]);
            assert(versions[a].logical_id == cur.logical_id);
            assert(versions[a].status == LifecycleStatus::Active);
            assert(versions[cur_id].status == LifecycleStatus::Active);
            assert(a == cur_id);
        }
    }
}

/// Archiving or updating a stored version keeps at most one active version
/// per stream: the replacement keeps the logical id, and it is active only if
/// the version it replaces was (as `is_archived_from` and `is_updated_from`
/// guarantee).
pub proof fn lemma_replacement_keeps_one_active(
    versions: Map<EntityId, ValueStream>,
    id: EntityId,
    replacement: ValueStream,
)
    requires
        at_most_one_active(versions),
        versions.dom().contains(id),
        replacement.logical_id == versions[id].logical_id,
        replacement.status == LifecycleStatus::Active ==> versions[id].status
            == LifecycleStatus::Active,
    ensures
        at_most_one_active(versions.insert(id, replacement)),
{
    let after = versions.insert(id, replacement);
    assert forall|a: EntityId, b: EntityId|
        after.dom().contains(a) && after.dom().contains(b) && after[a].status
            == LifecycleStatus::Active && after[b].status == LifecycleStatus::Active
            && after[a].logical_id == after[b].logical_id implies a == b by {
        assert(versions[a].status == LifecycleStatus::Active);
        assert(versions[b].status == LifecycleStatus::Active);
        assert(versions[a].logical_id == versions[b].logical_id);
    }
}

/// Storing a newly created stream keeps at most one active version per
/// stream, when its id (which is its logical id) is fresh: no stored version
/// has it as id or as logical id.
pub proof fn lemma_creation_keeps_one_active(versions: Map<EntityId, ValueStream>, vs: ValueStream)
    requires
        at_most_one_active(versions),
        vs.logical_id == vs.id,
        !versions.dom().contains(vs.id),
        forall|a: EntityId| #[trigger] versions.dom().contains(a) ==> versions[a].logical_id != vs.id,
    ensures
        at_most_one_active(versions.insert(vs.id, vs)),
{
    let after = versions.insert(vs.id, vs);
    assert forall|a: EntityId, b: EntityId|
        after.dom().contains(a) && after.dom().contains(b) && after[a].status
            == LifecycleStatus::Active && after[b].status == LifecycleStatus::Active
            && after[a].logical_id == after[b].logical_id implies a == b by {
        if a != vs.id && b != vs.id {
            assert(versions[a].status == LifecycleStatus::Active);
            assert(versions[b].status == LifecycleStatus::Active);
        } else if a == vs.id && b != vs.id {
            assert(versions.dom().contains(b));
        } else if b == vs.id && a != vs.id {
            assert(versions.dom().contains(a));
        }
    }
}

} // verus!

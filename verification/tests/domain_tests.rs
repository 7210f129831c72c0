use enterprise_architecture_platform::business_error::DomainError;
use enterprise_architecture_platform::entities::{domain_vs_to_model, Model};
use enterprise_architecture_platform::enums::{LifecycleStatus, SpaceRole, UserRole, UserStatus, ValueStreamImportance};
use enterprise_architecture_platform::space::{
    apply_space_update, check_can_edit, check_can_manage, check_create_quota, check_member_removal,
    check_new_member, new_membership, plan_space_creation, Space, SpaceMember,
};
use enterprise_architecture_platform::value_stream::ValueStream;
use enterprise_architecture_platform::version::{bump_minor, checked_bump_minor, parse};

fn sample_stream() -> ValueStream {
    ValueStream::create(
        7,
        "Order to cash".to_string(),
        "From order to payment".to_string(),
        "1.0.0".to_string(),
        ValueStreamImportance::High,
        1_000,
    )
}

#[test]
fn value_stream_create_sets_first_version() {
    let vs = sample_stream();
    assert_eq!(vs.id, 7);
    assert_eq!(vs.logical_id, 7);
    assert_eq!(vs.status, LifecycleStatus::Active);
    assert_eq!(vs.created_at, 1_000);
    assert_eq!(vs.updated_at, 1_000);
    assert!(vs.is_active());
    assert!(vs.stakeholders.is_empty());
    assert!(vs.deleted_at.is_none());
}

#[test]
fn value_stream_archive_is_one_way() {
    let mut vs = sample_stream();
    assert!(vs.archive(2_000).is_ok());
    assert_eq!(vs.status, LifecycleStatus::Archived);
    assert_eq!(vs.updated_at, 2_000);
    assert!(!vs.is_active());
    let err = vs.archive(3_000).unwrap_err();
    match &err {
        DomainError::InvalidTransition { from, to, entity } => {
            assert_eq!(from, "Archived");
            assert_eq!(to, "Archived");
            assert_eq!(entity, "ValueStream");
        }
        other => panic!("unexpected error {:?}", other),
    }
    assert_eq!(err.message(), "invalid lifecycle transition: Archived → Archived on ValueStream");
    assert_eq!(vs.updated_at, 2_000);
}

#[test]
fn value_stream_new_version_archives_current() {
    let mut vs = sample_stream();
    vs.stakeholders.push("finance".to_string());
    vs.performance_metrics.push(("lead_time".to_string(), "3d".to_string()));
    vs.owner_id = Some(42);
    let next = vs
        .create_new_version(8, "1.1.0".to_string(), "Order to cash v2".to_string(), "desc".to_string(), 5_000)
        .unwrap();
    assert_eq!(vs.status, LifecycleStatus::Archived);
    assert_eq!(vs.updated_at, 5_000);
    assert_eq!(next.id, 8);
    assert_eq!(next.logical_id, 7);
    assert_eq!(next.business_version, "1.1.0");
    assert_eq!(next.status, LifecycleStatus::Active);
    assert_eq!(next.name, "Order to cash v2");
    assert_eq!(next.stakeholders, vec!["finance".to_string()]);
    assert_eq!(next.performance_metrics, vec![("lead_time".to_string(), "3d".to_string())]);
    assert_eq!(next.owner_id, Some(42));
    assert_eq!(next.importance, ValueStreamImportance::High);
    assert!(next.created_by.is_none());
    assert_eq!(next.created_at, 5_000);

    let mut archived = vs;
    let err = archived
        .create_new_version(9, "1.2.0".to_string(), "x".to_string(), "y".to_string(), 6_000)
        .unwrap_err();
    assert_eq!(
        err.message(),
        "invalid lifecycle transition: Archived → Archived (for versioning) on ValueStream"
    );
}

#[test]
fn value_stream_update_only_when_active() {
    let mut vs = sample_stream();
    vs.update(Some("Renamed".to_string()), None, Some(ValueStreamImportance::Critical), 1_500).unwrap();
    assert_eq!(vs.name, "Renamed");
    assert_eq!(vs.description, "From order to payment");
    assert_eq!(vs.importance, ValueStreamImportance::Critical);
    assert_eq!(vs.updated_at, 1_500);
    vs.archive(1_600).unwrap();
    let err = vs.update(Some("Again".to_string()), None, None, 1_700).unwrap_err();
    assert!(matches!(&err, DomainError::CannotModifyArchived { entity } if entity == "ValueStream"));
    assert_eq!(err.message(), "cannot modify archived ValueStream");
    assert_eq!(vs.name, "Renamed");
}

#[test]
fn value_stream_model_conversion_roundtrip() {
    let mut vs = sample_stream();
    vs.triggering_event = Some("order received".to_string());
    let model: Model = domain_vs_to_model(&vs);
    assert_eq!(model.id, 7);
    assert_eq!(model.triggering_event.as_deref(), Some("order received"));
    let back: ValueStream = ValueStream::from(model);
    assert_eq!(back.name, vs.name);
    assert_eq!(back.logical_id, vs.logical_id);
    assert_eq!(back.triggering_event, vs.triggering_event);
}

#[test]
fn space_create_trims_and_rejects_blank_names() {
    let s = Space::create(1, "  Acme Corp \t".to_string(), None, 10).unwrap();
    assert_eq!(s.name, "Acme Corp");
    assert_eq!(s.created_at, 10);
    assert!(s.deleted_at.is_none());
    let err = Space::create(2, " \u{3000}\n ".to_string(), None, 10).unwrap_err();
    assert!(matches!(err, DomainError::SpaceNameEmpty));
    assert_eq!(err.message(), "space name cannot be empty");
}

#[test]
fn space_rename_describe_archive() {
    let mut s = Space::create(1, "Acme".to_string(), None, 10).unwrap();
    assert!(matches!(s.rename("   ".to_string(), 20), Err(DomainError::SpaceNameEmpty)));
    assert_eq!(s.name, "Acme");
    assert_eq!(s.updated_at, 10);
    s.rename(" Beta ".to_string(), 30).unwrap();
    assert_eq!(s.name, "Beta");
    s.set_description(Some("d".to_string()), 40);
    assert_eq!(s.description.as_deref(), Some("d"));
    s.archive(50);
    assert_eq!(s.deleted_at, Some(50));
    assert_eq!(s.updated_at, 50);
}

#[test]
fn space_update_applies_rename_then_description() {
    let mut s = Space::create(1, "Acme".to_string(), Some("old".to_string()), 10).unwrap();
    apply_space_update(&mut s, Some(" New ".to_string()), Some(None), 20).unwrap();
    assert_eq!(s.name, "New");
    assert!(s.description.is_none());
    assert!(apply_space_update(&mut s, Some(" ".to_string()), Some(Some("x".to_string())), 30).is_err());
    assert!(s.description.is_none());
    assert_eq!(s.updated_at, 20);
}

#[test]
fn space_quota_and_creation_plan() {
    assert!(check_create_quota(UserRole::Architect, 0).is_ok());
    assert!(matches!(check_create_quota(UserRole::Viewer, 1), Err(DomainError::SpaceQuotaExceeded)));
    assert!(check_create_quota(UserRole::Admin, 5).is_ok());
    let (space, owner) = plan_space_creation(99, UserRole::Architect, 0, 3, "Lab".to_string(), None, 100).unwrap();
    assert_eq!(space.id, 3);
    assert_eq!(owner.space_id, 3);
    assert_eq!(owner.user_id, 99);
    assert_eq!(owner.role, SpaceRole::Owner);
    assert!(matches!(
        plan_space_creation(99, UserRole::Viewer, 1, 3, "Lab".to_string(), None, 100),
        Err(DomainError::SpaceQuotaExceeded)
    ));
    assert!(matches!(
        plan_space_creation(99, UserRole::Viewer, 0, 3, "   ".to_string(), None, 100),
        Err(DomainError::SpaceNameEmpty)
    ));
}

#[test]
fn space_access_rules() {
    assert!(check_can_edit(UserRole::Admin, None).is_ok());
    assert!(matches!(check_can_edit(UserRole::Architect, None), Err(DomainError::NotSpaceMember)));
    assert!(check_can_edit(UserRole::Viewer, Some(SpaceRole::Editor)).is_ok());
    assert!(check_can_edit(UserRole::Viewer, Some(SpaceRole::Owner)).is_ok());
    assert!(check_can_manage(UserRole::Admin, None).is_ok());
    assert!(matches!(check_can_manage(UserRole::Architect, Some(SpaceRole::Editor)), Err(DomainError::NotSpaceOwner)));
    assert!(matches!(check_can_manage(UserRole::Architect, None), Err(DomainError::NotSpaceOwner)));
    assert!(check_can_manage(UserRole::Viewer, Some(SpaceRole::Owner)).is_ok());
    assert!(matches!(check_new_member(Some(SpaceRole::Editor)), Err(DomainError::AlreadyMember)));
    assert!(check_new_member(None).is_ok());
}

#[test]
fn space_last_owner_cannot_be_removed() {
    assert!(matches!(check_member_removal(Some(SpaceRole::Owner), 1), Err(DomainError::CannotRemoveLastOwner)));
    assert!(check_member_removal(Some(SpaceRole::Owner), 2).is_ok());
    assert!(check_member_removal(Some(SpaceRole::Editor), 1).is_ok());
    assert!(matches!(check_member_removal(None, 3), Err(DomainError::NotSpaceMember)));
    assert_eq!(DomainError::CannotRemoveLastOwner.message(), "cannot remove the last owner of a space");
}

#[test]
fn space_member_rows() {
    let m = SpaceMember::from_row(1, 2, "owner", 5, 6);
    assert_eq!(m.role, SpaceRole::Owner);
    let m = SpaceMember::from_row(1, 2, "something", 5, 6);
    assert_eq!(m.role, SpaceRole::Editor);
    let m = new_membership(4, 5, SpaceRole::Editor, 9);
    assert_eq!((m.space_id, m.user_id, m.created_at, m.updated_at), (4, 5, 9, 9));
}

#[test]
fn role_and_status_names() {
    for r in [UserRole::Admin, UserRole::Architect, UserRole::Viewer] {
        assert_eq!(UserRole::from_str(r.as_str()), Some(r));
    }
    assert_eq!(UserRole::from_str("Admin"), None);
    assert_eq!(UserStatus::Banned.as_str(), "banned");
    assert!(UserStatus::Active.is_active());
    assert!(!UserStatus::Inactive.is_active());
    assert_eq!(SpaceRole::from_str("editor"), Some(SpaceRole::Editor));
    assert_eq!(SpaceRole::Owner.as_str(), "owner");
    assert!(SpaceRole::Owner.is_owner() && SpaceRole::Owner.is_editor());
    assert!(!SpaceRole::Editor.is_owner() && SpaceRole::Editor.is_editor());
    assert_eq!(LifecycleStatus::Archived.label(), "Archived");
}

#[test]
fn role_permissions() {
    assert!(UserRole::Admin.can_manage_users() && UserRole::Admin.can_transfer_owner());
    assert!(!UserRole::Architect.can_manage_users());
    assert!(UserRole::Architect.can_create() && UserRole::Architect.can_update());
    assert!(UserRole::Architect.can_delete() && UserRole::Architect.can_use_ai());
    assert!(!UserRole::Viewer.can_create() && !UserRole::Viewer.can_delete());
    assert!(UserRole::Viewer.is_viewer() && UserRole::Architect.is_architect() && UserRole::Admin.is_admin());
}

#[test]
fn version_bump_minor() {
    assert_eq!(bump_minor("1.2.3").unwrap(), "1.3.3");
    assert_eq!(bump_minor("0.9.0-alpha.1+build.5").unwrap(), "0.10.0");
    assert!(matches!(bump_minor("1.2"), Err(DomainError::Semver(_))));
    assert!(matches!(bump_minor("01.2.3"), Err(DomainError::Semver(_))));
    let v = parse("2.4.6-rc.1+meta").unwrap();
    assert_eq!((v.major, v.minor, v.patch), (2, 4, 6));
    assert_eq!(v.pre, "rc.1");
    assert_eq!(v.build, "meta");
    let again = parse(&bump_minor("2.4.6").unwrap()).unwrap();
    assert_eq!((again.major, again.minor, again.patch), (2, 5, 6));
    assert!(checked_bump_minor("1.18446744073709551615.0").is_none());
    assert_eq!(checked_bump_minor("3.0.1").unwrap().unwrap(), "3.1.1");
    assert!(matches!(checked_bump_minor("nope"), Some(Err(DomainError::Semver(_)))));
}

#[test]
fn business_error_messages() {
    assert_eq!(DomainError::SpaceQuotaExceeded.message(), "space quota exceeded: non-admin users may own at most one space");
    assert_eq!(DomainError::Database("boom".to_string()).message(), "database error: boom");
    assert_eq!(DomainError::Validation("x".to_string()).message(), "validation error: x");
    assert_eq!(DomainError::Semver("y".to_string()).message(), "semver error: y");
}

use enterprise_architecture_platform::auth::{
    authorize_input_is_complete, check_refresh_token, token_input_is_complete, AuthorizeInput,
    RefreshToken, TokenInput,
};
use enterprise_architecture_platform::business_error::DomainError;
use enterprise_architecture_platform::catalog::{
    capability_for_save, check_process_reference, process_for_save, publish_process_version,
    BusinessCapability, BusinessProcess,
};
use enterprise_architecture_platform::entities::{domain_vs_to_model, row_for_save};
use enterprise_architecture_platform::enums::{
    BusinessValueRating, CapabilityLevel, CostRating, LifecycleStatus, MaturityLevel, SpaceRole,
    UserRole, UserStatus, ValueStreamImportance,
};
use enterprise_architecture_platform::ids::{
    new_time_ordered_id, parse_entity_id, uuid_string,
};
use enterprise_architecture_platform::llm::AiScenario;
use enterprise_architecture_platform::space::{
    membership_for_save, space_for_save, update_space_found, Space, SpaceMember,
};
use enterprise_architecture_platform::user::{user_for_save, User};
use enterprise_architecture_platform::value_stream::ValueStream;
use enterprise_architecture_platform::value_stream_service::{
    archive_found, new_value_stream, new_version_from_found, update_found,
};
use enterprise_architecture_platform::version::{bump_minor, parse};

fn stream(id: u128, at: i128) -> ValueStream {
    ValueStream::create(
        id,
        "Order to cash".to_string(),
        "From order to payment".to_string(),
        "1.0.0".to_string(),
        ValueStreamImportance::High,
        at,
    )
}

fn process(version: &str) -> BusinessProcess {
    BusinessProcess {
        id: 10,
        logical_id: 3,
        business_version: version.to_string(),
        status: LifecycleStatus::Active,
        name: "Onboarding".to_string(),
        description: "Customer onboarding".to_string(),
        sla: Some("2d".to_string()),
        cost_per_transaction_bits: Some(12.5f64.to_bits()),
        cycle_time: Some(48),
        owner_id: Some(5),
        created_by: Some(6),
        updated_by: Some(7),
        created_at: 100,
        updated_at: 200,
        deleted_at: None,
    }
}

fn capability(id: u128, name: &str, at: i128) -> BusinessCapability {
    BusinessCapability {
        id,
        logical_id: id,
        business_version: "1.0.0".to_string(),
        status: LifecycleStatus::Active,
        name: name.to_string(),
        description: String::new(),
        level: CapabilityLevel::L1,
        maturity: MaturityLevel::Level2,
        business_value: BusinessValueRating::High,
        cost: CostRating::Low,
        owner_id: None,
        created_by: Some(1),
        updated_by: None,
        created_at: at,
        updated_at: at,
        deleted_at: None,
    }
}

#[test]
fn entity_id_text_reads_back() {
    let id: u128 = 0x550e8400_e29b_41d4_a716_446655440000;
    let text = uuid_string(id);
    assert_eq!(text, "550e8400-e29b-41d4-a716-446655440000");
    assert_eq!(parse_entity_id(&text), Ok(id));
    assert_eq!(parse_entity_id("550E8400-E29B-41D4-A716-446655440000"), Ok(id));
    let err = parse_entity_id("not-a-uuid").unwrap_err();
    assert!(err.starts_with("Invalid UUID: "));
    assert!(err.len() > "Invalid UUID: ".len());
}

#[test]
fn time_ordered_ids_have_version_seven() {
    let a = new_time_ordered_id();
    let b = new_time_ordered_id();
    assert_eq!((a >> 76) & 0xf, 7);
    assert_eq!((a >> 62) & 0x3, 2);
    assert_ne!(a, b);
}

#[test]
fn bumped_version_reads_back() {
    let bumped = bump_minor("1.2.3").unwrap();
    assert_eq!(bumped, "1.3.3");
    let v = parse(&bumped).unwrap();
    assert_eq!((v.major, v.minor, v.patch), (1, 3, 3));
    assert!(v.pre.is_empty() && v.build.is_empty());
    assert_eq!(bump_minor("2.0.0-rc.1+build.5").unwrap(), "2.1.0");
}

#[test]
fn new_stream_gets_time_ordered_id() {
    let vs = new_value_stream(
        "Hire to retire".to_string(),
        String::new(),
        "0.1.0".to_string(),
        ValueStreamImportance::Low,
    );
    assert_eq!(vs.logical_id, vs.id);
    assert_eq!((vs.id >> 76) & 0xf, 7);
    assert_eq!(vs.status, LifecycleStatus::Active);
    assert_eq!(vs.created_at, vs.updated_at);
    assert!(vs.created_at > 1_600_000_000_000_000_000);
}

#[test]
fn archiving_a_looked_up_stream() {
    assert!(matches!(archive_found(None, 5), Err(DomainError::ValueStreamNotFound)));
    let archived = archive_found(Some(stream(1, 10)), 20).unwrap();
    assert_eq!(archived.status, LifecycleStatus::Archived);
    assert_eq!(archived.updated_at, 20);
    let again = archive_found(Some(archived), 30).unwrap_err();
    assert_eq!(again.message(), "invalid lifecycle transition: Archived → Archived on ValueStream");
}

#[test]
fn versioning_a_looked_up_stream() {
    assert!(matches!(
        new_version_from_found(None, 2, "2.0.0".to_string(), None, None, 5),
        Err(DomainError::ValueStreamNotFound)
    ));
    let (old, next) =
        new_version_from_found(Some(stream(1, 10)), 2, "2.0.0".to_string(), None, Some("New".to_string()), 20)
            .unwrap();
    assert_eq!(old.status, LifecycleStatus::Archived);
    assert_eq!(old.updated_at, 20);
    assert_eq!(next.id, 2);
    assert_eq!(next.logical_id, 1);
    assert_eq!(next.business_version, "2.0.0");
    assert_eq!(next.name, "Order to cash");
    assert_eq!(next.description, "New");
    assert_eq!(next.status, LifecycleStatus::Active);
    assert_eq!(next.created_at, 20);
    let err = new_version_from_found(Some(old), 3, "3.0.0".to_string(), None, None, 30).unwrap_err();
    assert_eq!(
        err.message(),
        "invalid lifecycle transition: Archived → Archived (for versioning) on ValueStream"
    );
}

#[test]
fn updating_a_looked_up_stream() {
    assert!(matches!(update_found(None, None, None, None, 5), Err(DomainError::ValueStreamNotFound)));
    let updated = update_found(
        Some(stream(1, 10)),
        Some("Renamed".to_string()),
        None,
        Some(ValueStreamImportance::Critical),
        20,
    )
    .unwrap();
    assert_eq!(updated.name, "Renamed");
    assert_eq!(updated.description, "From order to payment");
    assert_eq!(updated.importance, ValueStreamImportance::Critical);
    assert_eq!(updated.updated_at, 20);
    let mut archived = stream(1, 10);
    archived.archive(15).unwrap();
    let err = update_found(Some(archived), None, None, None, 20).unwrap_err();
    assert_eq!(err.message(), "cannot modify archived ValueStream");
}

#[test]
fn value_stream_save_keeps_stored_identity() {
    let stored = domain_vs_to_model(&stream(1, 10));
    let mut changed = stream(1, 99);
    changed.logical_id = 77;
    changed.name = "Renamed".to_string();
    changed.deleted_at = Some(500);
    let row = row_for_save(Some(stored), &changed);
    assert_eq!(row.name, "Renamed");
    assert_eq!(row.updated_at, 99);
    assert_eq!(row.logical_id, 1);
    assert_eq!(row.created_at, 10);
    assert_eq!(row.deleted_at, None);
    let fresh = row_for_save(None, &changed);
    assert_eq!(fresh.logical_id, 77);
    assert_eq!(fresh.created_at, 99);
    assert_eq!(fresh.deleted_at, None);
}

#[test]
fn capability_and_process_saves_keep_stored_identity() {
    let mut stored = capability(4, "Customer management", 10);
    stored.deleted_at = Some(50);
    let mut changed = capability(4, "Customer care", 60);
    changed.created_by = Some(9);
    let merged = capability_for_save(Some(stored), &changed);
    assert_eq!(merged.name, "Customer care");
    assert_eq!(merged.created_at, 10);
    assert_eq!(merged.created_by, Some(1));
    assert_eq!(merged.deleted_at, Some(50));
    assert_eq!(merged.updated_at, 60);
    let inserted = capability_for_save(None, &changed);
    assert_eq!(inserted.created_by, Some(9));
    assert_eq!(inserted.created_at, 60);

    let mut changed_proc = process("1.4.0");
    changed_proc.created_at = 999;
    changed_proc.name = "Renamed".to_string();
    let merged_proc = process_for_save(Some(process("1.4.0")), &changed_proc);
    assert_eq!(merged_proc.name, "Renamed");
    assert_eq!(merged_proc.created_at, 100);
    assert_eq!(merged_proc.cost_per_transaction_bits, Some(12.5f64.to_bits()));
}

#[test]
fn only_active_processes_can_be_referenced() {
    assert!(matches!(check_process_reference(None), Err(DomainError::ProcessNotFound)));
    let active = process("1.0.0");
    assert!(check_process_reference(Some(&active)).is_ok());
    let mut archived = process("1.0.0");
    archived.status = LifecycleStatus::Archived;
    let err = check_process_reference(Some(&archived)).unwrap_err();
    assert_eq!(err.message(), "cannot reference archived process");
}

#[test]
fn publishing_a_process_version() {
    assert!(matches!(
        publish_process_version(None, 11, 500),
        Some(Err(DomainError::ProcessVersionNotFound))
    ));
    let (old, next) = publish_process_version(Some(process("1.4.2")), 11, 500).unwrap().unwrap();
    assert_eq!(old.status, LifecycleStatus::Archived);
    assert_eq!(old.updated_at, 200);
    assert_eq!(next.id, 11);
    assert_eq!(next.logical_id, 3);
    assert_eq!(next.business_version, "1.5.2");
    assert_eq!(next.status, LifecycleStatus::Active);
    assert_eq!(next.sla.as_deref(), Some("2d"));
    assert_eq!(f64::from_bits(next.cost_per_transaction_bits.unwrap()), 12.5);
    assert_eq!(next.created_by, Some(6));
    assert_eq!(next.updated_by, Some(7));
    assert_eq!((next.created_at, next.updated_at), (500, 500));
    assert!(matches!(
        publish_process_version(Some(process("v1")), 11, 500),
        Some(Err(DomainError::Semver(_)))
    ));
    let max = format!("1.{}.0", u64::MAX);
    assert!(publish_process_version(Some(process(&max)), 11, 500).is_none());
}

#[test]
fn user_space_and_membership_saves() {
    let stored = User {
        id: 1,
        email: "a@x.io".to_string(),
        name: "A".to_string(),
        password_hash: "h".to_string(),
        role: UserRole::Viewer,
        status: UserStatus::Active,
        created_at: 10,
        updated_at: 10,
    };
    let changed = User {
        id: 1,
        email: "b@x.io".to_string(),
        name: "B".to_string(),
        password_hash: "h2".to_string(),
        role: UserRole::Architect,
        status: UserStatus::Inactive,
        created_at: 70,
        updated_at: 80,
    };
    let merged = user_for_save(Some(stored), &changed);
    assert_eq!(merged.email, "b@x.io");
    assert_eq!(merged.role, UserRole::Architect);
    assert_eq!(merged.status, UserStatus::Inactive);
    assert_eq!((merged.created_at, merged.updated_at), (10, 80));
    assert_eq!(user_for_save(None, &changed).created_at, 70);

    let stored_space = Space {
        id: 2,
        name: "Old".to_string(),
        description: None,
        created_at: 10,
        updated_at: 10,
        deleted_at: None,
    };
    let changed_space = Space {
        id: 2,
        name: "New".to_string(),
        description: Some("d".to_string()),
        created_at: 90,
        updated_at: 95,
        deleted_at: Some(95),
    };
    let merged_space = space_for_save(Some(stored_space), &changed_space);
    assert_eq!(merged_space.name, "New");
    assert_eq!(merged_space.description.as_deref(), Some("d"));
    assert_eq!(merged_space.created_at, 10);
    assert_eq!(merged_space.deleted_at, Some(95));

    let stored_member = SpaceMember { space_id: 2, user_id: 1, role: SpaceRole::Editor, created_at: 10, updated_at: 10 };
    let changed_member = SpaceMember { space_id: 2, user_id: 1, role: SpaceRole::Owner, created_at: 50, updated_at: 60 };
    let merged_member = membership_for_save(Some(stored_member), &changed_member);
    assert_eq!(merged_member.role, SpaceRole::Owner);
    assert_eq!((merged_member.created_at, merged_member.updated_at), (10, 60));
    assert_eq!(membership_for_save(None, &changed_member).created_at, 50);
}

#[test]
fn oauth_inputs_must_be_complete() {
    let mut authorize = AuthorizeInput {
        client_id: "web".to_string(),
        redirect_uri: "https://app/cb".to_string(),
        code_challenge: "abc".to_string(),
        code_challenge_method: String::new(),
        state: None,
        scope: None,
    };
    assert!(authorize_input_is_complete(&authorize));
    authorize.code_challenge = String::new();
    assert!(!authorize_input_is_complete(&authorize));

    let mut token = TokenInput {
        grant_type: "authorization_code".to_string(),
        code: "c".to_string(),
        client_id: "web".to_string(),
        redirect_uri: "https://app/cb".to_string(),
        code_verifier: "v".to_string(),
    };
    assert!(token_input_is_complete(&token));
    token.code_verifier = String::new();
    assert!(!token_input_is_complete(&token));
}

#[test]
fn stored_enum_values_read_back() {
    for s in [UserStatus::Active, UserStatus::Inactive, UserStatus::Banned] {
        assert_eq!(UserStatus::from_str(s.as_str()), Some(s));
    }
    for l in [LifecycleStatus::Active, LifecycleStatus::Archived] {
        assert_eq!(LifecycleStatus::from_str(l.as_str()), Some(l));
    }
    for i in [
        ValueStreamImportance::Critical,
        ValueStreamImportance::High,
        ValueStreamImportance::Medium,
        ValueStreamImportance::Low,
    ] {
        assert_eq!(ValueStreamImportance::from_str(i.as_str()), Some(i));
    }
    assert_eq!(LifecycleStatus::Archived.as_str(), "archived");
    assert_eq!(ValueStreamImportance::Critical.as_str(), "critical");
    assert_eq!(UserStatus::from_str("Active"), None);
}

#[test]
fn refused_texts_carry_the_parsers_message() {
    match parse("v1") {
        Err(DomainError::Semver(m)) => assert_eq!(m, semver::Version::parse("v1").unwrap_err().to_string()),
        other => panic!("unexpected {:?}", other.map(|v| v.major)),
    }
    match bump_minor("1.x") {
        Err(DomainError::Semver(m)) => assert_eq!(m, semver::Version::parse("1.x").unwrap_err().to_string()),
        other => panic!("unexpected {:?}", other),
    }
    let err = parse_entity_id("not-a-uuid").unwrap_err();
    assert_eq!(err, format!("Invalid UUID: {}", uuid::Uuid::parse_str("not-a-uuid").unwrap_err()));
}

#[test]
fn updating_a_looked_up_space() {
    let space = || Space {
        id: 2,
        name: "Old".to_string(),
        description: None,
        created_at: 10,
        updated_at: 10,
        deleted_at: None,
    };
    assert!(matches!(
        update_space_found(UserRole::Viewer, Some(SpaceRole::Editor), Some(space()), None, None, 20),
        Err(DomainError::NotSpaceOwner)
    ));
    assert!(matches!(
        update_space_found(UserRole::Viewer, None, None, None, None, 20),
        Err(DomainError::NotSpaceOwner)
    ));
    assert!(matches!(
        update_space_found(UserRole::Viewer, Some(SpaceRole::Owner), None, None, None, 20),
        Err(DomainError::SpaceNotFound)
    ));
    assert!(matches!(
        update_space_found(UserRole::Admin, None, Some(space()), Some("   ".to_string()), None, 20),
        Err(DomainError::SpaceNameEmpty)
    ));
    let updated = update_space_found(
        UserRole::Viewer,
        Some(SpaceRole::Owner),
        Some(space()),
        Some("  New  ".to_string()),
        Some(Some("d".to_string())),
        20,
    )
    .unwrap();
    assert_eq!(updated.name, "New");
    assert_eq!(updated.description.as_deref(), Some("d"));
    assert_eq!((updated.created_at, updated.updated_at), (10, 20));
}

#[test]
fn suggestion_kinds_per_scenario() {
    assert_eq!(AiScenario::CapabilityDecomposition.suggestion_kind(), ("business_capability", "decompose"));
    assert_eq!(AiScenario::ProcessDesign.suggestion_kind(), ("business_process", "design"));
    assert_eq!(AiScenario::GapAnalysis.suggestion_kind(), ("gap", "identify"));
    assert_eq!(AiScenario::RedundancyIdentification.suggestion_kind(), ("redundancy", "identify"));
}

#[test]
fn instants_have_nanosecond_precision() {
    let token = RefreshToken {
        id: 1,
        user_id: 2,
        token_hash: String::new(),
        expires_at: 1_700_000_000_000_000_000,
        revoked_at: None,
        created_at: 1_699_999_000_000_000_000,
    };
    assert!(check_refresh_token(Some(&token), 1_700_000_000_000_000_000).is_ok());
    assert!(check_refresh_token(Some(&token), 1_700_000_000_000_000_001).is_err());
}

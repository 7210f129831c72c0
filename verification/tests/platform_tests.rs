use enterprise_architecture_platform::analysis::{Gap, GapAnalysisResult};
use enterprise_architecture_platform::auth::Claims;
use enterprise_architecture_platform::bootstrap::{health_summary, seed_admin_plan, should_seed_admin};
use enterprise_architecture_platform::config::{
    Configuration, DatabaseConfig, JwtConfig, LlmConfig, OAuthConfig, ServerConfig,
};
use enterprise_architecture_platform::enums::ValueStreamImportance;
use enterprise_architecture_platform::graphql_guard::{
    check_value_stream_auth, graphql_route, parse_importance, rejects_anonymous_mutation,
    GraphqlAuthGuard, GraphqlRoute, GuardAction, OperationType,
};
use enterprise_architecture_platform::llm::{AiScenario, LlmBackend, StreamQuery};
use enterprise_architecture_platform::text::{contains_text, hex_lower, strip_prefix_text, trim};

fn claims(role: &str) -> Claims {
    Claims { sub: "s".to_string(), exp: 0, iat: 0, user_id: 1, role: role.to_string() }
}

fn blocked(g: GuardAction) -> Option<String> {
    match g {
        GuardAction::Allow => None,
        GuardAction::Block(m) => Some(m.unwrap_or_default()),
    }
}

#[test]
fn entity_guard_rules() {
    let g = GraphqlAuthGuard;
    assert_eq!(blocked(g.entity_guard(None, "value_streams", OperationType::Read)), None);
    assert_eq!(
        blocked(g.entity_guard(None, "value_streams", OperationType::Create)),
        Some("Authentication required for mutations.".to_string())
    );
    let viewer = claims("viewer");
    assert_eq!(
        blocked(g.entity_guard(Some(&viewer), "value_streams", OperationType::Update)),
        Some("Viewers cannot update resources.".to_string())
    );
    let architect = claims("architect");
    assert_eq!(blocked(g.entity_guard(Some(&architect), "business_capabilities", OperationType::Delete)), None);
    assert_eq!(
        blocked(g.entity_guard(Some(&architect), "users", OperationType::Create)),
        Some("Only admins can create user records.".to_string())
    );
    assert_eq!(
        blocked(g.entity_guard(Some(&viewer), "refresh_tokens", OperationType::Delete)),
        Some("Only admins can delete user records.".to_string())
    );
    let admin = claims("admin");
    assert_eq!(blocked(g.entity_guard(Some(&admin), "oauth_authorization_codes", OperationType::Update)), None);
    let unknown = claims("root");
    assert_eq!(
        blocked(g.entity_guard(Some(&unknown), "value_streams", OperationType::Create)),
        Some("Viewers cannot create resources.".to_string())
    );
}

#[test]
fn field_guard_rules() {
    let g = GraphqlAuthGuard;
    let admin = claims("admin");
    assert_eq!(
        blocked(g.field_guard(Some(&admin), "users", "password_hash", OperationType::Read)),
        Some("Field 'password_hash' on 'users' is not accessible.".to_string())
    );
    assert_eq!(blocked(g.field_guard(Some(&admin), "users", "email", OperationType::Read)), None);
    assert_eq!(
        blocked(g.field_guard(None, "users", "email", OperationType::Read)),
        Some("Field 'email' on 'users' requires authentication.".to_string())
    );
    let architect = claims("architect");
    assert_eq!(
        blocked(g.field_guard(Some(&architect), "users", "email", OperationType::Read)),
        Some("Field 'email' on 'users' is admin-only.".to_string())
    );
    assert_eq!(blocked(g.field_guard(None, "value_streams", "name", OperationType::Read)), None);
}

#[test]
fn value_stream_mutation_auth_and_importance() {
    assert_eq!(check_value_stream_auth(None, OperationType::Create).unwrap_err(), "Authentication required for mutations.");
    let viewer = claims("viewer");
    assert_eq!(
        check_value_stream_auth(Some(&viewer), OperationType::Delete).unwrap_err(),
        "Insufficient permissions for this operation."
    );
    assert!(check_value_stream_auth(Some(&viewer), OperationType::Read).is_ok());
    assert!(check_value_stream_auth(Some(&claims("architect")), OperationType::Create).is_ok());
    assert_eq!(parse_importance("Critical").unwrap(), ValueStreamImportance::Critical);
    assert_eq!(parse_importance("Low").unwrap(), ValueStreamImportance::Low);
    assert_eq!(
        parse_importance("low").unwrap_err(),
        "Invalid importance: 'low'. Expected: Critical, High, Medium, Low"
    );
}

#[test]
fn graphql_entry_point() {
    assert_eq!(graphql_route("GET"), GraphqlRoute::Playground);
    assert_eq!(graphql_route("POST"), GraphqlRoute::Execute);
    assert_eq!(graphql_route("PUT"), GraphqlRoute::MethodNotAllowed);
    assert!(rejects_anonymous_mutation(false, r#"{"query":"mutation { x }"}"#));
    assert!(!rejects_anonymous_mutation(true, r#"{"query":"mutation { x }"}"#));
    assert!(!rejects_anonymous_mutation(false, r#"{"query":"{ valueStreams { id } }"}"#));
}

fn llm(backend: &str, key: Option<&str>, model: Option<&str>, endpoint: Option<&str>) -> LlmConfig {
    LlmConfig {
        backend: backend.to_string(),
        api_key: key.map(|s| s.to_string()),
        model: model.map(|s| s.to_string()),
        endpoint: endpoint.map(|s| s.to_string()),
    }
}

#[test]
fn llm_backend_selection() {
    match LlmBackend::from_config(&llm("openai", Some("k"), None, None)) {
        LlmBackend::OpenAi { api_key, model } => {
            assert_eq!(api_key, "k");
            assert_eq!(model, "gpt-4");
        }
        _ => panic!("expected openai"),
    }
    match LlmBackend::from_config(&llm("azure_openai", None, Some("dep"), Some("https://az"))) {
        LlmBackend::AzureOpenAi { endpoint, api_key, deployment } => {
            assert_eq!(endpoint, "https://az");
            assert_eq!(api_key, "");
            assert_eq!(deployment, "dep");
        }
        _ => panic!("expected azure"),
    }
    match LlmBackend::from_config(&llm("ollama", None, None, None)) {
        LlmBackend::Ollama { url, model } => {
            assert_eq!(url, "http://localhost:11434");
            assert_eq!(model, "llama3");
        }
        _ => panic!("expected ollama"),
    }
    assert!(matches!(LlmBackend::from_config(&llm("other", None, None, None)), LlmBackend::Mock));
}

#[test]
fn llm_availability_and_chat() {
    assert!(!LlmBackend::from_config(&llm("openai", None, None, None)).is_available());
    assert!(LlmBackend::from_config(&llm("openai", Some("k"), None, None)).is_available());
    assert!(!LlmBackend::from_config(&llm("azure_openai", Some(""), None, None)).is_available());
    assert!(LlmBackend::Mock.is_available());
    assert!(LlmBackend::from_config(&llm("ollama", None, None, None)).is_available());
    assert_eq!(LlmBackend::Mock.chat("hi"), "Mock LLM response");
    assert_eq!(
        LlmBackend::from_config(&llm("ollama", None, None, None)).chat("hi"),
        "Ollama response (not yet implemented)"
    );
}

#[test]
fn ai_scenarios() {
    assert_eq!(AiScenario::GapAnalysis.as_str(), "gap_analysis");
    assert_eq!(StreamQuery { scenario: Some("process_design".to_string()) }.scenario(), AiScenario::ProcessDesign);
    assert_eq!(
        StreamQuery { scenario: Some("redundancy_identification".to_string()) }.scenario(),
        AiScenario::RedundancyIdentification
    );
    assert_eq!(StreamQuery { scenario: Some("bogus".to_string()) }.scenario(), AiScenario::CapabilityDecomposition);
    assert_eq!(StreamQuery { scenario: None }.scenario(), AiScenario::CapabilityDecomposition);
}

fn configuration(url: &str, private_key: &str, public_key: &str, llm_key: Option<&str>) -> Configuration {
    Configuration {
        server: ServerConfig { host: "0.0.0.0".to_string(), port: 8080 },
        database: DatabaseConfig { url: url.to_string() },
        jwt: JwtConfig {
            access_token_ttl_minutes: 15,
            refresh_token_ttl_days: 7,
            rsa_private_key_pem: private_key.to_string(),
            rsa_public_key_pem: public_key.to_string(),
        },
        oauth: OAuthConfig { clients: vec![] },
        llm: llm("mock", llm_key, None, None),
    }
}

#[test]
fn sqlite_data_directory() {
    let c = configuration("sqlite://./data/foo.db?mode=rwc", "k", "k", None);
    assert_eq!(c.extract_sqlite_data_dir().as_deref(), Some("./data"));
    let c = configuration("sqlite://foo.db", "k", "k", None);
    assert_eq!(c.extract_sqlite_data_dir(), None);
    let c = configuration("postgres://db/app", "k", "k", None);
    assert_eq!(c.extract_sqlite_data_dir(), None);
    let c = configuration("sqlite:///var/lib/app/app.db", "k", "k", None);
    assert_eq!(c.extract_sqlite_data_dir().as_deref(), Some("/var/lib/app"));
}

#[test]
fn configuration_defaults() {
    let mut c = configuration("sqlite://./data/foo.db?mode=rwc", "", "", None);
    let report = c.ensure_defaults();
    assert!(report.generated_jwt_secret);
    assert_eq!(c.jwt.rsa_private_key_pem.len(), 64);
    assert!(c.jwt.rsa_private_key_pem.chars().all(|ch| ch.is_ascii_hexdigit() && !ch.is_ascii_uppercase()));
    assert_eq!(c.jwt.rsa_public_key_pem, c.jwt.rsa_private_key_pem);
    assert_eq!(report.sqlite_data_dir.as_deref(), Some("./data"));
    assert!(report.llm_key_missing);
    let mut c = configuration("postgres://x", "secret", "public", Some("key"));
    let report = c.ensure_defaults();
    assert!(!report.generated_jwt_secret);
    assert_eq!(c.jwt.rsa_private_key_pem, "secret");
    assert_eq!(c.jwt.rsa_public_key_pem, "public");
    assert!(!report.llm_key_missing);
}

#[test]
fn admin_seeding_decisions() {
    assert!(should_seed_admin(true, "production"));
    assert!(should_seed_admin(false, "dev"));
    assert!(!should_seed_admin(false, "production"));
    let plan = seed_admin_plan(None, None, None, "local").unwrap();
    assert_eq!(plan.email, "admin@test.com");
    assert_eq!(plan.password, "admin123456");
    assert_eq!(plan.name, "Admin");
    assert!(plan.default_password);
    let err = seed_admin_plan(None, None, None, "production").unwrap_err();
    assert_eq!(
        err,
        "APP_SEED_ADMIN_PASSWORD is required in production-like environments (APP_ENV='production'); refusing to seed admin with a default weak password"
    );
    let err = seed_admin_plan(None, Some("short".to_string()), None, "production").unwrap_err();
    assert_eq!(err, "Seed admin password must be at least 8 characters");
    let plan = seed_admin_plan(Some("root@x".to_string()), Some("longenough".to_string()), Some("Root".to_string()), "production").unwrap();
    assert_eq!((plan.email.as_str(), plan.password.as_str(), plan.name.as_str()), ("root@x", "longenough", "Root"));
    assert!(!plan.default_password);
}

#[test]
fn health_reporting() {
    assert_eq!(health_summary(true, true), ("ok", "up", "up"));
    assert_eq!(health_summary(true, false), ("degraded", "up", "down"));
    assert_eq!(health_summary(false, true), ("degraded", "down", "up"));
}

#[test]
fn text_helpers_match_std() {
    for s in ["", "  a b \t", "\u{3000}x\u{85}", "abc", " \n "] {
        assert_eq!(trim(s), s.trim());
    }
    assert!(contains_text("hello mutation x", "mutation"));
    assert!(contains_text("abc", ""));
    assert!(!contains_text("mutatio", "mutation"));
    assert_eq!(strip_prefix_text("sqlite://x", "sqlite://").as_deref(), Some("x"));
    assert_eq!(strip_prefix_text("sql", "sqlite://"), None);
    assert_eq!(hex_lower(&[0x00, 0xab, 0x7f]), "00ab7f");
}

#[test]
fn analysis_results() {
    let r = GapAnalysisResult {
        gaps: vec![Gap {
            area: "approval".to_string(),
            current: "manual".to_string(),
            target: "automatic".to_string(),
            recommendation: "rules engine".to_string(),
        }],
        summary: "1 gap".to_string(),
    };
    assert_eq!(r.gaps.len(), 1);
    assert_eq!(r.gaps[0].target, "automatic");
}

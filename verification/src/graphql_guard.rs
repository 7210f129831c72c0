//! Authorization of the GraphQL API: which operations on which entities an
//! authenticated (or anonymous) caller may perform, which fields stay hidden,
//! and how the value-stream mutations and the HTTP entry point are guarded.
use vstd::prelude::*;

use crate::auth::{Claims, claimed_role};
use crate::enums::{UserRole, ValueStreamImportance, is_contributor};
use crate::text::{concat3, contains_text, owned, seq_contains, str_eq};

verus! {

/// Kind of operation a GraphQL resolver performs.
#[derive(Debug, Clone, Copy, PartialEq, Eq, Structural)]
pub enum OperationType {
    Create,
    Read,
    Update,
    Delete,
}

/// Verdict of a guard: let the operation through, or block it with an
/// optional message.
#[derive(Debug)]
pub enum GuardAction {
    Allow,
    Block(Option<String>),
}

/// The auth guard of the generated GraphQL schema.
#[derive(Debug)]
pub struct GraphqlAuthGuard;

/// Entities holding accounts and credentials; only admins may mutate them.
pub open spec fn is_user_entity(entity: Seq<char>) -> bool {
    entity == "users"@ || entity == "refresh_tokens"@ || entity == "oauth_authorization_codes"@
}

/// Fields never shown to anyone.
pub open spec fn is_hidden_field(entity: Seq<char>, field: Seq<char>) -> bool {
    entity == "users"@ && field == "password_hash"@
}

/// Fields shown to admins only.
pub open spec fn is_admin_only_field(entity: Seq<char>, field: Seq<char>) -> bool {
    entity == "users"@ && field == "email"@
}

/// The message an entity guard blocks with, or `None` when it allows the
/// operation; `role` is the caller's role, `None` for an anonymous caller.
pub open spec fn entity_verdict(role: Option<UserRole>, entity: Seq<char>, action: OperationType) -> Option<
    Seq<char>,
> {
    match action {
        OperationType::Read => None,
        _ => match role {
            None => Some("Authentication required for mutations."@),
            Some(r) => if is_user_entity(entity) && r != UserRole::Admin {
                Some(
                    match action {
                        OperationType::Create => "Only admins can create user records."@,
                        OperationType::Update => "Only admins can update user records."@,
                        _ => "Only admins can delete user records."@,
                    },
                )
            } else if !is_contributor(r) {
                Some(
                    match action {
                        OperationType::Create => "Viewers cannot create resources."@,
                        OperationType::Update => "Viewers cannot update resources."@,
                        _ => "Viewers cannot delete resources."@,
                    },
                )
            } else {
                None
            },
        },
    }
}

/// The message a field guard blocks with, or `None` when it allows access.
pub open spec fn field_verdict(role: Option<UserRole>, entity: Seq<char>, field: Seq<char>) -> Option<
    Seq<char>,
> {
    if is_hidden_field(entity, field) {
        Some("Field '"@ + field + "' on '"@ + entity + "' is not accessible."@)
    } else if is_admin_only_field(entity, field) {
        match role {
            None => Some("Field '"@ + field + "' on '"@ + entity + "' requires authentication."@),
            Some(r) => if r != UserRole::Admin {
                Some("Field '"@ + field + "' on '"@ + entity + "' is admin-only."@)
            } else {
                None
            },
        }
    } else {
        None
    }
}

/// The caller's role as the guards see it.
pub open spec fn caller_role(claims: Option<&Claims>) -> Option<UserRole> {
    match claims {
        Some(c) => Some(claimed_role(c.role@)),
        None => None,
    }
}

/// `g` is the guard action for `verdict`.
pub open spec fn acts_on(g: GuardAction, verdict: Option<Seq<char>>) -> bool {
    match verdict {
        None => g is Allow,
        Some(m) => g matches GuardAction::Block(Some(t)) && t@ == m,
    }
}

fn is_user_entity_exec(entity: &str) -> (r: bool)
    ensures
        r == is_user_entity(entity@),
{
    str_eq(entity, "users") || str_eq(entity, "refresh_tokens") || str_eq(
        entity,
        "oauth_authorization_codes",
    )
}

fn field_message(field: &str, entity: &str, tail: &str) -> (r: String)
    ensures
        r@ == "Field '"@ + field@ + "' on '"@ + entity@ + tail@,
{
    let mut r: String = concat3("Field '", field, "' on '");
    r.append(entity);
    r.append(tail);
    r
}

impl GraphqlAuthGuard {
    /// Entity-level guard: reads are public; every mutation needs an
    /// authenticated caller; account entities may be mutated by admins only;
    /// viewers may not mutate anything.
    pub fn entity_guard(&self, claims: Option<&Claims>, entity: &str, action: OperationType) -> (r:
        GuardAction)
        ensures
            acts_on(r, entity_verdict(caller_role(claims), entity@, action)),
    {
        if action == OperationType::Read {
            return GuardAction::Allow;
        }
        let c: &Claims = match claims {
            None => {
                return GuardAction::Block(Some(owned("Authentication required for mutations.")));
            },
            Some(c) => c,
        };
        let role: UserRole = c.user_role();
        if is_user_entity_exec(entity) && !role.can_manage_users() {
            let m: &str = match action {
                OperationType::Create => "Only admins can create user records.",
                OperationType::Update => "Only admins can update user records.",
                _ => "Only admins can delete user records.",
            };
            return GuardAction::Block(Some(owned(m)));
        }
        let permitted: bool = match action {
            OperationType::Create => role.can_create(),
            OperationType::Update => role.can_update(),
            _ => role.can_delete(),
        };
        if !permitted {
            let m: &str = match action {
                OperationType::Create => "Viewers cannot create resources.",
                OperationType::Update => "Viewers cannot update resources.",
                _ => "Viewers cannot delete resources.",
            };
            return GuardAction::Block(Some(owned(m)));
        }
        GuardAction::Allow
    }

    /// Field-level guard: password hashes are never exposed; e-mail addresses
    /// only to authenticated admins.
    pub fn field_guard(
        &self,
        claims: Option<&Claims>,
        entity: &str,
        field: &str,
        action: OperationType,
    ) -> (r: GuardAction)
        ensures
            acts_on(r, field_verdict(caller_role(claims), entity@, field@)),
    {
        if str_eq(entity, "users") && str_eq(field, "password_hash") {
            return GuardAction::Block(Some(field_message(field, entity, "' is not accessible.")));
        }
        if str_eq(entity, "users") && str_eq(field, "email") {
            let c: &Claims = match claims {
                None => {
                    return GuardAction::Block(
                        Some(field_message(field, entity, "' requires authentication.")),
                    );
                },
                Some(c) => c,
            };
            if !c.user_role().is_admin() {
                return GuardAction::Block(Some(field_message(field, entity, "' is admin-only.")));
            }
        }
        GuardAction::Allow
    }
}

/// The authorization of the value-stream mutations, which mirror the entity
/// guard: an authenticated caller whose role permits the operation.
pub fn check_value_stream_auth(claims: Option<&Claims>, action: OperationType) -> (r: Result<
    (),
    String,
>)
    ensures
        claims is None ==> (r matches Err(m) && m@ == "Authentication required for mutations."@),
        claims matches Some(c) ==> (if action == OperationType::Read || is_contributor(
            claimed_role(c.role@),
        ) {
            r is Ok
        } else {
            r matches Err(m) && m@ == "Insufficient permissions for this operation."@
        }),
{
    let c: &Claims = match claims {
        None => {
            return Err(owned("Authentication required for mutations."));
        },
        Some(c) => c,
    };
    let role: UserRole = c.user_role();
    let allowed: bool = match action {
        OperationType::Create => role.can_create(),
        OperationType::Update => role.can_update(),
        OperationType::Delete => role.can_delete(),
        OperationType::Read => true,
    };
    if !allowed {
        return Err(owned("Insufficient permissions for this operation."));
    }
    Ok(())
}

/// The importance named by a GraphQL enum value.
pub open spec fn importance_from_label(s: Seq<char>) -> Option<ValueStreamImportance> {
    if s == "Critical"@ {
        Some(ValueStreamImportance::Critical)
    } else if s == "High"@ {
        Some(ValueStreamImportance::High)
    } else if s == "Medium"@ {
        Some(ValueStreamImportance::Medium)
    } else if s == "Low"@ {
        Some(ValueStreamImportance::Low)
    } else {
        None
    }
}

/// Parses a GraphQL importance value (`Critical`, `High`, `Medium`, `Low`).
pub fn parse_importance(s: &str) -> (r: Result<ValueStreamImportance, String>)
    ensures
        importance_from_label(s@) matches Some(i) ==> r == Ok::<ValueStreamImportance, String>(i),
        importance_from_label(s@) is None ==> (r matches Err(m) && m@ == "Invalid importance: '"@
            + s@ + "'. Expected: Critical, High, Medium, Low"@),
{
    if str_eq(s, "Critical") {
        Ok(ValueStreamImportance::Critical)
    } else if str_eq(s, "High") {
        Ok(ValueStreamImportance::High)
    } else if str_eq(s, "Medium") {
        Ok(ValueStreamImportance::Medium)
    } else if str_eq(s, "Low") {
        Ok(ValueStreamImportance::Low)
    } else {
        Err(concat3("Invalid importance: '", s, "'. Expected: Critical, High, Medium, Low"))
    }
}

/// What the GraphQL endpoint does with a request, by HTTP method.
#[derive(Debug, Clone, Copy, PartialEq, Eq, Structural)]
pub enum GraphqlRoute {
    /// Serve the interactive GraphiQL page.
    Playground,
    /// Execute the posted query or mutation.
    Execute,
    /// Answer 405.
    MethodNotAllowed,
}

/// The route for an HTTP method: GET serves the playground, POST executes.
pub fn graphql_route(method: &str) -> (r: GraphqlRoute)
    ensures
        r == (if method@ == "GET"@ {
            GraphqlRoute::Playground
        } else if method@ == "POST"@ {
            GraphqlRoute::Execute
        } else {
            GraphqlRoute::MethodNotAllowed
        }),
{
    if str_eq(method, "GET") {
        GraphqlRoute::Playground
    } else if str_eq(method, "POST") {
        GraphqlRoute::Execute
    } else {
        GraphqlRoute::MethodNotAllowed
    }
}

/// Whether a posted GraphQL body is refused outright for lack of a valid
/// token: without a token, any body mentioning `mutation` is answered 401.
pub fn rejects_anonymous_mutation(has_valid_token: bool, body: &str) -> (r: bool)
    ensures
        r == (!has_valid_token && seq_contains(body@, "mutation"@)),
{
    !has_valid_token && contains_text(body, "mutation")
}

/// Who may perform what, stated by role: reads are open to everyone,
/// anonymous included; a create, update or delete is allowed exactly to an
/// authenticated admin or architect, and on the account entities (users,
/// refresh tokens, authorization codes) exactly to an admin.
pub proof fn lemma_entity_permissions(role: Option<UserRole>, entity: Seq<char>, action: OperationType)
    ensures
        entity_verdict(role, entity, action) is None <==> (action == OperationType::Read || (
        role matches Some(r) && (r == UserRole::Admin || r == UserRole::Architect) && ((entity
            == "users"@ || entity == "refresh_tokens"@ || entity == "oauth_authorization_codes"@)
            ==> r == UserRole::Admin))),
{
}

/// The name of an importance as the GraphQL API spells it: the variant's own
/// name.
pub open spec fn importance_label(i: ValueStreamImportance) -> Seq<char> {
    match i {
        ValueStreamImportance::Critical => "Critical"@,
        ValueStreamImportance::High => "High"@,
        ValueStreamImportance::Medium => "Medium"@,
        ValueStreamImportance::Low => "Low"@,
    }
}

/// The GraphQL importance values read back exactly: every importance parses
/// from its own name, and a text parses to an importance only when it is
/// that importance's name.
pub proof fn lemma_importance_labels_read_back(i: ValueStreamImportance, s: Seq<char>)
    ensures
        importance_from_label(importance_label(i)) == Some(i),
        importance_from_label(s) matches Some(j) ==> s == importance_label(j),
{
    reveal_strlit("Critical");
    reveal_strlit("High");
    reveal_strlit("Medium");
    reveal_strlit("Low");
    assert("Critical"@.len() == 8);
    assert("High"@.len() == 4);
    assert("Medium"@.len() == 6);
    assert("Low"@.len() == 3);
}

/// Anonymous callers can read but never mutate, and viewers never mutate.
pub proof fn lemma_mutations_need_contributor(
    role: Option<UserRole>,
    entity: Seq<char>,
    action: OperationType,
)
    ensures
        action != OperationType::Read && entity_verdict(role, entity, action) is None ==> (role
            matches Some(r) && is_contributor(r)),
        action != OperationType::Read && is_user_entity(entity) && entity_verdict(
            role,
            entity,
            action,
        ) is None ==> role == Some(UserRole::Admin),
        entity_verdict(role, entity, OperationType::Read) is None,
{
}

/// Password hashes are never readable, whoever asks.
pub proof fn lemma_password_hash_never_exposed(role: Option<UserRole>)
    ensures
        field_verdict(role, "users"@, "password_hash"@) is Some,
{
}

} // verus!

//! Start-up decisions of the server: whether and how the first admin account
//! is seeded, and how service health is summarised.
use vstd::prelude::*;
use vstd::utf8::encode_utf8;

use crate::text::{concat3, owned, str_eq};

verus! {

/// The first admin account to create.
#[derive(Debug)]
pub struct SeedAdmin {
    pub email: String,
    pub password: String,
    pub name: String,
    /// The built-in development password is used (none was configured).
    pub default_password: bool,
}

/// Development environments (`local`, `dev`), where defaults are acceptable.
pub open spec fn is_development(app_env: Seq<char>) -> bool {
    app_env == "local"@ || app_env == "dev"@
}

fn is_development_exec(app_env: &str) -> (r: bool)
    ensures
        r == is_development(app_env@),
{
    str_eq(app_env, "local") || str_eq(app_env, "dev")
}

/// Whether the admin account is seeded at start-up: always when an admin
/// e-mail is configured, otherwise only in development environments.
pub fn should_seed_admin(email_configured: bool, app_env: &str) -> (r: bool)
    ensures
        r == (email_configured || is_development(app_env@)),
{
    email_configured || is_development_exec(app_env)
}

/// The message refusing a default password outside development.
pub open spec fn missing_password_message(app_env: Seq<char>) -> Seq<char> {
    "APP_SEED_ADMIN_PASSWORD is required in production-like environments (APP_ENV='"@ + app_env
        + "'); refusing to seed admin with a default weak password"@
}

/// The admin account to seed from the configured e-mail, password and name
/// (each optional): defaults are `admin@test.com`, `Admin` and, in
/// development only, the password `admin123456`. Outside development a
/// password must be configured, and every password needs at least 8 bytes.
pub fn seed_admin_plan(
    email: Option<String>,
    password: Option<String>,
    name: Option<String>,
    app_env: &str,
) -> (r: Result<SeedAdmin, String>)
    ensures
        password is None && !is_development(app_env@) ==> (r matches Err(m) && m@
            == missing_password_message(app_env@)),
        password is Some && encode_utf8(password.unwrap()@).len() < 8 ==> (r matches Err(m) && m@
            == "Seed admin password must be at least 8 characters"@),
        password is Some && encode_utf8(password.unwrap()@).len() >= 8 ==> (r matches Ok(s)
            && s.password == password.unwrap() && !s.default_password),
        password is None && is_development(app_env@) ==> (r matches Ok(s) && s.password@
            == "admin123456"@ && s.default_password),
        r matches Ok(s) ==> (s.email@ == (match email {
            Some(e) => e@,
            None => "admin@test.com"@,
        }) && s.name@ == (match name {
            Some(n) => n@,
            None => "Admin"@,
        })),
{
    let (password, default_password) = match password {
        Some(p) => (p, false),
        None => {
            if !is_development_exec(app_env) {
                return Err(
                    concat3(
                        "APP_SEED_ADMIN_PASSWORD is required in production-like environments (APP_ENV='",
                        app_env,
                        "'); refusing to seed admin with a default weak password",
                    ),
                );
            }
            (owned("admin123456"), true)
        },
    };
    proof {
        reveal_strlit("admin123456");
        assert(encode_utf8("admin123456"@).len() == 11) by {
            vstd::utf8::is_ascii_chars_encode_utf8("admin123456"@);
        }
    }
    if password.as_str().as_bytes().len() < 8 {
        return Err(owned("Seed admin password must be at least 8 characters"));
    }
    let email: String = match email {
        Some(e) => e,
        None => owned("admin@test.com"),
    };
    let name: String = match name {
        Some(n) => n,
        None => owned("Admin"),
    };
    Ok(SeedAdmin { email, password, name, default_password })
}

/// Health of the service: `ok` when the database and the language model are
/// both up, `degraded` otherwise; each part reported as `up` or `down`.
pub fn health_summary(db_up: bool, llm_up: bool) -> (r: (&'static str, &'static str, &'static str))
    ensures
        r.0@ == (if db_up && llm_up {
            "ok"@
        } else {
            "degraded"@
        }),
        r.1@ == (if db_up {
            "up"@
        } else {
            "down"@
        }),
        r.2@ == (if llm_up {
            "up"@
        } else {
            "down"@
        }),
{
    let db: &'static str = if db_up {
        "up"
    } else {
        "down"
    };
    let llm: &'static str = if llm_up {
        "up"
    } else {
        "down"
    };
    let overall: &'static str = if db_up && llm_up {
        "ok"
    } else {
        "degraded"
    };
    (overall, db, llm)
}

} // verus!

//! Application configuration, computed from a snapshot of the environment.
use vstd::prelude::*;

use crate::constants::{app_constants, app_environments, app_keys};
use crate::named_values::NamedValues;
use crate::text::str_eq;

pub mod local_config;
pub mod prod_config;

verus! {

broadcast use vstd::string::group_string_axioms;

/// The application's settings.
#[derive(Clone)]
pub struct Configs {
    pub app_name: String,
    pub mongo_uri: String,
    pub port: u16,
    pub current_env: String,
    pub postgresql_neon_pool_url: String,
    /// Which storage backend to use: "local", "aws", "cloudflare".
    pub storage_provider: String,
    /// Base path on disk (used only when storage_provider = "local").
    pub storage_local_path: String,
    /// URL prefix for served files (used only when storage_provider = "local").
    pub storage_local_serve_prefix: String,
    pub r2_access_key: String,
    pub r2_secret_key: String,
    pub r2_endpoint: String,
    pub r2_bucket: String,
    pub r2_key_prefix: String,
    pub r2_public_url: String,
    pub aws_region: String,
    pub aws_bucket: String,
}

/// The value of an environment variable, or `default` when it is unset.
pub open spec fn env_or(env: Map<Seq<char>, Seq<char>>, key: Seq<char>, default: Seq<char>) -> Seq<char> {
    if env.contains_key(key) {
        env[key]
    } else {
        default
    }
}

/// Reads an environment variable from the snapshot, with a default.
pub fn get_env_var(env: &NamedValues, key: &str, default: &str) -> (r: String)
    ensures
        r@ == env_or(env@, key@, default@),
{
    match env.get(key) {
        Some(v) => v,
        None => String::from_str(default),
    }
}

/// The decimal value of a string of ASCII digits.
pub open spec fn digits_value(d: Seq<char>) -> nat
    decreases d.len(),
{
    if d.len() == 0 {
        0
    } else {
        digits_value(d.drop_last()) * 10 + ((d.last() as u32) - 48) as nat
    }
}

/// What `str::parse::<u16>` accepts: an optional '+' then one or more ASCII
/// digits whose value fits in 16 bits.
pub open spec fn parse_u16_spec(s: Seq<char>) -> Option<u16> {
    let d = if s.len() > 0 && s[0] == '+' { s.skip(1) } else { s };
    if d.len() == 0 || exists|i: int| 0 <= i < d.len() && !('0' <= #[trigger] d[i] <= '9') {
        None
    } else if digits_value(d) <= 65535 {
        Some(digits_value(d) as u16)
    } else {
        None
    }
}

/// `str::parse::<u16>`, as the std documentation of `u16::from_str_radix`
/// describes it for radix 10: an optional '+' sign followed by only digits.
#[verifier::external_body]
fn parse_u16(s: &str) -> (r: Option<u16>)
    ensures
        r == parse_u16_spec(s@),
{
    s.parse::<u16>().ok()
}

/// The port: the `PORT` variable when it parses as a port number, else 8080.
pub open spec fn port_spec(env: Map<Seq<char>, Seq<char>>) -> u16 {
    match parse_u16_spec(env_or(env, "PORT"@, "8080"@)) {
        Some(p) => p,
        None => 8080,
    }
}

/// The settings of an environment, given the name it reports as `current_env`.
pub open spec fn settings_spec(env: Map<Seq<char>, Seq<char>>, current_env: Seq<char>, c: Configs) -> bool {
    &&& c.app_name@ == "MyStartupApp"@
    &&& c.mongo_uri@ == env_or(env, "DATABASE_URL"@, "localhost:5432"@)
    &&& c.port == port_spec(env)
    &&& c.current_env@ == current_env
    &&& c.postgresql_neon_pool_url@ == env_or(env, "DATABASE_URL"@, ""@)
    &&& c.storage_provider@ == env_or(env, "STORAGE_PROVIDER"@, "local"@)
    &&& c.storage_local_path@ == "./uploads"@
    &&& c.storage_local_serve_prefix@ == "/uploads"@
    &&& c.r2_access_key@ == env_or(env, "R2_ACCESS_KEY"@, ""@)
    &&& c.r2_secret_key@ == env_or(env, "R2_SECRET_KEY"@, ""@)
    &&& c.r2_endpoint@ == env_or(env, "R2_ENDPOINT"@, ""@)
    &&& c.r2_bucket@ == env_or(env, "R2_BUCKET"@, ""@)
    &&& c.r2_key_prefix@ == env_or(env, "R2_KEY_PREFIX"@, "testing"@)
    &&& c.r2_public_url@ == env_or(env, "R2_PUBLIC_URL"@, ""@)
    &&& c.aws_region@ == env_or(env, "AWS_REGION"@, "ap-south-1"@)
    &&& c.aws_bucket@ == env_or(env, "AWS_S3_BUCKET"@, ""@)
}

/// Each setting read from the environment is the value of the variable of
/// its own name, or its default when that variable is unset; the fixed
/// settings do not depend on the environment.
pub proof fn lemma_settings_read_their_own_variables(
    env: Map<Seq<char>, Seq<char>>,
    current_env: Seq<char>,
    c: Configs,
)
    requires
        settings_spec(env, current_env, c),
    ensures
        env.contains_key("R2_ACCESS_KEY"@) ==> c.r2_access_key@ == env["R2_ACCESS_KEY"@],
        !env.contains_key("R2_ACCESS_KEY"@) ==> c.r2_access_key@ == ""@,
        env.contains_key("R2_SECRET_KEY"@) ==> c.r2_secret_key@ == env["R2_SECRET_KEY"@],
        !env.contains_key("R2_SECRET_KEY"@) ==> c.r2_secret_key@ == ""@,
        env.contains_key("R2_ENDPOINT"@) ==> c.r2_endpoint@ == env["R2_ENDPOINT"@],
        !env.contains_key("R2_ENDPOINT"@) ==> c.r2_endpoint@ == ""@,
        env.contains_key("R2_BUCKET"@) ==> c.r2_bucket@ == env["R2_BUCKET"@],
        !env.contains_key("R2_BUCKET"@) ==> c.r2_bucket@ == ""@,
        env.contains_key("R2_KEY_PREFIX"@) ==> c.r2_key_prefix@ == env["R2_KEY_PREFIX"@],
        !env.contains_key("R2_KEY_PREFIX"@) ==> c.r2_key_prefix@ == "testing"@,
        env.contains_key("R2_PUBLIC_URL"@) ==> c.r2_public_url@ == env["R2_PUBLIC_URL"@],
        !env.contains_key("R2_PUBLIC_URL"@) ==> c.r2_public_url@ == ""@,
        env.contains_key("AWS_REGION"@) ==> c.aws_region@ == env["AWS_REGION"@],
        !env.contains_key("AWS_REGION"@) ==> c.aws_region@ == "ap-south-1"@,
        env.contains_key("AWS_S3_BUCKET"@) ==> c.aws_bucket@ == env["AWS_S3_BUCKET"@],
        !env.contains_key("AWS_S3_BUCKET"@) ==> c.aws_bucket@ == ""@,
        env.contains_key("STORAGE_PROVIDER"@) ==> c.storage_provider@ == env["STORAGE_PROVIDER"@],
        !env.contains_key("STORAGE_PROVIDER"@) ==> c.storage_provider@ == "local"@,
        env.contains_key("DATABASE_URL"@) ==> c.postgresql_neon_pool_url@ == env["DATABASE_URL"@],
        !env.contains_key("DATABASE_URL"@) ==> c.postgresql_neon_pool_url@ == ""@,
        env.contains_key("DATABASE_URL"@) ==> c.mongo_uri@ == env["DATABASE_URL"@],
        !env.contains_key("DATABASE_URL"@) ==> c.mongo_uri@ == "localhost:5432"@,
        !env.contains_key("PORT"@) ==> c.port == 8080,
        c.app_name@ == "MyStartupApp"@,
        c.current_env@ == current_env,
        c.storage_local_path@ == "./uploads"@,
        c.storage_local_serve_prefix@ == "/uploads"@,
{
    reveal_strlit("8080");
    let d = "8080"@;
    assert(d[0] != '+');
    assert(digits_value(d.take(1)) == 8) by {
        assert(d.take(1).drop_last() =~= Seq::<char>::empty());
        assert(d.take(1).last() == '8');
        assert(('8' as u32) == 56);
        assert(digits_value(Seq::<char>::empty()) == 0);
    }
    assert(digits_value(d.take(2)) == 80) by {
        assert(d.take(2).drop_last() =~= d.take(1));
    }
    assert(digits_value(d.take(3)) == 808) by {
        assert(d.take(3).drop_last() =~= d.take(2));
    }
    assert(digits_value(d) == 8080) by {
        assert(d.drop_last() =~= d.take(3));
    }
    assert(parse_u16_spec(d) == Some(8080u16));
}

/// The settings, read from the environment snapshot.
pub fn settings_for(env: &NamedValues, current_env: &str) -> (c: Configs)
    ensures
        settings_spec(env@, current_env@, c),
{
    let port = match parse_u16(get_env_var(env, app_keys::PORT, app_constants::PORT_DEFAULT).as_str()) {
        Some(p) => p,
        None => 8080,
    };
    Configs {
        app_name: String::from_str(app_constants::APP_NAME),
        mongo_uri: get_env_var(env, app_keys::MONGO_URI, app_constants::MONGO_URI_DEFAULT),
        port,
        current_env: String::from_str(current_env),
        postgresql_neon_pool_url: get_env_var(env, app_keys::DATABASE_URL, app_constants::DATABASE_URL_DEFAULT),
        storage_provider: get_env_var(env, "STORAGE_PROVIDER", "local"),
        storage_local_path: String::from_str("./uploads"),
        storage_local_serve_prefix: String::from_str("/uploads"),
        r2_access_key: get_env_var(env, "R2_ACCESS_KEY", ""),
        r2_secret_key: get_env_var(env, "R2_SECRET_KEY", ""),
        r2_endpoint: get_env_var(env, "R2_ENDPOINT", ""),
        r2_bucket: get_env_var(env, "R2_BUCKET", ""),
        r2_key_prefix: get_env_var(env, "R2_KEY_PREFIX", "testing"),
        r2_public_url: get_env_var(env, "R2_PUBLIC_URL", ""),
        aws_region: get_env_var(env, "AWS_REGION", "ap-south-1"),
        aws_bucket: get_env_var(env, "AWS_S3_BUCKET", ""),
    }
}

/// A deployment environment.
#[derive(Debug, Clone, Copy, PartialEq, Eq, Structural)]
pub enum Environment {
    Local,
    Development,
    Staging,
    Production,
}

/// The environment that an `APP_ENV` value names; anything else is local.
pub open spec fn environment_spec(app_env: Seq<char>) -> Environment {
    if app_env == "development"@ {
        Environment::Development
    } else if app_env == "production"@ {
        Environment::Production
    } else if app_env == "staging"@ {
        Environment::Staging
    } else {
        Environment::Local
    }
}

/// The environment selected by the `APP_ENV` variable (default "local").
pub fn selected_environment(env: &NamedValues) -> (e: Environment)
    ensures
        e == environment_spec(env_or(env@, "APP_ENV"@, "local"@)),
{
    let name = get_env_var(env, app_keys::APP_ENV, app_environments::LOCAL);
    if str_eq(name.as_str(), app_environments::DEV) {
        Environment::Development
    } else if str_eq(name.as_str(), app_environments::PROD) {
        Environment::Production
    } else if str_eq(name.as_str(), app_environments::STAGE) {
        Environment::Staging
    } else {
        Environment::Local
    }
}

/// The name that the settings of an environment report as `current_env`.
pub open spec fn env_label(e: Environment) -> Seq<char> {
    match e {
        Environment::Production => "prod"@,
        _ => "local"@,
    }
}

/// The name of the environment file an environment loads before its
/// settings are read.
pub fn env_file_name(e: Environment) -> (r: &'static str)
    ensures
        r@ == match e {
            Environment::Production => ".env.prod"@,
            _ => ".env"@,
        },
{
    match e {
        Environment::Production => ".env.prod",
        _ => ".env",
    }
}

/// The settings of the selected environment.
pub fn get_configurations(env: &NamedValues) -> (c: Configs)
    ensures
        settings_spec(env@, env_label(environment_spec(env_or(env@, "APP_ENV"@, "local"@))), c),
{
    match selected_environment(env) {
        Environment::Production => crate::configuration::prod_config::settings(env),
        _ => crate::configuration::local_config::settings(env),
    }
}

} // verus!

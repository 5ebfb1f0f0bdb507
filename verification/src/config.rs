//! The server's configuration and how it is read from the environment.

use vstd::prelude::*;
use std::sync::Arc;
use crate::text::spells;

verus! {

/// A shared handle on the configuration.
pub type ConfigHandle = Arc<Config>;

/// Where the server runs; it decides how much is logged.
#[derive(Debug, Clone, Copy, PartialEq, Eq, Structural)]
pub enum Environment {
    Production,
    Development,
    Test,
}

/// The server's configuration.
pub struct Config {
    pub port: u16,
    pub database_url: String,
    pub auth_key: String,
    pub oauth_client_id_discord: String,
    pub oauth_client_secret_discord: String,
    pub oauth_client_token_endpoint_discord: String,
    pub env: Environment,
}

/// The environment variables that the configuration is read from.
#[derive(Debug, Clone, Copy, PartialEq, Eq, Structural)]
pub enum EnvVar {
    Port,
    DatabaseUrl,
    AuthKey,
    OAuthClientIdDiscord,
    OAuthClientSecretDiscord,
    OAuthClientTokenEndpointDiscord,
    Environment,
}

impl EnvVar {
    /// The variable's name.
    pub fn name(&self) -> (n: &'static str)
        ensures
            n@ == match self {
                EnvVar::Port => "PORT"@,
                EnvVar::DatabaseUrl => "DATABASE_URL"@,
                EnvVar::AuthKey => "AUTH_KEY"@,
                EnvVar::OAuthClientIdDiscord => "OAUTH_CLIENT_ID_DISCORD"@,
                EnvVar::OAuthClientSecretDiscord => "OAUTH_CLIENT_SECRET_DISCORD"@,
                EnvVar::OAuthClientTokenEndpointDiscord => "OAUTH_CLIENT_TOKEN_ENDPOINT_DISCORD"@,
                EnvVar::Environment => "ENVIRONMENT"@,
            },
    {
        match self {
            EnvVar::Port => "PORT",
            EnvVar::DatabaseUrl => "DATABASE_URL",
            EnvVar::AuthKey => "AUTH_KEY",
            EnvVar::OAuthClientIdDiscord => "OAUTH_CLIENT_ID_DISCORD",
            EnvVar::OAuthClientSecretDiscord => "OAUTH_CLIENT_SECRET_DISCORD",
            EnvVar::OAuthClientTokenEndpointDiscord => "OAUTH_CLIENT_TOKEN_ENDPOINT_DISCORD",
            EnvVar::Environment => "ENVIRONMENT",
        }
    }
}

/// The values of the environment variables, `None` for one that is not set.
pub struct EnvVars {
    pub port: Option<String>,
    pub database_url: Option<String>,
    pub auth_key: Option<String>,
    pub oauth_client_id_discord: Option<String>,
    pub oauth_client_secret_discord: Option<String>,
    pub oauth_client_token_endpoint_discord: Option<String>,
    pub environment: Option<String>,
}

/// Why the configuration could not be read.
#[derive(Debug)]
pub enum ConfigError {
    /// A variable that must be set (`DATABASE_URL` or `AUTH_KEY`) is not.
    Missing(EnvVar),
    /// `PORT` is not a number in `0..=65535`.
    InvalidPort,
    /// `ENVIRONMENT` is none of `Production`, `Development`, `Test`.
    InvalidEnvironment(String),
}

/// Whether `c` is an ASCII decimal digit.
pub open spec fn is_digit(c: char) -> bool {
    0x30 <= (c as u32) <= 0x39
}

/// The number that the decimal digits `s` spell.
pub open spec fn digits_value(s: Seq<char>) -> int
    decreases s.len(),
{
    if s.len() == 0 {
        0
    } else {
        digits_value(s.drop_last()) * 10 + (s.last() as u32 - 0x30)
    }
}

/// The value of the decimal digits `d`, where there is one digit or more and
/// they spell at most 65535.
pub open spec fn parse_digits_u16(d: Seq<char>) -> Option<u16> {
    if d.len() > 0 && (forall|i: int| 0 <= i < d.len() ==> is_digit(#[trigger] d[i]))
        && digits_value(d) <= 65535 {
        Some(digits_value(d) as u16)
    } else {
        None
    }
}

/// What `str::parse::<u16>` gives: an optional `+`, then one digit or more,
/// spelling at most 65535.
pub open spec fn parse_u16(s: Seq<char>) -> Option<u16> {
    if s.len() > 0 && s[0] == '+' {
        parse_digits_u16(s.drop_first())
    } else {
        parse_digits_u16(s)
    }
}

/// Reads a port number as `str::parse::<u16>` does.
pub fn parse_port(s: &str) -> (r: Option<u16>)
    ensures
        r == parse_u16(s@),
{
    let cs = crate::text::chars_of(s);
    let n = cs.len();
    let start: usize = if n > 0 && cs[0] == '+' {
        1
    } else {
        0
    };
    let ghost d = if n > 0 && cs@[0] == '+' {
        s@.drop_first()
    } else {
        s@
    };
    assert(d =~= cs@.subrange(start as int, n as int));
    if start == n {
        return None;
    }
    let mut acc: u32 = 0;
    let mut i: usize = start;
    while i < n
        invariant
            start <= i <= n,
            n == cs@.len(),
            cs@ == s@,
            d == (if s@.len() > 0 && s@[0] == '+' {
                s@.drop_first()
            } else {
                s@
            }),
            d == cs@.subrange(start as int, n as int),
            forall|k: int| start <= k < i ==> is_digit(#[trigger] cs@[k]),
            acc as int == if digits_value(cs@.subrange(start as int, i as int)) < 65536 {
                digits_value(cs@.subrange(start as int, i as int))
            } else {
                65536
            },
            digits_value(cs@.subrange(start as int, i as int)) >= 0,
        decreases n - i,
    {
        let c = cs[i];
        let code = c as u32;
        if !(0x30 <= code && code <= 0x39) {
            assert(d[i - start] == cs@[i as int]);
            assert(!is_digit(d[i - start]));
            return None;
        }
        let ghost before = cs@.subrange(start as int, i as int);
        let ghost after = cs@.subrange(start as int, i + 1);
        assert(after.drop_last() =~= before);
        let digit = code - 0x30;
        if acc < 65536 {
            let next = acc * 10 + digit;
            acc = if next < 65536 {
                next
            } else {
                65536
            };
        }
        i = i + 1;
    }
    assert(cs@.subrange(start as int, n as int) == d);
    if acc < 65536 {
        Some(acc as u16)
    } else {
        None
    }
}

/// The environment that `name` names.
pub open spec fn environment_named(name: Seq<char>) -> Option<Environment> {
    if name == seq!['P', 'r', 'o', 'd', 'u', 'c', 't', 'i', 'o', 'n'] {
        Some(Environment::Production)
    } else if name == seq!['D', 'e', 'v', 'e', 'l', 'o', 'p', 'm', 'e', 'n', 't'] {
        Some(Environment::Development)
    } else if name == seq!['T', 'e', 's', 't'] {
        Some(Environment::Test)
    } else {
        None
    }
}

impl Config {
    /// A configuration handle holding the given values.
    pub fn new(
        port: u16,
        database_url: String,
        auth_key: String,
        oauth_client_id_discord: String,
        oauth_client_secret_discord: String,
        oauth_client_token_endpoint_discord: String,
        env: Environment,
    ) -> (c: ConfigHandle)
        ensures
            c.port == port,
            c.database_url == database_url,
            c.auth_key == auth_key,
            c.oauth_client_id_discord == oauth_client_id_discord,
            c.oauth_client_secret_discord == oauth_client_secret_discord,
            c.oauth_client_token_endpoint_discord == oauth_client_token_endpoint_discord,
            c.env == env,
    {
        Arc::new(
            Config {
                port,
                database_url,
                auth_key,
                oauth_client_id_discord,
                oauth_client_secret_discord,
                oauth_client_token_endpoint_discord,
                env,
            },
        )
    }

    /// The configuration that the environment variables `vars` describe.
    /// Only `DATABASE_URL` and `AUTH_KEY` must be set, as in the README's
    /// setup: an unset `PORT` is [`DEFAULT_PORT`], an unset `ENVIRONMENT` is
    /// `Development` (whose logging is the README's `RUST_LOG`), and an unset
    /// OAuth variable is empty. A set `PORT` or `ENVIRONMENT` must be valid.
    /// The first problem, in the order `PORT`, `DATABASE_URL`, `AUTH_KEY`,
    /// `ENVIRONMENT`, is the error.
    pub fn from_env(vars: EnvVars) -> (r: Result<ConfigHandle, ConfigError>)
        ensures
            match first_problem(&vars) {
                Some(p) => r matches Err(e) && e@ == p,
                None => r matches Ok(c) && {
                    &&& c.port == match vars.port {
                        Some(p) => parse_u16(p@)->0,
                        None => DEFAULT_PORT,
                    }
                    &&& Some(c.database_url) == vars.database_url
                    &&& Some(c.auth_key) == vars.auth_key
                    &&& c.oauth_client_id_discord@ == text_or_empty(vars.oauth_client_id_discord)
                    &&& c.oauth_client_secret_discord@ == text_or_empty(
                        vars.oauth_client_secret_discord,
                    )
                    &&& c.oauth_client_token_endpoint_discord@ == text_or_empty(
                        vars.oauth_client_token_endpoint_discord,
                    )
                    &&& c.env == match vars.environment {
                        Some(name) => environment_named(name@)->0,
                        None => Environment::Development,
                    }
                },
            },
    {
        let port = match &vars.port {
            None => DEFAULT_PORT,
            Some(p) => match parse_port(p.as_str()) {
                None => return Err(ConfigError::InvalidPort),
                Some(port) => port,
            },
        };
        let database_url = match vars.database_url {
            None => return Err(ConfigError::Missing(EnvVar::DatabaseUrl)),
            Some(v) => v,
        };
        let auth_key = match vars.auth_key {
            None => return Err(ConfigError::Missing(EnvVar::AuthKey)),
            Some(v) => v,
        };
        let env = match vars.environment {
            None => Environment::Development,
            Some(name) => match Environment::from_name(name.as_str()) {
                None => return Err(ConfigError::InvalidEnvironment(name)),
                Some(env) => env,
            },
        };
        let oauth_client_id_discord = or_empty(vars.oauth_client_id_discord);
        let oauth_client_secret_discord = or_empty(vars.oauth_client_secret_discord);
        let oauth_client_token_endpoint_discord = or_empty(
            vars.oauth_client_token_endpoint_discord,
        );
        Ok(
            Config::new(
                port,
                database_url,
                auth_key,
                oauth_client_id_discord,
                oauth_client_secret_discord,
                oauth_client_token_endpoint_discord,
                env,
            ),
        )
    }
}

/// The README's setup, with only `DATABASE_URL` and `AUTH_KEY` set (and
/// `RUST_LOG`, which is no concern of the configuration), is a valid
/// configuration holding those two values.
pub proof fn law_readme_environment(vars: EnvVars)
    requires
        vars.database_url is Some,
        vars.auth_key is Some,
        vars.port is None,
        vars.environment is None,
        vars.oauth_client_id_discord is None,
        vars.oauth_client_secret_discord is None,
        vars.oauth_client_token_endpoint_discord is None,
    ensures
        first_problem(&vars) is None,
{
}

/// The port the server listens on where `PORT` is not set.
pub const DEFAULT_PORT: u16 = 8081;

/// The text of a variable, empty where it is not set.
pub open spec fn text_or_empty(v: Option<String>) -> Seq<char> {
    match v {
        Some(s) => s@,
        None => Seq::empty(),
    }
}

fn or_empty(v: Option<String>) -> (s: String)
    ensures
        s@ == text_or_empty(v),
{
    match v {
        Some(s) => s,
        None => String::new(),
    }
}

/// A problem with the environment variables, as text.
pub enum ConfigProblem {
    Missing(EnvVar),
    InvalidPort,
    InvalidEnvironment(Seq<char>),
}

impl View for ConfigError {
    type V = ConfigProblem;

    open spec fn view(&self) -> ConfigProblem {
        match self {
            ConfigError::Missing(v) => ConfigProblem::Missing(*v),
            ConfigError::InvalidPort => ConfigProblem::InvalidPort,
            ConfigError::InvalidEnvironment(name) => ConfigProblem::InvalidEnvironment(name@),
        }
    }
}

/// The first problem with `vars`, checked in the order of [`Config::from_env`].
pub open spec fn first_problem(vars: &EnvVars) -> Option<ConfigProblem> {
    if vars.port is Some && parse_u16(vars.port->0@) is None {
        Some(ConfigProblem::InvalidPort)
    } else if vars.database_url is None {
        Some(ConfigProblem::Missing(EnvVar::DatabaseUrl))
    } else if vars.auth_key is None {
        Some(ConfigProblem::Missing(EnvVar::AuthKey))
    } else if vars.environment is Some && environment_named(vars.environment->0@) is None {
        Some(ConfigProblem::InvalidEnvironment(vars.environment->0@))
    } else {
        None
    }
}

/// How much a logger lets through.
#[derive(Debug, Clone, Copy, PartialEq, Eq, Structural)]
pub enum LogLevel {
    Error,
    Warn,
    Info,
}

/// What the logger lets through: `level` for everything, and `sqlx` for the
/// database driver where it differs.
#[derive(Debug, Clone, Copy, PartialEq, Eq, Structural)]
pub struct LogFilter {
    pub level: LogLevel,
    pub sqlx: Option<LogLevel>,
}

impl Environment {
    /// The logging that the environment asks for: warnings in production,
    /// information (with the database driver held to errors) in development,
    /// none at all under test.
    pub fn log_filter(&self) -> (f: Option<LogFilter>)
        ensures
            match self {
                Environment::Production => f == Some(
                    LogFilter { level: LogLevel::Warn, sqlx: None },
                ),
                Environment::Development => f == Some(
                    LogFilter { level: LogLevel::Info, sqlx: Some(LogLevel::Error) },
                ),
                Environment::Test => f is None,
            },
    {
        match self {
            Environment::Production => Some(LogFilter { level: LogLevel::Warn, sqlx: None }),
            Environment::Development => Some(
                LogFilter { level: LogLevel::Info, sqlx: Some(LogLevel::Error) },
            ),
            Environment::Test => None,
        }
    }

    /// The environment that `name` names, if any.
    pub fn from_name(name: &str) -> (r: Option<Environment>)
        ensures
            r == environment_named(name@),
    {
        if spells(name, &['P', 'r', 'o', 'd', 'u', 'c', 't', 'i', 'o', 'n']) {
            Some(Environment::Production)
        } else if spells(name, &['D', 'e', 'v', 'e', 'l', 'o', 'p', 'm', 'e', 'n', 't']) {
            Some(Environment::Development)
        } else if spells(name, &['T', 'e', 's', 't']) {
            Some(Environment::Test)
        } else {
            None
        }
    }
}

} // verus!

//! Application settings and the running environment.

use vstd::prelude::*;

verus! {

/// Where the HTTP server listens.
#[derive(Clone)]
pub struct ApplicationSettings {
    pub port: u16,
    pub host: String,
}

/// How to reach the database.
#[derive(Clone)]
pub struct DatabaseSettings {
    pub username: String,
    pub password: String,
    pub port: u16,
    pub host: String,
    pub database_name: String,
    /// Whether the connection must be encrypted.
    pub require_ssl: bool,
}

/// Whether a database connection must be encrypted, or tries encryption
/// first and falls back to an unencrypted connection.
#[derive(Clone, Copy, Debug, PartialEq, Eq, Structural)]
pub enum SslMode {
    Require,
    Prefer,
}

impl DatabaseSettings {
    /// The SSL mode the settings ask for.
    pub fn ssl_mode(&self) -> (m: SslMode)
        ensures
            self.require_ssl ==> m == SslMode::Require,
            !self.require_ssl ==> m == SslMode::Prefer,
    {
        if self.require_ssl {
            SslMode::Require
        } else {
            SslMode::Prefer
        }
    }
}

/// Session and cookie settings.
#[derive(Clone)]
pub struct AuthSettings {
    pub session_ttl_days: i64,
    pub cookie_secure: bool,
}

/// All settings.
#[derive(Clone)]
pub struct Settings {
    pub application: ApplicationSettings,
    pub database: DatabaseSettings,
    pub auth: AuthSettings,
}

/// The environment the application runs in.
#[derive(Clone, Copy, Debug, PartialEq, Eq, Structural)]
pub enum Environment {
    Development,
    Production,
}

/// What `str::to_lowercase` gives for `s` (Unicode lowercase mapping).
pub uninterp spec fn lowercase(s: Seq<char>) -> Seq<char>;

/// Whether every character of `s` is ASCII.
pub open spec fn is_ascii_text(s: Seq<char>) -> bool {
    forall|i: int| 0 <= i < s.len() ==> (#[trigger] s[i] as u32) < 128
}

/// The ASCII lowercase form of `c`: a capital letter becomes its small
/// letter, any other character stays.
pub open spec fn ascii_lower_char(c: char) -> char {
    if 'A' <= c && c <= 'Z' {
        ((c as u32) + 32) as char
    } else {
        c
    }
}

/// `s` with each ASCII capital letter made small.
pub open spec fn ascii_lowercase(s: Seq<char>) -> Seq<char> {
    s.map_values(|c: char| ascii_lower_char(c))
}

/// Calls `str::to_lowercase`. Trusted: the result is `lowercase(s@)`; and,
/// as the Unicode lowercase mapping that its documentation names gives, an
/// ASCII string maps character by character, each capital letter to its
/// small letter and every other character to itself.
#[verifier::external_body]
fn to_lowercase(s: &str) -> (r: String)
    ensures
        r@ == lowercase(s@),
        is_ascii_text(s@) ==> r@ == ascii_lowercase(s@),
{
    s.to_lowercase()
}

/// The name of an environment.
pub open spec fn environment_name(e: Environment) -> Seq<char> {
    match e {
        Environment::Development => "development"@,
        Environment::Production => "production"@,
    }
}

/// The text of the error for an unknown environment name `name`.
pub open spec fn unsupported_environment_message(name: Seq<char>) -> Seq<char> {
    name + " is not a supported environment. Use `development` or `production`."@
}

impl Environment {
    /// The environment's name.
    pub fn as_str(&self) -> (s: &'static str)
        ensures
            s@ == environment_name(*self),
    {
        match self {
            Environment::Development => "development",
            Environment::Production => "production",
        }
    }

    /// Reads an environment from its name, in any letter case.
    pub fn parse(env: String) -> (r: Result<Environment, String>)
        ensures
            lowercase(env@) == environment_name(Environment::Development) ==> r == Ok::<
                Environment,
                String,
            >(Environment::Development),
            lowercase(env@) == environment_name(Environment::Production) ==> r == Ok::<
                Environment,
                String,
            >(Environment::Production),
            lowercase(env@) != environment_name(Environment::Development) && lowercase(env@)
                != environment_name(Environment::Production) ==> (r matches Err(m) && m@
                == unsupported_environment_message(lowercase(env@))),
            env@ == environment_name(Environment::Development) ==> r == Ok::<
                Environment,
                String,
            >(Environment::Development),
            env@ == environment_name(Environment::Production) ==> r == Ok::<
                Environment,
                String,
            >(Environment::Production),
            is_ascii_text(env@) && ascii_lowercase(env@) == environment_name(
                Environment::Development,
            ) ==> r == Ok::<Environment, String>(Environment::Development),
            is_ascii_text(env@) && ascii_lowercase(env@) == environment_name(
                Environment::Production,
            ) ==> r == Ok::<Environment, String>(Environment::Production),
            is_ascii_text(env@) && ascii_lowercase(env@) != environment_name(
                Environment::Development,
            ) && ascii_lowercase(env@) != environment_name(Environment::Production) ==> (r matches Err(
                m,
            ) && m@ == unsupported_environment_message(ascii_lowercase(env@))),
    {
        let lower = to_lowercase(env.as_str());
        proof {
            reveal_strlit("development");
            reveal_strlit("production");
            assert(environment_name(Environment::Development).len() != environment_name(
                Environment::Production,
            ).len());
            if env@ == environment_name(Environment::Development) || env@ == environment_name(
                Environment::Production,
            ) {
                assert(is_ascii_text(env@));
                assert(ascii_lowercase(env@) =~= env@);
            }
        }
        if lower == "development".to_owned() {
            Ok(Environment::Development)
        } else if lower == "production".to_owned() {
            Ok(Environment::Production)
        } else {
            Err(lower.concat(" is not a supported environment. Use `development` or `production`."))
        }
    }
}

} // verus!

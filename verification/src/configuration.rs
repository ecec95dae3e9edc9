//! The service's settings: the deployment environment, the application's
//! address and the database connection.
use vstd::prelude::*;
use vstd::utf8::is_ascii_chars;

verus! {

/// What `str::to_lowercase` gives for a text: its lowercase equivalent
/// under the Unicode `Lowercase` property.
pub uninterp spec fn lowercase(s: Seq<char>) -> Seq<char>;

/// ASCII lower-casing: `A` to `Z` become `a` to `z`, every other character
/// stays.
pub open spec fn ascii_lowercase(s: Seq<char>) -> Seq<char> {
    s.map_values(|c: char| if 'A' <= c <= 'Z' { ((c as u32) + 32) as char } else { c })
}

/// `str::to_lowercase`: the lowercase equivalent of `s`, as a new string.
/// The contract names the result; of an ASCII text it also says what std's
/// documentation of `to_ascii_lowercase` says `to_lowercase` does to ASCII
/// characters: `A` to `Z` become `a` to `z` and the rest stay. Nothing more
/// of non-ASCII text is stated.
#[verifier::external_body]
fn to_lowercase(s: &str) -> (r: String)
    ensures
        r@ == lowercase(s@),
        is_ascii_chars(s@) ==> r@ == ascii_lowercase(s@),
{
    s.to_lowercase()
}

/// The name of the local environment.
pub open spec fn local_name() -> Seq<char> {
    seq!['l', 'o', 'c', 'a', 'l']
}

/// The name of the production environment.
pub open spec fn production_name() -> Seq<char> {
    seq!['p', 'r', 'o', 'd', 'u', 'c', 't', 'i', 'o', 'n']
}

/// What follows the rejected name in the error for an unknown environment.
pub open spec fn unsupported_suffix() -> Seq<char> {
    " is not a supported environment. Use either `local` or `production`."@
}

/// The deployment environment of the service.
#[derive(Debug, Clone, Copy, PartialEq, Eq, Structural)]
pub enum Environment {
    Local,
    Production,
}

/// The name of an environment.
pub open spec fn environment_name(e: Environment) -> Seq<char> {
    match e {
        Environment::Local => local_name(),
        Environment::Production => production_name(),
    }
}

/// The environment that an already lower-cased name selects: `local` or
/// `production`, and for any other name the error text that names it.
pub open spec fn environment_of_name(lower: Seq<char>) -> Result<Environment, Seq<char>> {
    if lower == local_name() {
        Ok(Environment::Local)
    } else if lower == production_name() {
        Ok(Environment::Production)
    } else {
        Err(lower + unsupported_suffix())
    }
}

/// The name of an environment selects that environment.
pub proof fn lemma_environment_name_roundtrip(e: Environment)
    ensures
        environment_of_name(environment_name(e)) == Ok::<Environment, Seq<char>>(e),
{
    assert(local_name() != production_name()) by {
        assert(local_name().len() != production_name().len());
    }
}

/// Only an environment's own name selects it, and every other name is
/// refused with the error that quotes it.
pub proof fn lemma_environment_of_name_exact(n: Seq<char>)
    ensures
        forall|e: Environment|
            #[trigger] environment_of_name(n) == Ok::<Environment, Seq<char>>(e) <==> n
                == environment_name(e),
        (forall|e: Environment| n != #[trigger] environment_name(e)) ==> environment_of_name(n)
            == Err::<Environment, Seq<char>>(n + unsupported_suffix()),
{
    assert(local_name() != production_name()) by {
        assert(local_name().len() != production_name().len());
    }
    assert(environment_name(Environment::Local) == local_name());
    assert(environment_name(Environment::Production) == production_name());
}

/// An environment's name is ASCII and unchanged by ASCII lower-casing.
pub proof fn lemma_environment_name_lowercase(e: Environment)
    ensures
        is_ascii_chars(environment_name(e)),
        ascii_lowercase(environment_name(e)) == environment_name(e),
{
    let n = environment_name(e);
    assert(ascii_lowercase(n) =~= n);
}

/// Distinct environments have distinct names.
pub proof fn lemma_environment_names_distinct(a: Environment, b: Environment)
    ensures
        environment_name(a) == environment_name(b) <==> a == b,
{
    assert(local_name().len() != production_name().len());
}

/// `r` is the result that `environment_of_name` gives, with the error text as
/// a string.
pub open spec fn matches_environment_of(r: Result<Environment, String>, lower: Seq<char>) -> bool {
    match (r, environment_of_name(lower)) {
        (Ok(a), Ok(b)) => a == b,
        (Err(e), Err(m)) => e@ == m,
        _ => false,
    }
}

impl Environment {
    /// The lower-case name of the environment.
    pub fn as_str(&self) -> (r: &'static str)
        ensures
            r@ == environment_name(*self),
            is_ascii_chars(r@),
            ascii_lowercase(r@) == r@,
    {
        proof {
            reveal_strlit("local");
            reveal_strlit("production");
            lemma_environment_name_lowercase(*self);
        }
        match self {
            Environment::Local => {
                assert("local"@ =~= local_name());
                "local"
            },
            Environment::Production => {
                assert("production"@ =~= production_name());
                "production"
            },
        }
    }

    /// The environment that an already lower-cased name selects.
    pub fn from_lowercase(lower: &str) -> (r: Result<Environment, String>)
        ensures
            matches_environment_of(r, lower@),
            forall|e: Environment| r == Ok::<Environment, String>(e) <==> lower@ == environment_name(e),
            r matches Err(m) ==> m@ == lower@ + unsupported_suffix(),
    {
        proof {
            reveal_strlit("local");
            reveal_strlit("production");
        }
        if crate::text::str_eq(lower, "local") {
            assert("local"@ =~= local_name());
            Ok(Environment::Local)
        } else if crate::text::str_eq(lower, "production") {
            assert("production"@ =~= production_name());
            Ok(Environment::Production)
        } else {
            assert("local"@ =~= local_name());
            assert("production"@ =~= production_name());
            let mut message = lower.to_owned();
            message.append(" is not a supported environment. Use either `local` or `production`.");
            Err(message)
        }
    }
}

impl TryFrom<String> for Environment {
    type Error = String;

    /// The environment named by `value`, in any letter case; an
    /// environment's own name gives that environment back.
    fn try_from(value: String) -> (r: Result<Environment, String>)
        ensures
            matches_environment_of(r, lowercase(value@)),
            is_ascii_chars(value@) ==> matches_environment_of(r, ascii_lowercase(value@)),
            forall|e: Environment| value@ == environment_name(e) ==> r == Ok::<Environment, String>(e),
    {
        let lower = to_lowercase(value.as_str());
        proof {
            assert forall|e: Environment| value@ == environment_name(e) implies lower@ == value@ by {
                lemma_environment_name_lowercase(e);
            }
        }
        let r = Environment::from_lowercase(lower.as_str());
        proof {
            assert forall|e: Environment| value@ == environment_name(e) implies r == Ok::<
                Environment,
                String,
            >(e) by {
                lemma_environment_name_roundtrip(e);
            }
        }
        r
    }
}

impl vstd::std_specs::convert::TryFromSpecImpl<String> for Environment {
    /// The result of `try_from` is stated by its own contract, over the view
    /// of the error text, not by this generic one.
    open spec fn obeys_try_from_spec() -> bool {
        false
    }

    open spec fn try_from_spec(v: String) -> Result<Environment, String> {
        choose|r: Result<Environment, String>| matches_environment_of(r, lowercase(v@))
    }
}

/// The environment that the `APP_ENVIRONMENT` variable selects: `local` when
/// it is unset (or not Unicode), otherwise the one it names in any letter
/// case.
pub fn environment_from_var(value: Option<String>) -> (r: Result<Environment, String>)
    ensures
        value is None ==> r == Ok::<Environment, String>(Environment::Local),
        value matches Some(v) ==> matches_environment_of(r, lowercase(v@)),
{
    match value {
        Some(v) => Environment::try_from(v),
        None => Ok(Environment::Local),
    }
}

/// Where the application listens and how it is reached.
#[derive(Debug, Clone, PartialEq, Eq)]
pub struct ApplicationSettings {
    pub host: String,
    pub port: u16,
    pub base_url: String,
    pub api_version: u16,
}

/// How to reach the database.
#[derive(Clone, PartialEq, Eq)]
pub struct DatabaseSettings {
    pub username: String,
    /// The password; callers keep it secret.
    pub password: String,
    pub host: String,
    pub port: u16,
    pub database_name: String,
    pub require_ssl: bool,
    pub max_connections: u32,
}

/// All settings of the service.
#[derive(Clone, PartialEq, Eq)]
pub struct Settings {
    pub application: ApplicationSettings,
    pub database: DatabaseSettings,
    pub environment: Environment,
}

/// Whether a database connection must be encrypted.
#[derive(Debug, Clone, Copy, PartialEq, Eq, Structural)]
pub enum SslMode {
    /// Only an encrypted connection.
    Require,
    /// Try an encrypted connection, fall back to an unencrypted one.
    Prefer,
}

/// The options of a PostgreSQL connection; a field left `None` keeps the
/// driver's default.
#[derive(Clone, PartialEq, Eq)]
pub struct ConnectOptions {
    pub host: String,
    pub username: String,
    pub password: String,
    pub port: u16,
    pub ssl_mode: SslMode,
    pub database: Option<String>,
}

impl DatabaseSettings {
    /// The options for a connection to the server, without choosing a
    /// database: encryption is required when the settings say so, and
    /// preferred otherwise.
    pub fn without_db(&self) -> (r: ConnectOptions)
        ensures
            r.host@ == self.host@,
            r.username@ == self.username@,
            r.password@ == self.password@,
            r.port == self.port,
            r.ssl_mode == (if self.require_ssl {
                SslMode::Require
            } else {
                SslMode::Prefer
            }),
            r.database is None,
    {
        let ssl_mode = match self.require_ssl {
            true => SslMode::Require,
            false => SslMode::Prefer,
        };
        ConnectOptions {
            host: self.host.clone(),
            username: self.username.clone(),
            password: self.password.clone(),
            port: self.port,
            ssl_mode,
            database: None,
        }
    }

    /// The options for a connection to the settings' database.
    pub fn with_db(&self) -> (r: ConnectOptions)
        ensures
            r.host@ == self.host@,
            r.username@ == self.username@,
            r.password@ == self.password@,
            r.port == self.port,
            r.ssl_mode == (if self.require_ssl {
                SslMode::Require
            } else {
                SslMode::Prefer
            }),
            r.database matches Some(d) && d@ == self.database_name@,
    {
        let mut options = self.without_db();
        options.database = Some(self.database_name.clone());
        options
    }
}

} // verus!

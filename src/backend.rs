//! Choosing the database backend from a connection URL's scheme, and the tags
//! that name each backend in cached descriptions.

use vstd::prelude::*;
use crate::text::same_text;

verus! {

/// The database backends the library knows.
#[derive(Clone, Copy, Debug, PartialEq, Eq, Structural)]
pub enum Backend {
    Postgres,
    MySql,
    Sqlite,
    Mssql,
}

/// Which backends this build was compiled with.
#[derive(Clone, Copy, Debug, PartialEq, Eq, Structural)]
pub struct EnabledBackends {
    pub postgres: bool,
    pub mysql: bool,
    pub sqlite: bool,
    pub mssql: bool,
}

#[derive(Debug, PartialEq, Eq)]
pub enum BackendError {
    /// The connection URL did not parse; the parser's message.
    InvalidUrl(String),
    /// The scheme names no known backend.
    UnknownScheme(String),
    /// The scheme names a backend this build does not include.
    NotEnabled(Backend),
}

impl EnabledBackends {
    pub open spec fn includes(self, b: Backend) -> bool {
        match b {
            Backend::Postgres => self.postgres,
            Backend::MySql => self.mysql,
            Backend::Sqlite => self.sqlite,
            Backend::Mssql => self.mssql,
        }
    }

    /// Whether backend `b` is compiled in.
    pub fn is_enabled(&self, b: Backend) -> (r: bool)
        ensures
            r == self.includes(b),
    {
        match b {
            Backend::Postgres => self.postgres,
            Backend::MySql => self.mysql,
            Backend::Sqlite => self.sqlite,
            Backend::Mssql => self.mssql,
        }
    }
}

/// The backend a URL scheme selects; aliases select the same backend.
pub open spec fn scheme_backend(s: Seq<char>) -> Option<Backend> {
    if s == "postgres"@ || s == "postgresql"@ {
        Some(Backend::Postgres)
    } else if s == "mysql"@ || s == "mariadb"@ {
        Some(Backend::MySql)
    } else if s == "sqlite"@ {
        Some(Backend::Sqlite)
    } else if s == "mssql"@ || s == "sqlserver"@ {
        Some(Backend::Mssql)
    } else {
        None
    }
}

/// The backend that `scheme` selects, if any.
pub fn backend_for_scheme(scheme: &str) -> (r: Option<Backend>)
    ensures
        r == scheme_backend(scheme@),
{
    proof {
        reveal_strlit("postgres");
        reveal_strlit("postgresql");
        reveal_strlit("mysql");
        reveal_strlit("mariadb");
        reveal_strlit("sqlite");
        reveal_strlit("mssql");
        reveal_strlit("sqlserver");
    }
    if same_text(scheme, "postgres") || same_text(scheme, "postgresql") {
        Some(Backend::Postgres)
    } else if same_text(scheme, "mysql") || same_text(scheme, "mariadb") {
        Some(Backend::MySql)
    } else if same_text(scheme, "sqlite") {
        Some(Backend::Sqlite)
    } else if same_text(scheme, "mssql") || same_text(scheme, "sqlserver") {
        Some(Backend::Mssql)
    } else {
        None
    }
}

/// What selecting by `scheme` gives: the backend, or why there is none.
pub open spec fn selects(
    scheme: Seq<char>,
    enabled: EnabledBackends,
    r: Result<Backend, BackendError>,
) -> bool {
    match scheme_backend(scheme) {
        None => r is Err && r->Err_0 is UnknownScheme && r->Err_0->UnknownScheme_0@ == scheme,
        Some(b) => if enabled.includes(b) {
            r == Ok::<Backend, BackendError>(b)
        } else {
            r == Err::<Backend, BackendError>(BackendError::NotEnabled(b))
        },
    }
}

/// Selects exactly one compiled-in backend for a URL scheme.
pub fn select_backend(scheme: &str, enabled: &EnabledBackends) -> (r: Result<Backend, BackendError>)
    ensures
        selects(scheme@, *enabled, r),
{
    match backend_for_scheme(scheme) {
        None => Err(BackendError::UnknownScheme(String::from_str(scheme))),
        Some(b) => if enabled.is_enabled(b) {
            Ok(b)
        } else {
            Err(BackendError::NotEnabled(b))
        },
    }
}

/// The scheme of a URL as the URL parser reads it (lower-cased), or `None`
/// when the text does not parse as a URL.
pub uninterp spec fn url_scheme(url: Seq<char>) -> Option<Seq<char>>;

/// Relies on `url::Url::parse` and `url::Url::scheme`: the scheme of the
/// parsed URL, or the parser's error message.
#[verifier::external_body]
fn parse_url_scheme(url: &str) -> (r: Result<String, String>)
    ensures
        match url_scheme(url@) {
            Some(s) => r is Ok && r->Ok_0@ == s,
            None => r is Err,
        },
{
    match url::Url::parse(url) {
        Ok(u) => Ok(u.scheme().to_string()),
        Err(e) => Err(e.to_string()),
    }
}

/// Selects the backend for a connection URL by its scheme.
pub fn select_backend_for_url(url: &str, enabled: &EnabledBackends) -> (r: Result<
    Backend,
    BackendError,
>)
    ensures
        match url_scheme(url@) {
            None => r is Err && r->Err_0 is InvalidUrl,
            Some(s) => selects(s, *enabled, r),
        },
{
    match parse_url_scheme(url) {
        Ok(scheme) => select_backend(scheme.as_str(), enabled),
        Err(msg) => Err(BackendError::InvalidUrl(msg)),
    }
}

/// The tag that names each backend in cached descriptions.
pub open spec fn tag_of(b: Backend) -> Seq<char> {
    match b {
        Backend::Postgres => "PostgreSQL"@,
        Backend::MySql => "MySQL"@,
        Backend::Sqlite => "SQLite"@,
        Backend::Mssql => "MSSQL"@,
    }
}

/// The tag of backend `b`.
pub fn backend_tag(b: Backend) -> (r: String)
    ensures
        r@ == tag_of(b),
{
    match b {
        Backend::Postgres => String::from_str("PostgreSQL"),
        Backend::MySql => String::from_str("MySQL"),
        Backend::Sqlite => String::from_str("SQLite"),
        Backend::Mssql => String::from_str("MSSQL"),
    }
}

/// The backend a tag names, if any.
pub open spec fn tag_backend(t: Seq<char>) -> Option<Backend> {
    if t == tag_of(Backend::Postgres) {
        Some(Backend::Postgres)
    } else if t == tag_of(Backend::MySql) {
        Some(Backend::MySql)
    } else if t == tag_of(Backend::Sqlite) {
        Some(Backend::Sqlite)
    } else if t == tag_of(Backend::Mssql) {
        Some(Backend::Mssql)
    } else {
        None
    }
}

/// Reads a backend tag back.
pub fn backend_from_tag(tag: &str) -> (r: Option<Backend>)
    ensures
        r == tag_backend(tag@),
{
    proof {
        reveal_strlit("PostgreSQL");
        reveal_strlit("MySQL");
        reveal_strlit("SQLite");
        reveal_strlit("MSSQL");
    }
    if same_text(tag, "PostgreSQL") {
        Some(Backend::Postgres)
    } else if same_text(tag, "MySQL") {
        Some(Backend::MySql)
    } else if same_text(tag, "SQLite") {
        Some(Backend::Sqlite)
    } else if same_text(tag, "MSSQL") {
        Some(Backend::Mssql)
    } else {
        None
    }
}

/// Reading back the tag of a backend gives that backend.
pub proof fn lemma_tag_round_trip(b: Backend)
    ensures
        tag_backend(tag_of(b)) == Some(b),
{
    reveal_strlit("PostgreSQL");
    reveal_strlit("MySQL");
    reveal_strlit("SQLite");
    reveal_strlit("MSSQL");
    assert("PostgreSQL"@.len() != "MySQL"@.len());
    assert("PostgreSQL"@.len() != "SQLite"@.len());
    assert("PostgreSQL"@.len() != "MSSQL"@.len());
    assert("MySQL"@.len() != "SQLite"@.len());
    assert("SQLite"@.len() != "MSSQL"@.len());
    assert("MySQL"@[1] != "MSSQL"@[1]);
}

} // verus!

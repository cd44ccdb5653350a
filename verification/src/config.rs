//! Service settings: the values taken from the environment, with the
//! defaults used when one is not set.

use vstd::prelude::*;
use crate::text::{concat3, owned};

verus! {

/// Settings of a running service.
#[derive(Debug)]
pub struct Settings {
    /// Directory of the stored uploads and their HLS output.
    pub upload_dir: String,
    /// Path of the SQLite database file.
    pub db_path: String,
    /// Public base URL put into share and stream links.
    pub base_url: String,
    /// Address the HTTP server listens on.
    pub bind_addr: String,
}

/// A set value, or the default.
pub open spec fn or_default(value: Option<Seq<char>>, default: Seq<char>) -> Seq<char> {
    match value {
        Some(v) => v,
        None => default,
    }
}

/// The view of an optional owned string.
pub open spec fn opt_string_view(o: Option<String>) -> Option<Seq<char>> {
    match o {
        Some(s) => Some(s@),
        None => None,
    }
}

fn value_or(value: Option<String>, default: &str) -> (out: String)
    ensures
        out@ == or_default(opt_string_view(value), default@),
{
    match value {
        Some(v) => v,
        None => owned(default),
    }
}

impl Settings {
    /// Settings from the values of `UPLOAD_DIR`, `DB_PATH`, `BASE_URL` and
    /// `BIND_ADDR`, each replaced by its default when not set.
    pub fn from_values(
        upload_dir: Option<String>,
        db_path: Option<String>,
        base_url: Option<String>,
        bind_addr: Option<String>,
    ) -> (s: Self)
        ensures
            s.upload_dir@ == or_default(opt_string_view(upload_dir), "/data/uploads"@),
            s.db_path@ == or_default(opt_string_view(db_path), "/app/streamvault.db"@),
            s.base_url@ == or_default(opt_string_view(base_url), "http://localhost"@),
            s.bind_addr@ == or_default(opt_string_view(bind_addr), "0.0.0.0:3000"@),
    {
        Settings {
            upload_dir: value_or(upload_dir, "/data/uploads"),
            db_path: value_or(db_path, "/app/streamvault.db"),
            base_url: value_or(base_url, "http://localhost"),
            bind_addr: value_or(bind_addr, "0.0.0.0:3000"),
        }
    }
}

/// The SQLite connection URL for a database file, creating the file when it
/// does not exist yet.
pub fn database_url(db_path: &str) -> (url: String)
    ensures
        url@ == "sqlite://"@ + db_path@ + "?mode=rwc"@,
{
    concat3("sqlite://", db_path, "?mode=rwc")
}

} // verus!

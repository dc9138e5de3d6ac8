//! The pipeline's entry points: where the description comes from, and the
//! expansion from a live description or from the offline snapshot.

use vstd::prelude::*;
use crate::backend::{
    backend_from_tag, select_backend_for_url, selects, tag_backend, url_scheme, Backend,
    BackendError, EnabledBackends,
};
use crate::cache::{load_spec, CacheError, OfflineData};
use crate::describe::Description;
use crate::input::QueryMacroInput;
use crate::mapping::{ColumnOverride, TypeTables};
use crate::output::{expand_with_data, expands_to, Binding, ExpandError};

verus! {

#[derive(Debug, PartialEq, Eq)]
pub enum QueryError {
    Backend(BackendError),
    Cache(CacheError),
    Expand(ExpandError),
    /// No database URL is configured and no offline snapshot exists.
    NoDatabase,
}

/// Where the description of a query comes from.
#[derive(Clone, Copy, Debug, PartialEq, Eq, Structural)]
pub enum DataSource {
    /// Describe the query on a live database of this backend.
    Live(Backend),
    /// Read the description from the offline snapshot.
    Offline,
}

/// Decides where the description comes from: a configured database URL
/// selects a live backend by its scheme; without one the offline snapshot is
/// used when it exists.
pub fn expand_input(
    database_url: Option<&str>,
    snapshot_exists: bool,
    enabled: &EnabledBackends,
) -> (r: Result<DataSource, QueryError>)
    ensures
        match database_url {
            Some(url) => match url_scheme(url@) {
                None => r is Err && r->Err_0 is Backend && r->Err_0->Backend_0 is InvalidUrl,
                Some(s) => match select_result(r) {
                    Some(sel) => selects(s, *enabled, sel),
                    None => false,
                },
            },
            None => if snapshot_exists {
                r == Ok::<DataSource, QueryError>(DataSource::Offline)
            } else {
                r == Err::<DataSource, QueryError>(QueryError::NoDatabase)
            },
        },
{
    match database_url {
        Some(url) => match select_backend_for_url(url, enabled) {
            Ok(b) => Ok(DataSource::Live(b)),
            Err(e) => Err(QueryError::Backend(e)),
        },
        None => if snapshot_exists {
            Ok(DataSource::Offline)
        } else {
            Err(QueryError::NoDatabase)
        },
    }
}

/// A live-or-error result read back as a backend selection.
pub open spec fn select_result(r: Result<DataSource, QueryError>) -> Option<Result<Backend, BackendError>> {
    match r {
        Ok(DataSource::Live(b)) => Some(Ok(b)),
        Err(QueryError::Backend(e)) => Some(Err(e)),
        _ => None,
    }
}

/// An expansion result read back as `expand_with_data`'s.
pub open spec fn expand_result(r: Result<Binding, QueryError>) -> Option<Result<Binding, ExpandError>> {
    match r {
        Ok(b) => Some(Ok(b)),
        Err(QueryError::Expand(e)) => Some(Err(e)),
        _ => None,
    }
}

/// Expands with a description that backend `backend` just gave.
pub fn expand_from_db(
    input: &QueryMacroInput,
    desc: &Description,
    backend: Backend,
    tables: &TypeTables,
    overrides: &Vec<Option<ColumnOverride>>,
) -> (r: Result<Binding, QueryError>)
    ensures
        match expand_result(r) {
            Some(x) => expands_to(x, *input, *desc, tables.table_of(backend).entries@, overrides@),
            None => false,
        },
{
    match expand_with_data(input, desc, tables.get(backend), overrides) {
        Ok(b) => Ok(b),
        Err(e) => Err(QueryError::Expand(e)),
    }
}

/// Expands with the description that the offline snapshot holds for the
/// exact query text. A missing entry, or an entry for a backend this build
/// does not include, is an error.
pub fn expand_from_file(
    input: &QueryMacroInput,
    data: &OfflineData,
    enabled: &EnabledBackends,
    tables: &TypeTables,
    overrides: &Vec<Option<ColumnOverride>>,
) -> (r: Result<Binding, QueryError>)
    ensures
        match load_spec(data.entries@, input.src@) {
            None => r == Err::<Binding, QueryError>(QueryError::Cache(CacheError::NotFound)),
            Some(e) => match tag_backend(e.backend_tag@) {
                Some(b) => if enabled.includes(b) {
                    match expand_result(r) {
                        Some(x) => expands_to(
                            x,
                            *input,
                            e.description,
                            tables.table_of(b).entries@,
                            overrides@,
                        ),
                        None => false,
                    }
                } else {
                    r == Err::<Binding, QueryError>(
                        QueryError::Cache(CacheError::BackendNotEnabled(e.backend_tag)),
                    )
                },
                None => r == Err::<Binding, QueryError>(
                    QueryError::Cache(CacheError::BackendNotEnabled(e.backend_tag)),
                ),
            },
        },
{
    let entry = match data.load(input.src.as_str()) {
        Ok(e) => e,
        Err(e) => return Err(QueryError::Cache(e)),
    };
    match backend_from_tag(entry.backend_tag.as_str()) {
        Some(b) => if enabled.is_enabled(b) {
            expand_from_db(input, &entry.description, b, tables, overrides)
        } else {
            Err(QueryError::Cache(CacheError::BackendNotEnabled(entry.backend_tag.clone())))
        },
        None => Err(QueryError::Cache(CacheError::BackendNotEnabled(entry.backend_tag.clone()))),
    }
}

} // verus!

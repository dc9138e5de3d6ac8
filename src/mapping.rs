//! Mapping native column and parameter types to host type names, with the
//! nullability policy and user overrides.

use vstd::prelude::*;
use crate::backend::Backend;
use crate::describe::Column;
use crate::input::RecordType;
use crate::text::same_text;

verus! {

/// A table from native type names to host type names; the first match counts.
pub struct TypeTable {
    pub entries: Vec<(String, String)>,
}

/// The text of a table's entries.
pub open spec fn table_view(entries: Seq<(String, String)>) -> Seq<(Seq<char>, Seq<char>)> {
    entries.map_values(|p: (String, String)| (p.0@, p.1@))
}

/// The built-in native-to-host type table of each backend.
pub open spec fn builtin_table(b: Backend) -> Seq<(Seq<char>, Seq<char>)> {
    match b {
        Backend::Postgres => seq![
            ("BOOL"@, "bool"@),
            ("INT2"@, "i16"@),
            ("INT4"@, "i32"@),
            ("INT8"@, "i64"@),
            ("TEXT"@, "String"@),
            ("VARCHAR"@, "String"@),
            ("BYTEA"@, "Vec<u8>"@),
        ],
        Backend::MySql => seq![
            ("BOOLEAN"@, "bool"@),
            ("TINYINT"@, "i8"@),
            ("SMALLINT"@, "i16"@),
            ("INT"@, "i32"@),
            ("BIGINT"@, "i64"@),
            ("VARCHAR"@, "String"@),
            ("TEXT"@, "String"@),
            ("BLOB"@, "Vec<u8>"@),
        ],
        Backend::Sqlite => seq![
            ("BOOLEAN"@, "bool"@),
            ("INTEGER"@, "i32"@),
            ("BIGINT"@, "i64"@),
            ("TEXT"@, "String"@),
            ("BLOB"@, "Vec<u8>"@),
        ],
        Backend::Mssql => seq![
            ("BIT"@, "bool"@),
            ("TINYINT"@, "u8"@),
            ("SMALLINT"@, "i16"@),
            ("INT"@, "i32"@),
            ("BIGINT"@, "i64"@),
            ("NVARCHAR"@, "String"@),
        ],
    }
}

fn push_pair(v: &mut Vec<(String, String)>, native: &str, host: &str)
    ensures
        table_view(final(v)@) == table_view(old(v)@).push((native@, host@)),
{
    let ghost before = v@;
    v.push((String::from_str(native), String::from_str(host)));
    proof {
        assert(table_view(v@) =~= table_view(before).push((native@, host@)));
    }
}

impl TypeTable {
    /// The built-in table of backend `b`.
    pub fn for_backend(b: Backend) -> (r: TypeTable)
        ensures
            table_view(r.entries@) == builtin_table(b),
    {
        let mut v: Vec<(String, String)> = Vec::new();
        proof {
            assert(table_view(v@) =~= Seq::<(Seq<char>, Seq<char>)>::empty());
        }
        match b {
            Backend::Postgres => {
                push_pair(&mut v, "BOOL", "bool");
                push_pair(&mut v, "INT2", "i16");
                push_pair(&mut v, "INT4", "i32");
                push_pair(&mut v, "INT8", "i64");
                push_pair(&mut v, "TEXT", "String");
                push_pair(&mut v, "VARCHAR", "String");
                push_pair(&mut v, "BYTEA", "Vec<u8>");
            },
            Backend::MySql => {
                push_pair(&mut v, "BOOLEAN", "bool");
                push_pair(&mut v, "TINYINT", "i8");
                push_pair(&mut v, "SMALLINT", "i16");
                push_pair(&mut v, "INT", "i32");
                push_pair(&mut v, "BIGINT", "i64");
                push_pair(&mut v, "VARCHAR", "String");
                push_pair(&mut v, "TEXT", "String");
                push_pair(&mut v, "BLOB", "Vec<u8>");
            },
            Backend::Sqlite => {
                push_pair(&mut v, "BOOLEAN", "bool");
                push_pair(&mut v, "INTEGER", "i32");
                push_pair(&mut v, "BIGINT", "i64");
                push_pair(&mut v, "TEXT", "String");
                push_pair(&mut v, "BLOB", "Vec<u8>");
            },
            Backend::Mssql => {
                push_pair(&mut v, "BIT", "bool");
                push_pair(&mut v, "TINYINT", "u8");
                push_pair(&mut v, "SMALLINT", "i16");
                push_pair(&mut v, "INT", "i32");
                push_pair(&mut v, "BIGINT", "i64");
                push_pair(&mut v, "NVARCHAR", "String");
            },
        }
        proof {
            assert(table_view(v@) =~= builtin_table(b));
        }
        TypeTable { entries: v }
    }
}

/// The tables used for each backend.
pub struct TypeTables {
    pub postgres: TypeTable,
    pub mysql: TypeTable,
    pub sqlite: TypeTable,
    pub mssql: TypeTable,
}

impl TypeTables {
    pub open spec fn table_of(self, b: Backend) -> TypeTable {
        match b {
            Backend::Postgres => self.postgres,
            Backend::MySql => self.mysql,
            Backend::Sqlite => self.sqlite,
            Backend::Mssql => self.mssql,
        }
    }

    /// The built-in tables of every backend.
    pub fn builtin() -> (r: TypeTables)
        ensures
            forall|b: Backend| table_view(#[trigger] r.table_of(b).entries@) == builtin_table(b),
    {
        TypeTables {
            postgres: TypeTable::for_backend(Backend::Postgres),
            mysql: TypeTable::for_backend(Backend::MySql),
            sqlite: TypeTable::for_backend(Backend::Sqlite),
            mssql: TypeTable::for_backend(Backend::Mssql),
        }
    }

    /// The table for backend `b`.
    pub fn get(&self, b: Backend) -> (r: &TypeTable)
        ensures
            *r == self.table_of(b),
    {
        match b {
            Backend::Postgres => &self.postgres,
            Backend::MySql => &self.mysql,
            Backend::Sqlite => &self.sqlite,
            Backend::Mssql => &self.mssql,
        }
    }
}

/// A column's user-supplied type annotation.
pub enum ColumnOverride {
    /// Use this host type as written.
    Explicit(String),
    /// Leave the type to the caller's own type (`_`).
    Wildcard,
}

/// The host type chosen for a column.
#[derive(Debug, PartialEq, Eq)]
pub struct HostType {
    /// The host type name; `None` for a wildcard override.
    pub host_name: Option<String>,
    /// Whether the type is wrapped as nullable.
    pub nullable: bool,
    /// Whether the user forced this column's type.
    pub overridden: bool,
}

#[derive(Debug, PartialEq, Eq)]
pub enum MapError {
    /// No host type is known for this native type.
    UnmappedType(String),
    /// A wildcard override on the named column where the record is generated.
    WildcardOverride(String),
    /// The named column's nullability is unknown and the requested scalar
    /// type cannot be null.
    UnknownNullability(String),
}

/// The host type of the first entry for native type `t`.
pub open spec fn table_lookup(entries: Seq<(String, String)>, t: Seq<char>) -> Option<String>
    decreases entries.len(),
{
    if entries.len() == 0 {
        None
    } else if entries[0].0@ == t {
        Some(entries[0].1)
    } else {
        table_lookup(entries.drop_first(), t)
    }
}

impl TypeTable {
    /// Looks up the host type for native type `t`.
    pub fn lookup(&self, t: &str) -> (r: Option<&String>)
        ensures
            match table_lookup(self.entries@, t@) {
                Some(h) => r is Some && *r->Some_0 == h,
                None => r is None,
            },
    {
        let mut i: usize = 0;
        proof {
            assert(self.entries@.subrange(0, self.entries@.len() as int) =~= self.entries@);
        }
        while i < self.entries.len()
            invariant
                i <= self.entries@.len(),
                table_lookup(self.entries@, t@) == table_lookup(
                    self.entries@.subrange(i as int, self.entries@.len() as int),
                    t@,
                ),
            decreases self.entries@.len() - i,
        {
            let ghost rest = self.entries@.subrange(i as int, self.entries@.len() as int);
            if same_text(self.entries[i].0.as_str(), t) {
                return Some(&self.entries[i].1);
            }
            proof {
                assert(rest.drop_first() =~= self.entries@.subrange(
                    i + 1,
                    self.entries@.len() as int,
                ));
            }
            i = i + 1;
        }
        None
    }
}

/// The host type of a column under the nullability policy and overrides:
/// an explicit override replaces the mapped type and is never wrapped; a
/// wildcard is refused for a generated record; otherwise the native type is
/// looked up, and an unknown nullability counts as nullable unless a
/// non-nullable scalar was requested.
pub open spec fn column_type(
    col: Column,
    ov: Option<ColumnOverride>,
    shape: RecordType,
    table: Seq<(String, String)>,
) -> Result<HostType, MapError> {
    match ov {
        Some(ColumnOverride::Wildcard) => if shape is Generated {
            Err(MapError::WildcardOverride(col.name))
        } else {
            Ok(HostType { host_name: None, nullable: false, overridden: true })
        },
        Some(ColumnOverride::Explicit(t)) => Ok(
            HostType { host_name: Some(t), nullable: false, overridden: true },
        ),
        None => match table_lookup(table, col.native_type@) {
            None => Err(MapError::UnmappedType(col.native_type)),
            Some(h) => match col.nullable {
                Some(b) => Ok(HostType { host_name: Some(h), nullable: b, overridden: false }),
                None => if shape == (RecordType::Scalar { nullable: false }) {
                    Err(MapError::UnknownNullability(col.name))
                } else {
                    Ok(HostType { host_name: Some(h), nullable: true, overridden: false })
                },
            },
        },
    }
}

/// A column whose nullability the backend could not tell maps to a nullable
/// host type, unless a non-nullable scalar was requested, where mapping fails.
pub proof fn lemma_unknown_nullability(col: Column, shape: RecordType, table: Seq<(String, String)>)
    requires
        col.nullable is None,
        table_lookup(table, col.native_type@) is Some,
    ensures
        shape == (RecordType::Scalar { nullable: false }) ==> column_type(col, None, shape, table)
            == Err::<HostType, MapError>(MapError::UnknownNullability(col.name)),
        shape != (RecordType::Scalar { nullable: false }) ==> column_type(col, None, shape, table)
            is Ok && column_type(col, None, shape, table)->Ok_0.nullable,
{
}

/// A wildcard override is refused for a generated record; for the caller's
/// own type it is accepted and its column is not wrapped as nullable.
pub proof fn lemma_wildcard_override(col: Column, t: String, table: Seq<(String, String)>)
    ensures
        column_type(col, Some(ColumnOverride::Wildcard), RecordType::Generated, table)
            == Err::<HostType, MapError>(MapError::WildcardOverride(col.name)),
        column_type(col, Some(ColumnOverride::Wildcard), RecordType::Given(t), table) == Ok::<
            HostType,
            MapError,
        >(HostType { host_name: None, nullable: false, overridden: true }),
{
}

/// Maps one column to its host type.
pub fn map_column(
    col: &Column,
    ov: &Option<ColumnOverride>,
    shape: &RecordType,
    table: &TypeTable,
) -> (r: Result<HostType, MapError>)
    ensures
        r == column_type(*col, *ov, *shape, table.entries@),
{
    match ov {
        Some(ColumnOverride::Wildcard) => {
            if let RecordType::Generated = shape {
                Err(MapError::WildcardOverride(col.name.clone()))
            } else {
                Ok(HostType { host_name: None, nullable: false, overridden: true })
            }
        },
        Some(ColumnOverride::Explicit(t)) => Ok(
            HostType { host_name: Some(t.clone()), nullable: false, overridden: true },
        ),
        None => match table.lookup(col.native_type.as_str()) {
            None => Err(MapError::UnmappedType(col.native_type.clone())),
            Some(h) => match col.nullable {
                Some(b) => Ok(HostType { host_name: Some(h.clone()), nullable: b, overridden: false }),
                None => {
                    let scalar_non_null = match shape {
                        RecordType::Scalar { nullable } => !*nullable,
                        _ => false,
                    };
                    if scalar_non_null {
                        Err(MapError::UnknownNullability(col.name.clone()))
                    } else {
                        Ok(HostType { host_name: Some(h.clone()), nullable: true, overridden: false })
                    }
                },
            },
        },
    }
}

} // verus!

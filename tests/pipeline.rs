use query_describe::backend::{
    backend_from_tag, backend_tag, select_backend, select_backend_for_url, Backend, BackendError,
    EnabledBackends,
};
use query_describe::cache::{CacheError, OfflineData};
use query_describe::describe::{Column, Description};
use query_describe::expand::{expand_from_db, DataSource, QueryError};
use query_describe::input::{key_of, resolve_file_path, InputEntry, InputError, InputKey, InputValue};
use query_describe::mapping::{map_column, ColumnOverride, HostType, MapError, TypeTable, TypeTables};
use query_describe::output::{expand_with_data, Binding, ExpandError};
use query_describe::text::{concat_literals, join_relative, path_has_parent, same_text};
use query_describe::{expand_from_file, expand_input, QueryMacroInput, RecordType};

fn all_enabled() -> EnabledBackends {
    EnabledBackends { postgres: true, mysql: true, sqlite: true, mssql: true }
}

fn col(name: &str, nullable: Option<bool>, native: &str) -> Column {
    Column { name: name.to_string(), nullable, native_type: native.to_string() }
}

fn desc(params: usize, columns: Vec<Column>) -> Description {
    Description { params: (0..params).map(|_| Some("INT4".to_string())).collect(), columns }
}

fn input(src: &str, record_type: RecordType, arg_count: usize) -> QueryMacroInput {
    QueryMacroInput { src: src.to_string(), record_type, arg_count, checked: true }
}

fn pg() -> TypeTable {
    TypeTable::for_backend(Backend::Postgres)
}

#[test]
fn inline_source_is_concatenated_in_order() {
    let entries = vec![
        InputEntry {
            key: InputKey::Source,
            value: InputValue::Literals(vec!["SELECT 1 ".to_string(), "FROM t ".to_string(), "WHERE x".to_string()]),
        },
        InputEntry { key: InputKey::Args, value: InputValue::Args(2) },
    ];
    let (parsed, file) = QueryMacroInput::parse(&entries, None).unwrap();
    assert_eq!(parsed.src, "SELECT 1 FROM t WHERE x");
    assert_eq!(file, None);
    assert_eq!(parsed.arg_count, 2);
    assert_eq!(parsed.record_type, RecordType::Generated);
    assert!(parsed.checked);
}

#[test]
fn parse_settings_and_later_keys_win() {
    let entries = vec![
        InputEntry { key: InputKey::Source, value: InputValue::Literals(vec!["a".to_string()]) },
        InputEntry { key: InputKey::Record, value: InputValue::TypeName("User".to_string()) },
        InputEntry { key: InputKey::Checked, value: InputValue::Bool(false) },
        InputEntry { key: InputKey::Source, value: InputValue::Literals(vec!["b".to_string()]) },
    ];
    let (parsed, _) = QueryMacroInput::parse(&entries, None).unwrap();
    assert_eq!(parsed.src, "b");
    assert_eq!(parsed.record_type, RecordType::Given("User".to_string()));
    assert!(!parsed.checked);
    assert_eq!(parsed.arg_count, 0);
}

#[test]
fn parse_file_source_yields_path() {
    let entries = vec![InputEntry {
        key: InputKey::SourceFile,
        value: InputValue::Literal("queries/q.sql".to_string()),
    }];
    let (parsed, file) = QueryMacroInput::parse(&entries, Some("/build")).unwrap();
    assert_eq!(parsed.src, "");
    assert_eq!(file, Some("/build/queries/q.sql".to_string()));
}

#[test]
fn parse_errors() {
    assert_eq!(QueryMacroInput::parse(&vec![], None).err(), Some(InputError::MissingSource));
    let bad = vec![InputEntry { key: InputKey::Args, value: InputValue::Bool(true) }];
    assert_eq!(QueryMacroInput::parse(&bad, None).err(), Some(InputError::BadValue(InputKey::Args)));
    let empty = vec![InputEntry { key: InputKey::Source, value: InputValue::Literals(vec![]) }];
    assert_eq!(QueryMacroInput::parse(&empty, None).err(), Some(InputError::BadValue(InputKey::Source)));
    let scalar = vec![
        InputEntry { key: InputKey::Source, value: InputValue::Literals(vec!["q".to_string()]) },
        InputEntry { key: InputKey::Scalar, value: InputValue::Bool(true) },
    ];
    let (parsed, _) = QueryMacroInput::parse(&scalar, None).unwrap();
    assert_eq!(parsed.record_type, RecordType::Scalar { nullable: true });
}

#[test]
fn unknown_key_is_named() {
    assert_eq!(key_of("source_file"), Ok(InputKey::SourceFile));
    assert_eq!(key_of("checked"), Ok(InputKey::Checked));
    assert_eq!(key_of("sorce"), Err(InputError::UnknownKey("sorce".to_string())));
}

#[test]
fn file_path_policy() {
    assert_eq!(resolve_file_path("/abs/q.sql", Some("/b")), Err(InputError::AbsolutePath));
    assert_eq!(resolve_file_path("q.sql", Some("/b")), Err(InputError::NoParentDir));
    assert_eq!(resolve_file_path("dir/q.sql", None), Err(InputError::MissingBuildRoot));
    assert_eq!(resolve_file_path("dir/q.sql", Some("/b/")), Ok("/b/dir/q.sql".to_string()));
    assert_eq!(resolve_file_path("./q.sql", Some("/b")), Ok("/b/./q.sql".to_string()));
    assert_ne!(InputError::AbsolutePath, InputError::NoParentDir);
}

#[test]
fn text_helpers() {
    assert_eq!(concat_literals(&vec![]), "");
    assert!(same_text("abc", "abc"));
    assert!(!same_text("abc", "abd"));
    assert!(!path_has_parent("dir/"));
    assert!(path_has_parent("a//b"));
    assert_eq!(join_relative("", "a/b"), "a/b");
}

#[test]
fn scheme_selection() {
    let all = all_enabled();
    assert_eq!(select_backend("postgres", &all), Ok(Backend::Postgres));
    assert_eq!(select_backend("postgresql", &all), Ok(Backend::Postgres));
    assert_eq!(select_backend("mariadb", &all), Ok(Backend::MySql));
    assert_eq!(select_backend("sqlserver", &all), Ok(Backend::Mssql));
    assert_eq!(select_backend("sqlite", &all), Ok(Backend::Sqlite));
    assert_eq!(select_backend("oracle", &all), Err(BackendError::UnknownScheme("oracle".to_string())));
    let no_mysql = EnabledBackends { mysql: false, ..all };
    assert_eq!(select_backend("mysql", &no_mysql), Err(BackendError::NotEnabled(Backend::MySql)));
}

#[test]
fn url_scheme_selects_backend() {
    let all = all_enabled();
    assert_eq!(select_backend_for_url("postgres://u@localhost/db", &all), Ok(Backend::Postgres));
    assert_eq!(select_backend_for_url("MYSQL://localhost/db", &all), Ok(Backend::MySql));
    assert_eq!(select_backend_for_url("sqlite::memory:", &all), Ok(Backend::Sqlite));
    assert!(matches!(select_backend_for_url("not a url", &all), Err(BackendError::InvalidUrl(_))));
    assert_eq!(
        select_backend_for_url("redis://localhost", &all),
        Err(BackendError::UnknownScheme("redis".to_string()))
    );
}

#[test]
fn backend_tags_round_trip() {
    for b in [Backend::Postgres, Backend::MySql, Backend::Sqlite, Backend::Mssql] {
        assert_eq!(backend_from_tag(&backend_tag(b)), Some(b));
    }
    assert_eq!(backend_tag(Backend::Postgres), "PostgreSQL");
    assert_eq!(backend_from_tag("Oracle"), None);
}

#[test]
fn expand_input_decides_source() {
    let all = all_enabled();
    assert_eq!(expand_input(Some("mssql://h/db"), false, &all), Ok(DataSource::Live(Backend::Mssql)));
    assert_eq!(expand_input(None, true, &all), Ok(DataSource::Offline));
    assert_eq!(expand_input(None, false, &all), Err(QueryError::NoDatabase));
    assert_eq!(
        expand_input(Some("ftp://h"), true, &all),
        Err(QueryError::Backend(BackendError::UnknownScheme("ftp".to_string())))
    );
}

#[test]
fn unknown_nullability_defaults_to_nullable() {
    let c = col("id", None, "INT4");
    let r = map_column(&c, &None, &RecordType::Generated, &pg()).unwrap();
    assert_eq!(r, HostType { host_name: Some("i32".to_string()), nullable: true, overridden: false });
    let r = map_column(&c, &None, &RecordType::Scalar { nullable: false }, &pg());
    assert_eq!(r, Err(MapError::UnknownNullability("id".to_string())));
    let r = map_column(&c, &None, &RecordType::Scalar { nullable: true }, &pg()).unwrap();
    assert!(r.nullable);
    let known = col("id", Some(false), "INT4");
    let r = map_column(&known, &None, &RecordType::Scalar { nullable: false }, &pg()).unwrap();
    assert!(!r.nullable);
}

#[test]
fn unmapped_native_type_is_quoted() {
    let c = col("g", Some(true), "GEOMETRY");
    assert_eq!(
        map_column(&c, &None, &RecordType::Generated, &pg()),
        Err(MapError::UnmappedType("GEOMETRY".to_string()))
    );
}

#[test]
fn wildcard_override_rules() {
    let c = col("n", None, "INT8");
    let w = Some(ColumnOverride::Wildcard);
    assert_eq!(
        map_column(&c, &w, &RecordType::Generated, &pg()),
        Err(MapError::WildcardOverride("n".to_string()))
    );
    assert_eq!(
        map_column(&c, &w, &RecordType::Given("T".to_string()), &pg()),
        Ok(HostType { host_name: None, nullable: false, overridden: true })
    );
    let e = Some(ColumnOverride::Explicit("MyId".to_string()));
    assert_eq!(
        map_column(&c, &e, &RecordType::Generated, &pg()),
        Ok(HostType { host_name: Some("MyId".to_string()), nullable: false, overridden: true })
    );
}

#[test]
fn wildcard_only_affects_its_column() {
    let d = desc(0, vec![col("a", None, "INT4"), col("b", None, "TEXT")]);
    let inp = input("q", RecordType::Given("Row".to_string()), 0);
    let r = expand_with_data(&inp, &d, &pg(), &vec![Some(ColumnOverride::Wildcard)]).unwrap();
    match r {
        Binding::Existing { record, fields, params } => {
            assert_eq!(record, "Row");
            assert!(params.is_empty());
            assert_eq!(fields[0].host, HostType { host_name: None, nullable: false, overridden: true });
            assert_eq!(
                fields[1].host,
                HostType { host_name: Some("String".to_string()), nullable: true, overridden: false }
            );
        }
        other => panic!("unexpected {:?}", other),
    }
    let gen = input("q", RecordType::Generated, 0);
    assert_eq!(
        expand_with_data(&gen, &d, &pg(), &vec![None, Some(ColumnOverride::Wildcard)]),
        Err(ExpandError::Column(MapError::WildcardOverride("b".to_string())))
    );
}

#[test]
fn argument_count_must_match() {
    let d = desc(2, vec![]);
    for (got, ok) in [(1usize, false), (3, false), (2, true)] {
        let r = expand_with_data(&input("q", RecordType::Generated, got), &d, &pg(), &vec![]);
        if ok {
            assert_eq!(r, Ok(Binding::NoRows { params: vec![Some("i32".to_string()), Some("i32".to_string())] }));
        } else {
            assert_eq!(r, Err(ExpandError::ArgCount { expected: 2, got }));
        }
    }
}

#[test]
fn unmapped_parameters() {
    let d = Description { params: vec![Some("POINT".to_string()), None], columns: vec![] };
    let mut inp = input("q", RecordType::Generated, 2);
    assert_eq!(
        expand_with_data(&inp, &d, &pg(), &vec![]),
        Err(ExpandError::UnmappedParam("POINT".to_string()))
    );
    inp.checked = false;
    assert_eq!(expand_with_data(&inp, &d, &pg(), &vec![]), Ok(Binding::NoRows { params: vec![None, None] }));
}

#[test]
fn shape_and_column_count() {
    let none = desc(0, vec![]);
    assert!(matches!(
        expand_with_data(&input("q", RecordType::Generated, 0), &none, &pg(), &vec![]),
        Ok(Binding::NoRows { .. })
    ));
    assert_eq!(
        expand_with_data(&input("q", RecordType::Given("T".to_string()), 0), &none, &pg(), &vec![]),
        Err(ExpandError::NoColumns)
    );
    assert_eq!(
        expand_with_data(&input("q", RecordType::Scalar { nullable: true }, 0), &none, &pg(), &vec![]),
        Err(ExpandError::NoColumns)
    );
    let one = desc(0, vec![col("n", Some(false), "INT8")]);
    assert_eq!(
        expand_with_data(&input("q", RecordType::Scalar { nullable: false }, 0), &one, &pg(), &vec![]),
        Ok(Binding::Scalar {
            field: query_describe::output::Field {
                name: "n".to_string(),
                host: HostType { host_name: Some("i64".to_string()), nullable: false, overridden: false },
            },
            params: vec![],
        })
    );
    let two = desc(0, vec![col("a", Some(false), "INT8"), col("b", Some(false), "INT8")]);
    let r = expand_with_data(&input("q", RecordType::Scalar { nullable: false }, 0), &two, &pg(), &vec![]);
    assert_eq!(r, Err(ExpandError::ColumnCount(2)));
}

#[test]
fn generated_record_keeps_column_order() {
    let d = desc(1, vec![col("id", Some(false), "INT4"), col("name", Some(true), "TEXT")]);
    let r = expand_with_data(&input("q", RecordType::Generated, 1), &d, &pg(), &vec![]).unwrap();
    match r {
        Binding::Record { fields, params } => {
            assert_eq!(params, vec![Some("i32".to_string())]);
            assert_eq!(fields.len(), 2);
            assert_eq!(fields[0].name, "id");
            assert_eq!(fields[1].name, "name");
            assert!(fields[1].host.nullable);
        }
        other => panic!("unexpected {:?}", other),
    }
}

#[test]
fn cache_round_trip() {
    let mut data = OfflineData::new();
    data.save("SELECT 1".to_string(), "PostgreSQL".to_string(), desc(1, vec![col("x", None, "INT4")]));
    let e = data.load("SELECT 1").unwrap();
    assert_eq!(e.backend_tag, "PostgreSQL");
    assert_eq!(e.description.params, vec![Some("INT4".to_string())]);
    assert_eq!(e.description.columns[0].name, "x");
    assert_eq!(e.description.columns[0].nullable, None);
    assert!(matches!(data.load("SELECT 1 "), Err(CacheError::NotFound)));
    assert!(matches!(data.load("select 1"), Err(CacheError::NotFound)));
    data.save("SELECT 1".to_string(), "SQLite".to_string(), desc(0, vec![]));
    assert_eq!(data.load("SELECT 1").unwrap().backend_tag, "SQLite");
}

#[test]
fn expand_from_snapshot() {
    let all = all_enabled();
    let tables = TypeTables::builtin();
    let mut data = OfflineData::new();
    data.save("SELECT id".to_string(), "SQLite".to_string(), desc(0, vec![col("id", Some(false), "INTEGER")]));
    data.save("SELECT x".to_string(), "Oracle".to_string(), desc(0, vec![]));
    let r = expand_from_file(&input("SELECT id", RecordType::Generated, 0), &data, &all, &tables, &vec![]);
    match r {
        Ok(Binding::Record { fields, .. }) => assert_eq!(fields[0].host.host_name, Some("i32".to_string())),
        other => panic!("unexpected {:?}", other),
    }
    let r = expand_from_file(&input("SELECT y", RecordType::Generated, 0), &data, &all, &tables, &vec![]);
    assert_eq!(r, Err(QueryError::Cache(CacheError::NotFound)));
    let r = expand_from_file(&input("SELECT x", RecordType::Generated, 0), &data, &all, &tables, &vec![]);
    assert_eq!(r, Err(QueryError::Cache(CacheError::BackendNotEnabled("Oracle".to_string()))));
    let no_sqlite = EnabledBackends { sqlite: false, ..all };
    let r = expand_from_file(&input("SELECT id", RecordType::Generated, 0), &data, &no_sqlite, &tables, &vec![]);
    assert_eq!(r, Err(QueryError::Cache(CacheError::BackendNotEnabled("SQLite".to_string()))));
    let r = expand_from_file(&input("SELECT id", RecordType::Generated, 3), &data, &all, &tables, &vec![]);
    assert_eq!(r, Err(QueryError::Expand(ExpandError::ArgCount { expected: 0, got: 3 })));
}

#[test]
fn expand_from_db_uses_backend_table() {
    let tables = TypeTables::builtin();
    let d = desc(0, vec![col("b", Some(false), "BIT")]);
    let r = expand_from_db(&input("q", RecordType::Generated, 0), &d, Backend::Mssql, &tables, &vec![]);
    assert!(matches!(r, Ok(Binding::Record { .. })));
    let r = expand_from_db(&input("q", RecordType::Generated, 0), &d, Backend::Postgres, &tables, &vec![]);
    assert_eq!(r, Err(QueryError::Expand(ExpandError::Column(MapError::UnmappedType("BIT".to_string())))));
}

//! Resolving the macro input: keys and values into a `QueryMacroInput`.

use vstd::prelude::*;
use crate::text::{
    concat_literals, has_parent_dir, is_absolute_path, join_path, join_relative, joined,
    path_has_parent, path_is_absolute, same_text,
};

verus! {

/// The shape of the output that the caller asked for.
#[derive(Debug, PartialEq, Eq)]
pub enum RecordType {
    /// A type the caller supplies, by name.
    Given(String),
    /// A record type generated from the columns.
    Generated,
    /// A single scalar column; `nullable` says whether the requested type admits NULL.
    Scalar { nullable: bool },
}

/// The resolved macro input.
pub struct QueryMacroInput {
    pub src: String,
    pub record_type: RecordType,
    pub arg_count: usize,
    pub checked: bool,
}

/// The keys the macro input accepts.
#[derive(Clone, Copy, Debug, PartialEq, Eq)]
pub enum InputKey {
    Source,
    SourceFile,
    Args,
    Record,
    Scalar,
    Checked,
}

/// A value given for a key.
pub enum InputValue {
    /// One or more string literals joined by `+`.
    Literals(Vec<String>),
    /// A single string literal.
    Literal(String),
    /// An argument list, by its number of expressions.
    Args(usize),
    /// A type, by its text.
    TypeName(String),
    /// A boolean literal.
    Bool(bool),
}

pub struct InputEntry {
    pub key: InputKey,
    pub value: InputValue,
}

#[derive(Debug, PartialEq, Eq)]
pub enum InputError {
    /// A key that the input does not accept, by name.
    UnknownKey(String),
    /// A value of the wrong form for its key.
    BadValue(InputKey),
    /// Neither `source` nor `source_file` was given.
    MissingSource,
    /// The query file path is absolute.
    AbsolutePath,
    /// The query file path names no parent directory.
    NoParentDir,
    /// The build-root directory is not configured.
    MissingBuildRoot,
}

/// The state reached after some entries: where the source stands (by entry
/// index) and the other settings.
pub struct ParseState {
    pub source_at: Option<usize>,
    pub record_type: RecordType,
    pub arg_count: usize,
    pub checked: bool,
}

pub open spec fn key_spec(name: Seq<char>) -> Option<InputKey> {
    if name == "source"@ {
        Some(InputKey::Source)
    } else if name == "source_file"@ {
        Some(InputKey::SourceFile)
    } else if name == "args"@ {
        Some(InputKey::Args)
    } else if name == "record"@ {
        Some(InputKey::Record)
    } else if name == "scalar"@ {
        Some(InputKey::Scalar)
    } else if name == "checked"@ {
        Some(InputKey::Checked)
    } else {
        None
    }
}

/// Names the key that `name` spells; an unknown key is an error that names it.
pub fn key_of(name: &str) -> (r: Result<InputKey, InputError>)
    ensures
        match key_spec(name@) {
            Some(k) => r == Ok::<InputKey, InputError>(k),
            None => r is Err && r->Err_0 is UnknownKey && r->Err_0->UnknownKey_0@ == name@,
        },
{
    proof {
        reveal_strlit("source");
        reveal_strlit("source_file");
        reveal_strlit("args");
        reveal_strlit("record");
        reveal_strlit("scalar");
        reveal_strlit("checked");
    }
    if same_text(name, "source") {
        Ok(InputKey::Source)
    } else if same_text(name, "source_file") {
        Ok(InputKey::SourceFile)
    } else if same_text(name, "args") {
        Ok(InputKey::Args)
    } else if same_text(name, "record") {
        Ok(InputKey::Record)
    } else if same_text(name, "scalar") {
        Ok(InputKey::Scalar)
    } else if same_text(name, "checked") {
        Ok(InputKey::Checked)
    } else {
        Err(InputError::UnknownKey(String::from_str(name)))
    }
}

pub open spec fn initial_state() -> ParseState {
    ParseState { source_at: None, record_type: RecordType::Generated, arg_count: 0, checked: true }
}

/// The effect of the entry at index `i` on the state.
pub open spec fn step(st: ParseState, i: int, e: InputEntry) -> Result<ParseState, InputError> {
    match (e.key, e.value) {
        (InputKey::Source, InputValue::Literals(parts)) => if parts.len() > 0 {
            Ok(ParseState { source_at: Some(i as usize), ..st })
        } else {
            Err(InputError::BadValue(InputKey::Source))
        },
        (InputKey::SourceFile, InputValue::Literal(_)) => Ok(
            ParseState { source_at: Some(i as usize), ..st },
        ),
        (InputKey::Args, InputValue::Args(n)) => Ok(ParseState { arg_count: n, ..st }),
        (InputKey::Record, InputValue::TypeName(t)) => Ok(
            ParseState { record_type: RecordType::Given(t), ..st },
        ),
        (InputKey::Scalar, InputValue::Bool(b)) => Ok(
            ParseState { record_type: RecordType::Scalar { nullable: b }, ..st },
        ),
        (InputKey::Checked, InputValue::Bool(b)) => Ok(ParseState { checked: b, ..st }),
        (k, _) => Err(InputError::BadValue(k)),
    }
}

/// The state after all `entries`, or the first error.
pub open spec fn run(entries: Seq<InputEntry>) -> Result<ParseState, InputError>
    decreases entries.len(),
{
    if entries.len() == 0 {
        Ok(initial_state())
    } else {
        match run(entries.drop_last()) {
            Err(e) => Err(e),
            Ok(st) => step(st, entries.len() - 1, entries.last()),
        }
    }
}

proof fn lemma_error_stays(entries: Seq<InputEntry>, i: int)
    requires
        0 <= i <= entries.len(),
        run(entries.subrange(0, i)) is Err,
    ensures
        run(entries) == run(entries.subrange(0, i)),
    decreases entries.len() - i,
{
    if i < entries.len() {
        assert(entries.drop_last().subrange(0, i) =~= entries.subrange(0, i));
        lemma_error_stays(entries.drop_last(), i);
    } else {
        assert(entries.subrange(0, i) =~= entries);
    }
}

fn apply_entry(st: ParseState, i: usize, e: &InputEntry) -> (r: Result<ParseState, InputError>)
    ensures
        r == step(st, i as int, *e),
{
    match (&e.key, &e.value) {
        (InputKey::Source, InputValue::Literals(parts)) => if parts.len() > 0 {
            Ok(ParseState { source_at: Some(i), ..st })
        } else {
            Err(InputError::BadValue(InputKey::Source))
        },
        (InputKey::SourceFile, InputValue::Literal(_)) => Ok(
            ParseState { source_at: Some(i), ..st },
        ),
        (InputKey::Args, InputValue::Args(n)) => Ok(ParseState { arg_count: *n, ..st }),
        (InputKey::Record, InputValue::TypeName(t)) => Ok(
            ParseState { record_type: RecordType::Given(t.clone()), ..st },
        ),
        (InputKey::Scalar, InputValue::Bool(b)) => Ok(
            ParseState { record_type: RecordType::Scalar { nullable: *b }, ..st },
        ),
        (InputKey::Checked, InputValue::Bool(b)) => Ok(ParseState { checked: *b, ..st }),
        (k, _) => Err(InputError::BadValue(*k)),
    }
}

pub open spec fn str_opt_view(o: Option<&str>) -> Option<Seq<char>> {
    match o {
        Some(s) => Some(s@),
        None => None,
    }
}

/// What resolving a query file path gives: the full path to read, or the
/// error that the path policy names.
pub open spec fn file_path_spec(path: Seq<char>, build_root: Option<Seq<char>>) -> Result<
    Seq<char>,
    InputError,
> {
    if is_absolute_path(path) {
        Err(InputError::AbsolutePath)
    } else if !has_parent_dir(path) {
        Err(InputError::NoParentDir)
    } else {
        match build_root {
            None => Err(InputError::MissingBuildRoot),
            Some(b) => Ok(join_path(b, path)),
        }
    }
}

/// Checks a query file path against the policy and joins it onto the build
/// root: absolute paths and paths without a parent directory are refused,
/// and a missing build root is a configuration error.
pub fn resolve_file_path(path: &str, build_root: Option<&str>) -> (r: Result<String, InputError>)
    ensures
        match file_path_spec(path@, str_opt_view(build_root)) {
            Ok(full) => r is Ok && r->Ok_0@ == full,
            Err(e) => r == Err::<String, InputError>(e),
        },
{
    if path_is_absolute(path) {
        return Err(InputError::AbsolutePath);
    }
    if !path_has_parent(path) {
        return Err(InputError::NoParentDir);
    }
    match build_root {
        None => Err(InputError::MissingBuildRoot),
        Some(b) => Ok(join_relative(b, path)),
    }
}

/// The settings of `input` are those of the state `st`.
pub open spec fn settings_from(input: QueryMacroInput, st: ParseState) -> bool {
    input.record_type == st.record_type && input.arg_count == st.arg_count && input.checked
        == st.checked
}

/// What parsing gives once all entries were accepted, for the source entry `src`:
/// inline text is the concatenation of its literals; a file yields an input with
/// empty text and the full path to read.
pub open spec fn resolved_as(
    r: Result<(QueryMacroInput, Option<String>), InputError>,
    st: ParseState,
    src: InputValue,
    build_root: Option<&str>,
) -> bool {
    match src {
        InputValue::Literals(parts) => r is Ok && r->Ok_0.0.src@ == joined(parts@) && r->Ok_0.1 is None
            && settings_from(r->Ok_0.0, st),
        InputValue::Literal(path) => match file_path_spec(path@, str_opt_view(build_root)) {
            Ok(full) => r is Ok && r->Ok_0.0.src@ == Seq::<char>::empty() && r->Ok_0.1 is Some
                && r->Ok_0.1->Some_0@ == full && settings_from(r->Ok_0.0, st),
            Err(e) => r == Err::<(QueryMacroInput, Option<String>), InputError>(e),
        },
        _ => false,
    }
}

impl QueryMacroInput {
    /// Resolves the macro input from its entries, in order. A later entry for a
    /// key replaces an earlier one. The output shape defaults to a generated
    /// record, the argument count to zero, and checking to on. When the source
    /// is a file, the returned input holds empty text and the second part holds
    /// the full path of the file to read.
    pub fn parse(entries: &Vec<InputEntry>, build_root: Option<&str>) -> (r: Result<
        (QueryMacroInput, Option<String>),
        InputError,
    >)
        ensures
            match run(entries@) {
                Err(e) => r == Err::<(QueryMacroInput, Option<String>), InputError>(e),
                Ok(st) => match st.source_at {
                    None => r == Err::<(QueryMacroInput, Option<String>), InputError>(
                        InputError::MissingSource,
                    ),
                    Some(k) => resolved_as(r, st, entries@[k as int].value, build_root),
                },
            },
    {
        let mut st = ParseState {
            source_at: None,
            record_type: RecordType::Generated,
            arg_count: 0,
            checked: true,
        };
        let mut i: usize = 0;
        while i < entries.len()
            invariant
                i <= entries@.len(),
                run(entries@.subrange(0, i as int)) == Ok::<ParseState, InputError>(st),
                match st.source_at {
                    Some(k) => k < i && (entries@[k as int].value is Literals
                        || entries@[k as int].value is Literal),
                    None => true,
                },
            decreases entries@.len() - i,
        {
            proof {
                assert(entries@.subrange(0, i + 1).drop_last() =~= entries@.subrange(0, i as int));
            }
            match apply_entry(st, i, &entries[i]) {
                Ok(next) => {
                    st = next;
                },
                Err(e) => {
                    proof {
                        lemma_error_stays(entries@, i + 1);
                    }
                    return Err(e);
                },
            }
            i = i + 1;
        }
        proof {
            assert(entries@.subrange(0, entries@.len() as int) =~= entries@);
        }
        let record_type = st.record_type;
        let arg_count = st.arg_count;
        let checked = st.checked;
        match st.source_at {
            None => Err(InputError::MissingSource),
            Some(k) => match &entries[k].value {
                InputValue::Literals(parts) => {
                    let src = concat_literals(parts);
                    Ok((QueryMacroInput { src, record_type, arg_count, checked }, None))
                },
                InputValue::Literal(path) => match resolve_file_path(path.as_str(), build_root) {
                    Ok(full) => Ok(
                        (
                            QueryMacroInput { src: String::new(), record_type, arg_count, checked },
                            Some(full),
                        ),
                    ),
                    Err(e) => Err(e),
                },
                _ => Err(InputError::MissingSource),
            },
        }
    }
}

} // verus!

//! Choosing the generation strategy from the requested shape and the
//! description, and assembling the binding handed to code generation.

use vstd::prelude::*;
use crate::describe::{Column, Description};
use crate::input::{QueryMacroInput, RecordType};
use crate::mapping::{column_type, map_column, table_lookup, ColumnOverride, HostType, MapError, TypeTable};

verus! {

/// One output field: the column's name and its host type.
#[derive(Debug, PartialEq, Eq)]
pub struct Field {
    pub name: String,
    pub host: HostType,
}

/// What code generation receives. `params` holds the host type of each
/// parameter, `None` where it is not checked.
#[derive(Debug, PartialEq, Eq)]
pub enum Binding {
    /// The query returns no rows; no record type is made.
    NoRows { params: Vec<Option<String>> },
    /// A new record type with one field per column, in column order.
    Record { fields: Vec<Field>, params: Vec<Option<String>> },
    /// The columns bound to the caller's type.
    Existing { record: String, fields: Vec<Field>, params: Vec<Option<String>> },
    /// A single scalar column.
    Scalar { field: Field, params: Vec<Option<String>> },
}

#[derive(Debug, PartialEq, Eq)]
pub enum ExpandError {
    /// The number of arguments differs from the number of parameters.
    ArgCount { expected: usize, got: usize },
    /// A checked parameter's native type has no host type.
    UnmappedParam(String),
    /// A typed result was asked of a query without columns.
    NoColumns,
    /// A scalar was asked of a query with this many columns.
    ColumnCount(usize),
    /// A column could not be mapped.
    Column(MapError),
}

/// The override given for column `i`, if any.
pub open spec fn override_at(ovs: Seq<Option<ColumnOverride>>, i: int) -> Option<ColumnOverride> {
    if 0 <= i < ovs.len() {
        ovs[i]
    } else {
        None
    }
}

/// The fields of `cols`, in order, or the first mapping error.
pub open spec fn columns_typed(
    cols: Seq<Column>,
    ovs: Seq<Option<ColumnOverride>>,
    shape: RecordType,
    table: Seq<(String, String)>,
) -> Result<Seq<Field>, MapError>
    decreases cols.len(),
{
    if cols.len() == 0 {
        Ok(Seq::empty())
    } else {
        match columns_typed(cols.drop_last(), ovs, shape, table) {
            Err(e) => Err(e),
            Ok(fs) => match column_type(cols.last(), override_at(ovs, cols.len() - 1), shape, table) {
                Err(e) => Err(e),
                Ok(h) => Ok(fs.push(Field { name: cols.last().name, host: h })),
            },
        }
    }
}

proof fn lemma_columns_error_stays(
    cols: Seq<Column>,
    ovs: Seq<Option<ColumnOverride>>,
    shape: RecordType,
    table: Seq<(String, String)>,
    i: int,
)
    requires
        0 <= i <= cols.len(),
        columns_typed(cols.subrange(0, i), ovs, shape, table) is Err,
    ensures
        columns_typed(cols, ovs, shape, table) == columns_typed(cols.subrange(0, i), ovs, shape, table),
    decreases cols.len() - i,
{
    if i < cols.len() {
        assert(cols.drop_last().subrange(0, i) =~= cols.subrange(0, i));
        lemma_columns_error_stays(cols.drop_last(), ovs, shape, table, i);
    } else {
        assert(cols.subrange(0, i) =~= cols);
    }
}

/// Maps every column, in order, to a field.
pub fn map_columns(
    cols: &Vec<Column>,
    ovs: &Vec<Option<ColumnOverride>>,
    shape: &RecordType,
    table: &TypeTable,
) -> (r: Result<Vec<Field>, MapError>)
    ensures
        match columns_typed(cols@, ovs@, *shape, table.entries@) {
            Ok(fs) => r is Ok && r->Ok_0@ == fs,
            Err(e) => r == Err::<Vec<Field>, MapError>(e),
        },
{
    let none: Option<ColumnOverride> = None;
    let mut out: Vec<Field> = Vec::new();
    let mut i: usize = 0;
    while i < cols.len()
        invariant
            i <= cols@.len(),
            none is None,
            columns_typed(cols@.subrange(0, i as int), ovs@, *shape, table.entries@) == Ok::<
                Seq<Field>,
                MapError,
            >(out@),
        decreases cols@.len() - i,
    {
        proof {
            assert(cols@.subrange(0, i + 1).drop_last() =~= cols@.subrange(0, i as int));
            assert(cols@.subrange(0, i + 1).last() == cols@[i as int]);
            assert(cols@.subrange(0, i + 1).len() - 1 == i);
        }
        let res = if i < ovs.len() {
            map_column(&cols[i], &ovs[i], shape, table)
        } else {
            map_column(&cols[i], &none, shape, table)
        };
        match res {
            Ok(h) => {
                out.push(Field { name: cols[i].name.clone(), host: h });
            },
            Err(e) => {
                proof {
                    lemma_columns_error_stays(cols@, ovs@, *shape, table.entries@, i + 1);
                }
                return Err(e);
            },
        }
        i = i + 1;
    }
    proof {
        assert(cols@.subrange(0, cols@.len() as int) =~= cols@);
    }
    Ok(out)
}

/// The host type of one parameter: unknown parameters are not checked, and
/// an unmapped native type is an error only in checked mode.
pub open spec fn param_type(p: Option<String>, checked: bool, table: Seq<(String, String)>) -> Result<
    Option<String>,
    ExpandError,
> {
    match p {
        None => Ok(None),
        Some(t) => match table_lookup(table, t@) {
            Some(h) => Ok(Some(h)),
            None => if checked {
                Err(ExpandError::UnmappedParam(t))
            } else {
                Ok(None)
            },
        },
    }
}

/// The host types of all parameters, in order, or the first error.
pub open spec fn params_typed(
    ps: Seq<Option<String>>,
    checked: bool,
    table: Seq<(String, String)>,
) -> Result<Seq<Option<String>>, ExpandError>
    decreases ps.len(),
{
    if ps.len() == 0 {
        Ok(Seq::empty())
    } else {
        match params_typed(ps.drop_last(), checked, table) {
            Err(e) => Err(e),
            Ok(hs) => match param_type(ps.last(), checked, table) {
                Err(e) => Err(e),
                Ok(h) => Ok(hs.push(h)),
            },
        }
    }
}

proof fn lemma_params_error_stays(
    ps: Seq<Option<String>>,
    checked: bool,
    table: Seq<(String, String)>,
    i: int,
)
    requires
        0 <= i <= ps.len(),
        params_typed(ps.subrange(0, i), checked, table) is Err,
    ensures
        params_typed(ps, checked, table) == params_typed(ps.subrange(0, i), checked, table),
    decreases ps.len() - i,
{
    if i < ps.len() {
        assert(ps.drop_last().subrange(0, i) =~= ps.subrange(0, i));
        lemma_params_error_stays(ps.drop_last(), checked, table, i);
    } else {
        assert(ps.subrange(0, i) =~= ps);
    }
}

/// Maps every parameter, in order, to its host type.
pub fn map_params(ps: &Vec<Option<String>>, checked: bool, table: &TypeTable) -> (r: Result<
    Vec<Option<String>>,
    ExpandError,
>)
    ensures
        match params_typed(ps@, checked, table.entries@) {
            Ok(hs) => r is Ok && r->Ok_0@ == hs,
            Err(e) => r == Err::<Vec<Option<String>>, ExpandError>(e),
        },
{
    let mut out: Vec<Option<String>> = Vec::new();
    let mut i: usize = 0;
    while i < ps.len()
        invariant
            i <= ps@.len(),
            params_typed(ps@.subrange(0, i as int), checked, table.entries@) == Ok::<
                Seq<Option<String>>,
                ExpandError,
            >(out@),
        decreases ps@.len() - i,
    {
        proof {
            assert(ps@.subrange(0, i + 1).drop_last() =~= ps@.subrange(0, i as int));
            assert(ps@.subrange(0, i + 1).last() == ps@[i as int]);
        }
        let h: Option<String> = match &ps[i] {
            None => None,
            Some(t) => match table.lookup(t.as_str()) {
                Some(h) => Some(h.clone()),
                None => {
                    if checked {
                        proof {
                            lemma_params_error_stays(ps@, checked, table.entries@, i + 1);
                        }
                        return Err(ExpandError::UnmappedParam(t.clone()));
                    }
                    None
                },
            },
        };
        out.push(h);
        i = i + 1;
    }
    proof {
        assert(ps@.subrange(0, ps@.len() as int) =~= ps@);
    }
    Ok(out)
}

/// What assembling gives once the argument count matches and the parameters
/// are mapped to `ps`: the strategy follows from the requested shape and the
/// number of columns.
pub open spec fn assembled(
    r: Result<Binding, ExpandError>,
    input: QueryMacroInput,
    desc: Description,
    table: Seq<(String, String)>,
    ovs: Seq<Option<ColumnOverride>>,
    ps: Seq<Option<String>>,
) -> bool {
    let cols = desc.columns@;
    let shape = input.record_type;
    if cols.len() == 0 {
        if shape is Generated {
            r is Ok && r->Ok_0 is NoRows && r->Ok_0->NoRows_params@ == ps
        } else {
            r == Err::<Binding, ExpandError>(ExpandError::NoColumns)
        }
    } else if shape is Scalar && cols.len() != 1 {
        r == Err::<Binding, ExpandError>(ExpandError::ColumnCount(cols.len() as usize))
    } else {
        match columns_typed(cols, ovs, shape, table) {
            Err(e) => r == Err::<Binding, ExpandError>(ExpandError::Column(e)),
            Ok(fs) => match shape {
                RecordType::Generated => r is Ok && r->Ok_0 is Record && r->Ok_0->Record_fields@
                    == fs && r->Ok_0->Record_params@ == ps,
                RecordType::Given(t) => r is Ok && r->Ok_0 is Existing && r->Ok_0->Existing_record
                    == t && r->Ok_0->Existing_fields@ == fs && r->Ok_0->Existing_params@ == ps,
                RecordType::Scalar { .. } => r is Ok && r->Ok_0 is Scalar && r->Ok_0->Scalar_field
                    == fs[0] && r->Ok_0->Scalar_params@ == ps,
            },
        }
    }
}

/// What `expand_with_data` gives: an argument count that differs from the
/// number of parameters is an error naming both; otherwise the parameters are
/// mapped and the strategy assembled.
pub open spec fn expands_to(
    r: Result<Binding, ExpandError>,
    input: QueryMacroInput,
    desc: Description,
    table: Seq<(String, String)>,
    ovs: Seq<Option<ColumnOverride>>,
) -> bool {
    if input.arg_count != desc.params@.len() {
        r == Err::<Binding, ExpandError>(
            ExpandError::ArgCount { expected: desc.params@.len() as usize, got: input.arg_count },
        )
    } else {
        match params_typed(desc.params@, input.checked, table) {
            Err(e) => r == Err::<Binding, ExpandError>(e),
            Ok(ps) => assembled(r, input, desc, table, ovs, ps),
        }
    }
}

proof fn lemma_params_errors(ps: Seq<Option<String>>, checked: bool, table: Seq<(String, String)>)
    ensures
        params_typed(ps, checked, table) is Err ==> params_typed(ps, checked, table)->Err_0 is UnmappedParam,
    decreases ps.len(),
{
    if ps.len() > 0 {
        lemma_params_errors(ps.drop_last(), checked, table);
    }
}

/// With `k` described parameters, `k - 1` or `k + 1` arguments are an error
/// naming both counts, and exactly `k` arguments pass the count check.
pub proof fn lemma_arg_count(
    r: Result<Binding, ExpandError>,
    input: QueryMacroInput,
    desc: Description,
    table: Seq<(String, String)>,
    ovs: Seq<Option<ColumnOverride>>,
)
    requires
        expands_to(r, input, desc, table, ovs),
    ensures
        input.arg_count + 1 == desc.params@.len() || input.arg_count == desc.params@.len() + 1
            ==> r == Err::<Binding, ExpandError>(
            ExpandError::ArgCount { expected: desc.params@.len() as usize, got: input.arg_count },
        ),
        input.arg_count == desc.params@.len() ==> !(r is Err && r->Err_0 is ArgCount),
{
    lemma_params_errors(desc.params@, input.checked, table);
}

/// The strategy by shape and column count, once arguments and parameters are
/// in order: no columns with a generated record gives a no-row binding; no
/// columns with the caller's type is an error; one column as a scalar gives a
/// scalar binding when it maps; two columns as a scalar is an error naming 2.
pub proof fn lemma_shape_matrix(
    r: Result<Binding, ExpandError>,
    input: QueryMacroInput,
    desc: Description,
    table: Seq<(String, String)>,
    ovs: Seq<Option<ColumnOverride>>,
)
    requires
        expands_to(r, input, desc, table, ovs),
        input.arg_count == desc.params@.len(),
        params_typed(desc.params@, input.checked, table) is Ok,
    ensures
        desc.columns@.len() == 0 && input.record_type is Generated ==> r is Ok && r->Ok_0 is NoRows,
        desc.columns@.len() == 0 && input.record_type is Given ==> r == Err::<Binding, ExpandError>(
            ExpandError::NoColumns,
        ),
        desc.columns@.len() == 1 && input.record_type is Scalar && columns_typed(
            desc.columns@,
            ovs,
            input.record_type,
            table,
        ) is Ok ==> r is Ok && r->Ok_0 is Scalar,
        desc.columns@.len() == 2 && input.record_type is Scalar ==> r == Err::<Binding, ExpandError>(
            ExpandError::ColumnCount(2),
        ),
{
}

/// Checks the arguments against the described parameters and decides how the
/// binding is generated: no rows, a generated record, the caller's type, or
/// a single scalar.
pub fn expand_with_data(
    input: &QueryMacroInput,
    desc: &Description,
    table: &TypeTable,
    overrides: &Vec<Option<ColumnOverride>>,
) -> (r: Result<Binding, ExpandError>)
    ensures
        expands_to(r, *input, *desc, table.entries@, overrides@),
{
    if input.arg_count != desc.params.len() {
        return Err(ExpandError::ArgCount { expected: desc.params.len(), got: input.arg_count });
    }
    let params = match map_params(&desc.params, input.checked, table) {
        Ok(p) => p,
        Err(e) => return Err(e),
    };
    let n = desc.columns.len();
    if n == 0 {
        return match &input.record_type {
            RecordType::Generated => Ok(Binding::NoRows { params }),
            _ => Err(ExpandError::NoColumns),
        };
    }
    if let RecordType::Scalar { .. } = &input.record_type {
        if n != 1 {
            return Err(ExpandError::ColumnCount(n));
        }
    }
    let mut fields = match map_columns(&desc.columns, overrides, &input.record_type, table) {
        Ok(f) => f,
        Err(e) => return Err(ExpandError::Column(e)),
    };
    match &input.record_type {
        RecordType::Generated => Ok(Binding::Record { fields, params }),
        RecordType::Given(t) => Ok(Binding::Existing { record: t.clone(), fields, params }),
        RecordType::Scalar { .. } => {
            let field = fields.remove(0);
            Ok(Binding::Scalar { field, params })
        },
    }
}

} // verus!

//! What holds of schemas, views and rows in general, proved over the
//! mathematical model of a table.

use vstd::prelude::*;
use crate::catalog::StorageType;
use crate::error::ColbackError;
use crate::schema::{lemma_valid_field, schema_error, FieldSpec, NullPolicy};
use crate::table::Table;
use crate::value::{FieldScalar, Value};
use crate::view::{
    binding_error, build_error, cell_at, expected_storage, first_binding_error,
    lemma_binding_error_stays, lemma_row_error_stays, materialized, row_at, row_prefix,
    results_view, row_result, rows_of, RowRef,
};

verus! {

/// Whether every field finds its column in the table, of the storage type
/// it expects.
pub open spec fn fits(fields: Seq<FieldSpec<'_>>, t: Table) -> bool {
    forall|k: int| 0 <= k < fields.len() ==> binding_error(#[trigger] fields[k], t) is None
}

/// Whether no field with the policy `Error` reads a null cell in row `idx`.
pub open spec fn row_readable(fields: Seq<FieldSpec<'_>>, t: Table, idx: usize) -> bool {
    forall|k: int|
        0 <= k < fields.len() && (#[trigger] fields[k]).null_policy == NullPolicy::Error
            ==> cell_at(fields[k], t, idx) is Some
}

/// No binding error among the first `n` fields means that each of them can
/// be bound.
proof fn lemma_binding_prefix(fields: Seq<FieldSpec<'_>>, t: Table, n: nat)
    requires
        n <= fields.len(),
    ensures
        first_binding_error(fields, t, n) is None <==> forall|k: int|
            0 <= k < n ==> binding_error(#[trigger] fields[k], t) is None,
    decreases n,
{
    if n > 0 {
        lemma_binding_prefix(fields, t, (n - 1) as nat);
    }
}

/// A view can be built exactly when the table fits the schema.
pub proof fn lemma_build_succeeds_iff_fits(fields: Seq<FieldSpec<'_>>, t: Table)
    ensures
        build_error(fields, t) is None <==> fits(fields, t),
{
    lemma_binding_prefix(fields, t, fields.len());
}

/// A field that cannot be bound keeps the view from being built, wherever
/// it stands in the schema and whatever holds of the other fields.
pub proof fn lemma_unbound_field_fails_build(fields: Seq<FieldSpec<'_>>, t: Table, k: int)
    requires
        0 <= k < fields.len(),
        binding_error(fields[k], t) is Some,
    ensures
        build_error(fields, t) is Some,
        build_error(fields, t)->0 is MissingColumn || build_error(fields, t)->0 is WrongDtype,
{
    lemma_build_succeeds_iff_fits(fields, t);
    lemma_build_error_kind(fields, t, fields.len());
}

/// A binding error is a missing column or a wrong storage type.
proof fn lemma_build_error_kind(fields: Seq<FieldSpec<'_>>, t: Table, n: nat)
    ensures
        first_binding_error(fields, t, n) matches Some(e) ==> e is MissingColumn || e
            is WrongDtype,
    decreases n,
{
    if n > 0 {
        lemma_build_error_kind(fields, t, (n - 1) as nat);
    }
}

/// Building stops at the first field, in schema order, that cannot be bound,
/// and reports that field's error, whatever holds of the fields after it.
pub proof fn lemma_first_unbound_field_is_reported(fields: Seq<FieldSpec<'_>>, t: Table, k: int)
    requires
        0 <= k < fields.len(),
        binding_error(fields[k], t) is Some,
        forall|j: int| 0 <= j < k ==> binding_error(#[trigger] fields[j], t) is None,
    ensures
        build_error(fields, t) == binding_error(fields[k], t),
{
    lemma_binding_prefix(fields, t, k as nat);
    lemma_binding_error_stays(fields, t, (k + 1) as nat, fields.len());
}

/// When the column of a field is taken out of the table and every earlier
/// field can still be bound, building fails with `MissingColumn` and names
/// exactly that column, whatever holds of the other columns.
pub proof fn lemma_removed_column_is_reported(fields: Seq<FieldSpec<'_>>, t: Table, k: int)
    requires
        0 <= k < fields.len(),
        forall|j: int|
            0 <= j < k ==> binding_error(
                #[trigger] fields[j],
                t.without(fields[k].source_column@),
            ) is None,
    ensures
        build_error(fields, t.without(fields[k].source_column@)) == Some(
            ColbackError::MissingColumn(fields[k].source_column),
        ),
{
    lemma_first_unbound_field_is_reported(fields, t.without(fields[k].source_column@), k);
}

/// When the column of a field is given another storage type than the field
/// expects and every earlier field can still be bound, building fails with
/// `WrongDtype`, which names the column, the expected type, and as the
/// actual type the one that the column now has.
pub proof fn lemma_retyped_column_is_reported(
    fields: Seq<FieldSpec<'_>>,
    t: Table,
    k: int,
    dtype: StorageType,
)
    requires
        0 <= k < fields.len(),
        dtype != expected_storage(fields[k]),
        forall|j: int|
            0 <= j < k ==> binding_error(
                #[trigger] fields[j],
                t.retyped(fields[k].source_column@, dtype),
            ) is None,
    ensures
        build_error(fields, t.retyped(fields[k].source_column@, dtype)) == Some(
            ColbackError::WrongDtype {
                col: fields[k].source_column,
                expected: expected_storage(fields[k]),
                actual: dtype,
            },
        ),
{
    lemma_first_unbound_field_is_reported(fields, t.retyped(fields[k].source_column@, dtype), k);
}

/// The first `n` fields have values in a row exactly when each of them
/// makes a value of its cell, and the values are then those.
proof fn lemma_row_prefix(fields: Seq<FieldSpec<'_>>, t: Table, idx: usize, n: nat)
    requires
        n <= fields.len(),
    ensures
        row_prefix(fields, t, idx, n) is Ok <==> forall|k: int|
            0 <= k < n ==> materialized(
                #[trigger] fields[k],
                cell_at(fields[k], t, idx),
                idx,
            ) is Ok,
        row_prefix(fields, t, idx, n) matches Ok(values) ==> {
            &&& values.len() == n
            &&& forall|k: int|
                0 <= k < n ==> materialized(
                    #[trigger] fields[k],
                    cell_at(fields[k], t, idx),
                    idx,
                ) == Ok::<FieldScalar, ColbackError>(values[k])
        },
    decreases n,
{
    if n > 0 {
        lemma_row_prefix(fields, t, idx, (n - 1) as nat);
    }
}

/// A row that was read has one value for each field, and each is what the
/// field's policy makes of the cell that the field reads.
pub proof fn lemma_row_values(fields: Seq<FieldSpec<'_>>, t: Table, idx: usize, k: int)
    requires
        row_at(fields, t, idx) is Ok,
        0 <= k < fields.len(),
    ensures
        row_at(fields, t, idx)->Ok_0.len() == fields.len(),
        materialized(fields[k], cell_at(fields[k], t, idx), idx) == Ok::<
            FieldScalar,
            ColbackError,
        >(row_at(fields, t, idx)->Ok_0[k]),
{
    lemma_row_prefix(fields, t, idx, fields.len());
}

/// Reading a row stops at the first field, in schema order, whose cell
/// cannot be made a value, and reports that field's error.
pub proof fn lemma_first_failing_field_is_reported(
    fields: Seq<FieldSpec<'_>>,
    t: Table,
    idx: usize,
    k: int,
)
    requires
        0 <= k < fields.len(),
        materialized(fields[k], cell_at(fields[k], t, idx), idx) is Err,
        forall|j: int|
            0 <= j < k ==> materialized(
                #[trigger] fields[j],
                cell_at(fields[j], t, idx),
                idx,
            ) is Ok,
    ensures
        row_at(fields, t, idx) == Err::<Seq<FieldScalar>, ColbackError>(
            materialized(fields[k], cell_at(fields[k], t, idx), idx)->Err_0,
        ),
{
    lemma_row_prefix(fields, t, idx, k as nat);
    lemma_row_error_stays(fields, t, idx, (k + 1) as nat, fields.len());
}

/// With a valid schema a row can be read exactly when no field with the
/// policy `Error` reads a null cell in it: nothing else makes reading fail.
pub proof fn lemma_row_succeeds_iff_readable(fields: Seq<FieldSpec<'_>>, t: Table, idx: usize)
    requires
        schema_error(fields) is None,
    ensures
        row_at(fields, t, idx) is Ok <==> row_readable(fields, t, idx),
{
    lemma_row_prefix(fields, t, idx, fields.len());
    assert forall|k: int| 0 <= k < fields.len() implies (materialized(
        #[trigger] fields[k],
        cell_at(fields[k], t, idx),
        idx,
    ) is Ok <==> (fields[k].null_policy == NullPolicy::Error ==> cell_at(fields[k], t, idx)
        is Some)) by {
        lemma_valid_field(fields, k);
    }
}

/// Over a table that fits a valid schema and has no null cell under a field
/// with the policy `Error`, a view can be built and every row can be read.
pub proof fn lemma_fitting_table_reads(fields: Seq<FieldSpec<'_>>, t: Table)
    requires
        schema_error(fields) is None,
        fits(fields, t),
        forall|idx: usize| idx < t.height ==> #[trigger] row_readable(fields, t, idx),
    ensures
        build_error(fields, t) is None,
        forall|idx: usize| idx < t.height ==> (#[trigger] row_at(fields, t, idx)) is Ok,
{
    lemma_build_succeeds_iff_fits(fields, t);
    assert forall|idx: usize| idx < t.height implies (#[trigger] row_at(fields, t, idx)) is Ok by {
        lemma_row_succeeds_iff_readable(fields, t, idx);
    }
}

/// A null cell under a field with the policy `Error` makes reading that row
/// fail with `InvalidNull`, which names the field's column and the row, if
/// no earlier field fails in that row; any other row without such a null is
/// still read.
pub proof fn lemma_null_fails_its_row_only(
    fields: Seq<FieldSpec<'_>>,
    t: Table,
    k: int,
    idx: usize,
    other: usize,
)
    requires
        schema_error(fields) is None,
        0 <= k < fields.len(),
        fields[k].null_policy == NullPolicy::Error,
        cell_at(fields[k], t, idx) is None,
        forall|j: int|
            0 <= j < k ==> materialized(
                #[trigger] fields[j],
                cell_at(fields[j], t, idx),
                idx,
            ) is Ok,
        row_readable(fields, t, other),
    ensures
        row_at(fields, t, idx) == Err::<Seq<FieldScalar>, ColbackError>(
            ColbackError::InvalidNull { col: fields[k].source_column, idx },
        ),
        row_at(fields, t, other) is Ok,
{
    lemma_first_failing_field_is_reported(fields, t, idx, k);
    lemma_row_succeeds_iff_readable(fields, t, other);
}

/// A field with the policy `AsOptional` never makes reading fail, and in a
/// row that was read it is empty exactly where its cell is null and holds
/// the cell's value otherwise.
pub proof fn lemma_optional_field(fields: Seq<FieldSpec<'_>>, t: Table, idx: usize, k: int)
    requires
        0 <= k < fields.len(),
        fields[k].null_policy == NullPolicy::AsOptional,
    ensures
        materialized(fields[k], cell_at(fields[k], t, idx), idx) is Ok,
        row_at(fields, t, idx) matches Ok(row) ==> row[k] == FieldScalar::Optional(
            cell_at(fields[k], t, idx),
        ),
{
    if row_at(fields, t, idx) is Ok {
        lemma_row_values(fields, t, idx, k);
    }
}

/// A field with the policy `Default` and the default value `d` never makes
/// reading fail, and in a row that was read it holds `d` where its cell is
/// null and the cell's value otherwise.
pub proof fn lemma_default_field(
    fields: Seq<FieldSpec<'_>>,
    t: Table,
    idx: usize,
    k: int,
    d: Value<'_>,
)
    requires
        0 <= k < fields.len(),
        fields[k].null_policy == NullPolicy::Default,
        fields[k].default_value == Some(d),
    ensures
        materialized(fields[k], cell_at(fields[k], t, idx), idx) is Ok,
        row_at(fields, t, idx) matches Ok(row) ==> row[k] == FieldScalar::Required(
            match cell_at(fields[k], t, idx) {
                Some(v) => v,
                None => d@,
            },
        ),
{
    if row_at(fields, t, idx) is Ok {
        lemma_row_values(fields, t, idx, k);
    }
}

/// A pass over all rows gives one result for each row of the table, none
/// for an empty table, each the result of reading that row by itself. Two
/// passes of one schema over one table therefore give the same results,
/// whatever was done with the first.
pub proof fn lemma_iter_restartable(
    first: Seq<Result<RowRef<'_>, ColbackError>>,
    second: Seq<Result<RowRef<'_>, ColbackError>>,
    fields: Seq<FieldSpec<'_>>,
    t: Table,
)
    requires
        results_view(first) == rows_of(fields, t),
        results_view(second) == rows_of(fields, t),
    ensures
        first.len() == t.height,
        second.len() == first.len(),
        forall|i: int|
            0 <= i < first.len() ==> row_result(#[trigger] first[i]) == row_at(fields, t, i as usize),
        forall|i: int|
            0 <= i < first.len() ==> row_result(#[trigger] first[i]) == row_result(second[i]),
{
    assert(rows_of(fields, t).len() == t.height);
    assert(results_view(first).len() == first.len());
    assert(results_view(second).len() == second.len());
    assert forall|i: int| 0 <= i < first.len() implies row_result(#[trigger] first[i]) == row_at(
        fields,
        t,
        i as usize,
    ) && row_result(first[i]) == row_result(second[i]) by {
        assert(results_view(first)[i] == row_result(first[i]));
        assert(results_view(second)[i] == row_result(second[i]));
        assert(rows_of(fields, t)[i] == row_at(fields, t, i as usize));
    }
}

} // verus!

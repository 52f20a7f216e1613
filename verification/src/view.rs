//! Views: a schema bound to one table after validation, and the rows read
//! through it.

use vstd::prelude::*;
use polars::prelude::{Column, DataFrame};
use crate::catalog::{lemma_catalog_coherent, lookup, type_map, StorageType};
use crate::error::ColbackError;
use crate::frame::{
    column, column_cells, column_dtype, frame_columns, frame_height, height, read_cell,
    storage_type, table_of,
};
use crate::schema::{
    lemma_valid_field, name_taken, schema_error, FieldSpec, NullPolicy, RowSchema,
};
use crate::table::Table;
use crate::value::{optional_scalar, FieldScalar, FieldValue, Scalar, Value};

verus! {

/// The storage type that the column of a field must have.
pub open spec fn expected_storage(f: FieldSpec<'_>) -> StorageType {
    type_map(f.declared_type.primitive()).expected_dtype
}

/// What keeps a field from being bound to a table: its column is missing,
/// or is there with another storage type than the field expects.
pub open spec fn binding_error(f: FieldSpec<'_>, t: Table) -> Option<ColbackError> {
    if !t.has_column(f.source_column@) {
        Some(ColbackError::MissingColumn(f.source_column))
    } else if t.columns[f.source_column@].dtype != expected_storage(f) {
        Some(
            ColbackError::WrongDtype {
                col: f.source_column,
                expected: expected_storage(f),
                actual: t.columns[f.source_column@].dtype,
            },
        )
    } else {
        None
    }
}

/// The binding error of the first of the first `n` fields that has one.
pub open spec fn first_binding_error(fields: Seq<FieldSpec<'_>>, t: Table, n: nat) -> Option<
    ColbackError,
>
    decreases n,
{
    if n == 0 {
        None
    } else {
        match first_binding_error(fields, t, (n - 1) as nat) {
            Some(e) => Some(e),
            None => binding_error(fields[n - 1], t),
        }
    }
}

/// Why no view of the fields can be built over a table: the binding error of
/// the first field, in schema order, that has one. `None` if there is a view.
pub open spec fn build_error(fields: Seq<FieldSpec<'_>>, t: Table) -> Option<ColbackError> {
    first_binding_error(fields, t, fields.len())
}

/// A binding error among the first `n` fields is that of every longer
/// prefix.
pub proof fn lemma_binding_error_stays(fields: Seq<FieldSpec<'_>>, t: Table, n: nat, m: nat)
    requires
        n <= m,
        first_binding_error(fields, t, n) is Some,
    ensures
        first_binding_error(fields, t, m) == first_binding_error(fields, t, n),
    decreases m,
{
    if n < m {
        lemma_binding_error_stays(fields, t, n, (m - 1) as nat);
    }
}

/// The cell that a field reads in a row of a table.
pub open spec fn cell_at(f: FieldSpec<'_>, t: Table, idx: usize) -> Option<Scalar> {
    t.columns[f.source_column@].cells[idx as int]
}

/// What a cell becomes as the value of a field in row `idx`. Under
/// `AsOptional` the cell as it is; under `Default` its value, the field's
/// default for a null; under `Error` its value, and a null is an error that
/// names the column and the row. (A field with the policy `Default` and no
/// default value is no valid field; a null then gives `MissingDefault`.)
pub open spec fn materialized(f: FieldSpec<'_>, cell: Option<Scalar>, idx: usize) -> Result<
    FieldScalar,
    ColbackError,
> {
    match f.null_policy {
        NullPolicy::AsOptional => Ok(FieldScalar::Optional(cell)),
        NullPolicy::Default => match cell {
            Some(v) => Ok(FieldScalar::Required(v)),
            None => match f.default_value {
                Some(d) => Ok(FieldScalar::Required(d@)),
                None => Err(ColbackError::MissingDefault { field: f.name }),
            },
        },
        NullPolicy::Error => match cell {
            Some(v) => Ok(FieldScalar::Required(v)),
            None => Err(ColbackError::InvalidNull { col: f.source_column, idx }),
        },
    }
}

/// Turns the cell that was read for a field in row `idx` into the field's
/// value, by the field's null policy.
pub fn materialize<'a>(f: &FieldSpec<'a>, cell: Option<Value<'a>>, idx: usize) -> (r: Result<
    FieldValue<'a>,
    ColbackError,
>)
    ensures
        match r {
            Ok(v) => materialized(*f, optional_scalar(cell), idx) == Ok::<
                FieldScalar,
                ColbackError,
            >(v@),
            Err(e) => materialized(*f, optional_scalar(cell), idx) == Err::<
                FieldScalar,
                ColbackError,
            >(e),
        },
{
    match f.null_policy {
        NullPolicy::AsOptional => Ok(FieldValue::Optional(cell)),
        NullPolicy::Default => match cell {
            Some(v) => Ok(FieldValue::Required(v)),
            None => match f.default_value {
                Some(d) => Ok(FieldValue::Required(d)),
                None => Err(ColbackError::MissingDefault { field: f.name.clone() }),
            },
        },
        NullPolicy::Error => match cell {
            Some(v) => Ok(FieldValue::Required(v)),
            None => Err(ColbackError::InvalidNull { col: f.source_column.clone(), idx }),
        },
    }
}

/// Whether a value is of the shape and type that a field gives its values:
/// optional exactly under the policy `AsOptional`, and of the field's value
/// type where there is a value.
pub open spec fn value_fits(f: FieldSpec<'_>, v: FieldScalar) -> bool {
    match v {
        FieldScalar::Required(s) => f.null_policy != NullPolicy::AsOptional && s.kind()
            == f.value_kind(),
        FieldScalar::Optional(o) => f.null_policy == NullPolicy::AsOptional && (o matches Some(s)
            ==> s.kind() == f.value_kind()),
    }
}

/// What a valid field makes of a cell of its own value type is a value of
/// its shape and type: nothing is coerced.
pub proof fn lemma_materialized_fits(f: FieldSpec<'_>, cell: Option<Scalar>, idx: usize)
    requires
        f.definition_error() is None,
        cell matches Some(s) ==> s.kind() == f.value_kind(),
    ensures
        materialized(f, cell, idx) matches Ok(v) ==> value_fits(f, v),
{
}

/// The values of the first `n` fields in row `idx`, or the error of the
/// first of them that fails.
pub open spec fn row_prefix(fields: Seq<FieldSpec<'_>>, t: Table, idx: usize, n: nat) -> Result<
    Seq<FieldScalar>,
    ColbackError,
>
    decreases n,
{
    if n == 0 {
        Ok(Seq::empty())
    } else {
        match row_prefix(fields, t, idx, (n - 1) as nat) {
            Err(e) => Err(e),
            Ok(values) => match materialized(fields[n - 1], cell_at(fields[n - 1], t, idx), idx) {
                Err(e) => Err(e),
                Ok(v) => Ok(values.push(v)),
            },
        }
    }
}

/// Row `idx` of a table as the fields read it: one value for each field, in
/// schema order, or the error of the first field that fails. Either all
/// fields have a value or none is handed out.
pub open spec fn row_at(fields: Seq<FieldSpec<'_>>, t: Table, idx: usize) -> Result<
    Seq<FieldScalar>,
    ColbackError,
> {
    row_prefix(fields, t, idx, fields.len())
}

/// A failure among the first `n` fields is that of every longer prefix.
pub proof fn lemma_row_error_stays(
    fields: Seq<FieldSpec<'_>>,
    t: Table,
    idx: usize,
    n: nat,
    m: nat,
)
    requires
        n <= m,
        row_prefix(fields, t, idx, n) is Err,
    ensures
        row_prefix(fields, t, idx, m) == row_prefix(fields, t, idx, n),
    decreases m,
{
    if n < m {
        lemma_row_error_stays(fields, t, idx, n, (m - 1) as nat);
    }
}

/// The content of a sequence of field values.
pub open spec fn values_view(values: Seq<FieldValue<'_>>) -> Seq<FieldScalar> {
    values.map_values(|v: FieldValue<'_>| v@)
}

/// One row of a table, as a view hands it out: the value of each field of
/// the schema, in schema order.
#[derive(Debug)]
pub struct RowRef<'a> {
    schema: &'a RowSchema<'a>,
    values: Vec<FieldValue<'a>>,
}

impl<'a> View for RowRef<'a> {
    type V = Seq<FieldScalar>;

    closed spec fn view(&self) -> Seq<FieldScalar> {
        values_view(self.values@)
    }
}

impl<'a> RowRef<'a> {
    #[verifier::type_invariant]
    spec fn wf(&self) -> bool {
        &&& self.values@.len() == self.schema@.len()
        &&& forall|k: int|
            0 <= k < self.values@.len() ==> value_fits(self.schema@[k], #[trigger] self.values@[k]@)
    }

    /// The fields of the schema that the row was read by.
    pub closed spec fn fields(&self) -> Seq<FieldSpec<'a>> {
        self.schema@
    }

    /// The schema that the row was read by.
    pub fn schema(&self) -> (schema: &'a RowSchema<'a>)
        ensures
            schema@ == self.fields(),
    {
        self.schema
    }

    /// The number of fields.
    pub fn len(&self) -> (n: usize)
        ensures
            n == self@.len(),
            n == self.fields().len(),
    {
        proof {
            use_type_invariant(self);
        }
        self.values.len()
    }

    /// The value of the field at position `i` of the schema.
    pub fn value(&self, i: usize) -> (v: FieldValue<'a>)
        requires
            i < self@.len(),
        ensures
            v@ == self@[i as int],
            i < self.fields().len(),
            value_fits(self.fields()[i as int], v@),
    {
        proof {
            use_type_invariant(self);
        }
        self.values[i]
    }

    /// The value of the field of that name, `None` if the schema has no such
    /// field.
    pub fn get(&self, name: &str) -> (r: Option<FieldValue<'a>>)
        ensures
            match r {
                Some(v) => exists|i: int|
                    0 <= i < self@.len() && #[trigger] self.fields()[i].name@ == name@ && v@
                        == self@[i] && value_fits(self.fields()[i], v@),
                None => !name_taken(self.fields(), name@),
            },
    {
        proof {
            use_type_invariant(self);
        }
        match self.schema.index_of(name) {
            Some(i) => {
                let v = self.values[i];
                assert(self.fields()[i as int].name@ == name@);
                Some(v)
            },
            None => None,
        }
    }
}

/// The content of what reading a row gave.
pub open spec fn row_result(r: Result<RowRef<'_>, ColbackError>) -> Result<
    Seq<FieldScalar>,
    ColbackError,
> {
    match r {
        Ok(row) => Ok(row@),
        Err(e) => Err(e),
    }
}

/// The content of what reading several rows gave.
pub open spec fn results_view(rows: Seq<Result<RowRef<'_>, ColbackError>>) -> Seq<
    Result<Seq<FieldScalar>, ColbackError>,
> {
    Seq::new(rows.len(), |i: int| row_result(rows[i]))
}

/// All rows of a table as the fields read them, in ascending order.
pub open spec fn rows_of(fields: Seq<FieldSpec<'_>>, t: Table) -> Seq<
    Result<Seq<FieldScalar>, ColbackError>,
> {
    Seq::new(t.height, |i: int| row_at(fields, t, i as usize))
}

/// Whether a column is the one that a field is bound to in a frame: the
/// column of the field's source name, of the storage type that the field
/// expects, with one cell for each row.
spec fn bound(f: FieldSpec<'_>, col: Column, df: DataFrame) -> bool {
    &&& frame_columns(df).contains_key(f.source_column@)
    &&& frame_columns(df)[f.source_column@].dtype == column_dtype(col)
    &&& frame_columns(df)[f.source_column@].cells == column_cells(col)
    &&& column_cells(col).len() == frame_height(df)
    &&& column_dtype(col) == expected_storage(f)
}

/// A schema bound to one table: every field has its column, of the storage
/// type that it expects. The view borrows the table and the schema and
/// never changes.
pub struct RowView<'a> {
    df: &'a DataFrame,
    schema: &'a RowSchema<'a>,
    handles: Vec<&'a Column>,
}

impl<'a> RowView<'a> {
    #[verifier::type_invariant]
    spec fn wf(&self) -> bool {
        &&& self.handles@.len() == self.schema@.len()
        &&& forall|k: int|
            0 <= k < self.handles@.len() ==> bound(
                #[trigger] self.schema@[k],
                *self.handles@[k],
                *self.df,
            )
    }

    /// The fields of the schema.
    pub closed spec fn fields(&self) -> Seq<FieldSpec<'a>> {
        self.schema@
    }

    /// What the table holds.
    pub closed spec fn table(&self) -> Table {
        table_of(*self.df)
    }

    /// Binds a schema to a table. The fields are taken in schema order; the
    /// first whose column is missing or stores another type than expected
    /// gives the error, and there is no view. Otherwise the view reads
    /// exactly that schema over exactly that table.
    pub fn build(schema: &'a RowSchema<'a>, df: &'a DataFrame) -> (r: Result<
        RowView<'a>,
        ColbackError,
    >)
        ensures
            match r {
                Ok(view) => {
                    &&& build_error(schema@, table_of(*df)) is None
                    &&& view.fields() == schema@
                    &&& view.table() == table_of(*df)
                },
                Err(e) => {
                    &&& build_error(schema@, table_of(*df)) == Some(e)
                    &&& e is MissingColumn || e is WrongDtype
                },
            },
    {
        let fields = schema.fields();
        let mut handles: Vec<&'a Column> = Vec::new();
        let mut i: usize = 0;
        while i < fields.len()
            invariant
                i <= fields.len(),
                fields@ == schema@,
                handles@.len() == i,
                first_binding_error(fields@, table_of(*df), i as nat) is None,
                forall|k: int| 0 <= k < i ==> bound(#[trigger] fields@[k], *handles@[k], *df),
            decreases fields.len() - i,
        {
            let f = &fields[i];
            let col = match column(df, f.source_column.as_str()) {
                Ok(col) => col,
                Err(_) => {
                    proof {
                        lemma_binding_error_stays(
                            fields@,
                            table_of(*df),
                            (i + 1) as nat,
                            fields@.len(),
                        );
                    }
                    return Err(ColbackError::MissingColumn(f.source_column.clone()));
                },
            };
            let actual = storage_type(col);
            let map = lookup(f.declared_type.primitive());
            proof {
                lemma_catalog_coherent(f.declared_type.primitive());
            }
            if !actual.same_as(&map.expected_dtype) {
                proof {
                    lemma_binding_error_stays(
                        fields@,
                        table_of(*df),
                        (i + 1) as nat,
                        fields@.len(),
                    );
                }
                return Err(
                    ColbackError::WrongDtype {
                        col: f.source_column.clone(),
                        expected: map.expected_dtype,
                        actual,
                    },
                );
            }
            handles.push(col);
            i += 1;
        }
        Ok(RowView { df, schema, handles })
    }

    /// The table that the view reads.
    pub fn df(&self) -> (df: &'a DataFrame)
        ensures
            table_of(*df) == self.table(),
    {
        self.df
    }

    /// The schema that the view reads by.
    pub fn schema(&self) -> (schema: &'a RowSchema<'a>)
        ensures
            schema@ == self.fields(),
    {
        self.schema
    }

    /// The number of rows of the table.
    pub fn len(&self) -> (n: usize)
        ensures
            n == self.table().height,
    {
        height(self.df)
    }

    /// Reads row `idx`. The fields are taken in schema order; the first
    /// whose cell is null under the policy `Error` gives the error, and
    /// there is no row. Otherwise the row holds the value of every field.
    pub fn get(&self, idx: usize) -> (r: Result<RowRef<'a>, ColbackError>)
        requires
            idx < self.table().height,
        ensures
            row_result(r) == row_at(self.fields(), self.table(), idx),
            r matches Ok(row) ==> row.fields() == self.fields(),
            r matches Err(e) ==> e is InvalidNull,
    {
        proof {
            use_type_invariant(self);
        }
        let fields = self.schema.fields();
        let ghost t = table_of(*self.df);
        let mut values: Vec<FieldValue<'a>> = Vec::new();
        let mut k: usize = 0;
        proof {
            assert(values_view(values@) == Seq::<FieldScalar>::empty());
        }
        while k < fields.len()
            invariant
                k <= fields.len(),
                fields@ == self.schema@,
                t == table_of(*self.df),
                idx < t.height,
                self.handles@.len() == fields@.len(),
                forall|j: int|
                    0 <= j < fields@.len() ==> bound(
                        #[trigger] fields@[j],
                        *self.handles@[j],
                        *self.df,
                    ),
                values@.len() == k,
                schema_error(fields@) is None,
                forall|j: int| 0 <= j < k ==> value_fits(fields@[j], #[trigger] values@[j]@),
                row_prefix(fields@, t, idx, k as nat) == Ok::<Seq<FieldScalar>, ColbackError>(
                    values_view(values@),
                ),
            decreases fields.len() - k,
        {
            let f = &fields[k];
            let col = self.handles[k];
            let map = lookup(f.declared_type.primitive());
            proof {
                lemma_catalog_coherent(f.declared_type.primitive());
                assert(bound(fields@[k as int], *self.handles@[k as int], *self.df));
            }
            let cell = read_cell(col, map.accessor, idx);
            match materialize(f, cell, idx) {
                Ok(v) => {
                    proof {
                        assert(values_view(values@.push(v)) == values_view(values@).push(v@));
                        lemma_valid_field(fields@, k as int);
                        lemma_materialized_fits(*f, optional_scalar(cell), idx);
                    }
                    values.push(v);
                },
                Err(e) => {
                    proof {
                        lemma_row_error_stays(fields@, t, idx, (k + 1) as nat, fields@.len());
                        lemma_valid_field(fields@, k as int);
                    }
                    return Err(e);
                },
            }
            k += 1;
        }
        Ok(RowRef { schema: self.schema, values })
    }

    /// Reads row `idx` if the table has such a row: `None` past the end of
    /// the table, what `get` gives otherwise.
    pub fn checked_get(&self, idx: usize) -> (r: Option<Result<RowRef<'a>, ColbackError>>)
        ensures
            r is Some <==> idx < self.table().height,
            r matches Some(row) ==> {
                &&& row_result(row) == row_at(self.fields(), self.table(), idx)
                &&& row matches Ok(row) ==> row.fields() == self.fields()
                &&& row matches Err(e) ==> e is InvalidNull
            },
    {
        if idx < self.len() {
            Some(self.get(idx))
        } else {
            None
        }
    }

    /// Starts a pass over the rows, at row 0. The view is not changed, and
    /// every call starts a fresh pass.
    pub fn iter<'v>(&'v self) -> (it: RowIter<'v, 'a>)
        ensures
            it.position() == 0,
            it.fields() == self.fields(),
            it.table() == self.table(),
    {
        RowIter { view: self, next: 0 }
    }
}

/// A pass over the rows of a view in ascending order, one row at a time.
pub struct RowIter<'v, 'a> {
    view: &'v RowView<'a>,
    next: usize,
}

impl<'v, 'a> RowIter<'v, 'a> {
    /// The fields of the schema of the view.
    pub closed spec fn fields(&self) -> Seq<FieldSpec<'a>> {
        self.view.fields()
    }

    /// What the table of the view holds.
    pub closed spec fn table(&self) -> Table {
        self.view.table()
    }

    /// The index of the row that comes next.
    pub closed spec fn position(&self) -> usize {
        self.next
    }

    /// Reads the row that comes next and moves past it, whether reading it
    /// succeeded or failed; `None` once every row of the table was read.
    pub fn next(&mut self) -> (r: Option<Result<RowRef<'a>, ColbackError>>)
        ensures
            final(self).fields() == old(self).fields(),
            final(self).table() == old(self).table(),
            match r {
                Some(row) => {
                    &&& old(self).position() < old(self).table().height
                    &&& final(self).position() == old(self).position() + 1
                    &&& row_result(row) == row_at(
                        old(self).fields(),
                        old(self).table(),
                        old(self).position(),
                    )
                    &&& row matches Ok(row) ==> row.fields() == old(self).fields()
                    &&& row matches Err(e) ==> e is InvalidNull
                },
                None => {
                    &&& old(self).position() >= old(self).table().height
                    &&& final(self).position() == old(self).position()
                },
            },
    {
        if self.next < self.view.len() {
            let row = self.view.get(self.next);
            self.next = self.next + 1;
            Some(row)
        } else {
            None
        }
    }

    /// Reads all rows that are left, in ascending order: one result for each,
    /// each as reading that row by itself gives it. A row that fails does
    /// not keep the others from being read. From the start of a pass these
    /// are all rows of the table.
    pub fn collect(self) -> (rows: Vec<Result<RowRef<'a>, ColbackError>>)
        ensures
            rows@.len() == if self.position() <= self.table().height {
                self.table().height - self.position()
            } else {
                0
            },
            forall|i: int|
                0 <= i < rows@.len() ==> row_result(#[trigger] rows@[i]) == row_at(
                    self.fields(),
                    self.table(),
                    (self.position() + i) as usize,
                ),
            forall|i: int|
                0 <= i < rows@.len() ==> ((#[trigger] rows@[i]) matches Err(e) ==> e
                    is InvalidNull),
            self.position() == 0 ==> results_view(rows@) == rows_of(self.fields(), self.table()),
    {
        let ghost start = self.position();
        let ghost fields = self.fields();
        let ghost t = self.table();
        let mut it = self;
        let mut rows: Vec<Result<RowRef<'a>, ColbackError>> = Vec::new();
        loop
            invariant
                it.fields() == fields,
                it.table() == t,
                it.position() == start + rows@.len(),
                rows@.len() > 0 ==> it.position() <= t.height,
                forall|i: int|
                    0 <= i < rows@.len() ==> row_result(#[trigger] rows@[i]) == row_at(
                        fields,
                        t,
                        (start + i) as usize,
                    ),
                forall|i: int|
                    0 <= i < rows@.len() ==> ((#[trigger] rows@[i]) matches Err(e) ==> e
                        is InvalidNull),
            ensures
                it.position() >= t.height,
                it.position() == start + rows@.len(),
                rows@.len() > 0 ==> it.position() <= t.height,
                forall|i: int|
                    0 <= i < rows@.len() ==> row_result(#[trigger] rows@[i]) == row_at(
                        fields,
                        t,
                        (start + i) as usize,
                    ),
                forall|i: int|
                    0 <= i < rows@.len() ==> ((#[trigger] rows@[i]) matches Err(e) ==> e
                        is InvalidNull),
            decreases t.height - it.position(),
        {
            match it.next() {
                Some(row) => {
                    rows.push(row);
                },
                None => {
                    break ;
                },
            }
        }
        proof {
            if start == 0 {
                assert(results_view(rows@) =~= rows_of(fields, t));
            }
        }
        rows
    }
}

/// Trait for a struct that stands for one row of a dataframe.
///
/// The struct declares the schema of its rows; the view over a dataframe
/// comes with it.
pub trait ColbackView: Sized {
    /// The schema of the row type.
    fn schema() -> &'static RowSchema<'static>;

    /// Create a view for a given dataframe: the schema of the row type,
    /// bound to the dataframe as `RowView::build` binds it.
    ///
    /// # Errors
    ///
    /// This fails if the dataframe is missing a column or stores one with
    /// another type than the row type declares.
    fn view<'a>(df: &'a DataFrame) -> (r: Result<RowView<'a>, ColbackError>)
        ensures
            exists|schema: &'static RowSchema<'static>|
                {
                    &&& #[trigger] call_ensures(Self::schema, (), schema)
                    &&& match r {
                        Ok(view) => {
                            &&& build_error(schema@, table_of(*df)) is None
                            &&& view.fields() == schema@
                            &&& view.table() == table_of(*df)
                        },
                        Err(e) => {
                            &&& build_error(schema@, table_of(*df)) == Some(e)
                            &&& e is MissingColumn || e is WrongDtype
                        },
                    }
                },
    {
        RowView::build(Self::schema(), df)
    }
}

} // verus!

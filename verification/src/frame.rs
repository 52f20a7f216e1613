//! The table collaborator: a polars `DataFrame`, reached through a handful
//! of operations whose contracts are assumed, not proved.

use vstd::prelude::*;
use polars::prelude::{Column, DataFrame, DataType, PolarsError};
use crate::catalog::{Accessor, StorageType};
use crate::table::{ColumnData, Table};
use crate::value::{optional_scalar, Scalar, Value};

verus! {

/// polars' `DataFrame`: a table of named columns of one length. Opaque here.
#[verifier::external_type_specification]
#[verifier::external_body]
pub struct ExDataFrame(DataFrame);

/// polars' `Column`: one column of a table. Opaque here.
#[verifier::external_type_specification]
#[verifier::external_body]
pub struct ExColumn(Column);

/// polars' `PolarsError`. Opaque here: only that there was an error is used.
#[verifier::external_type_specification]
#[verifier::external_body]
pub struct ExPolarsError(PolarsError);

/// The columns of a data frame, by name.
pub uninterp spec fn frame_columns(df: DataFrame) -> Map<Seq<char>, ColumnData>;

/// The number of rows of a data frame.
pub uninterp spec fn frame_height(df: DataFrame) -> nat;

/// The storage type of a column.
pub uninterp spec fn column_dtype(col: Column) -> StorageType;

/// The cells of a column in row order, `None` for a null cell.
pub uninterp spec fn column_cells(col: Column) -> Seq<Option<Scalar>>;

/// What a data frame holds.
pub open spec fn table_of(df: DataFrame) -> Table {
    Table { height: frame_height(df), columns: frame_columns(df) }
}

/// `DataFrame::height`: the number of rows.
#[verifier::external_body]
pub(crate) fn height(df: &DataFrame) -> (n: usize)
    ensures
        n == frame_height(*df),
{
    df.height()
}

/// `DataFrame::column`: selects a column by name. It succeeds exactly when
/// the frame has a column of that name, and then hands out that column, which
/// has one cell for each row of the frame.
#[verifier::external_body]
pub(crate) fn column<'a>(df: &'a DataFrame, name: &str) -> (r: Result<&'a Column, PolarsError>)
    ensures
        r is Ok <==> frame_columns(*df).contains_key(name@),
        r matches Ok(col) ==> {
            &&& frame_columns(*df)[name@].dtype == column_dtype(*col)
            &&& frame_columns(*df)[name@].cells == column_cells(*col)
            &&& column_cells(*col).len() == frame_height(*df)
        },
{
    df.column(name)
}

/// `Column::dtype`, told apart into the storage types of the catalog; any
/// other type is kept by the name that polars prints for it.
#[verifier::external_body]
pub(crate) fn storage_type(col: &Column) -> (r: StorageType)
    ensures
        r == column_dtype(*col),
{
    match col.dtype() {
        DataType::UInt8 => StorageType::UInt8,
        DataType::UInt16 => StorageType::UInt16,
        DataType::UInt32 => StorageType::UInt32,
        DataType::UInt64 => StorageType::UInt64,
        DataType::Int32 => StorageType::Int32,
        DataType::Int64 => StorageType::Int64,
        DataType::Float32 => StorageType::Float32,
        DataType::Float64 => StorageType::Float64,
        DataType::Boolean => StorageType::Boolean,
        DataType::String => StorageType::String,
        other => StorageType::Other(format!("{other}")),
    }
}

/// `Column::try_u8`, then `ChunkedArray::get`: the cell at `idx` of a column
/// of 8-bit unsigned integers. The first gives the typed array exactly for
/// such a column; the second panics past the end and gives `None` for a null.
#[verifier::external_body]
pub(crate) fn get_u8(col: &Column, idx: usize) -> (r: Option<u8>)
    requires
        column_dtype(*col) == StorageType::UInt8,
        idx < column_cells(*col).len(),
    ensures
        column_cells(*col)[idx as int] == match r {
            Some(v) => Some(Scalar::UInt8(v)),
            None => None,
        },
{
    col.try_u8().unwrap().get(idx)
}

/// `Column::try_u16`, then `ChunkedArray::get`: as `get_u8`, for 16-bit
/// unsigned integers.
#[verifier::external_body]
pub(crate) fn get_u16(col: &Column, idx: usize) -> (r: Option<u16>)
    requires
        column_dtype(*col) == StorageType::UInt16,
        idx < column_cells(*col).len(),
    ensures
        column_cells(*col)[idx as int] == match r {
            Some(v) => Some(Scalar::UInt16(v)),
            None => None,
        },
{
    col.try_u16().unwrap().get(idx)
}

/// `Column::try_u32`, then `ChunkedArray::get`: as `get_u8`, for 32-bit
/// unsigned integers.
#[verifier::external_body]
pub(crate) fn get_u32(col: &Column, idx: usize) -> (r: Option<u32>)
    requires
        column_dtype(*col) == StorageType::UInt32,
        idx < column_cells(*col).len(),
    ensures
        column_cells(*col)[idx as int] == match r {
            Some(v) => Some(Scalar::UInt32(v)),
            None => None,
        },
{
    col.try_u32().unwrap().get(idx)
}

/// `Column::try_u64`, then `ChunkedArray::get`: as `get_u8`, for 64-bit
/// unsigned integers.
#[verifier::external_body]
pub(crate) fn get_u64(col: &Column, idx: usize) -> (r: Option<u64>)
    requires
        column_dtype(*col) == StorageType::UInt64,
        idx < column_cells(*col).len(),
    ensures
        column_cells(*col)[idx as int] == match r {
            Some(v) => Some(Scalar::UInt64(v)),
            None => None,
        },
{
    col.try_u64().unwrap().get(idx)
}

/// `Column::try_i32`, then `ChunkedArray::get`: as `get_u8`, for 32-bit
/// signed integers.
#[verifier::external_body]
pub(crate) fn get_i32(col: &Column, idx: usize) -> (r: Option<i32>)
    requires
        column_dtype(*col) == StorageType::Int32,
        idx < column_cells(*col).len(),
    ensures
        column_cells(*col)[idx as int] == match r {
            Some(v) => Some(Scalar::Int32(v)),
            None => None,
        },
{
    col.try_i32().unwrap().get(idx)
}

/// `Column::try_i64`, then `ChunkedArray::get`: as `get_u8`, for 64-bit
/// signed integers.
#[verifier::external_body]
pub(crate) fn get_i64(col: &Column, idx: usize) -> (r: Option<i64>)
    requires
        column_dtype(*col) == StorageType::Int64,
        idx < column_cells(*col).len(),
    ensures
        column_cells(*col)[idx as int] == match r {
            Some(v) => Some(Scalar::Int64(v)),
            None => None,
        },
{
    col.try_i64().unwrap().get(idx)
}

/// `Column::try_f32`, then `ChunkedArray::get`: as `get_u8`, for single
/// precision numbers, each handed out as its bit pattern.
#[verifier::external_body]
pub(crate) fn get_float32(col: &Column, idx: usize) -> (r: Option<u32>)
    requires
        column_dtype(*col) == StorageType::Float32,
        idx < column_cells(*col).len(),
    ensures
        column_cells(*col)[idx as int] == match r {
            Some(v) => Some(Scalar::Float32(v)),
            None => None,
        },
{
    match col.try_f32().unwrap().get(idx) {
        Some(v) => Some(v.to_bits()),
        None => None,
    }
}

/// `Column::try_f64`, then `ChunkedArray::get`: as `get_u8`, for double
/// precision numbers, each handed out as its bit pattern.
#[verifier::external_body]
pub(crate) fn get_float64(col: &Column, idx: usize) -> (r: Option<u64>)
    requires
        column_dtype(*col) == StorageType::Float64,
        idx < column_cells(*col).len(),
    ensures
        column_cells(*col)[idx as int] == match r {
            Some(v) => Some(Scalar::Float64(v)),
            None => None,
        },
{
    match col.try_f64().unwrap().get(idx) {
        Some(v) => Some(v.to_bits()),
        None => None,
    }
}

/// `Column::try_bool`, then `ChunkedArray::get`: as `get_u8`, for booleans.
#[verifier::external_body]
pub(crate) fn get_bool(col: &Column, idx: usize) -> (r: Option<bool>)
    requires
        column_dtype(*col) == StorageType::Boolean,
        idx < column_cells(*col).len(),
    ensures
        column_cells(*col)[idx as int] == match r {
            Some(v) => Some(Scalar::Boolean(v)),
            None => None,
        },
{
    col.try_bool().unwrap().get(idx)
}

/// `Column::try_str`, then `ChunkedArray::get`: as `get_u8`, for text, which
/// is borrowed from the column.
#[verifier::external_body]
pub(crate) fn get_str<'a>(col: &'a Column, idx: usize) -> (r: Option<&'a str>)
    requires
        column_dtype(*col) == StorageType::String,
        idx < column_cells(*col).len(),
    ensures
        column_cells(*col)[idx as int] == match r {
            Some(v) => Some(Scalar::Text(v@)),
            None => None,
        },
{
    col.try_str().unwrap().get(idx)
}

/// Reads the cell at `idx` of a column with the given accessor: `None` for a
/// null cell, the value of the cell otherwise, which is of the accessor's
/// type.
pub(crate) fn read_cell<'a>(col: &'a Column, accessor: Accessor, idx: usize) -> (r: Option<Value<'a>>)
    requires
        column_dtype(*col) == accessor.storage(),
        idx < column_cells(*col).len(),
    ensures
        optional_scalar(r) == column_cells(*col)[idx as int],
        r matches Some(v) ==> v@.kind() == accessor.kind(),
{
    match accessor {
        Accessor::U8 => match get_u8(col, idx) {
            Some(v) => Some(Value::UInt8(v)),
            None => None,
        },
        Accessor::U16 => match get_u16(col, idx) {
            Some(v) => Some(Value::UInt16(v)),
            None => None,
        },
        Accessor::U32 => match get_u32(col, idx) {
            Some(v) => Some(Value::UInt32(v)),
            None => None,
        },
        Accessor::U64 => match get_u64(col, idx) {
            Some(v) => Some(Value::UInt64(v)),
            None => None,
        },
        Accessor::I32 => match get_i32(col, idx) {
            Some(v) => Some(Value::Int32(v)),
            None => None,
        },
        Accessor::I64 => match get_i64(col, idx) {
            Some(v) => Some(Value::Int64(v)),
            None => None,
        },
        Accessor::F32 => match get_float32(col, idx) {
            Some(v) => Some(Value::Float32(v)),
            None => None,
        },
        Accessor::F64 => match get_float64(col, idx) {
            Some(v) => Some(Value::Float64(v)),
            None => None,
        },
        Accessor::Bool => match get_bool(col, idx) {
            Some(v) => Some(Value::Boolean(v)),
            None => None,
        },
        Accessor::Str => match get_str(col, idx) {
            Some(v) => Some(Value::Text(v)),
            None => None,
        },
    }
}

} // verus!

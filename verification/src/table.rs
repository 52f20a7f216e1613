//! The mathematical model of a columnar table.

use vstd::prelude::*;
use crate::catalog::StorageType;
use crate::value::Scalar;

verus! {

/// What one column holds: its storage type and its cells in row order,
/// `None` for a null cell.
pub struct ColumnData {
    pub dtype: StorageType,
    pub cells: Seq<Option<Scalar>>,
}

/// What a table holds: its number of rows and its columns by name.
pub struct Table {
    pub height: nat,
    pub columns: Map<Seq<char>, ColumnData>,
}

impl Table {
    /// Whether the table has a column of that name.
    pub open spec fn has_column(self, name: Seq<char>) -> bool {
        self.columns.contains_key(name)
    }

    /// The table without the column of that name.
    pub open spec fn without(self, name: Seq<char>) -> Table {
        Table { height: self.height, columns: self.columns.remove(name) }
    }

    /// The table with the storage type of one column changed.
    pub open spec fn retyped(self, name: Seq<char>, dtype: StorageType) -> Table {
        Table {
            height: self.height,
            columns: self.columns.insert(
                name,
                ColumnData { dtype, cells: self.columns[name].cells },
            ),
        }
    }
}

} // verus!

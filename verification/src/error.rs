//! The errors of the crate.

use vstd::prelude::*;
use crate::catalog::StorageType;
use crate::value::ValueKind;

verus! {

/// What can go wrong when a schema is declared, when a view is built over a
/// table, and when a row is read.
#[derive(Debug, PartialEq, Eq)]
pub enum ColbackError {
    /// The declaration is a struct without named fields, or one of its fields
    /// has no name.
    UnnamedFields,
    /// The declaration is not a struct.
    NotAStruct,
    /// The type of the field is not in the catalog.
    UnsupportedType { field: String },
    /// The null policy of the field is none of `error`, `option`, `default`.
    UnknownNullPolicy { field: String, policy: String },
    /// The field has the policy `option` without being optional
    /// (`optional` is false), or is optional under another policy
    /// (`optional` is true).
    PolicyMismatch { field: String, optional: bool },
    /// The field has the policy `default` and no default value.
    MissingDefault { field: String },
    /// The field has a default value under another policy than `default`.
    UnexpectedDefault { field: String },
    /// The default value of the field is not of the field's type, `wanted`.
    DefaultTypeMismatch { field: String, wanted: ValueKind },
    /// An earlier field of the schema has the same name.
    DuplicateField { field: String },
    /// The table has no column of that name.
    MissingColumn(String),
    /// The column is there and stores another type than the field needs.
    WrongDtype { col: String, expected: StorageType, actual: StorageType },
    /// The cell of a field with the policy `error` is null.
    InvalidNull {
        /// Name of the column with the null value
        col: String,
        /// Index where the null was encountered
        idx: usize,
    },
}

impl ColbackError {
    /// Whether the error is one of a schema's declaration, as opposed to one
    /// of a table or of a row.
    pub open spec fn is_definition_error(self) -> bool {
        !(self is MissingColumn || self is WrongDtype || self is InvalidNull)
    }

    /// Whether the error is one of a schema's declaration, as opposed to one
    /// of a table or of a row.
    pub fn definition_error(&self) -> (r: bool)
        ensures
            r == self.is_definition_error(),
    {
        match self {
            ColbackError::MissingColumn(_) => false,
            ColbackError::WrongDtype { .. } => false,
            ColbackError::InvalidNull { .. } => false,
            _ => true,
        }
    }
}

} // verus!

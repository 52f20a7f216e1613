//! Column backed lists of structs.
//!
//! A row schema declares the named, typed fields of one row. A view binds a
//! schema to a polars `DataFrame` after checking, once, that every field has
//! its column and that the column stores the type the field expects. Rows
//! are then read through the view: each is the value of every field under
//! the field's null policy, or the error of the first field that fails.
//!
//! The modules are verified with Verus. What is assumed of polars is in
//! `frame`; what holds in general of schemas, views and rows is proved in
//! `laws`.

pub mod catalog;
pub mod error;
pub mod frame;
pub mod laws;
pub mod schema;
pub mod table;
pub mod text;
pub mod value;
pub mod view;

pub use catalog::{map_type, option_inner, TypeMap};
pub use error::ColbackError;
pub use schema::{derive_colback_view, RowSchema};
pub use view::{ColbackView, RowIter, RowRef, RowView};

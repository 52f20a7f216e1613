//! The type catalog: the closed table of supported field types, and the
//! reading of a declared type against it.

use vstd::prelude::*;
use crate::value::ValueKind;

verus! {

/// A field type that the catalog supports, named after the Rust type.
#[derive(Clone, Copy, Debug, PartialEq, Eq, Structural)]
pub enum PrimitiveType {
    U8,
    U16,
    U32,
    U64,
    I32,
    I64,
    F32,
    F64,
    Bool,
    String,
}

/// How a column stores its cells.
#[derive(Debug, PartialEq, Eq)]
pub enum StorageType {
    UInt8,
    UInt16,
    UInt32,
    UInt64,
    Int32,
    Int64,
    Float32,
    Float64,
    Boolean,
    String,
    /// A storage type that no supported field type reads, by its printed name.
    Other(String),
}

/// Whether two storage types are the same: the same type of the catalog, or
/// two other types of the same printed name.
pub open spec fn same_storage(a: StorageType, b: StorageType) -> bool {
    match (a, b) {
        (StorageType::Other(x), StorageType::Other(y)) => x@ == y@,
        (StorageType::Other(_), _) => false,
        (_, StorageType::Other(_)) => false,
        _ => a == b,
    }
}

impl StorageType {
    /// Whether this is the same storage type as `other`.
    pub fn same_as(&self, other: &StorageType) -> (r: bool)
        ensures
            r == same_storage(*self, *other),
            !(*other is Other) ==> r == (*self == *other),
    {
        match (self, other) {
            (StorageType::UInt8, StorageType::UInt8) => true,
            (StorageType::UInt16, StorageType::UInt16) => true,
            (StorageType::UInt32, StorageType::UInt32) => true,
            (StorageType::UInt64, StorageType::UInt64) => true,
            (StorageType::Int32, StorageType::Int32) => true,
            (StorageType::Int64, StorageType::Int64) => true,
            (StorageType::Float32, StorageType::Float32) => true,
            (StorageType::Float64, StorageType::Float64) => true,
            (StorageType::Boolean, StorageType::Boolean) => true,
            (StorageType::String, StorageType::String) => true,
            (StorageType::Other(x), StorageType::Other(y)) => x.as_str().eq(y.as_str()),
            _ => false,
        }
    }
}

/// The typed read that fetches a cell from a column.
#[derive(Clone, Copy, Debug, PartialEq, Eq, Structural)]
pub enum Accessor {
    U8,
    U16,
    U32,
    U64,
    I32,
    I64,
    F32,
    F64,
    Bool,
    Str,
}

impl Accessor {
    /// The storage type of the columns that this accessor reads.
    pub open spec fn storage(self) -> StorageType {
        match self {
            Accessor::U8 => StorageType::UInt8,
            Accessor::U16 => StorageType::UInt16,
            Accessor::U32 => StorageType::UInt32,
            Accessor::U64 => StorageType::UInt64,
            Accessor::I32 => StorageType::Int32,
            Accessor::I64 => StorageType::Int64,
            Accessor::F32 => StorageType::Float32,
            Accessor::F64 => StorageType::Float64,
            Accessor::Bool => StorageType::Boolean,
            Accessor::Str => StorageType::String,
        }
    }

    /// The type of the values that this accessor yields.
    pub open spec fn kind(self) -> ValueKind {
        match self {
            Accessor::U8 => ValueKind::UInt8,
            Accessor::U16 => ValueKind::UInt16,
            Accessor::U32 => ValueKind::UInt32,
            Accessor::U64 => ValueKind::UInt64,
            Accessor::I32 => ValueKind::Int32,
            Accessor::I64 => ValueKind::Int64,
            Accessor::F32 => ValueKind::Float32,
            Accessor::F64 => ValueKind::Float64,
            Accessor::Bool => ValueKind::Boolean,
            Accessor::Str => ValueKind::Text,
        }
    }
}

/// One entry of the catalog.
#[derive(Debug, PartialEq, Eq)]
pub struct TypeMap {
    /// The field type that the entry is for.
    pub primitive: PrimitiveType,
    /// The storage type that a column must have to back such a field.
    pub expected_dtype: StorageType,
    /// The typed read to use on such a column.
    pub accessor: Accessor,
    /// The type of the value that a row holds for such a field.
    pub row_value_ty: ValueKind,
}

/// The typed read that fetches the cells of a field of the given type.
pub open spec fn accessor_of(p: PrimitiveType) -> Accessor {
    match p {
        PrimitiveType::U8 => Accessor::U8,
        PrimitiveType::U16 => Accessor::U16,
        PrimitiveType::U32 => Accessor::U32,
        PrimitiveType::U64 => Accessor::U64,
        PrimitiveType::I32 => Accessor::I32,
        PrimitiveType::I64 => Accessor::I64,
        PrimitiveType::F32 => Accessor::F32,
        PrimitiveType::F64 => Accessor::F64,
        PrimitiveType::Bool => Accessor::Bool,
        PrimitiveType::String => Accessor::Str,
    }
}

/// The catalog, as a total function on the supported field types: a field
/// is read with the accessor of its type, from a column of the storage type
/// that the accessor reads, into a value of the type that the accessor
/// yields.
pub open spec fn type_map(p: PrimitiveType) -> TypeMap {
    TypeMap {
        primitive: p,
        expected_dtype: accessor_of(p).storage(),
        accessor: accessor_of(p),
        row_value_ty: accessor_of(p).kind(),
    }
}

/// The field type that a type name stands for: the one of that name, if the
/// catalog has one.
pub open spec fn primitive_named(name: Seq<char>) -> Option<PrimitiveType> {
    if exists|p: PrimitiveType| p.spec_name() == name {
        Some(choose|p: PrimitiveType| p.spec_name() == name)
    } else {
        None
    }
}

/// No two field types have the same name.
pub proof fn lemma_names_distinct(p: PrimitiveType, q: PrimitiveType)
    requires
        p.spec_name() == q.spec_name(),
    ensures
        p == q,
{
    reveal_strlit("u8");
    reveal_strlit("u16");
    reveal_strlit("u32");
    reveal_strlit("u64");
    reveal_strlit("i32");
    reveal_strlit("i64");
    reveal_strlit("f32");
    reveal_strlit("f64");
    reveal_strlit("bool");
    reveal_strlit("String");
    assert("u8"@.len() == 2);
    assert("u16"@.len() == 3 && "u16"@[0] == 'u' && "u16"@[1] == '1');
    assert("u32"@.len() == 3 && "u32"@[0] == 'u' && "u32"@[1] == '3');
    assert("u64"@.len() == 3 && "u64"@[0] == 'u' && "u64"@[1] == '6');
    assert("i32"@.len() == 3 && "i32"@[0] == 'i' && "i32"@[1] == '3');
    assert("i64"@.len() == 3 && "i64"@[0] == 'i' && "i64"@[1] == '6');
    assert("f32"@.len() == 3 && "f32"@[0] == 'f' && "f32"@[1] == '3');
    assert("f64"@.len() == 3 && "f64"@[0] == 'f' && "f64"@[1] == '6');
    assert("bool"@.len() == 4);
    assert("String"@.len() == 6);
}

/// Looking a field type up by its own name finds it again.
pub proof fn lemma_name_round_trip(p: PrimitiveType)
    ensures
        primitive_named(p.spec_name()) == Some(p),
{
    let found = choose|q: PrimitiveType| q.spec_name() == p.spec_name();
    lemma_names_distinct(found, p);
}

impl PrimitiveType {
    /// The name of the Rust type.
    pub open spec fn spec_name(self) -> Seq<char> {
        match self {
            PrimitiveType::U8 => "u8"@,
            PrimitiveType::U16 => "u16"@,
            PrimitiveType::U32 => "u32"@,
            PrimitiveType::U64 => "u64"@,
            PrimitiveType::I32 => "i32"@,
            PrimitiveType::I64 => "i64"@,
            PrimitiveType::F32 => "f32"@,
            PrimitiveType::F64 => "f64"@,
            PrimitiveType::Bool => "bool"@,
            PrimitiveType::String => "String"@,
        }
    }

    /// The name of the Rust type.
    pub fn name(&self) -> (r: &'static str)
        ensures
            r@ == self.spec_name(),
    {
        match self {
            PrimitiveType::U8 => "u8",
            PrimitiveType::U16 => "u16",
            PrimitiveType::U32 => "u32",
            PrimitiveType::U64 => "u64",
            PrimitiveType::I32 => "i32",
            PrimitiveType::I64 => "i64",
            PrimitiveType::F32 => "f32",
            PrimitiveType::F64 => "f64",
            PrimitiveType::Bool => "bool",
            PrimitiveType::String => "String",
        }
    }

    /// Finds the field type of that name: `Some` for the ten names of the
    /// catalog, `None` for every other text.
    pub fn from_name(name: &str) -> (r: Option<PrimitiveType>)
        ensures
            r == primitive_named(name@),
    {
        let r = Self::find_name(name);
        proof {
            match r {
                Some(p) => {
                    lemma_name_round_trip(p);
                },
                None => {
                    assert forall|p: PrimitiveType| p.spec_name() != name@ by {
                        match p {
                            PrimitiveType::U8 => {},
                            PrimitiveType::U16 => {},
                            PrimitiveType::U32 => {},
                            PrimitiveType::U64 => {},
                            PrimitiveType::I32 => {},
                            PrimitiveType::I64 => {},
                            PrimitiveType::F32 => {},
                            PrimitiveType::F64 => {},
                            PrimitiveType::Bool => {},
                            PrimitiveType::String => {},
                        }
                    }
                },
            }
        }
        r
    }

    /// Compares the name with each of the ten in turn.
    fn find_name(name: &str) -> (r: Option<PrimitiveType>)
        ensures
            match r {
                Some(p) => p.spec_name() == name@,
                None => {
                    &&& name@ != "u8"@
                    &&& name@ != "u16"@
                    &&& name@ != "u32"@
                    &&& name@ != "u64"@
                    &&& name@ != "i32"@
                    &&& name@ != "i64"@
                    &&& name@ != "f32"@
                    &&& name@ != "f64"@
                    &&& name@ != "bool"@
                    &&& name@ != "String"@
                },
            },
    {
        if name.eq("u8") {
            Some(PrimitiveType::U8)
        } else if name.eq("u16") {
            Some(PrimitiveType::U16)
        } else if name.eq("u32") {
            Some(PrimitiveType::U32)
        } else if name.eq("u64") {
            Some(PrimitiveType::U64)
        } else if name.eq("i32") {
            Some(PrimitiveType::I32)
        } else if name.eq("i64") {
            Some(PrimitiveType::I64)
        } else if name.eq("f32") {
            Some(PrimitiveType::F32)
        } else if name.eq("f64") {
            Some(PrimitiveType::F64)
        } else if name.eq("bool") {
            Some(PrimitiveType::Bool)
        } else if name.eq("String") {
            Some(PrimitiveType::String)
        } else {
            None
        }
    }
}

/// The catalog entry of a supported field type.
pub fn lookup(p: PrimitiveType) -> (r: TypeMap)
    ensures
        r == type_map(p),
{
    match p {
        PrimitiveType::U8 => TypeMap {
            primitive: p,
            expected_dtype: StorageType::UInt8,
            accessor: Accessor::U8,
            row_value_ty: ValueKind::UInt8,
        },
        PrimitiveType::U16 => TypeMap {
            primitive: p,
            expected_dtype: StorageType::UInt16,
            accessor: Accessor::U16,
            row_value_ty: ValueKind::UInt16,
        },
        PrimitiveType::U32 => TypeMap {
            primitive: p,
            expected_dtype: StorageType::UInt32,
            accessor: Accessor::U32,
            row_value_ty: ValueKind::UInt32,
        },
        PrimitiveType::U64 => TypeMap {
            primitive: p,
            expected_dtype: StorageType::UInt64,
            accessor: Accessor::U64,
            row_value_ty: ValueKind::UInt64,
        },
        PrimitiveType::I32 => TypeMap {
            primitive: p,
            expected_dtype: StorageType::Int32,
            accessor: Accessor::I32,
            row_value_ty: ValueKind::Int32,
        },
        PrimitiveType::I64 => TypeMap {
            primitive: p,
            expected_dtype: StorageType::Int64,
            accessor: Accessor::I64,
            row_value_ty: ValueKind::Int64,
        },
        PrimitiveType::F32 => TypeMap {
            primitive: p,
            expected_dtype: StorageType::Float32,
            accessor: Accessor::F32,
            row_value_ty: ValueKind::Float32,
        },
        PrimitiveType::F64 => TypeMap {
            primitive: p,
            expected_dtype: StorageType::Float64,
            accessor: Accessor::F64,
            row_value_ty: ValueKind::Float64,
        },
        PrimitiveType::Bool => TypeMap {
            primitive: p,
            expected_dtype: StorageType::Boolean,
            accessor: Accessor::Bool,
            row_value_ty: ValueKind::Boolean,
        },
        PrimitiveType::String => TypeMap {
            primitive: p,
            expected_dtype: StorageType::String,
            accessor: Accessor::Str,
            row_value_ty: ValueKind::Text,
        },
    }
}

/// Every entry of the catalog is coherent: its accessor reads columns of the
/// expected storage type and yields values of the row value type, and no
/// entry expects a storage type outside the catalog.
pub proof fn lemma_catalog_coherent(p: PrimitiveType)
    ensures
        type_map(p).primitive == p,
        type_map(p).accessor.storage() == type_map(p).expected_dtype,
        type_map(p).accessor.kind() == type_map(p).row_value_ty,
        !(type_map(p).expected_dtype is Other),
{
}

/// Two different field types never expect the same storage type.
pub proof fn lemma_catalog_injective(p: PrimitiveType, q: PrimitiveType)
    requires
        type_map(p).expected_dtype == type_map(q).expected_dtype,
    ensures
        p == q,
{
}

/// A type as a schema author writes it, as far as the catalog reads it.
#[derive(Debug, PartialEq, Eq)]
pub enum TypeExpr {
    /// A path such as `u32`, `Option<u16>` or `std::string::String`.
    Path {
        /// Whether the path is qualified by a self type, as in `<T as Tr>::Out`.
        qself: bool,
        /// The segments of the path, in order.
        segments: Vec<PathSegment>,
    },
    /// Any other type: a reference, a tuple, an array and so on.
    Other,
}

/// One segment of a path.
#[derive(Debug, PartialEq, Eq)]
pub struct PathSegment {
    pub ident: String,
    pub arguments: PathArguments,
}

/// What follows the identifier of a path segment.
#[derive(Debug, PartialEq, Eq)]
pub enum PathArguments {
    /// Nothing, as in `u32`.
    Empty,
    /// Arguments in angle brackets, as in `Option<u16>`.
    AngleBracketed(Vec<GenericArgument>),
    /// Arguments in round brackets, as in `Fn(u8) -> u8`.
    Parenthesized,
}

/// One argument in angle brackets.
#[derive(Debug, PartialEq, Eq)]
pub enum GenericArgument {
    /// A type.
    Type(TypeExpr),
    /// A lifetime, a constant or a binding.
    Other,
}

/// The type argument of a type written as `Option<T>`: a path of the single
/// segment `Option`, unqualified, whose first argument in angle brackets is a
/// type. `None` for every other type.
pub open spec fn option_argument(ty: TypeExpr) -> Option<TypeExpr> {
    match ty {
        TypeExpr::Path { qself, segments } => {
            if !qself && segments@.len() == 1 && segments@[0].ident@ == "Option"@ {
                match segments@[0].arguments {
                    PathArguments::AngleBracketed(args) => {
                        if args@.len() > 0 {
                            match args@[0] {
                                GenericArgument::Type(inner) => Some(inner),
                                GenericArgument::Other => None,
                            }
                        } else {
                            None
                        }
                    },
                    _ => None,
                }
            } else {
                None
            }
        },
        TypeExpr::Other => None,
    }
}

/// Tells whether a type is written as `Option<T>`, and hands out `T` if it
/// is, the type itself if it is not.
pub fn option_inner<'a>(ty: &'a TypeExpr) -> (r: (bool, &'a TypeExpr))
    ensures
        r.0 == option_argument(*ty).is_some(),
        *r.1 == match option_argument(*ty) {
            Some(inner) => inner,
            None => *ty,
        },
{
    match ty {
        TypeExpr::Path { qself, segments } => {
            if !*qself && segments.len() == 1 && segments[0].ident.as_str().eq("Option") {
                match &segments[0].arguments {
                    PathArguments::AngleBracketed(args) => {
                        if args.len() > 0 {
                            match &args[0] {
                                GenericArgument::Type(inner) => {
                                    return (true, inner);
                                },
                                GenericArgument::Other => {},
                            }
                        }
                    },
                    _ => {},
                }
            }
        },
        TypeExpr::Other => {},
    }
    (false, ty)
}

/// The identifier of a type written as one unqualified path segment.
pub open spec fn single_ident(ty: TypeExpr) -> Option<Seq<char>> {
    match ty {
        TypeExpr::Path { qself, segments } => {
            if !qself && segments@.len() == 1 {
                Some(segments@[0].ident@)
            } else {
                None
            }
        },
        TypeExpr::Other => None,
    }
}

/// The catalog entry that a declared type selects: the entry of the field
/// type that its single identifier names.
pub open spec fn mapped_type(ty: TypeExpr) -> Option<TypeMap> {
    match single_ident(ty) {
        Some(name) => match primitive_named(name) {
            Some(p) => Some(type_map(p)),
            None => None,
        },
        None => None,
    }
}

/// Looks a declared type up in the catalog. The type must be written as a
/// single identifier; `Option<T>` is not unwrapped here.
pub fn map_type(ty: &TypeExpr) -> (r: Option<TypeMap>)
    ensures
        r == mapped_type(*ty),
{
    match ty {
        TypeExpr::Path { qself, segments } => {
            if !*qself && segments.len() == 1 {
                match PrimitiveType::from_name(segments[0].ident.as_str()) {
                    Some(p) => Some(lookup(p)),
                    None => None,
                }
            } else {
                None
            }
        },
        TypeExpr::Other => None,
    }
}

} // verus!

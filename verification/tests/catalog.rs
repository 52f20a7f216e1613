use colback::catalog::{
    lookup, map_type, option_inner, Accessor, GenericArgument, PathArguments, PathSegment,
    PrimitiveType, StorageType, TypeExpr, TypeMap,
};
use colback::value::ValueKind;

fn segment(name: &str, arguments: PathArguments) -> PathSegment {
    PathSegment { ident: name.to_string(), arguments }
}

fn plain(name: &str) -> TypeExpr {
    TypeExpr::Path { qself: false, segments: vec![segment(name, PathArguments::Empty)] }
}

fn generic(name: &str, args: Vec<GenericArgument>) -> TypeExpr {
    TypeExpr::Path {
        qself: false,
        segments: vec![segment(name, PathArguments::AngleBracketed(args))],
    }
}

const ALL: [PrimitiveType; 10] = [
    PrimitiveType::U8,
    PrimitiveType::U16,
    PrimitiveType::U32,
    PrimitiveType::U64,
    PrimitiveType::I32,
    PrimitiveType::I64,
    PrimitiveType::F32,
    PrimitiveType::F64,
    PrimitiveType::Bool,
    PrimitiveType::String,
];

#[test]
fn names_of_the_catalog() {
    let names = ["u8", "u16", "u32", "u64", "i32", "i64", "f32", "f64", "bool", "String"];
    for (p, name) in ALL.iter().zip(names.iter()) {
        assert_eq!(p.name(), *name);
        assert_eq!(PrimitiveType::from_name(name), Some(*p));
    }
}

#[test]
fn names_outside_the_catalog() {
    for name in ["", "u", "u128", "i8", "i16", "usize", "str", "string", "Bool", "U8", "u8 ", "char"] {
        assert_eq!(PrimitiveType::from_name(name), None, "{name}");
    }
}

#[test]
fn lookup_gives_each_entry() {
    assert_eq!(
        lookup(PrimitiveType::U8),
        TypeMap {
            primitive: PrimitiveType::U8,
            expected_dtype: StorageType::UInt8,
            accessor: Accessor::U8,
            row_value_ty: ValueKind::UInt8,
        }
    );
    assert_eq!(
        lookup(PrimitiveType::U64),
        TypeMap {
            primitive: PrimitiveType::U64,
            expected_dtype: StorageType::UInt64,
            accessor: Accessor::U64,
            row_value_ty: ValueKind::UInt64,
        }
    );
    assert_eq!(
        lookup(PrimitiveType::F32),
        TypeMap {
            primitive: PrimitiveType::F32,
            expected_dtype: StorageType::Float32,
            accessor: Accessor::F32,
            row_value_ty: ValueKind::Float32,
        }
    );
    assert_eq!(
        lookup(PrimitiveType::String),
        TypeMap {
            primitive: PrimitiveType::String,
            expected_dtype: StorageType::String,
            accessor: Accessor::Str,
            row_value_ty: ValueKind::Text,
        }
    );
}

#[test]
fn lookup_is_injective() {
    for p in ALL {
        assert_eq!(lookup(p).primitive, p);
        for q in ALL {
            if p != q {
                assert_ne!(lookup(p).expected_dtype, lookup(q).expected_dtype);
                assert_ne!(lookup(p).accessor, lookup(q).accessor);
                assert_ne!(lookup(p).row_value_ty, lookup(q).row_value_ty);
            }
        }
    }
}

#[test]
fn map_type_by_single_identifier() {
    assert_eq!(map_type(&plain("u32")), Some(lookup(PrimitiveType::U32)));
    assert_eq!(map_type(&plain("bool")), Some(lookup(PrimitiveType::Bool)));
    assert_eq!(map_type(&plain("String")), Some(lookup(PrimitiveType::String)));
    assert_eq!(map_type(&plain("f64")), Some(lookup(PrimitiveType::F64)));
    assert_eq!(map_type(&plain("Vec")), None);
    assert_eq!(map_type(&plain("Option")), None);
    assert_eq!(map_type(&TypeExpr::Other), None);
}

#[test]
fn map_type_wants_one_unqualified_segment() {
    let long = TypeExpr::Path {
        qself: false,
        segments: vec![
            segment("std", PathArguments::Empty),
            segment("string", PathArguments::Empty),
            segment("String", PathArguments::Empty),
        ],
    };
    assert_eq!(map_type(&long), None);
    let qualified =
        TypeExpr::Path { qself: true, segments: vec![segment("u32", PathArguments::Empty)] };
    assert_eq!(map_type(&qualified), None);
    let empty = TypeExpr::Path { qself: false, segments: vec![] };
    assert_eq!(map_type(&empty), None);
}

#[test]
fn map_type_does_not_unwrap_option() {
    let ty = generic("Option", vec![GenericArgument::Type(plain("u16"))]);
    assert_eq!(map_type(&ty), None);
    let (is_option, inner) = option_inner(&ty);
    assert!(is_option);
    assert_eq!(map_type(inner), Some(lookup(PrimitiveType::U16)));
}

#[test]
fn option_inner_of_option() {
    let ty = generic("Option", vec![GenericArgument::Type(plain("u16"))]);
    let (is_option, inner) = option_inner(&ty);
    assert!(is_option);
    assert_eq!(*inner, plain("u16"));
}

#[test]
fn option_inner_takes_the_first_argument() {
    let ty = generic(
        "Option",
        vec![GenericArgument::Type(plain("bool")), GenericArgument::Type(plain("u8"))],
    );
    let (is_option, inner) = option_inner(&ty);
    assert!(is_option);
    assert_eq!(*inner, plain("bool"));
}

#[test]
fn option_inner_unwraps_one_level() {
    let nested = generic(
        "Option",
        vec![GenericArgument::Type(generic("Option", vec![GenericArgument::Type(plain("u8"))]))],
    );
    let (is_option, inner) = option_inner(&nested);
    assert!(is_option);
    assert_eq!(*inner, generic("Option", vec![GenericArgument::Type(plain("u8"))]));
}

#[test]
fn option_inner_of_other_types() {
    let cases = vec![
        plain("u32"),
        plain("Option"),
        generic("Option", vec![]),
        generic("Option", vec![GenericArgument::Other]),
        generic("Option", vec![GenericArgument::Other, GenericArgument::Type(plain("u8"))]),
        generic("Vec", vec![GenericArgument::Type(plain("u8"))]),
        generic("option", vec![GenericArgument::Type(plain("u8"))]),
        TypeExpr::Path { qself: false, segments: vec![segment("Option", PathArguments::Parenthesized)] },
        TypeExpr::Path {
            qself: true,
            segments: vec![segment(
                "Option",
                PathArguments::AngleBracketed(vec![GenericArgument::Type(plain("u8"))]),
            )],
        },
        TypeExpr::Path {
            qself: false,
            segments: vec![
                segment("std", PathArguments::Empty),
                segment(
                    "Option",
                    PathArguments::AngleBracketed(vec![GenericArgument::Type(plain("u8"))]),
                ),
            ],
        },
        TypeExpr::Path { qself: false, segments: vec![] },
        TypeExpr::Other,
    ];
    for ty in &cases {
        let (is_option, inner) = option_inner(ty);
        assert!(!is_option, "{ty:?}");
        assert_eq!(inner, ty);
    }
}

#[test]
fn storage_types_compare_by_kind_and_name() {
    assert!(StorageType::UInt8.same_as(&StorageType::UInt8));
    assert!(StorageType::String.same_as(&StorageType::String));
    assert!(!StorageType::UInt8.same_as(&StorageType::UInt16));
    assert!(!StorageType::Int32.same_as(&StorageType::UInt32));
    assert!(!StorageType::Float32.same_as(&StorageType::Float64));
    assert!(StorageType::Other("date".to_string()).same_as(&StorageType::Other("date".to_string())));
    assert!(!StorageType::Other("date".to_string()).same_as(&StorageType::Other("time".to_string())));
    assert!(!StorageType::Other("u8".to_string()).same_as(&StorageType::UInt8));
    assert!(!StorageType::UInt8.same_as(&StorageType::Other("u8".to_string())));
}

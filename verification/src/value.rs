//! Cell values: what a row holds for one field, and its mathematical content.

use vstd::prelude::*;

verus! {

/// The type of a value in a row.
#[derive(Clone, Copy, Debug, PartialEq, Eq, Structural)]
pub enum ValueKind {
    UInt8,
    UInt16,
    UInt32,
    UInt64,
    Int32,
    Int64,
    Float32,
    Float64,
    Boolean,
    Text,
}

/// The mathematical content of one non-null cell.
pub enum Scalar {
    UInt8(u8),
    UInt16(u16),
    UInt32(u32),
    UInt64(u64),
    Int32(i32),
    Int64(i64),
    /// IEEE-754 single precision, by its bit pattern.
    Float32(u32),
    /// IEEE-754 double precision, by its bit pattern.
    Float64(u64),
    Boolean(bool),
    Text(Seq<char>),
}

impl Scalar {
    pub open spec fn kind(self) -> ValueKind {
        match self {
            Scalar::UInt8(_) => ValueKind::UInt8,
            Scalar::UInt16(_) => ValueKind::UInt16,
            Scalar::UInt32(_) => ValueKind::UInt32,
            Scalar::UInt64(_) => ValueKind::UInt64,
            Scalar::Int32(_) => ValueKind::Int32,
            Scalar::Int64(_) => ValueKind::Int64,
            Scalar::Float32(_) => ValueKind::Float32,
            Scalar::Float64(_) => ValueKind::Float64,
            Scalar::Boolean(_) => ValueKind::Boolean,
            Scalar::Text(_) => ValueKind::Text,
        }
    }
}

/// One non-null value, as a row hands it out. Text is borrowed from where it
/// is stored; a floating-point number is carried by its IEEE-754 bit pattern.
#[derive(Clone, Copy, Debug, PartialEq, Eq)]
pub enum Value<'a> {
    UInt8(u8),
    UInt16(u16),
    UInt32(u32),
    UInt64(u64),
    Int32(i32),
    Int64(i64),
    Float32(u32),
    Float64(u64),
    Boolean(bool),
    Text(&'a str),
}

impl<'a> View for Value<'a> {
    type V = Scalar;

    open spec fn view(&self) -> Scalar {
        match *self {
            Value::UInt8(v) => Scalar::UInt8(v),
            Value::UInt16(v) => Scalar::UInt16(v),
            Value::UInt32(v) => Scalar::UInt32(v),
            Value::UInt64(v) => Scalar::UInt64(v),
            Value::Int32(v) => Scalar::Int32(v),
            Value::Int64(v) => Scalar::Int64(v),
            Value::Float32(v) => Scalar::Float32(v),
            Value::Float64(v) => Scalar::Float64(v),
            Value::Boolean(v) => Scalar::Boolean(v),
            Value::Text(s) => Scalar::Text(s@),
        }
    }
}

impl<'a> Value<'a> {
    /// The type of this value.
    pub fn kind(&self) -> (k: ValueKind)
        ensures
            k == self@.kind(),
    {
        match self {
            Value::UInt8(_) => ValueKind::UInt8,
            Value::UInt16(_) => ValueKind::UInt16,
            Value::UInt32(_) => ValueKind::UInt32,
            Value::UInt64(_) => ValueKind::UInt64,
            Value::Int32(_) => ValueKind::Int32,
            Value::Int64(_) => ValueKind::Int64,
            Value::Float32(_) => ValueKind::Float32,
            Value::Float64(_) => ValueKind::Float64,
            Value::Boolean(_) => ValueKind::Boolean,
            Value::Text(_) => ValueKind::Text,
        }
    }
}

/// The mathematical content of one field of a row.
pub enum FieldScalar {
    /// A field that always has a value.
    Required(Scalar),
    /// A field that a null cell leaves empty.
    Optional(Option<Scalar>),
}

/// What a row holds for one field.
#[derive(Clone, Copy, Debug, PartialEq, Eq)]
pub enum FieldValue<'a> {
    /// A field that always has a value.
    Required(Value<'a>),
    /// A field that a null cell leaves empty.
    Optional(Option<Value<'a>>),
}

/// The content of an optional value.
pub open spec fn optional_scalar(v: Option<Value<'_>>) -> Option<Scalar> {
    match v {
        Some(x) => Some(x@),
        None => None,
    }
}

impl<'a> View for FieldValue<'a> {
    type V = FieldScalar;

    open spec fn view(&self) -> FieldScalar {
        match *self {
            FieldValue::Required(v) => FieldScalar::Required(v@),
            FieldValue::Optional(v) => FieldScalar::Optional(optional_scalar(v)),
        }
    }
}

/// A literal as a schema author writes it for a default value, before it
/// has a type. A floating-point literal comes rounded to both precisions,
/// each by its IEEE-754 bit pattern.
#[derive(Clone, Copy, Debug, PartialEq, Eq)]
pub enum Literal<'a> {
    Int(i128),
    Float { single: u32, double: u64 },
    Bool(bool),
    Str(&'a str),
}

/// The value that a literal stands for where a value of the given type is
/// wanted: an integer literal for an integer type that holds it, a
/// floating-point literal for a floating-point type, a boolean for the
/// boolean type, a string for text. `None` for every other pair.
pub open spec fn typed_literal<'a>(lit: Literal<'a>, kind: ValueKind) -> Option<Value<'a>> {
    match (lit, kind) {
        (Literal::Int(n), ValueKind::UInt8) => if 0 <= n <= u8::MAX {
            Some(Value::UInt8(n as u8))
        } else {
            None
        },
        (Literal::Int(n), ValueKind::UInt16) => if 0 <= n <= u16::MAX {
            Some(Value::UInt16(n as u16))
        } else {
            None
        },
        (Literal::Int(n), ValueKind::UInt32) => if 0 <= n <= u32::MAX {
            Some(Value::UInt32(n as u32))
        } else {
            None
        },
        (Literal::Int(n), ValueKind::UInt64) => if 0 <= n <= u64::MAX {
            Some(Value::UInt64(n as u64))
        } else {
            None
        },
        (Literal::Int(n), ValueKind::Int32) => if i32::MIN <= n <= i32::MAX {
            Some(Value::Int32(n as i32))
        } else {
            None
        },
        (Literal::Int(n), ValueKind::Int64) => if i64::MIN <= n <= i64::MAX {
            Some(Value::Int64(n as i64))
        } else {
            None
        },
        (Literal::Float { single, double }, ValueKind::Float32) => Some(Value::Float32(single)),
        (Literal::Float { single, double }, ValueKind::Float64) => Some(Value::Float64(double)),
        (Literal::Bool(b), ValueKind::Boolean) => Some(Value::Boolean(b)),
        (Literal::Str(s), ValueKind::Text) => Some(Value::Text(s)),
        _ => None,
    }
}

/// Gives a literal the type that is wanted, if it can have it.
pub fn type_literal<'a>(lit: Literal<'a>, kind: ValueKind) -> (r: Option<Value<'a>>)
    ensures
        r == typed_literal(lit, kind),
        r matches Some(v) ==> v@.kind() == kind,
{
    match lit {
        Literal::Int(n) => match kind {
            ValueKind::UInt8 => if 0 <= n && n <= 0xff {
                Some(Value::UInt8(n as u8))
            } else {
                None
            },
            ValueKind::UInt16 => if 0 <= n && n <= 0xffff {
                Some(Value::UInt16(n as u16))
            } else {
                None
            },
            ValueKind::UInt32 => if 0 <= n && n <= 0xffff_ffff {
                Some(Value::UInt32(n as u32))
            } else {
                None
            },
            ValueKind::UInt64 => if 0 <= n && n <= 0xffff_ffff_ffff_ffff {
                Some(Value::UInt64(n as u64))
            } else {
                None
            },
            ValueKind::Int32 => if -0x8000_0000 <= n && n <= 0x7fff_ffff {
                Some(Value::Int32(n as i32))
            } else {
                None
            },
            ValueKind::Int64 => if -0x8000_0000_0000_0000 <= n && n <= 0x7fff_ffff_ffff_ffff {
                Some(Value::Int64(n as i64))
            } else {
                None
            },
            _ => None,
        },
        Literal::Float { single, double } => match kind {
            ValueKind::Float32 => Some(Value::Float32(single)),
            ValueKind::Float64 => Some(Value::Float64(double)),
            _ => None,
        },
        Literal::Bool(b) => match kind {
            ValueKind::Boolean => Some(Value::Boolean(b)),
            _ => None,
        },
        Literal::Str(s) => match kind {
            ValueKind::Text => Some(Value::Text(s)),
            _ => None,
        },
    }
}

} // verus!

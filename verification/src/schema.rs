//! Row schemas: the declaration of a row type, its validation, and its
//! compilation from the form in which an author writes it.

use vstd::prelude::*;
use crate::catalog::{
    lookup, map_type, mapped_type, option_argument, option_inner, type_map, PrimitiveType,
    TypeExpr,
};
use crate::error::ColbackError;
use crate::value::{type_literal, typed_literal, Literal, Value, ValueKind};

verus! {

/// What becomes of a null cell.
#[derive(Clone, Copy, Debug, PartialEq, Eq, Structural)]
pub enum NullPolicy {
    /// Reading the row fails.
    Error,
    /// The field is empty.
    AsOptional,
    /// The field takes its default value.
    Default,
}

/// The type of a field: a supported type, bare or wrapped in `Option`.
#[derive(Clone, Copy, Debug, PartialEq, Eq, Structural)]
pub enum DeclaredType {
    Plain(PrimitiveType),
    Optional(PrimitiveType),
}

impl DeclaredType {
    pub open spec fn spec_primitive(self) -> PrimitiveType {
        match self {
            DeclaredType::Plain(p) => p,
            DeclaredType::Optional(p) => p,
        }
    }

    pub open spec fn spec_is_optional(self) -> bool {
        self is Optional
    }

    /// The supported type inside.
    #[verifier::when_used_as_spec(spec_primitive)]
    pub fn primitive(self) -> (p: PrimitiveType)
        ensures
            p == self.spec_primitive(),
    {
        match self {
            DeclaredType::Plain(p) => p,
            DeclaredType::Optional(p) => p,
        }
    }

    /// Whether the type is wrapped in `Option`.
    #[verifier::when_used_as_spec(spec_is_optional)]
    pub fn is_optional(self) -> (r: bool)
        ensures
            r == self.spec_is_optional(),
    {
        match self {
            DeclaredType::Plain(_) => false,
            DeclaredType::Optional(_) => true,
        }
    }
}

/// One field of a row schema.
#[derive(Debug, PartialEq, Eq)]
pub struct FieldSpec<'a> {
    /// The name of the field in the row.
    pub name: String,
    pub declared_type: DeclaredType,
    /// The name of the column that the field reads.
    pub source_column: String,
    pub null_policy: NullPolicy,
    /// The value that stands in for a null cell under the policy `Default`.
    pub default_value: Option<Value<'a>>,
}

impl<'a> FieldSpec<'a> {
    /// The first rule that the field breaks, taken by itself: the policy
    /// `AsOptional` goes with an optional type and no other does; a default
    /// value goes with the policy `Default` and no other does; the default
    /// value is of the field's type.
    pub open spec fn definition_error(self) -> Option<ColbackError> {
        if (self.null_policy == NullPolicy::AsOptional) != self.declared_type.is_optional() {
            Some(
                ColbackError::PolicyMismatch {
                    field: self.name,
                    optional: self.declared_type.is_optional(),
                },
            )
        } else if self.null_policy == NullPolicy::Default && self.default_value is None {
            Some(ColbackError::MissingDefault { field: self.name })
        } else if self.null_policy != NullPolicy::Default && self.default_value is Some {
            Some(ColbackError::UnexpectedDefault { field: self.name })
        } else {
            match self.default_value {
                Some(d) => if d@.kind() != type_map(self.declared_type.primitive()).row_value_ty {
                    Some(
                        ColbackError::DefaultTypeMismatch {
                            field: self.name,
                            wanted: type_map(self.declared_type.primitive()).row_value_ty,
                        },
                    )
                } else {
                    None
                },
                None => None,
            }
        }
    }

    /// The type of the values that a row holds for the field.
    pub open spec fn value_kind(self) -> ValueKind {
        type_map(self.declared_type.primitive()).row_value_ty
    }

    /// Checks the field by itself.
    pub fn validate(&self) -> (r: Result<(), ColbackError>)
        ensures
            match r {
                Ok(_) => self.definition_error() is None,
                Err(e) => self.definition_error() == Some(e),
            },
    {
        let optional = self.declared_type.is_optional();
        let wants_optional = match self.null_policy {
            NullPolicy::AsOptional => true,
            _ => false,
        };
        let wants_default = match self.null_policy {
            NullPolicy::Default => true,
            _ => false,
        };
        if wants_optional != optional {
            return Err(ColbackError::PolicyMismatch { field: self.name.clone(), optional });
        }
        match self.default_value {
            None => {
                if wants_default {
                    return Err(ColbackError::MissingDefault { field: self.name.clone() });
                }
            },
            Some(d) => {
                if !wants_default {
                    return Err(ColbackError::UnexpectedDefault { field: self.name.clone() });
                }
                let wanted = lookup(self.declared_type.primitive()).row_value_ty;
                if d.kind() != wanted {
                    return Err(
                        ColbackError::DefaultTypeMismatch { field: self.name.clone(), wanted },
                    );
                }
            },
        }
        Ok(())
    }
}

/// Whether one of the fields has that name.
pub open spec fn name_taken(fields: Seq<FieldSpec<'_>>, name: Seq<char>) -> bool {
    exists|j: int| 0 <= j < fields.len() && #[trigger] fields[j].name@ == name
}

/// The first rule that a field breaks when it follows the fields `earlier`:
/// its own rules first, then that its name is new.
pub open spec fn field_error_after(earlier: Seq<FieldSpec<'_>>, f: FieldSpec<'_>) -> Option<
    ColbackError,
> {
    match f.definition_error() {
        Some(e) => Some(e),
        None => if name_taken(earlier, f.name@) {
            Some(ColbackError::DuplicateField { field: f.name })
        } else {
            None
        },
    }
}

/// The error of the first of the first `n` fields that breaks a rule.
pub open spec fn first_error(fields: Seq<FieldSpec<'_>>, n: nat) -> Option<ColbackError>
    decreases n,
{
    if n == 0 {
        None
    } else {
        match first_error(fields, (n - 1) as nat) {
            Some(e) => Some(e),
            None => field_error_after(fields.take(n - 1), fields[n - 1]),
        }
    }
}

/// The error of a sequence of fields taken as a schema: that of its first
/// field that breaks a rule, `None` if the fields form a valid schema.
pub open spec fn schema_error(fields: Seq<FieldSpec<'_>>) -> Option<ColbackError> {
    first_error(fields, fields.len())
}

/// An error among the first `n` fields is the error of every longer prefix.
pub proof fn lemma_first_error_stays(fields: Seq<FieldSpec<'_>>, n: nat, m: nat)
    requires
        n <= m,
        first_error(fields, n) is Some,
    ensures
        first_error(fields, m) == first_error(fields, n),
    decreases m,
{
    if n < m {
        lemma_first_error_stays(fields, n, (m - 1) as nat);
    }
}

/// The error of a prefix does not depend on the fields after it.
pub proof fn lemma_first_error_prefix(a: Seq<FieldSpec<'_>>, b: Seq<FieldSpec<'_>>, n: nat)
    requires
        n <= a.len(),
        n <= b.len(),
        a.take(n as int) == b.take(n as int),
    ensures
        first_error(a, n) == first_error(b, n),
    decreases n,
{
    if n > 0 {
        assert(a.take(n - 1) == a.take(n as int).take(n - 1));
        assert(b.take(n - 1) == b.take(n as int).take(n - 1));
        assert(a[n - 1] == a.take(n as int)[n - 1]);
        assert(b[n - 1] == b.take(n as int)[n - 1]);
        lemma_first_error_prefix(a, b, (n - 1) as nat);
    }
}

/// In a valid schema every field keeps its own rules, and its name is not
/// that of an earlier field.
pub proof fn lemma_valid_field(fields: Seq<FieldSpec<'_>>, k: int)
    requires
        schema_error(fields) is None,
        0 <= k < fields.len(),
    ensures
        fields[k].definition_error() is None,
        !name_taken(fields.take(k), fields[k].name@),
{
    if first_error(fields, (k + 1) as nat) is Some {
        lemma_first_error_stays(fields, (k + 1) as nat, fields.len());
    }
    assert(field_error_after(fields.take(k), fields[k]) is None);
}

/// In a valid schema no two fields have the same name.
pub proof fn lemma_names_unique(fields: Seq<FieldSpec<'_>>, i: int, j: int)
    requires
        schema_error(fields) is None,
        0 <= i < j < fields.len(),
    ensures
        fields[i].name@ != fields[j].name@,
{
    lemma_valid_field(fields, j);
    assert(fields.take(j)[i] == fields[i]);
}

/// Checks a field against the first `n` of `fields`, which precede it.
fn check_field(fields: &Vec<FieldSpec<'_>>, n: usize, f: &FieldSpec<'_>) -> (r: Result<
    (),
    ColbackError,
>)
    requires
        n <= fields.len(),
    ensures
        match r {
            Ok(_) => field_error_after(fields@.take(n as int), *f) is None,
            Err(e) => field_error_after(fields@.take(n as int), *f) == Some(e),
        },
{
    match f.validate() {
        Err(e) => {
            return Err(e);
        },
        Ok(_) => {},
    }
    let mut j: usize = 0;
    while j < n
        invariant
            j <= n <= fields.len(),
            f.definition_error() is None,
            forall|k: int| 0 <= k < j ==> fields@[k].name@ != f.name@,
        decreases n - j,
    {
        if fields[j].name.as_str().eq(f.name.as_str()) {
            assert(fields@.take(n as int)[j as int].name@ == f.name@);
            return Err(ColbackError::DuplicateField { field: f.name.clone() });
        }
        j += 1;
    }
    Ok(())
}

/// Checks that the fields form a valid schema: each field keeps its own
/// rules and no name occurs twice. The first field that breaks a rule gives
/// the error.
pub fn validate(fields: &Vec<FieldSpec<'_>>) -> (r: Result<(), ColbackError>)
    ensures
        match r {
            Ok(_) => schema_error(fields@) is None,
            Err(e) => schema_error(fields@) == Some(e) && e.is_definition_error(),
        },
{
    let mut i: usize = 0;
    while i < fields.len()
        invariant
            i <= fields.len(),
            first_error(fields@, i as nat) is None,
        decreases fields.len() - i,
    {
        match check_field(fields, i, &fields[i]) {
            Err(e) => {
                proof {
                    lemma_first_error_stays(fields@, (i + 1) as nat, fields@.len());
                }
                return Err(e);
            },
            Ok(_) => {},
        }
        i += 1;
    }
    Ok(())
}

/// A valid row schema: an ordered set of fields, each of which keeps its own
/// rules, with no name used twice.
#[derive(Debug)]
pub struct RowSchema<'a> {
    fields: Vec<FieldSpec<'a>>,
}

impl<'a> View for RowSchema<'a> {
    type V = Seq<FieldSpec<'a>>;

    closed spec fn view(&self) -> Seq<FieldSpec<'a>> {
        self.fields@
    }
}

impl<'a> RowSchema<'a> {
    #[verifier::type_invariant]
    spec fn valid(&self) -> bool {
        schema_error(self.fields@) is None
    }

    /// Makes a schema of the fields if they form a valid one, and says which
    /// rule the first offending field breaks if they do not.
    pub fn new(fields: Vec<FieldSpec<'a>>) -> (r: Result<RowSchema<'a>, ColbackError>)
        ensures
            match r {
                Ok(s) => s@ == fields@ && schema_error(fields@) is None,
                Err(e) => schema_error(fields@) == Some(e) && e.is_definition_error(),
            },
    {
        match validate(&fields) {
            Ok(_) => Ok(RowSchema { fields }),
            Err(e) => Err(e),
        }
    }

    /// The fields, in the order of their declaration.
    pub fn fields(&self) -> (r: &Vec<FieldSpec<'a>>)
        ensures
            r@ == self@,
            schema_error(r@) is None,
    {
        proof {
            use_type_invariant(self);
        }
        &self.fields
    }

    /// The number of fields.
    pub fn len(&self) -> (n: usize)
        ensures
            n == self@.len(),
    {
        self.fields.len()
    }

    /// The position of the field of that name, which is the only one of
    /// that name; `None` if there is none.
    pub fn index_of(&self, name: &str) -> (r: Option<usize>)
        ensures
            match r {
                Some(i) => {
                    &&& i < self@.len()
                    &&& self@[i as int].name@ == name@
                    &&& forall|k: int| 0 <= k < self@.len() && k != i ==> self@[k].name@ != name@
                },
                None => !name_taken(self@, name@),
            },
    {
        proof {
            use_type_invariant(self);
        }
        let mut i: usize = 0;
        while i < self.fields.len()
            invariant
                i <= self.fields.len(),
                schema_error(self.fields@) is None,
                forall|k: int| 0 <= k < i ==> self.fields@[k].name@ != name@,
            decreases self.fields.len() - i,
        {
            if self.fields[i].name.as_str().eq(name) {
                proof {
                    assert forall|k: int| i < k < self.fields@.len() implies self.fields@[k].name@
                        != name@ by {
                        lemma_names_unique(self.fields@, i as int, k);
                    }
                }
                return Some(i);
            }
            i += 1;
        }
        None
    }
}

/// One field as its author declares it.
#[derive(Debug, PartialEq, Eq)]
pub struct FieldOpts<'a> {
    /// The name of the field; `None` for a field of a tuple struct.
    pub ident: Option<String>,
    /// The type of the field as it is written.
    pub ty: TypeExpr,
    /// The name of the column that the field reads; the field's own name if
    /// none is given.
    pub name: Option<String>,
    /// The null policy: `error`, `option` or `default`; `error` if none is
    /// given.
    pub null: Option<String>,
    /// The value that stands in for a null cell, as it is written.
    pub default: Option<Literal<'a>>,
}

/// The fields of a struct as it is declared.
#[derive(Debug, PartialEq, Eq)]
pub enum Fields<'a> {
    Named(Vec<FieldOpts<'a>>),
    Unnamed,
    Unit,
}

/// The body of a type declaration.
#[derive(Debug, PartialEq, Eq)]
pub enum Data<'a> {
    Struct(Fields<'a>),
    Enum,
    Union,
}

/// A type declaration from which a row schema is derived.
#[derive(Debug, PartialEq, Eq)]
pub struct DeriveInput<'a> {
    /// The name of the type.
    pub ident: String,
    pub data: Data<'a>,
}

/// The null policy that a word names.
pub open spec fn policy_named(word: Seq<char>) -> Option<NullPolicy> {
    if word == "error"@ {
        Some(NullPolicy::Error)
    } else if word == "option"@ {
        Some(NullPolicy::AsOptional)
    } else if word == "default"@ {
        Some(NullPolicy::Default)
    } else {
        None
    }
}

/// Reads the name of a null policy.
pub fn parse_null_policy(word: &str) -> (r: Option<NullPolicy>)
    ensures
        r == policy_named(word@),
{
    if word.eq("error") {
        Some(NullPolicy::Error)
    } else if word.eq("option") {
        Some(NullPolicy::AsOptional)
    } else if word.eq("default") {
        Some(NullPolicy::Default)
    } else {
        None
    }
}

/// The field that a declaration stands for: named by its identifier, of the
/// catalog type that its written type selects (`Option<T>` selects what `T`
/// does, as an optional type), reading the column of the given name or of
/// its own, under the named policy or `Error`, with the written default
/// value in the field's value type. The error says what is amiss first: the
/// missing identifier, the type, the name of the policy, the type of the
/// default value.
pub open spec fn compiled_field<'a>(opts: FieldOpts<'a>) -> Result<FieldSpec<'a>, ColbackError> {
    let inner = match option_argument(opts.ty) {
        Some(t) => t,
        None => opts.ty,
    };
    let policy = match opts.null {
        None => Some(NullPolicy::Error),
        Some(word) => policy_named(word@),
    };
    match opts.ident {
        None => Err(ColbackError::UnnamedFields),
        Some(ident) => match mapped_type(inner) {
            None => Err(ColbackError::UnsupportedType { field: ident }),
            Some(map) => match policy {
                None => Err(
                    ColbackError::UnknownNullPolicy { field: ident, policy: opts.null->0 },
                ),
                Some(null_policy) => if opts.default matches Some(lit) && typed_literal(
                    lit,
                    map.row_value_ty,
                ) is None {
                    Err(
                        ColbackError::DefaultTypeMismatch {
                            field: ident,
                            wanted: map.row_value_ty,
                        },
                    )
                } else {
                    Ok(
                        FieldSpec {
                            name: ident,
                            declared_type: if option_argument(opts.ty) is Some {
                                DeclaredType::Optional(map.primitive)
                            } else {
                                DeclaredType::Plain(map.primitive)
                            },
                            source_column: match opts.name {
                                Some(n) => n,
                                None => ident,
                            },
                            null_policy,
                            default_value: match opts.default {
                                Some(lit) => typed_literal(lit, map.row_value_ty),
                                None => None,
                            },
                        },
                    )
                },
            },
        },
    }
}

/// Turns the declaration of one field into the field it stands for, or says
/// what keeps it from standing for one.
pub fn compile_field<'a>(opts: &FieldOpts<'a>) -> (r: Result<FieldSpec<'a>, ColbackError>)
    ensures
        r == compiled_field(*opts),
{
    let ident = match &opts.ident {
        Some(ident) => ident,
        None => {
            return Err(ColbackError::UnnamedFields);
        },
    };
    let (optional, inner) = option_inner(&opts.ty);
    let map = match map_type(inner) {
        Some(map) => map,
        None => {
            return Err(ColbackError::UnsupportedType { field: ident.clone() });
        },
    };
    let null_policy = match &opts.null {
        None => NullPolicy::Error,
        Some(word) => match parse_null_policy(word.as_str()) {
            Some(p) => p,
            None => {
                return Err(
                    ColbackError::UnknownNullPolicy { field: ident.clone(), policy: word.clone() },
                );
            },
        },
    };
    let default_value = match opts.default {
        None => None,
        Some(lit) => match type_literal(lit, map.row_value_ty) {
            Some(v) => Some(v),
            None => {
                return Err(
                    ColbackError::DefaultTypeMismatch {
                        field: ident.clone(),
                        wanted: map.row_value_ty,
                    },
                );
            },
        },
    };
    let source_column = match &opts.name {
        Some(n) => n.clone(),
        None => ident.clone(),
    };
    Ok(
        FieldSpec {
            name: ident.clone(),
            declared_type: if optional {
                DeclaredType::Optional(map.primitive)
            } else {
                DeclaredType::Plain(map.primitive)
            },
            source_column,
            null_policy,
            default_value,
        },
    )
}

/// The schema of the first `n` declared fields: each is compiled and then
/// checked against those before it, in order; the first error ends it.
pub open spec fn derived_prefix<'a>(opts: Seq<FieldOpts<'a>>, n: nat) -> Result<
    Seq<FieldSpec<'a>>,
    ColbackError,
>
    decreases n,
{
    if n == 0 {
        Ok(Seq::empty())
    } else {
        match derived_prefix(opts, (n - 1) as nat) {
            Err(e) => Err(e),
            Ok(earlier) => match compiled_field(opts[n - 1]) {
                Err(e) => Err(e),
                Ok(f) => match field_error_after(earlier, f) {
                    Some(e) => Err(e),
                    None => Ok(earlier.push(f)),
                },
            },
        }
    }
}

/// The schema that a type declaration stands for: that of its named fields,
/// if it is a struct with named fields.
pub open spec fn derived_schema<'a>(input: DeriveInput<'a>) -> Result<
    Seq<FieldSpec<'a>>,
    ColbackError,
> {
    match input.data {
        Data::Struct(Fields::Named(named)) => derived_prefix(named@, named@.len()),
        Data::Struct(_) => Err(ColbackError::UnnamedFields),
        _ => Err(ColbackError::NotAStruct),
    }
}

/// An error among the first `n` declared fields is the error of every
/// longer prefix.
pub proof fn lemma_derived_error_stays(opts: Seq<FieldOpts<'_>>, n: nat, m: nat)
    requires
        n <= m,
        derived_prefix(opts, n) is Err,
    ensures
        derived_prefix(opts, m) == derived_prefix(opts, n),
    decreases m,
{
    if n < m {
        lemma_derived_error_stays(opts, n, (m - 1) as nat);
    }
}

/// What is derived without error is a valid schema, with one field for each
/// declared field.
pub proof fn lemma_derived_is_valid(opts: Seq<FieldOpts<'_>>, n: nat)
    requires
        derived_prefix(opts, n) is Ok,
    ensures
        derived_prefix(opts, n)->Ok_0.len() == n,
        schema_error(derived_prefix(opts, n)->Ok_0) is None,
    decreases n,
{
    if n > 0 {
        lemma_derived_is_valid(opts, (n - 1) as nat);
        let earlier = derived_prefix(opts, (n - 1) as nat)->Ok_0;
        let all = derived_prefix(opts, n)->Ok_0;
        assert(all.take(n - 1) == earlier);
        assert(earlier.take(n - 1) == earlier);
        lemma_first_error_prefix(all, earlier, (n - 1) as nat);
    }
}

/// Derives the row schema of a type declaration. The declaration must be a
/// struct with named fields; each field is compiled and checked in the order
/// of declaration, and the first error ends the derivation.
pub fn derive_colback_view<'a>(input: &DeriveInput<'a>) -> (r: Result<RowSchema<'a>, ColbackError>)
    ensures
        match r {
            Ok(schema) => derived_schema(*input) == Ok::<Seq<FieldSpec<'a>>, ColbackError>(
                schema@,
            ) && schema_error(schema@) is None,
            Err(e) => derived_schema(*input) == Err::<Seq<FieldSpec<'a>>, ColbackError>(e)
                && e.is_definition_error(),
        },
{
    let named = match &input.data {
        Data::Struct(Fields::Named(named)) => named,
        Data::Struct(_) => {
            return Err(ColbackError::UnnamedFields);
        },
        _ => {
            return Err(ColbackError::NotAStruct);
        },
    };
    let mut specs: Vec<FieldSpec<'a>> = Vec::new();
    let mut i: usize = 0;
    while i < named.len()
        invariant
            i <= named.len(),
            derived_schema(*input) == derived_prefix(named@, named@.len()),
            derived_prefix(named@, i as nat) == Ok::<Seq<FieldSpec<'a>>, ColbackError>(specs@),
        decreases named.len() - i,
    {
        let f = match compile_field(&named[i]) {
            Ok(f) => f,
            Err(e) => {
                proof {
                    lemma_derived_error_stays(named@, (i + 1) as nat, named@.len());
                }
                return Err(e);
            },
        };
        proof {
            assert(specs@.take(specs@.len() as int) == specs@);
        }
        match check_field(&specs, specs.len(), &f) {
            Ok(_) => {},
            Err(e) => {
                proof {
                    lemma_derived_error_stays(named@, (i + 1) as nat, named@.len());
                }
                return Err(e);
            },
        }
        specs.push(f);
        i += 1;
    }
    proof {
        lemma_derived_is_valid(named@, named@.len());
    }
    Ok(RowSchema { fields: specs })
}

} // verus!

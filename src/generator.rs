use vstd::prelude::*;
use vstd::string::*;

use crate::DEFAULT_INITIAL_VALUE;

verus! {

/// How a field's type is written in a declaration.
pub enum FieldType {
    /// A path such as `u8` or `std::num::Wrapping<u8>`, one entry per segment.
    Path(Vec<String>),
    /// Any other form: a tuple, an array, a reference and the like.
    Other,
}

/// The field list of a structure.
pub enum Fields {
    /// Fields with names: `struct Id { value: u8 }`.
    Named(Vec<FieldType>),
    /// Positional fields: `struct Id(u8)`.
    Unnamed(Vec<FieldType>),
    /// No field list: `struct Id;`.
    Unit,
}

/// What a type declaration declares.
pub enum Data {
    Struct(Fields),
    Enum,
    Union,
}

/// The parts of a type declaration that decide whether a counter capability
/// can be generated for it.
pub struct TypeDecl {
    /// How many generic parameters (lifetimes, types, constants) it declares.
    pub n_generics: usize,
    pub data: Data,
}

/// The unsigned integer categories that can back an identifier.
#[derive(Debug, Clone, Copy, PartialEq, Eq, Structural)]
pub enum BackingKind {
    U8,
    U16,
    U32,
    U64,
    Usize,
}

/// Why no capability can be generated for a declaration.
#[derive(Debug, Clone, Copy, PartialEq, Eq, Structural)]
pub enum DeriveError {
    /// The type declares generic parameters.
    HasGenerics,
    /// The type is not a structure with exactly one positional field.
    NotNewtype,
    /// The single field's type is not a supported unsigned integer.
    UnsupportedInnerType,
}

/// Options of the generator.
pub struct Attributes {
    /// The raw value of the first identifier of a fresh sequence.
    pub initial_value: u64,
}

/// What the sequential capability of a validated type is made of.
pub struct IncrementalImpl {
    pub inner_type: BackingKind,
    pub initial_value: u64,
}

/// What the atomic capability of a validated type is made of.
pub struct AsyncIncrementalImpl {
    pub inner_type: BackingKind,
    pub initial_value: u64,
    /// The name of the atomic storage type in `std::sync::atomic`.
    pub atomic_type: String,
}

/// The name of the integer type of a backing category.
pub open spec fn integer_name_spec(k: BackingKind) -> Seq<char> {
    match k {
        BackingKind::U8 => "u8"@,
        BackingKind::U16 => "u16"@,
        BackingKind::U32 => "u32"@,
        BackingKind::U64 => "u64"@,
        BackingKind::Usize => "usize"@,
    }
}

/// The atomic storage type of a backing category: the integer's name with
/// its leading `u` replaced by `AtomicU`.
pub open spec fn atomic_name_spec(k: BackingKind) -> Seq<char> {
    "AtomicU"@ + integer_name_spec(k).skip(1)
}

/// The backing category that a type name denotes, if any.
pub open spec fn backing_of_name_spec(name: Seq<char>) -> Option<BackingKind> {
    if name == "u8"@ {
        Some(BackingKind::U8)
    } else if name == "u16"@ {
        Some(BackingKind::U16)
    } else if name == "u32"@ {
        Some(BackingKind::U32)
    } else if name == "u64"@ {
        Some(BackingKind::U64)
    } else if name == "usize"@ {
        Some(BackingKind::Usize)
    } else {
        None
    }
}

/// The backing category of a field type, if it is one.
pub open spec fn field_backing_spec(ty: FieldType) -> Option<BackingKind> {
    match ty {
        FieldType::Path(segs) => if segs@.len() == 1 {
            backing_of_name_spec(segs@[0]@)
        } else {
            None
        },
        FieldType::Other => None,
    }
}

/// The backing category of a structure's field list, or the rule it breaks.
pub open spec fn inner_type_spec(fields: Fields) -> Result<BackingKind, DeriveError> {
    match fields {
        Fields::Unnamed(tys) => if tys@.len() != 1 {
            Err(DeriveError::NotNewtype)
        } else {
            match field_backing_spec(tys@[0]) {
                Some(k) => Ok(k),
                None => Err(DeriveError::UnsupportedInnerType),
            }
        },
        _ => Err(DeriveError::NotNewtype),
    }
}

/// The backing category of a declaration, or the first rule it breaks:
/// no generics, then a single positional field, then a supported integer.
pub open spec fn validate_spec(decl: TypeDecl) -> Result<BackingKind, DeriveError> {
    if decl.n_generics > 0 {
        Err(DeriveError::HasGenerics)
    } else {
        match decl.data {
            Data::Struct(fields) => inner_type_spec(fields),
            _ => Err(DeriveError::NotNewtype),
        }
    }
}

/// The diagnostic of each rejection.
pub open spec fn message_spec(e: DeriveError) -> Seq<char> {
    match e {
        DeriveError::HasGenerics => "Incremental type must not have generics"@,
        DeriveError::NotNewtype => "Incremental attribute available only for struct with a single unnamed field"@,
        DeriveError::UnsupportedInnerType => "Incremental may be implemented only for u8, u16, u32, u64 and usize inner type"@,
    }
}

impl BackingKind {
    /// The name of the integer type.
    pub fn integer_name(&self) -> (r: &'static str)
        ensures
            r@ == integer_name_spec(*self),
    {
        match self {
            BackingKind::U8 => "u8",
            BackingKind::U16 => "u16",
            BackingKind::U32 => "u32",
            BackingKind::U64 => "u64",
            BackingKind::Usize => "usize",
        }
    }

    /// The name of the matching atomic storage type, built from the integer's
    /// name by the fixed template.
    pub fn atomic_name(&self) -> (r: String)
        ensures
            r@ == atomic_name_spec(*self),
    {
        let name = self.integer_name();
        proof {
            reveal_strlit("u8");
            reveal_strlit("u16");
            reveal_strlit("u32");
            reveal_strlit("u64");
            reveal_strlit("usize");
        }
        let len = name.unicode_len();
        let mut r = "AtomicU".to_owned();
        r.append(name.substring_char(1, len));
        r
    }

    /// The backing category that `name` denotes, if any.
    pub fn from_name(name: &String) -> (r: Option<BackingKind>)
        ensures
            r == backing_of_name_spec(name@),
    {
        if *name == "u8".to_owned() {
            Some(BackingKind::U8)
        } else if *name == "u16".to_owned() {
            Some(BackingKind::U16)
        } else if *name == "u32".to_owned() {
            Some(BackingKind::U32)
        } else if *name == "u64".to_owned() {
            Some(BackingKind::U64)
        } else if *name == "usize".to_owned() {
            Some(BackingKind::Usize)
        } else {
            None
        }
    }
}

impl DeriveError {
    /// The diagnostic that names the broken rule.
    pub fn message(&self) -> (r: &'static str)
        ensures
            r@ == message_spec(*self),
    {
        match self {
            DeriveError::HasGenerics => "Incremental type must not have generics",
            DeriveError::NotNewtype => "Incremental attribute available only for struct with a single unnamed field",
            DeriveError::UnsupportedInnerType => "Incremental may be implemented only for u8, u16, u32, u64 and usize inner type",
        }
    }
}

impl Default for Attributes {
    fn default() -> (r: Self)
        ensures
            r.initial_value == DEFAULT_INITIAL_VALUE,
    {
        Attributes { initial_value: DEFAULT_INITIAL_VALUE }
    }
}

/// The generator's options; none can be set yet, so these are the defaults.
pub fn parse_attrs() -> (r: Attributes)
    ensures
        r.initial_value == DEFAULT_INITIAL_VALUE,
{
    Attributes::default()
}

/// The backing category of a field type, if it is one.
pub fn field_backing(ty: &FieldType) -> (r: Option<BackingKind>)
    ensures
        r == field_backing_spec(*ty),
{
    match ty {
        FieldType::Path(segs) => if segs.len() == 1 {
            BackingKind::from_name(&segs[0])
        } else {
            None
        },
        FieldType::Other => None,
    }
}

/// The backing category of a structure's field list: it must be exactly one
/// positional field of a supported unsigned integer type.
pub fn get_inner_type(fields: &Fields) -> (r: Result<BackingKind, DeriveError>)
    ensures
        r == inner_type_spec(*fields),
{
    match fields {
        Fields::Unnamed(tys) => if tys.len() != 1 {
            Err(DeriveError::NotNewtype)
        } else {
            match field_backing(&tys[0]) {
                Some(k) => Ok(k),
                None => Err(DeriveError::UnsupportedInnerType),
            }
        },
        _ => Err(DeriveError::NotNewtype),
    }
}

/// The sequential capability for a structure with the given field list.
pub fn impl_incremental(fields: &Fields, attributes: Attributes) -> (r: Result<
    IncrementalImpl,
    DeriveError,
>)
    ensures
        match inner_type_spec(*fields) {
            Ok(k) => r matches Ok(g) && g.inner_type == k && g.initial_value
                == attributes.initial_value,
            Err(e) => r == Err::<IncrementalImpl, DeriveError>(e),
        },
{
    let inner_type = get_inner_type(fields)?;
    Ok(IncrementalImpl { inner_type, initial_value: attributes.initial_value })
}

/// The atomic capability for a structure with the given field list: its
/// atomic storage type is the one of the field's width.
pub fn impl_async_incremental(fields: &Fields, attributes: Attributes) -> (r: Result<
    AsyncIncrementalImpl,
    DeriveError,
>)
    ensures
        match inner_type_spec(*fields) {
            Ok(k) => r matches Ok(g) && g.inner_type == k && g.initial_value
                == attributes.initial_value && g.atomic_type@ == atomic_name_spec(k),
            Err(e) => r matches Err(e2) && e2 == e,
        },
{
    let inner_type = get_inner_type(fields)?;
    let atomic_type = inner_type.atomic_name();
    Ok(AsyncIncrementalImpl { inner_type, initial_value: attributes.initial_value, atomic_type })
}

/// Validates a declaration for the sequential capability and describes the
/// implementation to emit, or names the first rule it breaks.
pub fn incremental(decl: &TypeDecl) -> (r: Result<IncrementalImpl, DeriveError>)
    ensures
        match validate_spec(*decl) {
            Ok(k) => r matches Ok(g) && g.inner_type == k && g.initial_value
                == DEFAULT_INITIAL_VALUE,
            Err(e) => r == Err::<IncrementalImpl, DeriveError>(e),
        },
{
    if decl.n_generics > 0 {
        return Err(DeriveError::HasGenerics);
    }
    let attrs = parse_attrs();
    match &decl.data {
        Data::Struct(fields) => impl_incremental(fields, attrs),
        _ => Err(DeriveError::NotNewtype),
    }
}

/// Validates a declaration for the atomic capability and describes the
/// implementation to emit, or names the first rule it breaks.
pub fn async_incremental(decl: &TypeDecl) -> (r: Result<AsyncIncrementalImpl, DeriveError>)
    ensures
        match validate_spec(*decl) {
            Ok(k) => r matches Ok(g) && g.inner_type == k && g.initial_value
                == DEFAULT_INITIAL_VALUE && g.atomic_type@ == atomic_name_spec(k),
            Err(e) => r matches Err(e2) && e2 == e,
        },
{
    if decl.n_generics > 0 {
        return Err(DeriveError::HasGenerics);
    }
    let attrs = parse_attrs();
    match &decl.data {
        Data::Struct(fields) => impl_async_incremental(fields, attrs),
        _ => Err(DeriveError::NotNewtype),
    }
}

proof fn lemma_integer_names()
    ensures
        forall|k: BackingKind| #![trigger integer_name_spec(k)] integer_name_spec(k).len() >= 2 && integer_name_spec(k)[0] == 'u'
            && backing_of_name_spec(integer_name_spec(k)) == Some(k),
{
    reveal_strlit("u8");
    reveal_strlit("u16");
    reveal_strlit("u32");
    reveal_strlit("u64");
    reveal_strlit("usize");
    assert("u8"@.len() == 2 && "u16"@.len() == 3 && "u32"@.len() == 3 && "u64"@.len() == 3
        && "usize"@.len() == 5);
    assert("u16"@[1] == '1' && "u32"@[1] == '3' && "u64"@[1] == '6');
    assert("u8"@[0] == 'u' && "u16"@[0] == 'u' && "u32"@[0] == 'u' && "u64"@[0] == 'u'
        && "usize"@[0] == 'u');
    assert("u8"@ != "u16"@ && "u8"@ != "u32"@ && "u8"@ != "u64"@ && "u8"@ != "usize"@);
    assert("u16"@ != "u32"@ && "u16"@ != "u64"@ && "u16"@ != "usize"@);
    assert("u32"@ != "u64"@ && "u32"@ != "usize"@ && "u64"@ != "usize"@);
}

/// The name of a declaration's field type, where the declaration is a
/// structure with exactly one positional field whose type is a one-segment
/// path.
pub open spec fn sole_field_name(decl: TypeDecl) -> Option<Seq<char>> {
    match decl.data {
        Data::Struct(Fields::Unnamed(tys)) => if tys@.len() == 1 {
            match tys@[0] {
                FieldType::Path(segs) => if segs@.len() == 1 {
                    Some(segs@[0]@)
                } else {
                    None
                },
                FieldType::Other => None,
            }
        } else {
            None
        },
        _ => None,
    }
}

/// A declaration gets a capability exactly when it has no generic parameters
/// and is a structure with one positional field whose type is written as the
/// bare name of a supported unsigned integer; the capability is then backed
/// by that integer.
pub proof fn lemma_accepts_exactly_newtypes(decl: TypeDecl, k: BackingKind)
    ensures
        validate_spec(decl) == Ok::<BackingKind, DeriveError>(k) <==> decl.n_generics == 0
            && sole_field_name(decl) == Some(integer_name_spec(k)),
{
    lemma_integer_names();
    if decl.data is Struct && decl.data->Struct_0 is Unnamed {
        let tys = decl.data->Struct_0->Unnamed_0;
        if tys@.len() == 1 && tys@[0] is Path {
            let segs = tys@[0]->Path_0;
            if segs@.len() == 1 {
                assert(field_backing_spec(tys@[0]) == backing_of_name_spec(segs@[0]@));
                if backing_of_name_spec(segs@[0]@) == Some(k) {
                    assert(segs@[0]@ == integer_name_spec(k));
                }
            }
        }
    }
}

/// The shapes that the generator turns down, each with the rule it names:
/// generic parameters; more than one positional field; named fields; and a
/// single field of a signed integer type (a name that starts with `i`).
pub proof fn lemma_generator_rejects(decl: TypeDecl)
    ensures
        decl.n_generics > 0 ==> validate_spec(decl) == Err::<BackingKind, DeriveError>(
            DeriveError::HasGenerics,
        ),
        decl.data matches Data::Struct(Fields::Unnamed(tys)) && decl.n_generics == 0
            && tys@.len() >= 2 ==> validate_spec(decl) == Err::<BackingKind, DeriveError>(
            DeriveError::NotNewtype,
        ),
        decl.data matches Data::Struct(Fields::Named(_)) && decl.n_generics == 0
            ==> validate_spec(decl) == Err::<BackingKind, DeriveError>(DeriveError::NotNewtype),
        decl.n_generics == 0 && sole_field_name(decl) is Some && sole_field_name(
            decl,
        )->Some_0.len() > 0 && sole_field_name(decl)->Some_0[0] == 'i' ==> validate_spec(decl)
            == Err::<BackingKind, DeriveError>(DeriveError::UnsupportedInnerType),
{
    lemma_integer_names();
    reveal_strlit("u8");
    reveal_strlit("u16");
    reveal_strlit("u32");
    reveal_strlit("u64");
    reveal_strlit("usize");
}

/// Every backing width has its own atomic storage type, of that same width:
/// the mapping is total and no two widths share an atomic type.
pub proof fn lemma_atomic_type_matches_width(k1: BackingKind, k2: BackingKind)
    ensures
        atomic_name_spec(BackingKind::U8) == "AtomicU8"@,
        atomic_name_spec(BackingKind::U16) == "AtomicU16"@,
        atomic_name_spec(BackingKind::U32) == "AtomicU32"@,
        atomic_name_spec(BackingKind::U64) == "AtomicU64"@,
        atomic_name_spec(BackingKind::Usize) == "AtomicUsize"@,
        k1 != k2 ==> atomic_name_spec(k1) != atomic_name_spec(k2),
{
    reveal_strlit("u8");
    reveal_strlit("u16");
    reveal_strlit("u32");
    reveal_strlit("u64");
    reveal_strlit("usize");
    reveal_strlit("AtomicU");
    reveal_strlit("AtomicU8");
    reveal_strlit("AtomicU16");
    reveal_strlit("AtomicU32");
    reveal_strlit("AtomicU64");
    reveal_strlit("AtomicUsize");
    assert(atomic_name_spec(BackingKind::U8) =~= "AtomicU8"@);
    assert(atomic_name_spec(BackingKind::U16) =~= "AtomicU16"@);
    assert(atomic_name_spec(BackingKind::U32) =~= "AtomicU32"@);
    assert(atomic_name_spec(BackingKind::U64) =~= "AtomicU64"@);
    assert(atomic_name_spec(BackingKind::Usize) =~= "AtomicUsize"@);
    if k1 != k2 {
        assert(atomic_name_spec(k1)[7] != atomic_name_spec(k2)[7] || atomic_name_spec(k1)[8]
            != atomic_name_spec(k2)[8] || atomic_name_spec(k1).len() != atomic_name_spec(k2).len());
    }
}

} // verus!

//! The rules the `UniformBuffer` and `Vertex` derives follow: the byte size
//! of each uniform buffer field, the format and location of each vertex
//! field, and the shader stage named by the `stage` option.
//!
//! A field's type is described by what the derives read of its syntax.
use vstd::prelude::*;
use crate::vulkan::flags::ShaderStageFlags;
use crate::vulkan::pipeline::{is_vk_format_32, vk_format_components, vk_format_type, NumericType};

verus! {

/// Whether a string spells the literal.
pub fn spells(s: &String, lit: &str) -> (r: bool)
    ensures
        r == (s@ == lit@),
{
    *s == lit.to_owned()
}

/// The element type of an array type.
#[derive(Debug)]
pub enum ArrayElement {
    /// A path that is a single identifier
    Ident(String),
    /// A path that is not a single identifier
    PathWithoutIdent,
    /// Not a path
    NotPath,
}

/// The length of an array type.
#[derive(Debug)]
pub enum ArrayLength {
    /// An integer literal that fits in 32 bits
    Int(u32),
    /// An integer literal too large for 32 bits
    IntOutOfRange,
    /// Not an integer literal
    NotInt,
}

/// What the derives read of a field's type.
#[derive(Debug)]
pub enum FieldType {
    /// A path type: the identifiers of its segments, and the path as a single
    /// identifier where it is one
    Path { segments: Vec<String>, ident: Option<String> },
    /// An array type
    Array { elem: ArrayElement, len: ArrayLength },
    /// Any other type
    Other,
}

/// A named field of a struct.
#[derive(Debug)]
pub struct FieldInfo {
    pub name: String,
    pub ty: FieldType,
}

/// Why a field cannot be described.
#[derive(Clone, Copy, Debug, PartialEq, Eq, Structural)]
pub enum FieldErrorKind {
    /// A `glam` type other than Vec2, Vec3, Vec4, Mat2, Mat3 and Mat4
    UnsupportedGlamType,
    /// A two-segment path not from `glam`
    NotGlamType,
    /// A single-identifier type other than `u32`
    UnsupportedType,
    /// A single-segment path that is not a plain identifier
    PathWithoutIdent,
    /// A path of no or more than two segments
    TooManySegments,
    /// An array whose element type is not a path
    ArrayTypeUnreadable,
    /// An array whose element type is not a single identifier
    ArrayIdentMissing,
    /// An array whose length is not an integer literal
    UnexpectedArrayLength,
    /// An array whose length does not fit in 32 bits
    ArrayLengthOutOfRange,
    /// A uniform buffer array whose elements are not `f32`
    NotF32Array,
    /// A vertex array of other than 1 to 4 elements
    InvalidArrayLength,
    /// A vertex array whose elements are neither `f32` nor `i32`
    InvalidArrayType,
    /// A vertex field that is not an array
    NotArray,
    /// Any other type
    UnsupportedFieldType,
}

/// A field that cannot be described: its name, why, and the type named
/// where the reason names one.
#[derive(Debug)]
pub struct FieldError {
    pub field: String,
    pub kind: FieldErrorKind,
    pub named_type: Option<String>,
}

/// The byte size of a `glam` type, by its name.
pub open spec fn glam_size(ty: Seq<char>) -> Option<usize> {
    if ty == "Vec2"@ { Some(8usize) }
    else if ty == "Vec3"@ { Some(12usize) }
    else if ty == "Vec4"@ { Some(16usize) }
    else if ty == "Mat2"@ { Some(16usize) }
    else if ty == "Mat3"@ { Some(36usize) }
    else if ty == "Mat4"@ { Some(64usize) }
    else { None }
}

/// The byte size of a uniform buffer field of this type, or why it has none
/// (with the type named where the reason names one).
pub open spec fn field_size(ty: &FieldType) -> Result<usize, (FieldErrorKind, Option<Seq<char>>)> {
    match ty {
        FieldType::Path { segments, ident } => {
            if segments.len() == 2 {
                if segments@[0]@ == "glam"@ {
                    match glam_size(segments@[1]@) {
                        Some(n) => Ok(n),
                        None => Err((FieldErrorKind::UnsupportedGlamType, Some(segments@[1]@))),
                    }
                } else {
                    Err((FieldErrorKind::NotGlamType, None))
                }
            } else if segments.len() == 1 {
                match ident {
                    None => Err((FieldErrorKind::PathWithoutIdent, None)),
                    Some(id) => if id@ == "u32"@ { Ok(4usize) } else { Err((FieldErrorKind::UnsupportedType, Some(id@))) },
                }
            } else {
                Err((FieldErrorKind::TooManySegments, None))
            }
        },
        FieldType::Array { elem, len } => match elem {
            ArrayElement::NotPath => Err((FieldErrorKind::ArrayTypeUnreadable, None)),
            ArrayElement::PathWithoutIdent => Err((FieldErrorKind::ArrayIdentMissing, None)),
            ArrayElement::Ident(e) => match len {
                ArrayLength::NotInt => Err((FieldErrorKind::UnexpectedArrayLength, None)),
                ArrayLength::IntOutOfRange => Err((FieldErrorKind::ArrayLengthOutOfRange, None)),
                ArrayLength::Int(n) => if e@ != "f32"@ {
                    Err((FieldErrorKind::NotF32Array, None))
                } else {
                    Ok((4 * *n) as usize)
                },
            },
        },
        FieldType::Other => Err((FieldErrorKind::UnsupportedFieldType, None)),
    }
}

/// The number of 32-bit float components of a `glam` vector or matrix type:
/// N for VecN, N columns of N for MatN.
pub open spec fn glam_components(ty: Seq<char>) -> Option<nat> {
    if ty == "Vec2"@ { Some(2nat) }
    else if ty == "Vec3"@ { Some(3nat) }
    else if ty == "Vec4"@ { Some(4nat) }
    else if ty == "Mat2"@ { Some(2nat * 2) }
    else if ty == "Mat3"@ { Some(3nat * 3) }
    else if ty == "Mat4"@ { Some(4nat * 4) }
    else { None }
}

/// A uniform buffer field takes four bytes per 32-bit component: a `glam`
/// vector or matrix its components, a `u32` one, an `[f32; n]` array n; no
/// other field has a size.
pub proof fn lemma_field_size_four_bytes_per_component(ty: &FieldType)
    ensures
        match ty {
            FieldType::Path { segments, ident } => if segments.len() == 2 {
                if segments@[0]@ == "glam"@ {
                    match glam_components(segments@[1]@) {
                        Some(c) => field_size(ty) == Ok::<usize, (FieldErrorKind, Option<Seq<char>>)>((4 * c) as usize),
                        None => field_size(ty) is Err,
                    }
                } else {
                    field_size(ty) is Err
                }
            } else if segments.len() == 1 {
                match ident {
                    Some(id) => if id@ == "u32"@ {
                        field_size(ty) == Ok::<usize, (FieldErrorKind, Option<Seq<char>>)>(4usize)
                    } else {
                        field_size(ty) is Err
                    },
                    None => field_size(ty) is Err,
                }
            } else {
                field_size(ty) is Err
            },
            FieldType::Array { elem, len } => match (elem, len) {
                (ArrayElement::Ident(e), ArrayLength::Int(n)) => if e@ == "f32"@ {
                    field_size(ty) == Ok::<usize, (FieldErrorKind, Option<Seq<char>>)>((4 * *n) as usize)
                } else {
                    field_size(ty) is Err
                },
                _ => field_size(ty) is Err,
            },
            FieldType::Other => field_size(ty) is Err,
        },
{
}

/// Whether a uniform buffer array field's byte size fits in 32 bits.
pub open spec fn array_size_fits(ty: &FieldType) -> bool {
    ty matches FieldType::Array { len: ArrayLength::Int(n), .. } ==> 4 * *n <= u32::MAX
}

/// Whether an error result agrees with the expected kind and type name.
pub open spec fn error_agrees(e: FieldError, field: Seq<char>, expected: (FieldErrorKind, Option<Seq<char>>)) -> bool {
    &&& e.field@ == field
    &&& e.kind == expected.0
    &&& match expected.1 {
        None => e.named_type is None,
        Some(t) => e.named_type matches Some(n) && n@ == t,
    }
}

/// The error for a field.
fn field_error(field: &String, kind: FieldErrorKind, named_type: Option<String>) -> (e: FieldError)
    ensures
        e.field@ == field@,
        e.kind == kind,
        e.named_type == named_type,
{
    FieldError { field: field.clone(), kind, named_type }
}

/// The byte size of a uniform buffer field, or why it has none: the error
/// the `UniformBuffer` derive reports for the field.
pub fn field_size_of(field: &FieldInfo) -> (r: Result<usize, FieldError>)
    requires
        array_size_fits(&field.ty),
    ensures
        match field_size(&field.ty) {
            Ok(n) => r matches Ok(m) && m == n,
            Err(expected) => r matches Err(e) && error_agrees(e, field.name@, expected),
        },
{
    match &field.ty {
        FieldType::Path { segments, ident } => {
            if segments.len() == 2 {
                if spells(&segments[0], "glam") {
                    let ty = &segments[1];
                    if spells(ty, "Vec2") {
                        Ok(8)
                    } else if spells(ty, "Vec3") {
                        Ok(12)
                    } else if spells(ty, "Vec4") {
                        Ok(16)
                    } else if spells(ty, "Mat2") {
                        Ok(16)
                    } else if spells(ty, "Mat3") {
                        Ok(36)
                    } else if spells(ty, "Mat4") {
                        Ok(64)
                    } else {
                        Err(field_error(&field.name, FieldErrorKind::UnsupportedGlamType, Some(ty.clone())))
                    }
                } else {
                    Err(field_error(&field.name, FieldErrorKind::NotGlamType, None))
                }
            } else if segments.len() == 1 {
                match ident {
                    None => Err(field_error(&field.name, FieldErrorKind::PathWithoutIdent, None)),
                    Some(id) => {
                        if spells(id, "u32") {
                            Ok(4)
                        } else {
                            Err(field_error(&field.name, FieldErrorKind::UnsupportedType, Some(id.clone())))
                        }
                    },
                }
            } else {
                Err(field_error(&field.name, FieldErrorKind::TooManySegments, None))
            }
        },
        FieldType::Array { elem, len } => match elem {
            ArrayElement::NotPath => Err(field_error(&field.name, FieldErrorKind::ArrayTypeUnreadable, None)),
            ArrayElement::PathWithoutIdent => Err(field_error(&field.name, FieldErrorKind::ArrayIdentMissing, None)),
            ArrayElement::Ident(e) => match len {
                ArrayLength::NotInt => Err(field_error(&field.name, FieldErrorKind::UnexpectedArrayLength, None)),
                ArrayLength::IntOutOfRange => Err(field_error(&field.name, FieldErrorKind::ArrayLengthOutOfRange, None)),
                ArrayLength::Int(n) => {
                    if !spells(e, "f32") {
                        Err(field_error(&field.name, FieldErrorKind::NotF32Array, None))
                    } else {
                        Ok((4 * *n) as usize)
                    }
                },
            },
        },
        FieldType::Other => Err(field_error(&field.name, FieldErrorKind::UnsupportedFieldType, None)),
    }
}

/// The byte size of a uniform buffer field of a supported type (see
/// [field_size]); the derive rejects a field of any other type, which
/// [field_size_of] describes.
pub fn get_field_size(field: &FieldInfo) -> (r: usize)
    requires
        field_size(&field.ty) is Ok,
        array_size_fits(&field.ty),
    ensures
        field_size(&field.ty) == Ok::<usize, (FieldErrorKind, Option<Seq<char>>)>(r),
{
    match field_size_of(field) {
        Ok(n) => n,
        Err(_) => {
            proof { assert(false); }
            0
        },
    }
}

/// The byte sizes of the fields of a uniform buffer struct, in order, or
/// the error of the first field that has none.
pub open spec fn field_sizes_upto(fields: Seq<FieldInfo>, n: int) -> bool {
    forall|i: int| 0 <= i < n ==> (#[trigger] field_size(&fields[i].ty)) is Ok
}

/// The byte sizes of the fields of a uniform buffer struct, in order; or the
/// error of the first field without one.
pub fn generate_field_sizes(fields: &Vec<FieldInfo>) -> (r: Result<Vec<usize>, FieldError>)
    requires
        forall|i: int| 0 <= i < fields.len() ==> array_size_fits(&(#[trigger] fields@[i]).ty),
    ensures
        match r {
            Ok(sizes) => sizes.len() == fields.len() && forall|i: int| 0 <= i < fields.len() ==>
                field_size(&(#[trigger] fields@[i]).ty) == Ok::<usize, (FieldErrorKind, Option<Seq<char>>)>(sizes@[i]),
            Err(e) => exists|k: int| 0 <= k < fields.len() && field_sizes_upto(fields@, k)
                && (field_size(&fields@[k].ty) matches Err(expected) && error_agrees(e, fields@[k].name@, expected)),
        },
{
    let mut sizes: Vec<usize> = Vec::new();
    let mut i: usize = 0;
    while i < fields.len()
        invariant
            i <= fields.len(),
            forall|k: int| 0 <= k < fields.len() ==> array_size_fits(&(#[trigger] fields@[k]).ty),
            sizes.len() == i,
            forall|k: int| 0 <= k < i ==> field_size(&(#[trigger] fields@[k]).ty) == Ok::<usize, (FieldErrorKind, Option<Seq<char>>)>(sizes@[k]),
        decreases fields.len() - i,
    {
        match field_size_of(&fields[i]) {
            Ok(n) => {
                sizes.push(n);
            },
            Err(e) => {
                assert(field_sizes_upto(fields@, i as int));
                return Err(e);
            },
        }
        i = i + 1;
    }
    Ok(sizes)
}

/// Raw `VkFormat` values of the vertex attribute formats.
pub const FORMAT_R32_SINT: i32 = 99;
pub const FORMAT_R32_SFLOAT: i32 = 100;
pub const FORMAT_R32G32_SINT: i32 = 102;
pub const FORMAT_R32G32_SFLOAT: i32 = 103;
pub const FORMAT_R32G32B32_SINT: i32 = 105;
pub const FORMAT_R32G32B32_SFLOAT: i32 = 106;
pub const FORMAT_R32G32B32A32_SINT: i32 = 108;
pub const FORMAT_R32G32B32A32_SFLOAT: i32 = 109;

/// The vertex attribute format of a field of this type: an array of one to
/// four `f32` or `i32`; or why it has none.
pub open spec fn field_format(ty: &FieldType) -> Result<i32, FieldErrorKind> {
    match ty {
        FieldType::Array { elem, len } => match elem {
            ArrayElement::NotPath => Err(FieldErrorKind::ArrayTypeUnreadable),
            ArrayElement::PathWithoutIdent => Err(FieldErrorKind::ArrayIdentMissing),
            ArrayElement::Ident(e) => match len {
                ArrayLength::NotInt => Err(FieldErrorKind::UnexpectedArrayLength),
                ArrayLength::IntOutOfRange => Err(FieldErrorKind::ArrayLengthOutOfRange),
                ArrayLength::Int(n) => if e@ == "f32"@ {
                    if n == 1 { Ok(FORMAT_R32_SFLOAT) }
                    else if n == 2 { Ok(FORMAT_R32G32_SFLOAT) }
                    else if n == 3 { Ok(FORMAT_R32G32B32_SFLOAT) }
                    else if n == 4 { Ok(FORMAT_R32G32B32A32_SFLOAT) }
                    else { Err(FieldErrorKind::InvalidArrayLength) }
                } else if e@ == "i32"@ {
                    if n == 1 { Ok(FORMAT_R32_SINT) }
                    else if n == 2 { Ok(FORMAT_R32G32_SINT) }
                    else if n == 3 { Ok(FORMAT_R32G32B32_SINT) }
                    else if n == 4 { Ok(FORMAT_R32G32B32A32_SINT) }
                    else { Err(FieldErrorKind::InvalidArrayLength) }
                } else {
                    Err(FieldErrorKind::InvalidArrayType)
                },
            },
        },
        _ => Err(FieldErrorKind::NotArray),
    }
}

/// A vertex field of an array of one to four `f32` has the format of that
/// many float components, one of `i32` the format of that many signed
/// integer components; no other field has a format.
pub proof fn lemma_field_format_matches_array(ty: &FieldType)
    ensures
        field_format(ty) is Ok <==> (ty matches FieldType::Array { elem: ArrayElement::Ident(e), len: ArrayLength::Int(n) }
            && 1 <= *n <= 4 && (e@ == "f32"@ || e@ == "i32"@)),
        field_format(ty) matches Ok(v) ==> is_vk_format_32(v)
            && (ty matches FieldType::Array { elem: ArrayElement::Ident(e), len: ArrayLength::Int(n) }
            && vk_format_components(v) == *n
            && (e@ == "f32"@ ==> vk_format_type(v) == NumericType::Float)
            && (e@ == "i32"@ ==> vk_format_type(v) == NumericType::Signed)),
{
    reveal_strlit("f32");
    reveal_strlit("i32");
    assert("f32"@ != "i32"@) by {
        assert("f32"@[0] != "i32"@[0]);
    }
    if let FieldType::Array { elem: ArrayElement::Ident(e), len: ArrayLength::Int(n) } = ty {
        if field_format(ty) is Ok {
            let v = field_format(ty)->Ok_0;
            let m = *n;
            if e@ == "f32"@ {
                if m == 1 { assert(v == 100); } else if m == 2 { assert(v == 103); }
                else if m == 3 { assert(v == 106); } else { assert(v == 109); }
            } else {
                if m == 1 { assert(v == 99); } else if m == 2 { assert(v == 102); }
                else if m == 3 { assert(v == 105); } else { assert(v == 108); }
            }
            assert(vk_format_components(v) == m);
        }
    }
}

/// The vertex attribute format of a field, or why it has none: the error
/// the `Vertex` derive reports for the field.
pub fn field_format_of(field: &FieldInfo) -> (r: Result<i32, FieldError>)
    ensures
        r matches Ok(v) ==> is_vk_format_32(v)
            && (field.ty matches FieldType::Array { elem: ArrayElement::Ident(e), len: ArrayLength::Int(n) }
            && vk_format_components(v) == n
            && (e@ == "f32"@ ==> vk_format_type(v) == NumericType::Float)
            && (e@ == "i32"@ ==> vk_format_type(v) == NumericType::Signed)),
        match field_format(&field.ty) {
            Ok(f) => r matches Ok(g) && g == f,
            Err(kind) => r matches Err(e) && e.field@ == field.name@ && e.kind == kind && e.named_type is None,
        },
{
    proof {
        lemma_field_format_matches_array(&field.ty);
    }
    match &field.ty {
        FieldType::Array { elem, len } => match elem {
            ArrayElement::NotPath => Err(field_error(&field.name, FieldErrorKind::ArrayTypeUnreadable, None)),
            ArrayElement::PathWithoutIdent => Err(field_error(&field.name, FieldErrorKind::ArrayIdentMissing, None)),
            ArrayElement::Ident(e) => match len {
                ArrayLength::NotInt => Err(field_error(&field.name, FieldErrorKind::UnexpectedArrayLength, None)),
                ArrayLength::IntOutOfRange => Err(field_error(&field.name, FieldErrorKind::ArrayLengthOutOfRange, None)),
                ArrayLength::Int(n) => {
                    let n = *n;
                    if spells(e, "f32") {
                        if n == 1 {
                            Ok(FORMAT_R32_SFLOAT)
                        } else if n == 2 {
                            Ok(FORMAT_R32G32_SFLOAT)
                        } else if n == 3 {
                            Ok(FORMAT_R32G32B32_SFLOAT)
                        } else if n == 4 {
                            Ok(FORMAT_R32G32B32A32_SFLOAT)
                        } else {
                            Err(field_error(&field.name, FieldErrorKind::InvalidArrayLength, None))
                        }
                    } else if spells(e, "i32") {
                        if n == 1 {
                            Ok(FORMAT_R32_SINT)
                        } else if n == 2 {
                            Ok(FORMAT_R32G32_SINT)
                        } else if n == 3 {
                            Ok(FORMAT_R32G32B32_SINT)
                        } else if n == 4 {
                            Ok(FORMAT_R32G32B32A32_SINT)
                        } else {
                            Err(field_error(&field.name, FieldErrorKind::InvalidArrayLength, None))
                        }
                    } else {
                        Err(field_error(&field.name, FieldErrorKind::InvalidArrayType, None))
                    }
                },
            },
        },
        _ => Err(field_error(&field.name, FieldErrorKind::NotArray, None)),
    }
}

/// The vertex attribute format of a field of a supported type (see
/// [field_format]); the derive rejects a field of any other type, which
/// [field_format_of] describes.
pub fn get_field_type(field: &FieldInfo) -> (r: i32)
    requires
        field_format(&field.ty) is Ok,
    ensures
        field_format(&field.ty) == Ok::<i32, FieldErrorKind>(r),
{
    match field_format_of(field) {
        Ok(f) => f,
        Err(_) => {
            proof { assert(false); }
            0
        },
    }
}

/// The `location` attribute of a vertex field.
#[derive(Clone, Copy, Debug, PartialEq, Eq, Structural)]
pub enum LocationAttribute {
    /// The field has no `location` attribute
    Missing,
    /// `#[location = n]` with an integer that fits in 32 bits
    Value(u32),
    /// `#[location = ..]` with anything else
    NotInteger,
    /// A `location` attribute not in the form `#[location = ..]`
    NotNameValue,
}

/// Why a vertex field's location cannot be read.
#[derive(Clone, Copy, Debug, PartialEq, Eq, Structural)]
pub enum LocationError {
    Missing,
    NotInteger,
    NotNameValue,
}

/// The location and format of a vertex field's attribute: the format is
/// read first, then the location.
pub fn attribute_location_and_format(field: &FieldInfo, location: LocationAttribute) -> (r: Result<(u32, i32), Result<FieldError, LocationError>>)
    ensures
        match field_format(&field.ty) {
            Err(kind) => r matches Err(Ok(e)) && e.field@ == field.name@ && e.kind == kind,
            Ok(f) => match location {
                LocationAttribute::Value(l) => r == Ok::<(u32, i32), Result<FieldError, LocationError>>((l, f)),
                LocationAttribute::Missing => r matches Err(Err(LocationError::Missing)),
                LocationAttribute::NotInteger => r matches Err(Err(LocationError::NotInteger)),
                LocationAttribute::NotNameValue => r matches Err(Err(LocationError::NotNameValue)),
            },
        },
{
    let format = match field_format_of(field) {
        Ok(f) => f,
        Err(e) => {
            return Err(Ok(e));
        },
    };
    match location {
        LocationAttribute::Value(l) => Ok((l, format)),
        LocationAttribute::Missing => Err(Err(LocationError::Missing)),
        LocationAttribute::NotInteger => Err(Err(LocationError::NotInteger)),
        LocationAttribute::NotNameValue => Err(Err(LocationError::NotNameValue)),
    }
}

/// The stage named by a `stage` option, once lower-cased.
pub open spec fn named_stage(name: Seq<char>) -> Option<u32> {
    if name == "vertex"@ { Some(0b1u32) }
    else if name == "fragment"@ { Some(0b10000u32) }
    else if name == "compute"@ { Some(0b100000u32) }
    else if name == "all_graphics"@ { Some(0b11111u32) }
    else { None }
}

/// Why a `stage` option names no stage.
#[derive(Clone, Copy, Debug, PartialEq, Eq, Structural)]
pub enum StageOptionError {
    /// No stage was given
    NoStage,
    /// The stage is not one of vertex, fragment, compute and all_graphics
    UnsupportedStage,
}

/// The lower-case form of a string, as `str::to_lowercase` makes it.
pub uninterp spec fn lowercase(s: Seq<char>) -> Seq<char>;

/// Lower-cases a string with `str::to_lowercase`; the contract names the
/// result, a function of the string alone.
#[verifier::external_body]
fn to_lowercase(s: &String) -> (r: String)
    ensures
        r@ == lowercase(s@),
{
    s.to_lowercase()
}

/// The shader stages a lower-cased `stage` option names.
pub fn stage_named(lower: &String) -> (r: Result<ShaderStageFlags, StageOptionError>)
    ensures
        match named_stage(lower@) {
            Some(bits) => r matches Ok(f) && f.bits == bits,
            None => r == Err::<ShaderStageFlags, StageOptionError>(StageOptionError::UnsupportedStage),
        },
{
    if spells(lower, "vertex") {
        Ok(ShaderStageFlags::vertex())
    } else if spells(lower, "fragment") {
        Ok(ShaderStageFlags::fragment())
    } else if spells(lower, "compute") {
        Ok(ShaderStageFlags::compute())
    } else if spells(lower, "all_graphics") {
        Ok(ShaderStageFlags::all_graphics())
    } else {
        Err(StageOptionError::UnsupportedStage)
    }
}

/// The shader stages a uniform buffer's `stage` option names, compared
/// without regard to case.
pub fn stage_from_option(stage: &Option<String>) -> (r: Result<ShaderStageFlags, StageOptionError>)
    ensures
        match stage {
            None => r == Err::<ShaderStageFlags, StageOptionError>(StageOptionError::NoStage),
            Some(s) => match named_stage(lowercase(s@)) {
                Some(bits) => r matches Ok(f) && f.bits == bits,
                None => r == Err::<ShaderStageFlags, StageOptionError>(StageOptionError::UnsupportedStage),
            },
        },
{
    match stage {
        None => Err(StageOptionError::NoStage),
        Some(s) => {
            let lower = to_lowercase(s);
            stage_named(&lower)
        },
    }
}

} // verus!

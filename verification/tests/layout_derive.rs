use magma::layout_derive::{
    attribute_location_and_format, field_format_of, field_size_of, generate_field_sizes, get_field_size, get_field_type, spells, stage_from_option,
    stage_named, ArrayElement, ArrayLength, FieldErrorKind, FieldInfo, FieldType, LocationAttribute, LocationError,
    StageOptionError, FORMAT_R32G32B32_SFLOAT, FORMAT_R32G32_SINT, FORMAT_R32_SFLOAT,
};

fn path(name: &str, segments: &[&str]) -> FieldInfo {
    FieldInfo {
        name: name.to_string(),
        ty: FieldType::Path {
            segments: segments.iter().map(|s| s.to_string()).collect(),
            ident: segments.last().map(|s| s.to_string()),
        },
    }
}

fn array(name: &str, elem: &str, len: u32) -> FieldInfo {
    FieldInfo {
        name: name.to_string(),
        ty: FieldType::Array { elem: ArrayElement::Ident(elem.to_string()), len: ArrayLength::Int(len) },
    }
}

fn kind_of(field: &FieldInfo) -> FieldErrorKind {
    field_size_of(field).unwrap_err().kind
}

#[test]
fn spelling() {
    assert!(spells(&"glam".to_string(), "glam"));
    assert!(!spells(&"Glam".to_string(), "glam"));
}

#[test]
fn uniform_field_sizes() {
    assert_eq!(get_field_size(&path("a", &["glam", "Vec2"])), 8);
    assert_eq!(get_field_size(&path("b", &["glam", "Vec3"])), 12);
    assert_eq!(get_field_size(&path("c", &["glam", "Vec4"])), 16);
    assert_eq!(get_field_size(&path("d", &["glam", "Mat2"])), 16);
    assert_eq!(get_field_size(&path("e", &["glam", "Mat3"])), 36);
    assert_eq!(get_field_size(&path("f", &["glam", "Mat4"])), 64);
    assert_eq!(get_field_size(&path("g", &["u32"])), 4);
    assert_eq!(get_field_size(&array("h", "f32", 5)), 20);
}

#[test]
fn uniform_field_errors() {
    let err = field_size_of(&path("q", &["glam", "Quat"])).unwrap_err();
    assert_eq!(err.field, "q");
    assert_eq!(err.kind, FieldErrorKind::UnsupportedGlamType);
    assert_eq!(err.named_type.as_deref(), Some("Quat"));
    assert_eq!(kind_of(&path("x", &["nalgebra", "Vec3"])), FieldErrorKind::NotGlamType);
    let err = field_size_of(&path("y", &["u64"])).unwrap_err();
    assert_eq!((err.kind, err.named_type.as_deref()), (FieldErrorKind::UnsupportedType, Some("u64")));
    let no_ident = FieldInfo { name: "z".to_string(), ty: FieldType::Path { segments: vec!["T".to_string()], ident: None } };
    assert_eq!(kind_of(&no_ident), FieldErrorKind::PathWithoutIdent);
    assert_eq!(kind_of(&path("w", &["a", "b", "c"])), FieldErrorKind::TooManySegments);
    let unreadable = FieldInfo { name: "v".to_string(), ty: FieldType::Array { elem: ArrayElement::NotPath, len: ArrayLength::Int(2) } };
    assert_eq!(kind_of(&unreadable), FieldErrorKind::ArrayTypeUnreadable);
    let missing = FieldInfo { name: "u".to_string(), ty: FieldType::Array { elem: ArrayElement::PathWithoutIdent, len: ArrayLength::Int(2) } };
    assert_eq!(kind_of(&missing), FieldErrorKind::ArrayIdentMissing);
    let not_int = FieldInfo { name: "t".to_string(), ty: FieldType::Array { elem: ArrayElement::Ident("f32".to_string()), len: ArrayLength::NotInt } };
    assert_eq!(kind_of(&not_int), FieldErrorKind::UnexpectedArrayLength);
    let too_big = FieldInfo { name: "s".to_string(), ty: FieldType::Array { elem: ArrayElement::Ident("f32".to_string()), len: ArrayLength::IntOutOfRange } };
    assert_eq!(kind_of(&too_big), FieldErrorKind::ArrayLengthOutOfRange);
    assert_eq!(kind_of(&array("r", "i32", 2)), FieldErrorKind::NotF32Array);
    assert_eq!(kind_of(&FieldInfo { name: "p".to_string(), ty: FieldType::Other }), FieldErrorKind::UnsupportedFieldType);
}

#[test]
fn field_sizes_of_a_struct_stop_at_the_first_error() {
    let ok = vec![path("m", &["glam", "Mat4"]), array("c", "f32", 3)];
    assert_eq!(generate_field_sizes(&ok).unwrap(), vec![64, 12]);
    let bad = vec![path("m", &["glam", "Mat4"]), path("x", &["u8"]), path("y", &["u16"])];
    assert_eq!(generate_field_sizes(&bad).unwrap_err().field, "x");
}

#[test]
fn vertex_field_formats() {
    assert_eq!(get_field_type(&array("pos", "f32", 3)), FORMAT_R32G32B32_SFLOAT);
    assert_eq!(get_field_type(&array("w", "f32", 1)), FORMAT_R32_SFLOAT);
    assert_eq!(get_field_type(&array("id", "i32", 2)), FORMAT_R32G32_SINT);
    assert_eq!(field_format_of(&array("big", "f32", 5)).unwrap_err().kind, FieldErrorKind::InvalidArrayLength);
    assert_eq!(field_format_of(&array("u", "u32", 2)).unwrap_err().kind, FieldErrorKind::InvalidArrayType);
    assert_eq!(field_format_of(&path("p", &["glam", "Vec3"])).unwrap_err().kind, FieldErrorKind::NotArray);
}

#[test]
fn vertex_field_locations() {
    let pos = array("pos", "f32", 3);
    assert_eq!(attribute_location_and_format(&pos, LocationAttribute::Value(2)).unwrap(), (2, FORMAT_R32G32B32_SFLOAT));
    assert!(matches!(attribute_location_and_format(&pos, LocationAttribute::Missing), Err(Err(LocationError::Missing))));
    assert!(matches!(attribute_location_and_format(&pos, LocationAttribute::NotInteger), Err(Err(LocationError::NotInteger))));
    assert!(matches!(attribute_location_and_format(&pos, LocationAttribute::NotNameValue), Err(Err(LocationError::NotNameValue))));
    let bad = path("p", &["glam", "Vec3"]);
    match attribute_location_and_format(&bad, LocationAttribute::Missing) {
        Err(Ok(e)) => assert_eq!(e.kind, FieldErrorKind::NotArray),
        other => panic!("unexpected {:?}", other),
    }
}

#[test]
fn stage_options_ignore_case() {
    assert_eq!(stage_from_option(&None), Err(StageOptionError::NoStage));
    assert_eq!(stage_from_option(&Some("Vertex".to_string())).unwrap().bits, 1);
    assert_eq!(stage_from_option(&Some("FRAGMENT".to_string())).unwrap().bits, 16);
    assert_eq!(stage_from_option(&Some("compute".to_string())).unwrap().bits, 32);
    assert_eq!(stage_from_option(&Some("All_Graphics".to_string())).unwrap().bits, 31);
    assert_eq!(stage_from_option(&Some("geometry".to_string())), Err(StageOptionError::UnsupportedStage));
    assert_eq!(stage_named(&"vertex".to_string()).unwrap().bits, 1);
    assert_eq!(stage_named(&"Vertex".to_string()), Err(StageOptionError::UnsupportedStage));
}

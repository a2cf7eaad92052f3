use layout_inspect::attrs::{get_serde_attrs, AttrItem};
use layout_inspect::enums::{derive_enum, EnumShape, VariantFields, VariantShape};
use layout_inspect::rename::{get_ident_name, get_ser_name};
use layout_inspect::structs::{derive_struct, DeriveError, FieldShape, StructShape};

fn nv(key: &str, value: &str) -> AttrItem {
    AttrItem::NameValue(key.to_string(), value.to_string())
}

fn ser(name: &str, rename_all: &str) -> String {
    get_ser_name(name, &None, &Some(rename_all.to_string()))
}

#[test]
fn rename_all_policies() {
    assert_eq!(ser("FieldOne", "lowercase"), "fieldone");
    assert_eq!(ser("FieldOne", "UPPERCASE"), "FIELDONE");
    assert_eq!(ser("field_one", "PascalCase"), "FieldOne");
    assert_eq!(ser("field_one", "camelCase"), "fieldOne");
    assert_eq!(ser("FieldOne", "snake_case"), "field_one");
    assert_eq!(ser("FieldOne", "SCREAMING_SNAKE_CASE"), "FIELD_ONE");
    assert_eq!(ser("FieldOne", "kebab-case"), "field-one");
    assert_eq!(ser("FieldOne", "SCREAMING-KEBAB-CASE"), "FIELD-ONE");
}

#[test]
fn explicit_rename_beats_rename_all() {
    let r = get_ser_name("field_one", &Some("exact".to_string()), &Some("camelCase".to_string()));
    assert_eq!(r, "exact");
}

#[test]
fn ident_name_strips_escape() {
    assert_eq!(get_ident_name("r#type"), "type");
    assert_eq!(get_ident_name("plain"), "plain");
    assert_eq!(get_ident_name("r#"), "");
}

#[test]
fn duplicate_attr_rejected() {
    let items = vec![nv("rename", "a"), nv("rename", "b")];
    let err = get_serde_attrs(&items, "struct field").unwrap_err();
    assert_eq!(err.key, "rename");
    assert_eq!(err.host, "struct field");

    let items = vec![nv("tag", "t"), AttrItem::Flag("untagged".to_string()), nv("tag", "u")];
    let err = get_serde_attrs(&items, "enum").unwrap_err();
    assert_eq!(err.key, "tag");
    assert_eq!(err.host, "enum");
}

#[test]
fn unrecognized_attrs_ignored() {
    let items = vec![nv("with", "path"), AttrItem::Flag("borrow".to_string()), nv("rename", "x")];
    let attrs = get_serde_attrs(&items, "struct").unwrap();
    assert_eq!(attrs.rename, Some("x".to_string()));
    assert_eq!(attrs.rename_all, None);
    assert!(!attrs.untagged && !attrs.flatten && !attrs.skip && !attrs.transparent);
}

#[test]
fn unknown_rename_all_rejected() {
    let shape = StructShape {
        name: "Foo".to_string(),
        attrs: vec![nv("rename_all", "sPoNGeCase")],
        size: Some(1),
        align: Some(1),
        fields: vec![],
    };
    match derive_struct(&shape) {
        Err(DeriveError::UnknownRenameAll { value }) => assert_eq!(value, "sPoNGeCase"),
        other => panic!("unexpected result: {:?}", other),
    }
}

#[test]
fn duplicate_field_attr_rejected() {
    let shape = StructShape {
        name: "Foo".to_string(),
        attrs: vec![],
        size: Some(1),
        align: Some(1),
        fields: vec![FieldShape {
            name: Some("num".to_string()),
            attrs: vec![nv("rename", "a"), nv("rename", "b")],
            type_id: 1,
            offset: 0,
        }],
    };
    match derive_struct(&shape) {
        Err(DeriveError::Duplicate(e)) => {
            assert_eq!(e.key, "rename");
            assert_eq!(e.host, "struct field");
        },
        other => panic!("unexpected result: {:?}", other),
    }
}

#[test]
fn unsupported_variant_shapes_rejected() {
    let named = EnumShape {
        name: "Foo".to_string(),
        attrs: vec![],
        size: 1,
        align: 1,
        variants: vec![VariantShape {
            name: "Bad".to_string(),
            attrs: vec![],
            discriminant: None,
            fields: VariantFields::Named,
        }],
    };
    match derive_enum(&named) {
        Err(DeriveError::UnsupportedVariantShape { variant }) => assert_eq!(variant, "Bad"),
        other => panic!("unexpected result: {:?}", other),
    }

    let two_payloads = EnumShape {
        name: "Foo".to_string(),
        attrs: vec![],
        size: 1,
        align: 1,
        variants: vec![VariantShape {
            name: "Wide".to_string(),
            attrs: vec![],
            discriminant: None,
            fields: VariantFields::Unnamed(vec![1, 2]),
        }],
    };
    match derive_enum(&two_payloads) {
        Err(DeriveError::UnsupportedVariantShape { variant }) => assert_eq!(variant, "Wide"),
        other => panic!("unexpected result: {:?}", other),
    }
}

#[test]
fn error_messages() {
    let shape = StructShape {
        name: "Foo".to_string(),
        attrs: vec![nv("rename", "a"), nv("rename", "b")],
        size: Some(1),
        align: Some(1),
        fields: vec![],
    };
    let err = derive_struct(&shape).unwrap_err();
    assert_eq!(err.message(), "Multiple serde `rename` tags on same struct");

    let shape = StructShape {
        name: "Foo".to_string(),
        attrs: vec![nv("rename_all", "sPoNGeCase")],
        size: Some(1),
        align: Some(1),
        fields: vec![],
    };
    let err = derive_struct(&shape).unwrap_err();
    assert_eq!(err.message(), "Unexpected `serde(rename_all)` attribute `sPoNGeCase`");
}

use layout_inspect::defs::{DefEnum, DefEnumTag, DefEnumVariant, DefPrimitive, DefStr, DefStruct,
    DefStructField, DefType};
use layout_inspect::json::{types_from_json, types_to_json};
use layout_inspect::types::Qux;
use layout_inspect::inspect;

#[test]
fn json_exact_text() {
    let types = inspect::<u8>();
    assert_eq!(
        types_to_json(&types),
        "[{\"kind\":\"primitive\",\"name\":\"u8\",\"size\":1,\"align\":1}]"
    );
}

#[test]
fn json_round_trip() {
    // A catalog touching records, wrappers, primitives and deduplicated
    // references survives the trip through the boundary text unchanged.
    let types = inspect::<Qux>();
    let json = types_to_json(&types);
    let back = types_from_json(&json).unwrap();
    assert_eq!(back, types);
    // And re-rendering the parsed catalog reproduces the text exactly.
    assert_eq!(types_to_json(&back), json);
}

#[test]
fn json_round_trip_all_shapes() {
    let types = vec![
        DefType::Struct(DefStruct {
            name: "Odd\"name\\with escapes".to_string(),
            ser_name: "serName".to_string(),
            size: None,
            align: Some(8),
            fields: vec![DefStructField {
                name: "f".to_string(),
                ser_name: "g".to_string(),
                type_id: 1,
                offset: 16,
                flatten: true,
                skip: true,
            }],
            tag: Some("type".to_string()),
            transparent: false,
        }),
        DefType::Enum(DefEnum {
            name: "E".to_string(),
            ser_name: "E".to_string(),
            size: 4,
            align: 2,
            variants: vec![
                DefEnumVariant {
                    name: "A".to_string(),
                    discriminant: 5,
                    ser_value: Some("a".to_string()),
                    value_type_id: None,
                },
                DefEnumVariant {
                    name: "B".to_string(),
                    discriminant: 6,
                    ser_value: None,
                    value_type_id: Some(0),
                },
            ],
            tag: DefEnumTag::TagAndContent { tag: "t".to_string(), content: "c".to_string() },
        }),
        DefType::Str(DefStr { name: "str".to_string(), size: None, align: 1 }),
        DefType::Primitive(DefPrimitive { name: "u8".to_string(), size: 1, align: 1 }),
    ];
    let json = types_to_json(&types);
    let back = types_from_json(&json).unwrap();
    assert_eq!(back, types);
}

#[test]
fn json_enum_tags_round_trip() {
    for tag in [
        DefEnumTag::NoTag,
        DefEnumTag::Untagged,
        DefEnumTag::Tag("kind".to_string()),
        DefEnumTag::TagAndContent { tag: "k".to_string(), content: "v".to_string() },
    ] {
        let types = vec![DefType::Enum(DefEnum {
            name: "E".to_string(),
            ser_name: "E".to_string(),
            size: 1,
            align: 1,
            variants: vec![],
            tag,
        })];
        let json = types_to_json(&types);
        assert_eq!(types_from_json(&json).unwrap(), types);
    }
}

#[test]
fn json_rejects_malformed_text() {
    assert!(types_from_json("").is_none());
    assert!(types_from_json("nonsense").is_none());
    assert!(types_from_json("[").is_none());
    assert!(types_from_json("[]extra").is_none());
    assert!(types_from_json("[{\"kind\":\"primitive\",\"name\":\"u8\"}]").is_none());
    let good = "[{\"kind\":\"primitive\",\"name\":\"u8\",\"size\":1,\"align\":1}]";
    assert!(types_from_json(good).is_some());
    let trailing = "[{\"kind\":\"primitive\",\"name\":\"u8\",\"size\":1,\"align\":1}] ";
    assert!(types_from_json(trailing).is_none());
}

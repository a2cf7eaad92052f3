use std::mem::{align_of, size_of};

use vstd::seq::Seq;

use layout_inspect::attrs::AttrItem;
use layout_inspect::defs::{DefEnum, DefEnumTag, DefEnumVariant, DefType};
use layout_inspect::enums::{derive_enum, EnumShape, VariantFields, VariantShape};
use layout_inspect::{inspect, Inspect, TypesCollector};

fn nv(key: &str, value: &str) -> AttrItem {
    AttrItem::NameValue(key.to_string(), value.to_string())
}

fn flag(key: &str) -> AttrItem {
    AttrItem::Flag(key.to_string())
}

fn unit_variant(name: &str, attrs: Vec<AttrItem>, discriminant: Option<u64>) -> VariantShape {
    VariantShape { name: name.to_string(), attrs, discriminant, fields: VariantFields::Unit }
}

fn payload_variant(name: &str, discriminant: Option<u64>, type_id: usize) -> VariantShape {
    VariantShape {
        name: name.to_string(),
        attrs: vec![],
        discriminant,
        fields: VariantFields::Unnamed(vec![type_id]),
    }
}

fn get_variant_ids(enum_def: &DefType) -> Vec<Option<usize>> {
    enum_def.to_enum().unwrap().variants.iter().map(|variant| variant.value_type_id).collect()
}

#[test]
fn enum_fieldless() {
    #[allow(dead_code)]
    enum Foo {
        Opt1,
        Opt2,
    }

    impl Inspect for Foo {
        fn key() -> Seq<char> {
            panic!()
        }

        fn name() -> String {
            "Foo".to_string()
        }

        fn size() -> Option<usize> {
            Some(size_of::<Foo>())
        }

        fn align() -> Option<usize> {
            Some(align_of::<Foo>())
        }

        fn def(_collector: &mut TypesCollector) -> DefType {
            let shape = EnumShape {
                name: Foo::name(),
                attrs: vec![],
                size: size_of::<Foo>(),
                align: align_of::<Foo>(),
                variants: vec![
                    unit_variant("Opt1", vec![], None),
                    unit_variant("Opt2", vec![], None),
                ],
            };
            DefType::Enum(derive_enum(&shape).unwrap())
        }
    }

    assert_eq!(
        inspect::<Foo>()[0],
        DefType::Enum(DefEnum {
            name: "Foo".to_string(),
            ser_name: "Foo".to_string(),
            size: 1,
            align: 1,
            variants: vec![
                DefEnumVariant {
                    name: "Opt1".to_string(),
                    discriminant: 0,
                    ser_value: Some("Opt1".to_string()),
                    value_type_id: None
                },
                DefEnumVariant {
                    name: "Opt2".to_string(),
                    discriminant: 1,
                    ser_value: Some("Opt2".to_string()),
                    value_type_id: None
                },
            ],
            tag: DefEnumTag::NoTag,
        })
    );
}

#[test]
fn enum_fieldless_raw_identifier_variant_name() {
    #[allow(dead_code)]
    enum Foo {
        First,
        Second,
    }

    impl Inspect for Foo {
        fn key() -> Seq<char> {
            panic!()
        }

        fn name() -> String {
            "Foo".to_string()
        }

        fn size() -> Option<usize> {
            Some(size_of::<Foo>())
        }

        fn align() -> Option<usize> {
            Some(align_of::<Foo>())
        }

        fn def(_collector: &mut TypesCollector) -> DefType {
            let shape = EnumShape {
                name: Foo::name(),
                attrs: vec![],
                size: size_of::<Foo>(),
                align: align_of::<Foo>(),
                variants: vec![
                    unit_variant("r#type", vec![], None),
                    unit_variant("r#enum", vec![], None),
                ],
            };
            DefType::Enum(derive_enum(&shape).unwrap())
        }
    }

    assert_eq!(
        inspect::<Foo>()[0],
        DefType::Enum(DefEnum {
            name: "Foo".to_string(),
            ser_name: "Foo".to_string(),
            size: 1,
            align: 1,
            variants: vec![
                DefEnumVariant {
                    name: "type".to_string(),
                    discriminant: 0,
                    ser_value: Some("type".to_string()),
                    value_type_id: None
                },
                DefEnumVariant {
                    name: "enum".to_string(),
                    discriminant: 1,
                    ser_value: Some("enum".to_string()),
                    value_type_id: None
                },
            ],
            tag: DefEnumTag::NoTag,
        })
    );
}

#[test]
fn enum_fieldless_with_serde_type_rename() {
    #[allow(dead_code)]
    enum Foo {
        Opt1,
        Opt2,
    }

    impl Inspect for Foo {
        fn key() -> Seq<char> {
            panic!()
        }

        fn name() -> String {
            "Foo".to_string()
        }

        fn size() -> Option<usize> {
            Some(size_of::<Foo>())
        }

        fn align() -> Option<usize> {
            Some(align_of::<Foo>())
        }

        fn def(_collector: &mut TypesCollector) -> DefType {
            let shape = EnumShape {
                name: Foo::name(),
                attrs: vec![nv("rename", "Bar")],
                size: size_of::<Foo>(),
                align: align_of::<Foo>(),
                variants: vec![
                    unit_variant("Opt1", vec![], None),
                    unit_variant("Opt2", vec![], None),
                ],
            };
            DefType::Enum(derive_enum(&shape).unwrap())
        }
    }

    assert_eq!(
        inspect::<Foo>()[0],
        DefType::Enum(DefEnum {
            name: "Foo".to_string(),
            ser_name: "Bar".to_string(),
            size: 1,
            align: 1,
            variants: vec![
                DefEnumVariant {
                    name: "Opt1".to_string(),
                    discriminant: 0,
                    ser_value: Some("Opt1".to_string()),
                    value_type_id: None
                },
                DefEnumVariant {
                    name: "Opt2".to_string(),
                    discriminant: 1,
                    ser_value: Some("Opt2".to_string()),
                    value_type_id: None
                },
            ],
            tag: DefEnumTag::NoTag,
        })
    );
}

#[test]
fn enum_fieldless_with_serde_variant_rename() {
    #[allow(dead_code)]
    enum Foo {
        Opt1,
        Opt2,
    }

    impl Inspect for Foo {
        fn key() -> Seq<char> {
            panic!()
        }

        fn name() -> String {
            "Foo".to_string()
        }

        fn size() -> Option<usize> {
            Some(size_of::<Foo>())
        }

        fn align() -> Option<usize> {
            Some(align_of::<Foo>())
        }

        fn def(_collector: &mut TypesCollector) -> DefType {
            let shape = EnumShape {
                name: Foo::name(),
                attrs: vec![],
                size: size_of::<Foo>(),
                align: align_of::<Foo>(),
                variants: vec![
                    unit_variant("Opt1", vec![nv("rename", "o1")], None),
                    unit_variant("Opt2", vec![nv("rename", "o2")], None),
                ],
            };
            DefType::Enum(derive_enum(&shape).unwrap())
        }
    }

    assert_eq!(
        inspect::<Foo>()[0],
        DefType::Enum(DefEnum {
            name: "Foo".to_string(),
            ser_name: "Foo".to_string(),
            size: 1,
            align: 1,
            variants: vec![
                DefEnumVariant {
                    name: "Opt1".to_string(),
                    discriminant: 0,
                    ser_value: Some("o1".to_string()),
                    value_type_id: None
                },
                DefEnumVariant {
                    name: "Opt2".to_string(),
                    discriminant: 1,
                    ser_value: Some("o2".to_string()),
                    value_type_id: None
                },
            ],
            tag: DefEnumTag::NoTag,
        })
    );
}

#[test]
fn enum_fieldless_with_serde_variants_rename_all() {
    #[allow(dead_code)]
    enum Foo {
        OptOne,
        OptTwo,
        OptThree,
    }

    impl Inspect for Foo {
        fn key() -> Seq<char> {
            panic!()
        }

        fn name() -> String {
            "Foo".to_string()
        }

        fn size() -> Option<usize> {
            Some(size_of::<Foo>())
        }

        fn align() -> Option<usize> {
            Some(align_of::<Foo>())
        }

        fn def(_collector: &mut TypesCollector) -> DefType {
            let shape = EnumShape {
                name: Foo::name(),
                attrs: vec![nv("rename_all", "camelCase")],
                size: size_of::<Foo>(),
                align: align_of::<Foo>(),
                variants: vec![
                    unit_variant("OptOne", vec![], None),
                    unit_variant("r#OptTwo", vec![], None),
                    unit_variant("OptThree", vec![nv("rename", "opt_three")], None),
                ],
            };
            DefType::Enum(derive_enum(&shape).unwrap())
        }
    }

    assert_eq!(
        inspect::<Foo>()[0],
        DefType::Enum(DefEnum {
            name: "Foo".to_string(),
            ser_name: "Foo".to_string(),
            size: 1,
            align: 1,
            variants: vec![
                DefEnumVariant {
                    name: "OptOne".to_string(),
                    discriminant: 0,
                    ser_value: Some("optOne".to_string()),
                    value_type_id: None
                },
                DefEnumVariant {
                    name: "OptTwo".to_string(),
                    discriminant: 1,
                    ser_value: Some("optTwo".to_string()),
                    value_type_id: None
                },
                DefEnumVariant {
                    name: "OptThree".to_string(),
                    discriminant: 2,
                    ser_value: Some("opt_three".to_string()),
                    value_type_id: None
                },
            ],
            tag: DefEnumTag::NoTag,
        })
    );
}

#[test]
fn enum_fieldless_with_discriminants() {
    #[allow(dead_code)]
    enum Foo {
        Opt1,
        Opt2,
        Opt3,
        Opt4,
    }

    impl Inspect for Foo {
        fn key() -> Seq<char> {
            panic!()
        }

        fn name() -> String {
            "Foo".to_string()
        }

        fn size() -> Option<usize> {
            Some(size_of::<Foo>())
        }

        fn align() -> Option<usize> {
            Some(align_of::<Foo>())
        }

        fn def(_collector: &mut TypesCollector) -> DefType {
            let shape = EnumShape {
                name: Foo::name(),
                attrs: vec![],
                size: size_of::<Foo>(),
                align: align_of::<Foo>(),
                variants: vec![
                    unit_variant("Opt1", vec![], Some(5)),
                    unit_variant("Opt2", vec![], Some(10)),
                    unit_variant("Opt3", vec![], None),
                    unit_variant("Opt4", vec![], None),
                ],
            };
            DefType::Enum(derive_enum(&shape).unwrap())
        }
    }

    assert_eq!(
        inspect::<Foo>()[0],
        DefType::Enum(DefEnum {
            name: "Foo".to_string(),
            ser_name: "Foo".to_string(),
            size: 1,
            align: 1,
            variants: vec![
                DefEnumVariant {
                    name: "Opt1".to_string(),
                    discriminant: 5,
                    ser_value: Some("Opt1".to_string()),
                    value_type_id: None
                },
                DefEnumVariant {
                    name: "Opt2".to_string(),
                    discriminant: 10,
                    ser_value: Some("Opt2".to_string()),
                    value_type_id: None
                },
                DefEnumVariant {
                    name: "Opt3".to_string(),
                    discriminant: 11,
                    ser_value: Some("Opt3".to_string()),
                    value_type_id: None
                },
                DefEnumVariant {
                    name: "Opt4".to_string(),
                    discriminant: 12,
                    ser_value: Some("Opt4".to_string()),
                    value_type_id: None
                },
            ],
            tag: DefEnumTag::NoTag,
        })
    );
}

#[test]
fn enum_fieldful() {
    #[allow(dead_code)]
    enum Foo {
        Opt1(u8),
        Opt2(u16),
    }

    impl Inspect for Foo {
        fn key() -> Seq<char> {
            panic!()
        }

        fn name() -> String {
            "Foo".to_string()
        }

        fn size() -> Option<usize> {
            Some(size_of::<Foo>())
        }

        fn align() -> Option<usize> {
            Some(align_of::<Foo>())
        }

        fn def(collector: &mut TypesCollector) -> DefType {
            let opt1_ty = collector.collect::<u8>();
            let opt2_ty = collector.collect::<u16>();
            let shape = EnumShape {
                name: Foo::name(),
                attrs: vec![],
                size: size_of::<Foo>(),
                align: align_of::<Foo>(),
                variants: vec![
                    payload_variant("Opt1", None, opt1_ty),
                    payload_variant("Opt2", None, opt2_ty),
                ],
            };
            DefType::Enum(derive_enum(&shape).unwrap())
        }
    }

    let type_defs = inspect::<Foo>();

    assert_eq!(
        &type_defs[0],
        &DefType::Enum(DefEnum {
            name: "Foo".to_string(),
            ser_name: "Foo".to_string(),
            size: size_of::<Foo>(),
            align: align_of::<Foo>(),
            variants: vec![
                DefEnumVariant {
                    name: "Opt1".to_string(),
                    discriminant: 0,
                    ser_value: None,
                    value_type_id: Some(1)
                },
                DefEnumVariant {
                    name: "Opt2".to_string(),
                    discriminant: 1,
                    ser_value: None,
                    value_type_id: Some(2)
                },
            ],
            tag: DefEnumTag::NoTag,
        })
    );

    let variant_ids = get_variant_ids(&type_defs[0]);
    assert_eq!(type_defs[variant_ids[0].unwrap()].name(), "u8");
    assert_eq!(type_defs[variant_ids[1].unwrap()].name(), "u16");
}

#[test]
fn enum_fieldful_with_serde_tag() {
    #[allow(dead_code)]
    enum Foo {
        Opt1(u8),
        Opt2(u16),
    }

    impl Inspect for Foo {
        fn key() -> Seq<char> {
            panic!()
        }

        fn name() -> String {
            "Foo".to_string()
        }

        fn size() -> Option<usize> {
            Some(size_of::<Foo>())
        }

        fn align() -> Option<usize> {
            Some(align_of::<Foo>())
        }

        fn def(collector: &mut TypesCollector) -> DefType {
            let opt1_ty = collector.collect::<u8>();
            let opt2_ty = collector.collect::<u16>();
            let shape = EnumShape {
                name: Foo::name(),
                attrs: vec![nv("tag", "type")],
                size: size_of::<Foo>(),
                align: align_of::<Foo>(),
                variants: vec![
                    payload_variant("Opt1", None, opt1_ty),
                    payload_variant("Opt2", None, opt2_ty),
                ],
            };
            DefType::Enum(derive_enum(&shape).unwrap())
        }
    }

    assert_eq!(
        inspect::<Foo>()[0],
        DefType::Enum(DefEnum {
            name: "Foo".to_string(),
            ser_name: "Foo".to_string(),
            size: 4,
            align: 2,
            variants: vec![
                DefEnumVariant {
                    name: "Opt1".to_string(),
                    discriminant: 0,
                    ser_value: None,
                    value_type_id: Some(1)
                },
                DefEnumVariant {
                    name: "Opt2".to_string(),
                    discriminant: 1,
                    ser_value: None,
                    value_type_id: Some(2)
                },
            ],
            tag: DefEnumTag::Tag("type".to_string()),
        })
    );
}

#[test]
fn enum_fieldful_with_serde_tag_and_content() {
    #[allow(dead_code)]
    enum Foo {
        Opt1(u8),
        Opt2(u16),
    }

    impl Inspect for Foo {
        fn key() -> Seq<char> {
            panic!()
        }

        fn name() -> String {
            "Foo".to_string()
        }

        fn size() -> Option<usize> {
            Some(size_of::<Foo>())
        }

        fn align() -> Option<usize> {
            Some(align_of::<Foo>())
        }

        fn def(collector: &mut TypesCollector) -> DefType {
            let opt1_ty = collector.collect::<u8>();
            let opt2_ty = collector.collect::<u16>();
            let shape = EnumShape {
                name: Foo::name(),
                attrs: vec![nv("tag", "t"), nv("content", "c")],
                size: size_of::<Foo>(),
                align: align_of::<Foo>(),
                variants: vec![
                    payload_variant("Opt1", None, opt1_ty),
                    payload_variant("Opt2", None, opt2_ty),
                ],
            };
            DefType::Enum(derive_enum(&shape).unwrap())
        }
    }

    assert_eq!(
        inspect::<Foo>()[0],
        DefType::Enum(DefEnum {
            name: "Foo".to_string(),
            ser_name: "Foo".to_string(),
            size: 4,
            align: 2,
            variants: vec![
                DefEnumVariant {
                    name: "Opt1".to_string(),
                    discriminant: 0,
                    ser_value: None,
                    value_type_id: Some(1)
                },
                DefEnumVariant {
                    name: "Opt2".to_string(),
                    discriminant: 1,
                    ser_value: None,
                    value_type_id: Some(2)
                },
            ],
            tag: DefEnumTag::TagAndContent { tag: "t".to_string(), content: "c".to_string() },
        })
    );
}

#[test]
fn enum_fieldful_with_serde_untagged() {
    #[allow(dead_code)]
    enum Foo {
        Opt1(u8),
        Opt2(u16),
    }

    impl Inspect for Foo {
        fn key() -> Seq<char> {
            panic!()
        }

        fn name() -> String {
            "Foo".to_string()
        }

        fn size() -> Option<usize> {
            Some(size_of::<Foo>())
        }

        fn align() -> Option<usize> {
            Some(align_of::<Foo>())
        }

        fn def(collector: &mut TypesCollector) -> DefType {
            let opt1_ty = collector.collect::<u8>();
            let opt2_ty = collector.collect::<u16>();
            let shape = EnumShape {
                name: Foo::name(),
                attrs: vec![flag("untagged")],
                size: size_of::<Foo>(),
                align: align_of::<Foo>(),
                variants: vec![
                    payload_variant("Opt1", None, opt1_ty),
                    payload_variant("Opt2", None, opt2_ty),
                ],
            };
            DefType::Enum(derive_enum(&shape).unwrap())
        }
    }

    assert_eq!(
        &inspect::<Foo>()[0],
        &DefType::Enum(DefEnum {
            name: "Foo".to_string(),
            ser_name: "Foo".to_string(),
            size: size_of::<Foo>(),
            align: align_of::<Foo>(),
            variants: vec![
                DefEnumVariant {
                    name: "Opt1".to_string(),
                    discriminant: 0,
                    ser_value: None,
                    value_type_id: Some(1)
                },
                DefEnumVariant {
                    name: "Opt2".to_string(),
                    discriminant: 1,
                    ser_value: None,
                    value_type_id: Some(2)
                },
            ],
            tag: DefEnumTag::Untagged,
        })
    );
}

#[test]
fn enum_mixed_fieldless_and_fieldful() {
    #[allow(dead_code)]
    enum Foo {
        Opt1,
        Opt2(u8),
    }

    impl Inspect for Foo {
        fn key() -> Seq<char> {
            panic!()
        }

        fn name() -> String {
            "Foo".to_string()
        }

        fn size() -> Option<usize> {
            Some(size_of::<Foo>())
        }

        fn align() -> Option<usize> {
            Some(align_of::<Foo>())
        }

        fn def(collector: &mut TypesCollector) -> DefType {
            let opt2_ty = collector.collect::<u8>();
            let shape = EnumShape {
                name: Foo::name(),
                attrs: vec![],
                size: size_of::<Foo>(),
                align: align_of::<Foo>(),
                variants: vec![
                    unit_variant("Opt1", vec![], None),
                    payload_variant("Opt2", None, opt2_ty),
                ],
            };
            DefType::Enum(derive_enum(&shape).unwrap())
        }
    }

    let type_defs = inspect::<Foo>();

    assert_eq!(
        &type_defs[0],
        &DefType::Enum(DefEnum {
            name: "Foo".to_string(),
            ser_name: "Foo".to_string(),
            size: 2,
            align: 1,
            variants: vec![
                DefEnumVariant {
                    name: "Opt1".to_string(),
                    discriminant: 0,
                    ser_value: Some("Opt1".to_string()),
                    value_type_id: None
                },
                DefEnumVariant {
                    name: "Opt2".to_string(),
                    discriminant: 1,
                    ser_value: None,
                    value_type_id: Some(1)
                },
            ],
            tag: DefEnumTag::NoTag,
        })
    );

    let variant_ids = get_variant_ids(&type_defs[0]);
    assert_eq!(type_defs[variant_ids[1].unwrap()].name(), "u8");
}

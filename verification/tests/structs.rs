use std::mem::{align_of, size_of};

use vstd::seq::Seq;

use layout_inspect::attrs::AttrItem;
use layout_inspect::defs::{DefStruct, DefStructField, DefType};
use layout_inspect::structs::{derive_struct, generic_name, FieldShape, StructShape};
use layout_inspect::{inspect, Inspect, TypesCollector};

fn nv(key: &str, value: &str) -> AttrItem {
    AttrItem::NameValue(key.to_string(), value.to_string())
}

fn flag(key: &str) -> AttrItem {
    AttrItem::Flag(key.to_string())
}

fn named(name: &str, attrs: Vec<AttrItem>, type_id: usize, offset: usize) -> FieldShape {
    FieldShape { name: Some(name.to_string()), attrs, type_id, offset }
}

fn unnamed(attrs: Vec<AttrItem>, type_id: usize, offset: usize) -> FieldShape {
    FieldShape { name: None, attrs, type_id, offset }
}

fn get_field_ids(struct_def: &DefType) -> Vec<usize> {
    struct_def.to_struct().unwrap().fields.iter().map(|field| field.type_id).collect()
}

#[test]
fn struct_single_field() {
    #[allow(dead_code)]
    struct Foo {
        num: u8,
    }

    impl Inspect for Foo {
        fn key() -> Seq<char> {
            panic!()
        }

        fn name() -> String {
            "Foo".to_string()
        }

        fn size() -> Option<usize> {
            Some(size_of::<Foo>())
        }

        fn align() -> Option<usize> {
            Some(align_of::<Foo>())
        }

        fn def(collector: &mut TypesCollector) -> DefType {
            let num_ty = collector.collect::<u8>();
            let shape = StructShape {
                name: Foo::name(),
                attrs: vec![],
                size: Foo::size(),
                align: Foo::align(),
                fields: vec![named("num", vec![], num_ty, 0)],
            };
            DefType::Struct(derive_struct(&shape).unwrap())
        }
    }

    let type_defs = inspect::<Foo>();

    assert_eq!(
        &type_defs[0],
        &DefType::Struct(DefStruct {
            name: "Foo".to_string(),
            ser_name: "Foo".to_string(),
            size: Some(size_of::<Foo>()),
            align: Some(align_of::<Foo>()),
            fields: vec![DefStructField {
                name: "num".to_string(),
                ser_name: "num".to_string(),
                type_id: 1,
                offset: 0,
                flatten: false,
                skip: false,
            }],
            tag: None,
            transparent: false,
        })
    );

    let field_ids = get_field_ids(&type_defs[0]);
    assert_eq!(type_defs[field_ids[0]].name(), "u8");
}

#[test]
fn struct_empty() {
    struct Foo {}

    impl Inspect for Foo {
        fn key() -> Seq<char> {
            panic!()
        }

        fn name() -> String {
            "Foo".to_string()
        }

        fn size() -> Option<usize> {
            Some(size_of::<Foo>())
        }

        fn align() -> Option<usize> {
            Some(align_of::<Foo>())
        }

        fn def(_collector: &mut TypesCollector) -> DefType {
            let shape = StructShape {
                name: Foo::name(),
                attrs: vec![],
                size: Foo::size(),
                align: Foo::align(),
                fields: vec![],
            };
            DefType::Struct(derive_struct(&shape).unwrap())
        }
    }

    assert_eq!(
        inspect::<Foo>()[0],
        DefType::Struct(DefStruct {
            name: "Foo".to_string(),
            ser_name: "Foo".to_string(),
            size: Some(0),
            align: Some(1),
            fields: vec![],
            tag: None,
            transparent: false,
        })
    );
}

#[test]
fn struct_unit() {
    struct Foo;

    impl Inspect for Foo {
        fn key() -> Seq<char> {
            panic!()
        }

        fn name() -> String {
            "Foo".to_string()
        }

        fn size() -> Option<usize> {
            Some(size_of::<Foo>())
        }

        fn align() -> Option<usize> {
            Some(align_of::<Foo>())
        }

        fn def(_collector: &mut TypesCollector) -> DefType {
            let shape = StructShape {
                name: Foo::name(),
                attrs: vec![],
                size: Foo::size(),
                align: Foo::align(),
                fields: vec![],
            };
            DefType::Struct(derive_struct(&shape).unwrap())
        }
    }

    assert_eq!(
        inspect::<Foo>()[0],
        DefType::Struct(DefStruct {
            name: "Foo".to_string(),
            ser_name: "Foo".to_string(),
            size: Some(0),
            align: Some(1),
            fields: vec![],
            tag: None,
            transparent: false,
        })
    );
}

#[test]
fn struct_multiple_fields() {
    #[allow(dead_code)]
    struct Foo {
        small: u8,
        medium: u16,
        veccy: Vec<u8>,
        recurse: Option<Box<Foo>>,
    }

    impl Inspect for Foo {
        fn key() -> Seq<char> {
            panic!()
        }

        fn name() -> String {
            "Foo".to_string()
        }

        fn size() -> Option<usize> {
            Some(size_of::<Foo>())
        }

        fn align() -> Option<usize> {
            Some(align_of::<Foo>())
        }

        fn def(collector: &mut TypesCollector) -> DefType {
            let small_ty = collector.collect::<u8>();
            let medium_ty = collector.collect::<u16>();
            let veccy_ty = collector.collect::<Vec<u8>>();
            let recurse_ty = collector.collect::<Option<Box<Foo>>>();
            let shape = StructShape {
                name: Foo::name(),
                attrs: vec![],
                size: Foo::size(),
                align: Foo::align(),
                fields: vec![
                    named("small", vec![], small_ty, size_of::<usize>() * 4 + size_of::<u16>()),
                    named("medium", vec![], medium_ty, size_of::<usize>() * 4),
                    named("veccy", vec![], veccy_ty, 0),
                    named("recurse", vec![], recurse_ty, size_of::<usize>() * 3),
                ],
            };
            DefType::Struct(derive_struct(&shape).unwrap())
        }
    }

    let type_defs = inspect::<Foo>();

    assert_eq!(
        &type_defs[0],
        &DefType::Struct(DefStruct {
            name: "Foo".to_string(),
            ser_name: "Foo".to_string(),
            size: Some(size_of::<Foo>()),
            align: Some(align_of::<Foo>()),
            fields: vec![
                DefStructField {
                    name: "small".to_string(),
                    ser_name: "small".to_string(),
                    type_id: 1,
                    offset: size_of::<usize>() * 4 + size_of::<u16>(),
                    flatten: false,
                    skip: false,
                },
                DefStructField {
                    name: "medium".to_string(),
                    ser_name: "medium".to_string(),
                    type_id: 2,
                    offset: size_of::<usize>() * 4,
                    flatten: false,
                    skip: false,
                },
                DefStructField {
                    name: "veccy".to_string(),
                    ser_name: "veccy".to_string(),
                    type_id: 3,
                    offset: 0,
                    flatten: false,
                    skip: false,
                },
                DefStructField {
                    name: "recurse".to_string(),
                    ser_name: "recurse".to_string(),
                    type_id: 4,
                    offset: size_of::<usize>() * 3,
                    flatten: false,
                    skip: false,
                }
            ],
            tag: None,
            transparent: false,
        })
    );

    let field_ids = get_field_ids(&type_defs[0]);
    assert_eq!(type_defs[field_ids[0]].name(), "u8");
    assert_eq!(type_defs[field_ids[1]].name(), "u16");
    assert_eq!(type_defs[field_ids[2]].name(), "Vec<u8>");
    assert_eq!(type_defs[field_ids[3]].name(), "Option<Box<Foo>>");
}

#[test]
fn struct_raw_identifier_field_name() {
    #[allow(dead_code)]
    struct Foo {
        first: u8,
        second: u8,
    }

    impl Inspect for Foo {
        fn key() -> Seq<char> {
            panic!()
        }

        fn name() -> String {
            "Foo".to_string()
        }

        fn size() -> Option<usize> {
            Some(size_of::<Foo>())
        }

        fn align() -> Option<usize> {
            Some(align_of::<Foo>())
        }

        fn def(collector: &mut TypesCollector) -> DefType {
            let u8_ty = collector.collect::<u8>();
            let shape = StructShape {
                name: Foo::name(),
                attrs: vec![],
                size: Foo::size(),
                align: Foo::align(),
                fields: vec![
                    named("r#type", vec![], u8_ty, 0),
                    named("r#enum", vec![], u8_ty, 1),
                ],
            };
            DefType::Struct(derive_struct(&shape).unwrap())
        }
    }

    let type_defs = inspect::<Foo>();

    assert_eq!(
        &type_defs[0],
        &DefType::Struct(DefStruct {
            name: "Foo".to_string(),
            ser_name: "Foo".to_string(),
            size: Some(size_of::<Foo>()),
            align: Some(align_of::<Foo>()),
            fields: vec![
                DefStructField {
                    name: "type".to_string(),
                    ser_name: "type".to_string(),
                    type_id: 1,
                    offset: 0,
                    flatten: false,
                    skip: false,
                },
                DefStructField {
                    name: "enum".to_string(),
                    ser_name: "enum".to_string(),
                    type_id: 1,
                    offset: 1,
                    flatten: false,
                    skip: false,
                }
            ],
            tag: None,
            transparent: false,
        })
    );

    let field_ids = get_field_ids(&type_defs[0]);
    assert_eq!(type_defs[field_ids[0]].name(), "u8");
}

#[test]
fn tuple_struct_empty() {
    struct Foo();

    impl Inspect for Foo {
        fn key() -> Seq<char> {
            panic!()
        }

        fn name() -> String {
            "Foo".to_string()
        }

        fn size() -> Option<usize> {
            Some(size_of::<Foo>())
        }

        fn align() -> Option<usize> {
            Some(align_of::<Foo>())
        }

        fn def(_collector: &mut TypesCollector) -> DefType {
            let shape = StructShape {
                name: Foo::name(),
                attrs: vec![],
                size: Foo::size(),
                align: Foo::align(),
                fields: vec![],
            };
            DefType::Struct(derive_struct(&shape).unwrap())
        }
    }

    assert_eq!(
        inspect::<Foo>()[0],
        DefType::Struct(DefStruct {
            name: "Foo".to_string(),
            ser_name: "Foo".to_string(),
            size: Some(0),
            align: Some(1),
            fields: vec![],
            tag: None,
            transparent: false,
        })
    );
}

#[test]
fn tuple_struct_single_field() {
    #[allow(dead_code)]
    struct Foo(u8);

    impl Inspect for Foo {
        fn key() -> Seq<char> {
            panic!()
        }

        fn name() -> String {
            "Foo".to_string()
        }

        fn size() -> Option<usize> {
            Some(size_of::<Foo>())
        }

        fn align() -> Option<usize> {
            Some(align_of::<Foo>())
        }

        fn def(collector: &mut TypesCollector) -> DefType {
            let u8_ty = collector.collect::<u8>();
            let shape = StructShape {
                name: Foo::name(),
                attrs: vec![],
                size: Foo::size(),
                align: Foo::align(),
                fields: vec![unnamed(vec![], u8_ty, 0)],
            };
            DefType::Struct(derive_struct(&shape).unwrap())
        }
    }

    let type_defs = inspect::<Foo>();

    assert_eq!(
        &type_defs[0],
        &DefType::Struct(DefStruct {
            name: "Foo".to_string(),
            ser_name: "Foo".to_string(),
            size: Some(size_of::<Foo>()),
            align: Some(align_of::<Foo>()),
            fields: vec![DefStructField {
                name: "0".to_string(),
                ser_name: "0".to_string(),
                type_id: 1,
                offset: 0,
                flatten: false,
                skip: false,
            }],
            tag: None,
            transparent: false,
        })
    );

    let field_ids = get_field_ids(&type_defs[0]);
    assert_eq!(type_defs[field_ids[0]].name(), "u8");
}

#[test]
fn tuple_struct_multiple_fields() {
    #[allow(dead_code)]
    struct Foo(u8, u16, Vec<u8>, Option<Box<Foo>>);

    impl Inspect for Foo {
        fn key() -> Seq<char> {
            panic!()
        }

        fn name() -> String {
            "Foo".to_string()
        }

        fn size() -> Option<usize> {
            Some(size_of::<Foo>())
        }

        fn align() -> Option<usize> {
            Some(align_of::<Foo>())
        }

        fn def(collector: &mut TypesCollector) -> DefType {
            let f0_ty = collector.collect::<u8>();
            let f1_ty = collector.collect::<u16>();
            let f2_ty = collector.collect::<Vec<u8>>();
            let f3_ty = collector.collect::<Option<Box<Foo>>>();
            let shape = StructShape {
                name: Foo::name(),
                attrs: vec![],
                size: Foo::size(),
                align: Foo::align(),
                fields: vec![
                    unnamed(vec![], f0_ty, size_of::<usize>() * 4 + size_of::<u16>()),
                    unnamed(vec![], f1_ty, size_of::<usize>() * 4),
                    unnamed(vec![], f2_ty, 0),
                    unnamed(vec![], f3_ty, size_of::<usize>() * 3),
                ],
            };
            DefType::Struct(derive_struct(&shape).unwrap())
        }
    }

    let type_defs = inspect::<Foo>();

    assert_eq!(
        &type_defs[0],
        &DefType::Struct(DefStruct {
            name: "Foo".to_string(),
            ser_name: "Foo".to_string(),
            size: Some(size_of::<Foo>()),
            align: Some(align_of::<Foo>()),
            fields: vec![
                DefStructField {
                    name: "0".to_string(),
                    ser_name: "0".to_string(),
                    type_id: 1,
                    offset: size_of::<usize>() * 4 + size_of::<u16>(),
                    flatten: false,
                    skip: false,
                },
                DefStructField {
                    name: "1".to_string(),
                    ser_name: "1".to_string(),
                    type_id: 2,
                    offset: size_of::<usize>() * 4,
                    flatten: false,
                    skip: false,
                },
                DefStructField {
                    name: "2".to_string(),
                    ser_name: "2".to_string(),
                    type_id: 3,
                    offset: 0,
                    flatten: false,
                    skip: false,
                },
                DefStructField {
                    name: "3".to_string(),
                    ser_name: "3".to_string(),
                    type_id: 4,
                    offset: size_of::<usize>() * 3,
                    flatten: false,
                    skip: false,
                }
            ],
            tag: None,
            transparent: false,
        })
    );

    let field_ids = get_field_ids(&type_defs[0]);
    assert_eq!(type_defs[field_ids[0]].name(), "u8");
    assert_eq!(type_defs[field_ids[1]].name(), "u16");
    assert_eq!(type_defs[field_ids[2]].name(), "Vec<u8>");
    assert_eq!(type_defs[field_ids[3]].name(), "Option<Box<Foo>>");
}

#[test]
fn tuple_struct_with_serde_transparent() {
    #[allow(dead_code)]
    struct Foo(u8);

    impl Inspect for Foo {
        fn key() -> Seq<char> {
            panic!()
        }

        fn name() -> String {
            "Foo".to_string()
        }

        fn size() -> Option<usize> {
            Some(size_of::<Foo>())
        }

        fn align() -> Option<usize> {
            Some(align_of::<Foo>())
        }

        fn def(collector: &mut TypesCollector) -> DefType {
            let u8_ty = collector.collect::<u8>();
            let shape = StructShape {
                name: Foo::name(),
                attrs: vec![flag("transparent")],
                size: Foo::size(),
                align: Foo::align(),
                fields: vec![unnamed(vec![], u8_ty, 0)],
            };
            DefType::Struct(derive_struct(&shape).unwrap())
        }
    }

    let type_defs = inspect::<Foo>();

    assert_eq!(
        &type_defs[0],
        &DefType::Struct(DefStruct {
            name: "Foo".to_string(),
            ser_name: "Foo".to_string(),
            size: Some(size_of::<Foo>()),
            align: Some(align_of::<Foo>()),
            fields: vec![DefStructField {
                name: "0".to_string(),
                ser_name: "0".to_string(),
                type_id: 1,
                offset: 0,
                flatten: false,
                skip: false,
            }],
            tag: None,
            transparent: true,
        })
    );

    let field_ids = get_field_ids(&type_defs[0]);
    assert_eq!(type_defs[field_ids[0]].name(), "u8");
}

#[test]
fn struct_generic_one_type_param() {
    #[allow(dead_code)]
    struct Foo {
        big: Bar<u32>,
        small: Bar<u8>,
    }

    #[allow(dead_code)]
    struct Bar<T> {
        inner: T,
    }

    impl Inspect for Foo {
        fn key() -> Seq<char> {
            panic!()
        }

        fn name() -> String {
            "Foo".to_string()
        }

        fn size() -> Option<usize> {
            Some(size_of::<Foo>())
        }

        fn align() -> Option<usize> {
            Some(align_of::<Foo>())
        }

        fn def(collector: &mut TypesCollector) -> DefType {
            let big_ty = collector.collect::<Bar<u32>>();
            let small_ty = collector.collect::<Bar<u8>>();
            let shape = StructShape {
                name: Foo::name(),
                attrs: vec![],
                size: Foo::size(),
                align: Foo::align(),
                fields: vec![
                    named("big", vec![], big_ty, 0),
                    named("small", vec![], small_ty, size_of::<Bar<u32>>()),
                ],
            };
            DefType::Struct(derive_struct(&shape).unwrap())
        }
    }

    impl<T: Inspect> Inspect for Bar<T> {
        fn key() -> Seq<char> {
            panic!()
        }

        fn name() -> String {
            generic_name("Bar", &vec![T::name()])
        }

        fn size() -> Option<usize> {
            Some(size_of::<Bar<T>>())
        }

        fn align() -> Option<usize> {
            Some(align_of::<Bar<T>>())
        }

        fn def(collector: &mut TypesCollector) -> DefType {
            let inner_ty = collector.collect::<T>();
            let shape = StructShape {
                name: Bar::<T>::name(),
                attrs: vec![],
                size: Bar::<T>::size(),
                align: Bar::<T>::align(),
                fields: vec![named("inner", vec![], inner_ty, 0)],
            };
            DefType::Struct(derive_struct(&shape).unwrap())
        }
    }

    let type_defs = inspect::<Foo>();

    assert_eq!(
        &type_defs[0],
        &DefType::Struct(DefStruct {
            name: "Foo".to_string(),
            ser_name: "Foo".to_string(),
            size: Some(size_of::<Foo>()),
            align: Some(align_of::<Foo>()),
            fields: vec![
                DefStructField {
                    name: "big".to_string(),
                    ser_name: "big".to_string(),
                    type_id: 1,
                    offset: 0,
                    flatten: false,
                    skip: false,
                },
                DefStructField {
                    name: "small".to_string(),
                    ser_name: "small".to_string(),
                    type_id: 3,
                    offset: size_of::<Bar<u32>>(),
                    flatten: false,
                    skip: false,
                }
            ],
            tag: None,
            transparent: false,
        })
    );

    let foo_field_ids = get_field_ids(&type_defs[0]);
    let bar_u32_def = &type_defs[foo_field_ids[0]];
    assert_eq!(
        bar_u32_def,
        &DefType::Struct(DefStruct {
            name: "Bar<u32>".to_string(),
            ser_name: "Bar<u32>".to_string(),
            size: Some(size_of::<Bar<u32>>()),
            align: Some(align_of::<Bar<u32>>()),
            fields: vec![DefStructField {
                name: "inner".to_string(),
                ser_name: "inner".to_string(),
                type_id: 2,
                offset: 0,
                flatten: false,
                skip: false,
            }],
            tag: None,
            transparent: false,
        })
    );

    let u32_id = get_field_ids(bar_u32_def)[0];
    assert_eq!(type_defs[u32_id].name(), "u32");

    let bar_u8_def = &type_defs[foo_field_ids[1]];
    assert_eq!(
        bar_u8_def,
        &DefType::Struct(DefStruct {
            name: "Bar<u8>".to_string(),
            ser_name: "Bar<u8>".to_string(),
            size: Some(size_of::<Bar<u8>>()),
            align: Some(align_of::<Bar<u8>>()),
            fields: vec![DefStructField {
                name: "inner".to_string(),
                ser_name: "inner".to_string(),
                type_id: 4,
                offset: 0,
                flatten: false,
                skip: false,
            }],
            tag: None,
            transparent: false,
        })
    );

    let u8_id = get_field_ids(bar_u8_def)[0];
    assert_eq!(type_defs[u8_id].name(), "u8");
}

#[test]
fn struct_generic_two_type_params() {
    #[allow(dead_code)]
    struct Foo {
        big: Bar<u64, u32>,
        small: Bar<u16, u8>,
    }

    #[allow(dead_code)]
    struct Bar<T, U> {
        one: T,
        two: U,
    }

    impl Inspect for Foo {
        fn key() -> Seq<char> {
            panic!()
        }

        fn name() -> String {
            "Foo".to_string()
        }

        fn size() -> Option<usize> {
            Some(size_of::<Foo>())
        }

        fn align() -> Option<usize> {
            Some(align_of::<Foo>())
        }

        fn def(collector: &mut TypesCollector) -> DefType {
            let big_ty = collector.collect::<Bar<u64, u32>>();
            let small_ty = collector.collect::<Bar<u16, u8>>();
            let shape = StructShape {
                name: Foo::name(),
                attrs: vec![],
                size: Foo::size(),
                align: Foo::align(),
                fields: vec![
                    named("big", vec![], big_ty, 0),
                    named("small", vec![], small_ty, size_of::<Bar<u64, u32>>()),
                ],
            };
            DefType::Struct(derive_struct(&shape).unwrap())
        }
    }

    impl<T: Inspect, U: Inspect> Inspect for Bar<T, U> {
        fn key() -> Seq<char> {
            panic!()
        }

        fn name() -> String {
            generic_name("Bar", &vec![T::name(), U::name()])
        }

        fn size() -> Option<usize> {
            Some(size_of::<Bar<T, U>>())
        }

        fn align() -> Option<usize> {
            Some(align_of::<Bar<T, U>>())
        }

        fn def(collector: &mut TypesCollector) -> DefType {
            let one_ty = collector.collect::<T>();
            let two_ty = collector.collect::<U>();
            let shape = StructShape {
                name: Bar::<T, U>::name(),
                attrs: vec![],
                size: Bar::<T, U>::size(),
                align: Bar::<T, U>::align(),
                fields: vec![
                    named("one", vec![], one_ty, 0),
                    named("two", vec![], two_ty, size_of::<T>()),
                ],
            };
            DefType::Struct(derive_struct(&shape).unwrap())
        }
    }

    let type_defs = inspect::<Foo>();

    assert_eq!(
        &type_defs[0],
        &DefType::Struct(DefStruct {
            name: "Foo".to_string(),
            ser_name: "Foo".to_string(),
            size: Some(size_of::<Foo>()),
            align: Some(align_of::<Foo>()),
            fields: vec![
                DefStructField {
                    name: "big".to_string(),
                    ser_name: "big".to_string(),
                    type_id: 1,
                    offset: 0,
                    flatten: false,
                    skip: false,
                },
                DefStructField {
                    name: "small".to_string(),
                    ser_name: "small".to_string(),
                    type_id: 4,
                    offset: size_of::<Bar<u64, u32>>(),
                    flatten: false,
                    skip: false,
                }
            ],
            tag: None,
            transparent: false,
        })
    );

    let foo_field_ids = get_field_ids(&type_defs[0]);
    let bar_u64_u32_def = &type_defs[foo_field_ids[0]];
    assert_eq!(
        bar_u64_u32_def,
        &DefType::Struct(DefStruct {
            name: "Bar<u64,u32>".to_string(),
            ser_name: "Bar<u64,u32>".to_string(),
            size: Some(size_of::<Bar<u64, u32>>()),
            align: Some(align_of::<Bar<u64, u32>>()),
            fields: vec![
                DefStructField {
                    name: "one".to_string(),
                    ser_name: "one".to_string(),
                    type_id: 2,
                    offset: 0,
                    flatten: false,
                    skip: false,
                },
                DefStructField {
                    name: "two".to_string(),
                    ser_name: "two".to_string(),
                    type_id: 3,
                    offset: size_of::<u64>(),
                    flatten: false,
                    skip: false,
                }
            ],
            tag: None,
            transparent: false,
        })
    );

    let bar_u64_u32_field_ids = get_field_ids(bar_u64_u32_def);
    assert_eq!(type_defs[bar_u64_u32_field_ids[0]].name(), "u64");
    assert_eq!(type_defs[bar_u64_u32_field_ids[1]].name(), "u32");

    let bar_u16_u8_def = &type_defs[foo_field_ids[1]];
    assert_eq!(
        bar_u16_u8_def,
        &DefType::Struct(DefStruct {
            name: "Bar<u16,u8>".to_string(),
            ser_name: "Bar<u16,u8>".to_string(),
            size: Some(size_of::<Bar<u16, u8>>()),
            align: Some(align_of::<Bar<u16, u8>>()),
            fields: vec![
                DefStructField {
                    name: "one".to_string(),
                    ser_name: "one".to_string(),
                    type_id: 5,
                    offset: 0,
                    flatten: false,
                    skip: false,
                },
                DefStructField {
                    name: "two".to_string(),
                    ser_name: "two".to_string(),
                    type_id: 6,
                    offset: size_of::<u16>(),
                    flatten: false,
                    skip: false,
                }
            ],
            tag: None,
            transparent: false,
        })
    );

    let bar_u16_u8_field_ids = get_field_ids(bar_u16_u8_def);
    assert_eq!(type_defs[bar_u16_u8_field_ids[0]].name(), "u16");
    assert_eq!(type_defs[bar_u16_u8_field_ids[1]].name(), "u8");
}

#[test]
fn struct_with_serde_type_rename() {
    #[allow(dead_code)]
    struct Foo {
        num: u8,
    }

    impl Inspect for Foo {
        fn key() -> Seq<char> {
            panic!()
        }

        fn name() -> String {
            "Foo".to_string()
        }

        fn size() -> Option<usize> {
            Some(size_of::<Foo>())
        }

        fn align() -> Option<usize> {
            Some(align_of::<Foo>())
        }

        fn def(collector: &mut TypesCollector) -> DefType {
            let num_ty = collector.collect::<u8>();
            let shape = StructShape {
                name: Foo::name(),
                attrs: vec![nv("rename", "Bar")],
                size: Foo::size(),
                align: Foo::align(),
                fields: vec![named("num", vec![], num_ty, 0)],
            };
            DefType::Struct(derive_struct(&shape).unwrap())
        }
    }

    assert_eq!(
        inspect::<Foo>()[0],
        DefType::Struct(DefStruct {
            name: "Foo".to_string(),
            ser_name: "Bar".to_string(),
            size: Some(size_of::<Foo>()),
            align: Some(align_of::<Foo>()),
            fields: vec![DefStructField {
                name: "num".to_string(),
                ser_name: "num".to_string(),
                type_id: 1,
                offset: 0,
                flatten: false,
                skip: false,
            }],
            tag: None,
            transparent: false,
        })
    );
}

#[test]
fn struct_with_serde_tag() {
    #[allow(dead_code)]
    struct Foo {
        num: u8,
    }

    impl Inspect for Foo {
        fn key() -> Seq<char> {
            panic!()
        }

        fn name() -> String {
            "Foo".to_string()
        }

        fn size() -> Option<usize> {
            Some(size_of::<Foo>())
        }

        fn align() -> Option<usize> {
            Some(align_of::<Foo>())
        }

        fn def(collector: &mut TypesCollector) -> DefType {
            let num_ty = collector.collect::<u8>();
            let shape = StructShape {
                name: Foo::name(),
                attrs: vec![nv("tag", "type")],
                size: Foo::size(),
                align: Foo::align(),
                fields: vec![named("num", vec![], num_ty, 0)],
            };
            DefType::Struct(derive_struct(&shape).unwrap())
        }
    }

    assert_eq!(
        inspect::<Foo>()[0],
        DefType::Struct(DefStruct {
            name: "Foo".to_string(),
            ser_name: "Foo".to_string(),
            size: Some(size_of::<Foo>()),
            align: Some(align_of::<Foo>()),
            fields: vec![DefStructField {
                name: "num".to_string(),
                ser_name: "num".to_string(),
                type_id: 1,
                offset: 0,
                flatten: false,
                skip: false,
            }],
            tag: Some("type".to_string()),
            transparent: false,
        })
    );
}

#[test]
fn struct_with_serde_transparent() {
    #[allow(dead_code)]
    struct Foo {
        num: u8,
    }

    impl Inspect for Foo {
        fn key() -> Seq<char> {
            panic!()
        }

        fn name() -> String {
            "Foo".to_string()
        }

        fn size() -> Option<usize> {
            Some(size_of::<Foo>())
        }

        fn align() -> Option<usize> {
            Some(align_of::<Foo>())
        }

        fn def(collector: &mut TypesCollector) -> DefType {
            let num_ty = collector.collect::<u8>();
            let shape = StructShape {
                name: Foo::name(),
                attrs: vec![flag("transparent")],
                size: Foo::size(),
                align: Foo::align(),
                fields: vec![named("num", vec![], num_ty, 0)],
            };
            DefType::Struct(derive_struct(&shape).unwrap())
        }
    }

    assert_eq!(
        inspect::<Foo>()[0],
        DefType::Struct(DefStruct {
            name: "Foo".to_string(),
            ser_name: "Foo".to_string(),
            size: Some(size_of::<Foo>()),
            align: Some(align_of::<Foo>()),
            fields: vec![DefStructField {
                name: "num".to_string(),
                ser_name: "num".to_string(),
                type_id: 1,
                offset: 0,
                flatten: false,
                skip: false,
            }],
            tag: None,
            transparent: true,
        })
    );
}

#[test]
fn struct_with_serde_field_rename() {
    #[allow(dead_code)]
    struct Foo {
        num: u8,
    }

    impl Inspect for Foo {
        fn key() -> Seq<char> {
            panic!()
        }

        fn name() -> String {
            "Foo".to_string()
        }

        fn size() -> Option<usize> {
            Some(size_of::<Foo>())
        }

        fn align() -> Option<usize> {
            Some(align_of::<Foo>())
        }

        fn def(collector: &mut TypesCollector) -> DefType {
            let num_ty = collector.collect::<u8>();
            let shape = StructShape {
                name: Foo::name(),
                attrs: vec![],
                size: Foo::size(),
                align: Foo::align(),
                fields: vec![named("num", vec![nv("rename", "bar")], num_ty, 0)],
            };
            DefType::Struct(derive_struct(&shape).unwrap())
        }
    }

    assert_eq!(
        inspect::<Foo>()[0],
        DefType::Struct(DefStruct {
            name: "Foo".to_string(),
            ser_name: "Foo".to_string(),
            size: Some(size_of::<Foo>()),
            align: Some(align_of::<Foo>()),
            fields: vec![DefStructField {
                name: "num".to_string(),
                ser_name: "bar".to_string(),
                type_id: 1,
                offset: 0,
                flatten: false,
                skip: false,
            }],
            tag: None,
            transparent: false,
        })
    );
}

#[test]
fn struct_with_serde_fields_rename_all() {
    #[allow(dead_code)]
    struct Foo {
        field_one: u8,
        field_two: u8,
        field_three: u8,
    }

    impl Inspect for Foo {
        fn key() -> Seq<char> {
            panic!()
        }

        fn name() -> String {
            "Foo".to_string()
        }

        fn size() -> Option<usize> {
            Some(size_of::<Foo>())
        }

        fn align() -> Option<usize> {
            Some(align_of::<Foo>())
        }

        fn def(collector: &mut TypesCollector) -> DefType {
            let u8_ty = collector.collect::<u8>();
            let shape = StructShape {
                name: Foo::name(),
                attrs: vec![nv("rename_all", "camelCase")],
                size: Foo::size(),
                align: Foo::align(),
                fields: vec![
                    named("field_one", vec![], u8_ty, 0),
                    named("r#field_two", vec![], u8_ty, 1),
                    named("field_three", vec![nv("rename", "field_three_oh_yes")], u8_ty, 2),
                ],
            };
            DefType::Struct(derive_struct(&shape).unwrap())
        }
    }

    assert_eq!(
        inspect::<Foo>()[0],
        DefType::Struct(DefStruct {
            name: "Foo".to_string(),
            ser_name: "Foo".to_string(),
            size: Some(size_of::<Foo>()),
            align: Some(align_of::<Foo>()),
            fields: vec![
                DefStructField {
                    name: "field_one".to_string(),
                    ser_name: "fieldOne".to_string(),
                    type_id: 1,
                    offset: 0,
                    flatten: false,
                    skip: false,
                },
                DefStructField {
                    name: "field_two".to_string(),
                    ser_name: "fieldTwo".to_string(),
                    type_id: 1,
                    offset: 1,
                    flatten: false,
                    skip: false,
                },
                DefStructField {
                    name: "field_three".to_string(),
                    ser_name: "field_three_oh_yes".to_string(),
                    type_id: 1,
                    offset: 2,
                    flatten: false,
                    skip: false,
                },
            ],
            tag: None,
            transparent: false,
        })
    );
}

#[test]
fn struct_with_serde_field_flatten() {
    #[allow(dead_code)]
    struct Foo {
        bar: Bar,
    }

    #[allow(dead_code)]
    struct Bar {
        num: u8,
    }

    impl Inspect for Foo {
        fn key() -> Seq<char> {
            panic!()
        }

        fn name() -> String {
            "Foo".to_string()
        }

        fn size() -> Option<usize> {
            Some(size_of::<Foo>())
        }

        fn align() -> Option<usize> {
            Some(align_of::<Foo>())
        }

        fn def(collector: &mut TypesCollector) -> DefType {
            let bar_ty = collector.collect::<Bar>();
            let shape = StructShape {
                name: Foo::name(),
                attrs: vec![],
                size: Foo::size(),
                align: Foo::align(),
                fields: vec![named("bar", vec![flag("flatten")], bar_ty, 0)],
            };
            DefType::Struct(derive_struct(&shape).unwrap())
        }
    }

    impl Inspect for Bar {
        fn key() -> Seq<char> {
            panic!()
        }

        fn name() -> String {
            "Bar".to_string()
        }

        fn size() -> Option<usize> {
            Some(size_of::<Bar>())
        }

        fn align() -> Option<usize> {
            Some(align_of::<Bar>())
        }

        fn def(collector: &mut TypesCollector) -> DefType {
            let num_ty = collector.collect::<u8>();
            let shape = StructShape {
                name: Bar::name(),
                attrs: vec![],
                size: Bar::size(),
                align: Bar::align(),
                fields: vec![named("num", vec![], num_ty, 0)],
            };
            DefType::Struct(derive_struct(&shape).unwrap())
        }
    }

    assert_eq!(
        inspect::<Foo>()[0],
        DefType::Struct(DefStruct {
            name: "Foo".to_string(),
            ser_name: "Foo".to_string(),
            size: Some(size_of::<Foo>()),
            align: Some(align_of::<Foo>()),
            fields: vec![DefStructField {
                name: "bar".to_string(),
                ser_name: "bar".to_string(),
                type_id: 1,
                offset: 0,
                flatten: true,
                skip: false,
            }],
            tag: None,
            transparent: false,
        })
    );
}

#[test]
fn struct_with_serde_field_skip() {
    #[allow(dead_code)]
    struct Foo {
        num: u8,
    }

    impl Inspect for Foo {
        fn key() -> Seq<char> {
            panic!()
        }

        fn name() -> String {
            "Foo".to_string()
        }

        fn size() -> Option<usize> {
            Some(size_of::<Foo>())
        }

        fn align() -> Option<usize> {
            Some(align_of::<Foo>())
        }

        fn def(collector: &mut TypesCollector) -> DefType {
            let num_ty = collector.collect::<u8>();
            let shape = StructShape {
                name: Foo::name(),
                attrs: vec![],
                size: Foo::size(),
                align: Foo::align(),
                fields: vec![named("num", vec![flag("skip")], num_ty, 0)],
            };
            DefType::Struct(derive_struct(&shape).unwrap())
        }
    }

    assert_eq!(
        inspect::<Foo>()[0],
        DefType::Struct(DefStruct {
            name: "Foo".to_string(),
            ser_name: "Foo".to_string(),
            size: Some(size_of::<Foo>()),
            align: Some(align_of::<Foo>()),
            fields: vec![DefStructField {
                name: "num".to_string(),
                ser_name: "num".to_string(),
                type_id: 1,
                offset: 0,
                flatten: false,
                skip: true,
            }],
            tag: None,
            transparent: false,
        })
    );
}

#[test]
fn struct_with_serde_field_rename_and_flatten() {
    #[allow(dead_code)]
    struct Foo {
        bar: Bar,
    }

    #[allow(dead_code)]
    struct Bar {
        num: u8,
    }

    impl Inspect for Foo {
        fn key() -> Seq<char> {
            panic!()
        }

        fn name() -> String {
            "Foo".to_string()
        }

        fn size() -> Option<usize> {
            Some(size_of::<Foo>())
        }

        fn align() -> Option<usize> {
            Some(align_of::<Foo>())
        }

        fn def(collector: &mut TypesCollector) -> DefType {
            let bar_ty = collector.collect::<Bar>();
            let shape = StructShape {
                name: Foo::name(),
                attrs: vec![],
                size: Foo::size(),
                align: Foo::align(),
                fields: vec![named("bar", vec![flag("flatten"), nv("rename", "qux")], bar_ty, 0)],
            };
            DefType::Struct(derive_struct(&shape).unwrap())
        }
    }

    impl Inspect for Bar {
        fn key() -> Seq<char> {
            panic!()
        }

        fn name() -> String {
            "Bar".to_string()
        }

        fn size() -> Option<usize> {
            Some(size_of::<Bar>())
        }

        fn align() -> Option<usize> {
            Some(align_of::<Bar>())
        }

        fn def(collector: &mut TypesCollector) -> DefType {
            let num_ty = collector.collect::<u8>();
            let shape = StructShape {
                name: Bar::name(),
                attrs: vec![],
                size: Bar::size(),
                align: Bar::align(),
                fields: vec![named("num", vec![], num_ty, 0)],
            };
            DefType::Struct(derive_struct(&shape).unwrap())
        }
    }

    assert_eq!(
        inspect::<Foo>()[0],
        DefType::Struct(DefStruct {
            name: "Foo".to_string(),
            ser_name: "Foo".to_string(),
            size: Some(size_of::<Foo>()),
            align: Some(align_of::<Foo>()),
            fields: vec![DefStructField {
                name: "bar".to_string(),
                ser_name: "qux".to_string(),
                type_id: 1,
                offset: 0,
                flatten: true,
                skip: false,
            }],
            tag: None,
            transparent: false,
        })
    );
}

#[test]
fn struct_with_serde_field_default() {
    #[allow(dead_code)]
    struct Foo {
        num: u8,
    }

    impl Inspect for Foo {
        fn key() -> Seq<char> {
            panic!()
        }

        fn name() -> String {
            "Foo".to_string()
        }

        fn size() -> Option<usize> {
            Some(size_of::<Foo>())
        }

        fn align() -> Option<usize> {
            Some(align_of::<Foo>())
        }

        fn def(collector: &mut TypesCollector) -> DefType {
            let num_ty = collector.collect::<u8>();
            let shape = StructShape {
                name: Foo::name(),
                attrs: vec![],
                size: Foo::size(),
                align: Foo::align(),
                fields: vec![named("num", vec![flag("default")], num_ty, 0)],
            };
            DefType::Struct(derive_struct(&shape).unwrap())
        }
    }

    assert_eq!(
        inspect::<Foo>()[0],
        DefType::Struct(DefStruct {
            name: "Foo".to_string(),
            ser_name: "Foo".to_string(),
            size: Some(size_of::<Foo>()),
            align: Some(align_of::<Foo>()),
            fields: vec![DefStructField {
                name: "num".to_string(),
                ser_name: "num".to_string(),
                type_id: 1,
                offset: 0,
                flatten: false,
                skip: false,
            }],
            tag: None,
            transparent: false,
        })
    );
}

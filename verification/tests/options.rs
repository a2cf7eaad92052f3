use std::mem::{align_of, size_of};

use vstd::seq::Seq;

use layout_inspect::defs::{DefOption, DefType};
use layout_inspect::structs::{derive_struct, FieldShape, StructShape};
use layout_inspect::{inspect, Inspect, TypesCollector};

#[test]
fn option_primitive() {
    let type_defs = inspect::<Option<u8>>();

    assert_eq!(
        &type_defs[0],
        &DefType::Option(DefOption {
            name: "Option<u8>".to_string(),
            size: size_of::<u8>() * 2,
            align: align_of::<u8>(),
            value_type_id: 1,
        })
    );

    assert_eq!(type_defs[1].name(), "u8");
}

#[test]
fn option_primitive_with_niche() {
    let type_defs = inspect::<Option<bool>>();

    assert_eq!(
        &type_defs[0],
        &DefType::Option(DefOption {
            name: "Option<bool>".to_string(),
            size: size_of::<bool>(),
            align: align_of::<bool>(),
            value_type_id: 1,
        })
    );

    assert_eq!(type_defs[1].name(), "bool");
}

#[test]
fn option_struct() {
    #[allow(dead_code)]
    struct Foo {
        small: u8,
        big: u32,
    }

    impl Inspect for Foo {
        fn key() -> Seq<char> {
            panic!()
        }

        fn name() -> String {
            "Foo".to_string()
        }

        fn size() -> Option<usize> {
            Some(size_of::<Foo>())
        }

        fn align() -> Option<usize> {
            Some(align_of::<Foo>())
        }

        fn def(collector: &mut TypesCollector) -> DefType {
            let small_ty = collector.collect::<u8>();
            let big_ty = collector.collect::<u32>();
            let shape = StructShape {
                name: Foo::name(),
                attrs: vec![],
                size: Foo::size(),
                align: Foo::align(),
                fields: vec![
                    FieldShape {
                        name: Some("small".to_string()),
                        attrs: vec![],
                        type_id: small_ty,
                        offset: size_of::<u32>(),
                    },
                    FieldShape {
                        name: Some("big".to_string()),
                        attrs: vec![],
                        type_id: big_ty,
                        offset: 0,
                    },
                ],
            };
            DefType::Struct(derive_struct(&shape).unwrap())
        }
    }

    let type_defs = inspect::<Option<Foo>>();

    assert_eq!(
        &type_defs[0],
        &DefType::Option(DefOption {
            name: "Option<Foo>".to_string(),
            size: size_of::<Foo>() + align_of::<Foo>(),
            align: align_of::<Foo>(),
            value_type_id: 1,
        })
    );

    assert_eq!(type_defs[1].name(), "Foo");
}

#[test]
fn option_box() {
    let type_defs = inspect::<Option<Box<u8>>>();

    assert_eq!(
        &type_defs[0],
        &DefType::Option(DefOption {
            name: "Option<Box<u8>>".to_string(),
            size: size_of::<usize>(),
            align: align_of::<usize>(),
            value_type_id: 1,
        })
    );

    assert_eq!(type_defs[1].name(), "Box<u8>");
}

#[test]
fn option_vec() {
    let type_defs = inspect::<Option<Vec<u8>>>();

    assert_eq!(
        &type_defs[0],
        &DefType::Option(DefOption {
            name: "Option<Vec<u8>>".to_string(),
            size: size_of::<usize>() * 3,
            align: align_of::<usize>(),
            value_type_id: 1,
        })
    );

    assert_eq!(type_defs[1].name(), "Vec<u8>");
}

use std::mem::{align_of, size_of};

use vstd::seq::Seq;

use layout_inspect::defs::{DefType, DefVec};
use layout_inspect::structs::{derive_struct, FieldShape, StructShape};
use layout_inspect::{inspect, Inspect, TypesCollector};

#[test]
fn vec_primitive() {
    let type_defs = inspect::<Vec<u8>>();

    assert_eq!(
        &type_defs[0],
        &DefType::Vec(DefVec {
            name: "Vec<u8>".to_string(),
            size: size_of::<usize>() * 3,
            align: align_of::<usize>(),
            value_type_id: 1,
        })
    );

    assert_eq!(type_defs[1].name(), "u8");
}

#[test]
fn vec_struct() {
    #[allow(dead_code)]
    struct Foo {
        small: u8,
        big: u128,
    }

    impl Inspect for Foo {
        fn key() -> Seq<char> {
            panic!()
        }

        fn name() -> String {
            "Foo".to_string()
        }

        fn size() -> Option<usize> {
            Some(size_of::<Foo>())
        }

        fn align() -> Option<usize> {
            Some(align_of::<Foo>())
        }

        fn def(collector: &mut TypesCollector) -> DefType {
            let small_ty = collector.collect::<u8>();
            let big_ty = collector.collect::<u128>();
            let shape = StructShape {
                name: Foo::name(),
                attrs: vec![],
                size: Foo::size(),
                align: Foo::align(),
                fields: vec![
                    FieldShape {
                        name: Some("small".to_string()),
                        attrs: vec![],
                        type_id: small_ty,
                        offset: size_of::<u128>(),
                    },
                    FieldShape {
                        name: Some("big".to_string()),
                        attrs: vec![],
                        type_id: big_ty,
                        offset: 0,
                    },
                ],
            };
            DefType::Struct(derive_struct(&shape).unwrap())
        }
    }

    let type_defs = inspect::<Vec<Foo>>();

    assert_eq!(
        &type_defs[0],
        &DefType::Vec(DefVec {
            name: "Vec<Foo>".to_string(),
            size: size_of::<usize>() * 3,
            align: align_of::<usize>(),
            value_type_id: 1,
        })
    );

    assert_eq!(type_defs[1].name(), "Foo");
}

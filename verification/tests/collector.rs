use std::mem::{align_of, size_of};

use vstd::seq::Seq;

use layout_inspect::defs::{DefStruct, DefStructField, DefType};
use layout_inspect::structs::{derive_struct, FieldShape, StructShape};
use layout_inspect::types::{Foo, Qux, Switch};
use layout_inspect::{inspect, type_id_of, Inspect, TypesCollector};

#[test]
fn dedup_two_sibling_fields() {
    #[allow(dead_code)]
    struct Pair {
        a: u16,
        b: u16,
    }

    impl Inspect for Pair {
        fn key() -> Seq<char> {
            panic!()
        }

        fn name() -> String {
            "Pair".to_string()
        }

        fn size() -> Option<usize> {
            Some(size_of::<Pair>())
        }

        fn align() -> Option<usize> {
            Some(align_of::<Pair>())
        }

        fn def(collector: &mut TypesCollector) -> DefType {
            let a_ty = collector.collect::<u16>();
            let b_ty = collector.collect::<u16>();
            let shape = StructShape {
                name: Pair::name(),
                attrs: vec![],
                size: Pair::size(),
                align: Pair::align(),
                fields: vec![
                    FieldShape {
                        name: Some("a".to_string()),
                        attrs: vec![],
                        type_id: a_ty,
                        offset: 0,
                    },
                    FieldShape {
                        name: Some("b".to_string()),
                        attrs: vec![],
                        type_id: b_ty,
                        offset: size_of::<u16>(),
                    },
                ],
            };
            DefType::Struct(derive_struct(&shape).unwrap())
        }
    }

    let type_defs = inspect::<Pair>();

    // The type reachable through both fields appears exactly once, under the
    // same identity.
    assert_eq!(type_defs.len(), 2);
    let fields = &type_defs[0].to_struct().unwrap().fields;
    assert_eq!(fields[0].type_id, 1);
    assert_eq!(fields[1].type_id, 1);
    assert_eq!(type_defs[1].name(), "u16");
}

#[test]
fn cycle_self_reference() {
    #[allow(dead_code)]
    struct Node {
        next: Option<Box<Node>>,
    }

    impl Inspect for Node {
        fn key() -> Seq<char> {
            panic!()
        }

        fn name() -> String {
            "Node".to_string()
        }

        fn size() -> Option<usize> {
            Some(size_of::<Node>())
        }

        fn align() -> Option<usize> {
            Some(align_of::<Node>())
        }

        fn def(collector: &mut TypesCollector) -> DefType {
            let next_ty = collector.collect::<Option<Box<Node>>>();
            let shape = StructShape {
                name: Node::name(),
                attrs: vec![],
                size: Node::size(),
                align: Node::align(),
                fields: vec![FieldShape {
                    name: Some("next".to_string()),
                    attrs: vec![],
                    type_id: next_ty,
                    offset: 0,
                }],
            };
            DefType::Struct(derive_struct(&shape).unwrap())
        }
    }

    // Collection terminates, and the reference back through the optional
    // indirection resolves to the record's own identity.
    let type_defs = inspect::<Node>();
    assert_eq!(type_defs.len(), 3);
    assert_eq!(type_defs[0].name(), "Node");
    assert_eq!(type_defs[1].name(), "Option<Box<Node>>");
    assert_eq!(type_defs[2].name(), "Box<Node>");
    assert_eq!(type_defs[1].to_option().unwrap().value_type_id, 2);
    assert_eq!(type_defs[2].to_box().unwrap().value_type_id, 0);
}

#[test]
fn offsets_match_layout() {
    #[allow(dead_code)]
    struct Rec {
        a: u8,
        b: u16,
    }

    impl Inspect for Rec {
        fn key() -> Seq<char> {
            panic!()
        }

        fn name() -> String {
            "Rec".to_string()
        }

        fn size() -> Option<usize> {
            Some(size_of::<Rec>())
        }

        fn align() -> Option<usize> {
            Some(align_of::<Rec>())
        }

        fn def(collector: &mut TypesCollector) -> DefType {
            let a_ty = collector.collect::<u8>();
            let b_ty = collector.collect::<u16>();
            let shape = StructShape {
                name: Rec::name(),
                attrs: vec![],
                size: Rec::size(),
                align: Rec::align(),
                fields: vec![
                    FieldShape {
                        name: Some("a".to_string()),
                        attrs: vec![],
                        type_id: a_ty,
                        offset: size_of::<u16>(),
                    },
                    FieldShape {
                        name: Some("b".to_string()),
                        attrs: vec![],
                        type_id: b_ty,
                        offset: 0,
                    },
                ],
            };
            DefType::Struct(derive_struct(&shape).unwrap())
        }
    }

    // The emitted layout facts agree with the layout primitives, constructed
    // from them rather than written down as numbers.
    let type_defs = inspect::<Rec>();
    let rec = type_defs[0].to_struct().unwrap();
    assert_eq!(rec.size, Some(size_of::<Rec>()));
    assert_eq!(rec.align, Some(align_of::<Rec>()));
    assert_eq!(rec.fields[0].offset, size_of::<u16>());
    assert_eq!(rec.fields[1].offset, 0);
    assert_eq!(size_of::<Rec>(), 2 * size_of::<u16>());
    assert_eq!(align_of::<Rec>(), align_of::<u16>());
}

#[test]
fn demo_types_catalog() {
    let type_defs = inspect::<Qux>();

    assert_eq!(type_defs[0].name(), "Qux");
    assert_eq!(type_defs[1].name(), "Foo");
    let qux = type_defs[0].to_enum().unwrap();
    assert_eq!(qux.variants[0].value_type_id, Some(1));

    // `Bar` is reachable both as a field of `Foo` and as a payload of `Qux`;
    // it appears once, under one identity.
    let foo = type_defs[1].to_struct().unwrap();
    let bar_id = foo.fields[3].type_id;
    assert_eq!(type_defs[bar_id].name(), "Bar");
    assert_eq!(qux.variants[1].value_type_id, Some(bar_id));
    assert_eq!(foo.fields[2].ser_name, "middle");
    assert!(foo.fields[3].flatten);
    assert_eq!(foo.size, Some(size_of::<Foo>()));
}

#[test]
fn identity_key_is_name() {
    assert_eq!(type_id_of::<u8>(), "u8");
    assert_eq!(type_id_of::<Vec<Switch>>(), "Vec<Switch>");
    assert_eq!(type_id_of::<Result<u8, u16>>(), "Result<u8,u16>");
}

#[test]
fn accessors_match_variant() {
    let prim = &inspect::<u8>()[0];
    assert!(prim.primitive_ref().is_some());
    assert!(prim.struct_ref().is_none());
    assert!(prim.to_primitive().is_some());
    assert!(prim.to_enum().is_none());
    assert_eq!(prim.size(), Some(1));
    assert_eq!(prim.align(), Some(1));

    let string = inspect::<String>().remove(0);
    assert_eq!(string.name(), "String");
    assert!(string.string_ref().is_some());
    assert!(string.into_string().is_some());

    let sw = inspect::<Switch>().remove(0);
    assert!(sw.enum_ref().is_some());
    let sw = sw.into_enum().unwrap();
    assert_eq!(sw.variants.len(), 2);

    let st = &inspect::<str>()[0];
    assert_eq!(st.size(), None);
    assert_eq!(st.align(), Some(1));
    assert!(st.to_str().is_some());
}

#[test]
fn default_sample_value() {
    let sample = Foo::default();
    assert_eq!(sample.small, 10);
    assert_eq!(sample.big, 258);
    assert_eq!(sample.mid, 772);
    assert_eq!(sample.bar.smaller, 0);
    assert!(matches!(sample.switch, Switch::On));
}

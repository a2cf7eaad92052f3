use vstd::prelude::*;
use crate::defs::{DefEnum, DefEnumTag, DefEnumVariant, DefStruct, DefStructField, DefType};
use crate::{Inspect, TypesCollector};

verus! {

// A small catalog of demonstration types, registered through the same
// capability interface as any user-defined type. `Qux` and `Foo` reference
// each other's building blocks, so registering either exercises the
// collector's deduplication.
//
// Field offsets reported here follow declaration order without padding; the
// platform's own field ordering is not observable to verified code.

pub struct Foo {
    pub small: u8,
    pub big: u32,
    pub mid: u16,
    pub bar: Bar,
    pub switch: Switch,
}

pub struct Bar {
    pub smaller: u8,
}

pub enum Qux {
    Sun(Foo),
    Moon(Bar),
}

pub enum Switch {
    On,
    Off,
}

impl Default for Foo {
    /// The sample value the demonstration entry point starts from.
    fn default() -> (r: Foo)
        ensures
            r.small == 10 && r.big == 258 && r.mid == 772,
            r.bar.smaller == 0 && r.switch is On,
    {
        Foo { small: 10, big: 1 * 256 + 2, mid: 3 * 256 + 4, bar: Bar { smaller: 0 }, switch: Switch::On }
    }
}

impl Inspect for Bar {
    open spec fn key() -> Seq<char> {
        "Bar"@
    }

    fn name() -> (r: String) {
        String::from_str("Bar")
    }

    fn size() -> (r: Option<usize>)
        ensures
            (r matches Some(s) && s as nat == vstd::layout::size_of::<Bar>()),
    {
        Some(core::mem::size_of::<Bar>())
    }

    fn align() -> (r: Option<usize>)
        ensures
            (r matches Some(a) && a as nat == vstd::layout::align_of::<Bar>()),
    {
        Some(core::mem::align_of::<Bar>())
    }

    fn def(collector: &mut TypesCollector) -> (d: DefType)
        ensures
            d is Struct,
            (d matches DefType::Struct(p) ==> {
                &&& p.name@ == Self::key()
                &&& p.ser_name@ == Self::key()
                &&& p.fields@.len() == 1
                &&& p.fields@[0].name@ == "smaller"@
                &&& p.fields@[0].offset == 0
                &&& final(collector).key_at(p.fields@[0].type_id as int) == "u8"@
            }),
    {
        let smaller_ty = collector.collect::<u8>();
        DefType::Struct(DefStruct {
            name: Self::name(),
            ser_name: Self::name(),
            size: Self::size(),
            align: Self::align(),
            fields: vec![
                DefStructField {
                    name: String::from_str("smaller"),
                    ser_name: String::from_str("smaller"),
                    type_id: smaller_ty,
                    offset: 0,
                    flatten: false,
                    skip: false,
                },
            ],
            tag: None,
            transparent: false,
        })
    }
}

impl Inspect for Switch {
    open spec fn key() -> Seq<char> {
        "Switch"@
    }

    fn name() -> (r: String) {
        String::from_str("Switch")
    }

    fn size() -> (r: Option<usize>)
        ensures
            (r matches Some(s) && s as nat == vstd::layout::size_of::<Switch>()),
    {
        Some(core::mem::size_of::<Switch>())
    }

    fn align() -> (r: Option<usize>)
        ensures
            (r matches Some(a) && a as nat == vstd::layout::align_of::<Switch>()),
    {
        Some(core::mem::align_of::<Switch>())
    }

    fn def(collector: &mut TypesCollector) -> (d: DefType)
        ensures
            *final(collector) == *old(collector),
            d is Enum,
            (d matches DefType::Enum(p) ==> {
                &&& p.name@ == Self::key()
                &&& p.variants@.len() == 2
                &&& p.variants@[0].name@ == "On"@ && p.variants@[0].discriminant == 0
                &&& p.variants@[1].name@ == "Off"@ && p.variants@[1].discriminant == 1
                &&& p.variants@[0].ser_value is Some && p.variants@[0].ser_value->0@ == "On"@
                &&& p.variants@[1].ser_value is Some && p.variants@[1].ser_value->0@ == "Off"@
                &&& p.variants@[0].value_type_id is None && p.variants@[1].value_type_id is None
                &&& p.tag is NoTag
            }),
    {
        DefType::Enum(DefEnum {
            name: Self::name(),
            ser_name: Self::name(),
            size: core::mem::size_of::<Switch>(),
            align: core::mem::align_of::<Switch>(),
            variants: vec![
                DefEnumVariant {
                    name: String::from_str("On"),
                    discriminant: 0,
                    ser_value: Some(String::from_str("On")),
                    value_type_id: None,
                },
                DefEnumVariant {
                    name: String::from_str("Off"),
                    discriminant: 1,
                    ser_value: Some(String::from_str("Off")),
                    value_type_id: None,
                },
            ],
            tag: DefEnumTag::NoTag,
        })
    }
}

impl Inspect for Qux {
    open spec fn key() -> Seq<char> {
        "Qux"@
    }

    fn name() -> (r: String) {
        String::from_str("Qux")
    }

    fn size() -> (r: Option<usize>)
        ensures
            (r matches Some(s) && s as nat == vstd::layout::size_of::<Qux>()),
    {
        Some(core::mem::size_of::<Qux>())
    }

    fn align() -> (r: Option<usize>)
        ensures
            (r matches Some(a) && a as nat == vstd::layout::align_of::<Qux>()),
    {
        Some(core::mem::align_of::<Qux>())
    }

    fn def(collector: &mut TypesCollector) -> (d: DefType)
        ensures
            d is Enum,
            (d matches DefType::Enum(p) ==> {
                &&& p.name@ == Self::key()
                &&& p.variants@.len() == 2
                &&& p.variants@[0].name@ == "Sun"@ && p.variants@[1].name@ == "Moon"@
                &&& p.variants@[0].ser_value is None && p.variants@[1].ser_value is None
                &&& p.variants@[0].value_type_id is Some
                &&& final(collector).key_at(p.variants@[0].value_type_id->0 as int) == "Foo"@
                &&& p.variants@[1].value_type_id is Some
                &&& final(collector).key_at(p.variants@[1].value_type_id->0 as int) == "Bar"@
            }),
    {
        let sun_ty = collector.collect::<Foo>();
        let moon_ty = collector.collect::<Bar>();
        DefType::Enum(DefEnum {
            name: Self::name(),
            ser_name: Self::name(),
            size: core::mem::size_of::<Qux>(),
            align: core::mem::align_of::<Qux>(),
            variants: vec![
                DefEnumVariant {
                    name: String::from_str("Sun"),
                    discriminant: 0,
                    ser_value: None,
                    value_type_id: Some(sun_ty),
                },
                DefEnumVariant {
                    name: String::from_str("Moon"),
                    discriminant: 1,
                    ser_value: None,
                    value_type_id: Some(moon_ty),
                },
            ],
            tag: DefEnumTag::NoTag,
        })
    }
}

impl Inspect for Foo {
    open spec fn key() -> Seq<char> {
        "Foo"@
    }

    fn name() -> (r: String) {
        String::from_str("Foo")
    }

    fn size() -> (r: Option<usize>)
        ensures
            (r matches Some(s) && s as nat == vstd::layout::size_of::<Foo>()),
    {
        Some(core::mem::size_of::<Foo>())
    }

    fn align() -> (r: Option<usize>)
        ensures
            (r matches Some(a) && a as nat == vstd::layout::align_of::<Foo>()),
    {
        Some(core::mem::align_of::<Foo>())
    }

    fn def(collector: &mut TypesCollector) -> (d: DefType)
        ensures
            d is Struct,
            (d matches DefType::Struct(p) ==> {
                &&& p.name@ == Self::key()
                &&& p.ser_name@ == Self::key()
                &&& p.fields@.len() == 5
                &&& p.fields@[2].ser_name@ == "middle"@
                &&& p.fields@[3].flatten
                &&& final(collector).key_at(p.fields@[4].type_id as int) == "Switch"@
            }),
    {
        let small_ty = collector.collect::<u8>();
        let big_ty = collector.collect::<u32>();
        let mid_ty = collector.collect::<u16>();
        let bar_ty = collector.collect::<Bar>();
        let switch_ty = collector.collect::<Switch>();
        let mut offset: usize = 0;
        let small_off = offset;
        offset = offset.saturating_add(core::mem::size_of::<u8>());
        let big_off = offset;
        offset = offset.saturating_add(core::mem::size_of::<u32>());
        let mid_off = offset;
        offset = offset.saturating_add(core::mem::size_of::<u16>());
        let bar_off = offset;
        offset = offset.saturating_add(core::mem::size_of::<Bar>());
        let switch_off = offset;
        DefType::Struct(DefStruct {
            name: Self::name(),
            ser_name: Self::name(),
            size: Self::size(),
            align: Self::align(),
            fields: vec![
                DefStructField {
                    name: String::from_str("small"),
                    ser_name: String::from_str("small"),
                    type_id: small_ty,
                    offset: small_off,
                    flatten: false,
                    skip: false,
                },
                DefStructField {
                    name: String::from_str("big"),
                    ser_name: String::from_str("big"),
                    type_id: big_ty,
                    offset: big_off,
                    flatten: false,
                    skip: false,
                },
                DefStructField {
                    name: String::from_str("mid"),
                    ser_name: String::from_str("middle"),
                    type_id: mid_ty,
                    offset: mid_off,
                    flatten: false,
                    skip: false,
                },
                DefStructField {
                    name: String::from_str("bar"),
                    ser_name: String::from_str("bar"),
                    type_id: bar_ty,
                    offset: bar_off,
                    flatten: true,
                    skip: false,
                },
                DefStructField {
                    name: String::from_str("switch"),
                    ser_name: String::from_str("switch"),
                    type_id: switch_ty,
                    offset: switch_off,
                    flatten: false,
                    skip: false,
                },
            ],
            tag: None,
            transparent: false,
        })
    }
}

} // verus!

use vstd::prelude::*;
use crate::defs::{DefPrimitive, DefType};
use crate::{Inspect, TypesCollector};

verus! {

impl Inspect for u8 {
    open spec fn key() -> Seq<char> {
        "u8"@
    }

    fn name() -> (r: String) {
        String::from_str("u8")
    }

    fn size() -> (r: Option<usize>)
        ensures
            (r matches Some(s) && s as nat == vstd::layout::size_of::<u8>()),
    {
        Some(core::mem::size_of::<u8>())
    }

    fn align() -> (r: Option<usize>)
        ensures
            (r matches Some(a) && a as nat == vstd::layout::align_of::<u8>()),
    {
        Some(core::mem::align_of::<u8>())
    }

    fn def(collector: &mut TypesCollector) -> (d: DefType)
        ensures
            *final(collector) == *old(collector),
            (d matches DefType::Primitive(p) && p.name@ == Self::key()
                && p.size as nat == vstd::layout::size_of::<u8>()
                && p.align as nat == vstd::layout::align_of::<u8>()),
    {
        DefType::Primitive(DefPrimitive {
            name: Self::name(),
            size: core::mem::size_of::<u8>(),
            align: core::mem::align_of::<u8>(),
        })
    }
}

impl Inspect for u16 {
    open spec fn key() -> Seq<char> {
        "u16"@
    }

    fn name() -> (r: String) {
        String::from_str("u16")
    }

    fn size() -> (r: Option<usize>)
        ensures
            (r matches Some(s) && s as nat == vstd::layout::size_of::<u16>()),
    {
        Some(core::mem::size_of::<u16>())
    }

    fn align() -> (r: Option<usize>)
        ensures
            (r matches Some(a) && a as nat == vstd::layout::align_of::<u16>()),
    {
        Some(core::mem::align_of::<u16>())
    }

    fn def(collector: &mut TypesCollector) -> (d: DefType)
        ensures
            *final(collector) == *old(collector),
            (d matches DefType::Primitive(p) && p.name@ == Self::key()
                && p.size as nat == vstd::layout::size_of::<u16>()
                && p.align as nat == vstd::layout::align_of::<u16>()),
    {
        DefType::Primitive(DefPrimitive {
            name: Self::name(),
            size: core::mem::size_of::<u16>(),
            align: core::mem::align_of::<u16>(),
        })
    }
}

impl Inspect for u32 {
    open spec fn key() -> Seq<char> {
        "u32"@
    }

    fn name() -> (r: String) {
        String::from_str("u32")
    }

    fn size() -> (r: Option<usize>)
        ensures
            (r matches Some(s) && s as nat == vstd::layout::size_of::<u32>()),
    {
        Some(core::mem::size_of::<u32>())
    }

    fn align() -> (r: Option<usize>)
        ensures
            (r matches Some(a) && a as nat == vstd::layout::align_of::<u32>()),
    {
        Some(core::mem::align_of::<u32>())
    }

    fn def(collector: &mut TypesCollector) -> (d: DefType)
        ensures
            *final(collector) == *old(collector),
            (d matches DefType::Primitive(p) && p.name@ == Self::key()
                && p.size as nat == vstd::layout::size_of::<u32>()
                && p.align as nat == vstd::layout::align_of::<u32>()),
    {
        DefType::Primitive(DefPrimitive {
            name: Self::name(),
            size: core::mem::size_of::<u32>(),
            align: core::mem::align_of::<u32>(),
        })
    }
}

impl Inspect for u64 {
    open spec fn key() -> Seq<char> {
        "u64"@
    }

    fn name() -> (r: String) {
        String::from_str("u64")
    }

    fn size() -> (r: Option<usize>)
        ensures
            (r matches Some(s) && s as nat == vstd::layout::size_of::<u64>()),
    {
        Some(core::mem::size_of::<u64>())
    }

    fn align() -> (r: Option<usize>)
        ensures
            (r matches Some(a) && a as nat == vstd::layout::align_of::<u64>()),
    {
        Some(core::mem::align_of::<u64>())
    }

    fn def(collector: &mut TypesCollector) -> (d: DefType)
        ensures
            *final(collector) == *old(collector),
            (d matches DefType::Primitive(p) && p.name@ == Self::key()
                && p.size as nat == vstd::layout::size_of::<u64>()
                && p.align as nat == vstd::layout::align_of::<u64>()),
    {
        DefType::Primitive(DefPrimitive {
            name: Self::name(),
            size: core::mem::size_of::<u64>(),
            align: core::mem::align_of::<u64>(),
        })
    }
}

impl Inspect for u128 {
    open spec fn key() -> Seq<char> {
        "u128"@
    }

    fn name() -> (r: String) {
        String::from_str("u128")
    }

    fn size() -> (r: Option<usize>)
        ensures
            (r matches Some(s) && s as nat == vstd::layout::size_of::<u128>()),
    {
        Some(core::mem::size_of::<u128>())
    }

    fn align() -> (r: Option<usize>)
        ensures
            (r matches Some(a) && a as nat == vstd::layout::align_of::<u128>()),
    {
        Some(core::mem::align_of::<u128>())
    }

    fn def(collector: &mut TypesCollector) -> (d: DefType)
        ensures
            *final(collector) == *old(collector),
            (d matches DefType::Primitive(p) && p.name@ == Self::key()
                && p.size as nat == vstd::layout::size_of::<u128>()
                && p.align as nat == vstd::layout::align_of::<u128>()),
    {
        DefType::Primitive(DefPrimitive {
            name: Self::name(),
            size: core::mem::size_of::<u128>(),
            align: core::mem::align_of::<u128>(),
        })
    }
}

impl Inspect for usize {
    open spec fn key() -> Seq<char> {
        "usize"@
    }

    fn name() -> (r: String) {
        String::from_str("usize")
    }

    fn size() -> (r: Option<usize>)
        ensures
            (r matches Some(s) && s as nat == vstd::layout::size_of::<usize>()),
    {
        Some(core::mem::size_of::<usize>())
    }

    fn align() -> (r: Option<usize>)
        ensures
            (r matches Some(a) && a as nat == vstd::layout::align_of::<usize>()),
    {
        Some(core::mem::align_of::<usize>())
    }

    fn def(collector: &mut TypesCollector) -> (d: DefType)
        ensures
            *final(collector) == *old(collector),
            (d matches DefType::Primitive(p) && p.name@ == Self::key()
                && p.size as nat == vstd::layout::size_of::<usize>()
                && p.align as nat == vstd::layout::align_of::<usize>()),
    {
        DefType::Primitive(DefPrimitive {
            name: Self::name(),
            size: core::mem::size_of::<usize>(),
            align: core::mem::align_of::<usize>(),
        })
    }
}

impl Inspect for i8 {
    open spec fn key() -> Seq<char> {
        "i8"@
    }

    fn name() -> (r: String) {
        String::from_str("i8")
    }

    fn size() -> (r: Option<usize>)
        ensures
            (r matches Some(s) && s as nat == vstd::layout::size_of::<i8>()),
    {
        Some(core::mem::size_of::<i8>())
    }

    fn align() -> (r: Option<usize>)
        ensures
            (r matches Some(a) && a as nat == vstd::layout::align_of::<i8>()),
    {
        Some(core::mem::align_of::<i8>())
    }

    fn def(collector: &mut TypesCollector) -> (d: DefType)
        ensures
            *final(collector) == *old(collector),
            (d matches DefType::Primitive(p) && p.name@ == Self::key()
                && p.size as nat == vstd::layout::size_of::<i8>()
                && p.align as nat == vstd::layout::align_of::<i8>()),
    {
        DefType::Primitive(DefPrimitive {
            name: Self::name(),
            size: core::mem::size_of::<i8>(),
            align: core::mem::align_of::<i8>(),
        })
    }
}

impl Inspect for i16 {
    open spec fn key() -> Seq<char> {
        "i16"@
    }

    fn name() -> (r: String) {
        String::from_str("i16")
    }

    fn size() -> (r: Option<usize>)
        ensures
            (r matches Some(s) && s as nat == vstd::layout::size_of::<i16>()),
    {
        Some(core::mem::size_of::<i16>())
    }

    fn align() -> (r: Option<usize>)
        ensures
            (r matches Some(a) && a as nat == vstd::layout::align_of::<i16>()),
    {
        Some(core::mem::align_of::<i16>())
    }

    fn def(collector: &mut TypesCollector) -> (d: DefType)
        ensures
            *final(collector) == *old(collector),
            (d matches DefType::Primitive(p) && p.name@ == Self::key()
                && p.size as nat == vstd::layout::size_of::<i16>()
                && p.align as nat == vstd::layout::align_of::<i16>()),
    {
        DefType::Primitive(DefPrimitive {
            name: Self::name(),
            size: core::mem::size_of::<i16>(),
            align: core::mem::align_of::<i16>(),
        })
    }
}

impl Inspect for i32 {
    open spec fn key() -> Seq<char> {
        "i32"@
    }

    fn name() -> (r: String) {
        String::from_str("i32")
    }

    fn size() -> (r: Option<usize>)
        ensures
            (r matches Some(s) && s as nat == vstd::layout::size_of::<i32>()),
    {
        Some(core::mem::size_of::<i32>())
    }

    fn align() -> (r: Option<usize>)
        ensures
            (r matches Some(a) && a as nat == vstd::layout::align_of::<i32>()),
    {
        Some(core::mem::align_of::<i32>())
    }

    fn def(collector: &mut TypesCollector) -> (d: DefType)
        ensures
            *final(collector) == *old(collector),
            (d matches DefType::Primitive(p) && p.name@ == Self::key()
                && p.size as nat == vstd::layout::size_of::<i32>()
                && p.align as nat == vstd::layout::align_of::<i32>()),
    {
        DefType::Primitive(DefPrimitive {
            name: Self::name(),
            size: core::mem::size_of::<i32>(),
            align: core::mem::align_of::<i32>(),
        })
    }
}

impl Inspect for i64 {
    open spec fn key() -> Seq<char> {
        "i64"@
    }

    fn name() -> (r: String) {
        String::from_str("i64")
    }

    fn size() -> (r: Option<usize>)
        ensures
            (r matches Some(s) && s as nat == vstd::layout::size_of::<i64>()),
    {
        Some(core::mem::size_of::<i64>())
    }

    fn align() -> (r: Option<usize>)
        ensures
            (r matches Some(a) && a as nat == vstd::layout::align_of::<i64>()),
    {
        Some(core::mem::align_of::<i64>())
    }

    fn def(collector: &mut TypesCollector) -> (d: DefType)
        ensures
            *final(collector) == *old(collector),
            (d matches DefType::Primitive(p) && p.name@ == Self::key()
                && p.size as nat == vstd::layout::size_of::<i64>()
                && p.align as nat == vstd::layout::align_of::<i64>()),
    {
        DefType::Primitive(DefPrimitive {
            name: Self::name(),
            size: core::mem::size_of::<i64>(),
            align: core::mem::align_of::<i64>(),
        })
    }
}

impl Inspect for i128 {
    open spec fn key() -> Seq<char> {
        "i128"@
    }

    fn name() -> (r: String) {
        String::from_str("i128")
    }

    fn size() -> (r: Option<usize>)
        ensures
            (r matches Some(s) && s as nat == vstd::layout::size_of::<i128>()),
    {
        Some(core::mem::size_of::<i128>())
    }

    fn align() -> (r: Option<usize>)
        ensures
            (r matches Some(a) && a as nat == vstd::layout::align_of::<i128>()),
    {
        Some(core::mem::align_of::<i128>())
    }

    fn def(collector: &mut TypesCollector) -> (d: DefType)
        ensures
            *final(collector) == *old(collector),
            (d matches DefType::Primitive(p) && p.name@ == Self::key()
                && p.size as nat == vstd::layout::size_of::<i128>()
                && p.align as nat == vstd::layout::align_of::<i128>()),
    {
        DefType::Primitive(DefPrimitive {
            name: Self::name(),
            size: core::mem::size_of::<i128>(),
            align: core::mem::align_of::<i128>(),
        })
    }
}

impl Inspect for isize {
    open spec fn key() -> Seq<char> {
        "isize"@
    }

    fn name() -> (r: String) {
        String::from_str("isize")
    }

    fn size() -> (r: Option<usize>)
        ensures
            (r matches Some(s) && s as nat == vstd::layout::size_of::<isize>()),
    {
        Some(core::mem::size_of::<isize>())
    }

    fn align() -> (r: Option<usize>)
        ensures
            (r matches Some(a) && a as nat == vstd::layout::align_of::<isize>()),
    {
        Some(core::mem::align_of::<isize>())
    }

    fn def(collector: &mut TypesCollector) -> (d: DefType)
        ensures
            *final(collector) == *old(collector),
            (d matches DefType::Primitive(p) && p.name@ == Self::key()
                && p.size as nat == vstd::layout::size_of::<isize>()
                && p.align as nat == vstd::layout::align_of::<isize>()),
    {
        DefType::Primitive(DefPrimitive {
            name: Self::name(),
            size: core::mem::size_of::<isize>(),
            align: core::mem::align_of::<isize>(),
        })
    }
}

impl Inspect for bool {
    open spec fn key() -> Seq<char> {
        "bool"@
    }

    fn name() -> (r: String) {
        String::from_str("bool")
    }

    fn size() -> (r: Option<usize>)
        ensures
            (r matches Some(s) && s as nat == vstd::layout::size_of::<bool>()),
    {
        Some(core::mem::size_of::<bool>())
    }

    fn align() -> (r: Option<usize>)
        ensures
            (r matches Some(a) && a as nat == vstd::layout::align_of::<bool>()),
    {
        Some(core::mem::align_of::<bool>())
    }

    fn def(collector: &mut TypesCollector) -> (d: DefType)
        ensures
            *final(collector) == *old(collector),
            (d matches DefType::Primitive(p) && p.name@ == Self::key()
                && p.size as nat == vstd::layout::size_of::<bool>()
                && p.align as nat == vstd::layout::align_of::<bool>()),
    {
        DefType::Primitive(DefPrimitive {
            name: Self::name(),
            size: core::mem::size_of::<bool>(),
            align: core::mem::align_of::<bool>(),
        })
    }
}

impl Inspect for char {
    open spec fn key() -> Seq<char> {
        "char"@
    }

    fn name() -> (r: String) {
        String::from_str("char")
    }

    fn size() -> (r: Option<usize>)
        ensures
            (r matches Some(s) && s as nat == vstd::layout::size_of::<char>()),
    {
        Some(core::mem::size_of::<char>())
    }

    fn align() -> (r: Option<usize>)
        ensures
            (r matches Some(a) && a as nat == vstd::layout::align_of::<char>()),
    {
        Some(core::mem::align_of::<char>())
    }

    fn def(collector: &mut TypesCollector) -> (d: DefType)
        ensures
            *final(collector) == *old(collector),
            (d matches DefType::Primitive(p) && p.name@ == Self::key()
                && p.size as nat == vstd::layout::size_of::<char>()
                && p.align as nat == vstd::layout::align_of::<char>()),
    {
        DefType::Primitive(DefPrimitive {
            name: Self::name(),
            size: core::mem::size_of::<char>(),
            align: core::mem::align_of::<char>(),
        })
    }
}

impl Inspect for () {
    open spec fn key() -> Seq<char> {
        "()"@
    }

    fn name() -> (r: String) {
        String::from_str("()")
    }

    fn size() -> (r: Option<usize>)
        ensures
            (r matches Some(s) && s as nat == vstd::layout::size_of::<()>()),
    {
        Some(core::mem::size_of::<()>())
    }

    fn align() -> (r: Option<usize>)
        ensures
            (r matches Some(a) && a as nat == vstd::layout::align_of::<()>()),
    {
        Some(core::mem::align_of::<()>())
    }

    fn def(collector: &mut TypesCollector) -> (d: DefType)
        ensures
            *final(collector) == *old(collector),
            (d matches DefType::Primitive(p) && p.name@ == Self::key()
                && p.size as nat == vstd::layout::size_of::<()>()
                && p.align as nat == vstd::layout::align_of::<()>()),
    {
        DefType::Primitive(DefPrimitive {
            name: Self::name(),
            size: core::mem::size_of::<()>(),
            align: core::mem::align_of::<()>(),
        })
    }
}

} // verus!

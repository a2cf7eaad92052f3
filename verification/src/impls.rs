use vstd::prelude::*;
use crate::defs::{DefArc, DefBox, DefCell, DefMutex, DefOption, DefPhantomData, DefRc, DefRefCell,
    DefResult, DefRwLock, DefStr, DefString, DefStrSlice, DefType, DefVec};
use crate::{Inspect, TypesCollector};

verus! {

/// Declares std's `Cell`; nothing inside a `Cell` value is ever read.
#[verifier::external_type_specification]
#[verifier::external_body]
#[verifier::reject_recursive_types(T)]
pub struct ExStdCell<T: ?Sized>(core::cell::Cell<T>);

/// Declares std's `RefCell`; nothing inside a `RefCell` value is ever read.
#[verifier::external_type_specification]
#[verifier::external_body]
#[verifier::reject_recursive_types(T)]
pub struct ExStdRefCell<T: ?Sized>(core::cell::RefCell<T>);

/// Declares std's `Mutex`; nothing inside a `Mutex` value is ever read.
#[verifier::external_type_specification]
#[verifier::external_body]
#[verifier::reject_recursive_types(T)]
pub struct ExStdMutex<T: ?Sized>(std::sync::Mutex<T>);

/// Declares std's `RwLock`; nothing inside a `RwLock` value is ever read.
#[verifier::external_type_specification]
#[verifier::external_body]
#[verifier::reject_recursive_types(T)]
pub struct ExStdRwLock<T: ?Sized>(std::sync::RwLock<T>);

impl Inspect for String {
    open spec fn key() -> Seq<char> {
        "String"@
    }

    fn name() -> (r: String) {
        String::from_str("String")
    }

    fn size() -> (r: Option<usize>)
        ensures
            (r matches Some(s) && s as nat == vstd::layout::size_of::<String>()),
    {
        Some(core::mem::size_of::<String>())
    }

    fn align() -> (r: Option<usize>)
        ensures
            (r matches Some(a) && a as nat == vstd::layout::align_of::<String>()),
    {
        Some(core::mem::align_of::<String>())
    }

    fn def(collector: &mut TypesCollector) -> (d: DefType)
        ensures
            *final(collector) == *old(collector),
            (d matches DefType::String(w) && w.name@ == Self::key()
                && w.size as nat == vstd::layout::size_of::<String>()
                && w.align as nat == vstd::layout::align_of::<String>()),
    {
        DefType::String(DefString {
            name: Self::name(),
            size: core::mem::size_of::<String>(),
            align: core::mem::align_of::<String>(),
        })
    }
}

impl Inspect for str {
    open spec fn key() -> Seq<char> {
        "str"@
    }

    fn name() -> (r: String) {
        String::from_str("str")
    }

    /// The string view is unsized, so its size is unknown.
    fn size() -> (r: Option<usize>)
        ensures
            r is None,
    {
        None
    }

    /// Byte-aligned.
    fn align() -> (r: Option<usize>)
        ensures
            (r matches Some(a) && a == 1usize),
    {
        Some(1)
    }

    fn def(collector: &mut TypesCollector) -> (d: DefType)
        ensures
            *final(collector) == *old(collector),
            (d matches DefType::Str(w) && w.name@ == Self::key()
                && w.size is None && w.align == 1usize),
    {
        DefType::Str(DefStr { name: Self::name(), size: None, align: 1 })
    }
}

impl<'a> Inspect for &'a str {
    open spec fn key() -> Seq<char> {
        "&str"@
    }

    fn name() -> (r: String) {
        String::from_str("&str")
    }

    fn size() -> (r: Option<usize>)
        ensures
            (r matches Some(s) && s as nat == vstd::layout::size_of::<&'a str>()),
    {
        Some(core::mem::size_of::<&'a str>())
    }

    fn align() -> (r: Option<usize>)
        ensures
            (r matches Some(a) && a as nat == vstd::layout::align_of::<&'a str>()),
    {
        Some(core::mem::align_of::<&'a str>())
    }

    fn def(collector: &mut TypesCollector) -> (d: DefType)
        ensures
            *final(collector) == *old(collector),
            (d matches DefType::StrSlice(w) && w.name@ == Self::key()
                && w.size as nat == vstd::layout::size_of::<&'a str>()
                && w.align as nat == vstd::layout::align_of::<&'a str>()),
    {
        DefType::StrSlice(DefStrSlice {
            name: Self::name(),
            size: core::mem::size_of::<&'a str>(),
            align: core::mem::align_of::<&'a str>(),
        })
    }
}

impl<T: Inspect> Inspect for Box<T> {
    open spec fn key() -> Seq<char> {
        "Box<"@ + T::key() + ">"@
    }

    fn name() -> (r: String) {
        let mut s = String::from_str("Box<");
        s.append(T::name().as_str());
        s.append(">");
        s
    }

    fn size() -> (r: Option<usize>)
        ensures
            (r matches Some(s) && s as nat == vstd::layout::size_of::<Box<T>>()),
    {
        Some(core::mem::size_of::<Box<T>>())
    }

    fn align() -> (r: Option<usize>)
        ensures
            (r matches Some(a) && a as nat == vstd::layout::align_of::<Box<T>>()),
    {
        Some(core::mem::align_of::<Box<T>>())
    }

    fn def(collector: &mut TypesCollector) -> (d: DefType)
        ensures
            (d matches DefType::Box(w) && w.name@ == Self::key()
                && w.size as nat == vstd::layout::size_of::<Box<T>>()
                && w.align as nat == vstd::layout::align_of::<Box<T>>()
                && w.value_type_id < final(collector).len_spec()
                && final(collector).key_at(w.value_type_id as int) == T::key()
                && (!(exists|i: int|
                    0 <= i < old(collector).len_spec() && old(collector).key_at(i) == T::key())
                    ==> w.value_type_id == old(collector).len_spec())),
    {
        let id = collector.collect::<T>();
        DefType::Box(DefBox {
            name: Self::name(),
            size: core::mem::size_of::<Box<T>>(),
            align: core::mem::align_of::<Box<T>>(),
            value_type_id: id,
        })
    }
}

impl<T: Inspect> Inspect for Vec<T> {
    open spec fn key() -> Seq<char> {
        "Vec<"@ + T::key() + ">"@
    }

    fn name() -> (r: String) {
        let mut s = String::from_str("Vec<");
        s.append(T::name().as_str());
        s.append(">");
        s
    }

    fn size() -> (r: Option<usize>)
        ensures
            (r matches Some(s) && s as nat == vstd::layout::size_of::<Vec<T>>()),
    {
        Some(core::mem::size_of::<Vec<T>>())
    }

    fn align() -> (r: Option<usize>)
        ensures
            (r matches Some(a) && a as nat == vstd::layout::align_of::<Vec<T>>()),
    {
        Some(core::mem::align_of::<Vec<T>>())
    }

    fn def(collector: &mut TypesCollector) -> (d: DefType)
        ensures
            (d matches DefType::Vec(w) && w.name@ == Self::key()
                && w.size as nat == vstd::layout::size_of::<Vec<T>>()
                && w.align as nat == vstd::layout::align_of::<Vec<T>>()
                && w.value_type_id < final(collector).len_spec()
                && final(collector).key_at(w.value_type_id as int) == T::key()
                && (!(exists|i: int|
                    0 <= i < old(collector).len_spec() && old(collector).key_at(i) == T::key())
                    ==> w.value_type_id == old(collector).len_spec())),
    {
        let id = collector.collect::<T>();
        DefType::Vec(DefVec {
            name: Self::name(),
            size: core::mem::size_of::<Vec<T>>(),
            align: core::mem::align_of::<Vec<T>>(),
            value_type_id: id,
        })
    }
}

impl<T: Inspect> Inspect for Option<T> {
    open spec fn key() -> Seq<char> {
        "Option<"@ + T::key() + ">"@
    }

    fn name() -> (r: String) {
        let mut s = String::from_str("Option<");
        s.append(T::name().as_str());
        s.append(">");
        s
    }

    fn size() -> (r: Option<usize>)
        ensures
            (r matches Some(s) && s as nat == vstd::layout::size_of::<Option<T>>()),
    {
        Some(core::mem::size_of::<Option<T>>())
    }

    fn align() -> (r: Option<usize>)
        ensures
            (r matches Some(a) && a as nat == vstd::layout::align_of::<Option<T>>()),
    {
        Some(core::mem::align_of::<Option<T>>())
    }

    fn def(collector: &mut TypesCollector) -> (d: DefType)
        ensures
            (d matches DefType::Option(w) && w.name@ == Self::key()
                && w.size as nat == vstd::layout::size_of::<Option<T>>()
                && w.align as nat == vstd::layout::align_of::<Option<T>>()
                && w.value_type_id < final(collector).len_spec()
                && final(collector).key_at(w.value_type_id as int) == T::key()
                && (!(exists|i: int|
                    0 <= i < old(collector).len_spec() && old(collector).key_at(i) == T::key())
                    ==> w.value_type_id == old(collector).len_spec())),
    {
        let id = collector.collect::<T>();
        DefType::Option(DefOption {
            name: Self::name(),
            size: core::mem::size_of::<Option<T>>(),
            align: core::mem::align_of::<Option<T>>(),
            value_type_id: id,
        })
    }
}

impl<T: Inspect> Inspect for core::marker::PhantomData<T> {
    open spec fn key() -> Seq<char> {
        "PhantomData<"@ + T::key() + ">"@
    }

    fn name() -> (r: String) {
        let mut s = String::from_str("PhantomData<");
        s.append(T::name().as_str());
        s.append(">");
        s
    }

    fn size() -> (r: Option<usize>)
        ensures
            (r matches Some(s) && s as nat == vstd::layout::size_of::<core::marker::PhantomData<T>>()),
    {
        Some(core::mem::size_of::<core::marker::PhantomData<T>>())
    }

    fn align() -> (r: Option<usize>)
        ensures
            (r matches Some(a) && a as nat == vstd::layout::align_of::<core::marker::PhantomData<T>>()),
    {
        Some(core::mem::align_of::<core::marker::PhantomData<T>>())
    }

    fn def(collector: &mut TypesCollector) -> (d: DefType)
        ensures
            (d matches DefType::PhantomData(w) && w.name@ == Self::key()
                && w.size as nat == vstd::layout::size_of::<core::marker::PhantomData<T>>()
                && w.align as nat == vstd::layout::align_of::<core::marker::PhantomData<T>>()
                && w.value_type_id < final(collector).len_spec()
                && final(collector).key_at(w.value_type_id as int) == T::key()
                && (!(exists|i: int|
                    0 <= i < old(collector).len_spec() && old(collector).key_at(i) == T::key())
                    ==> w.value_type_id == old(collector).len_spec())),
    {
        let id = collector.collect::<T>();
        DefType::PhantomData(DefPhantomData {
            name: Self::name(),
            size: core::mem::size_of::<core::marker::PhantomData<T>>(),
            align: core::mem::align_of::<core::marker::PhantomData<T>>(),
            value_type_id: id,
        })
    }
}

impl<T: Inspect> Inspect for core::cell::Cell<T> {
    open spec fn key() -> Seq<char> {
        "Cell<"@ + T::key() + ">"@
    }

    fn name() -> (r: String) {
        let mut s = String::from_str("Cell<");
        s.append(T::name().as_str());
        s.append(">");
        s
    }

    fn size() -> (r: Option<usize>)
        ensures
            (r matches Some(s) && s as nat == vstd::layout::size_of::<core::cell::Cell<T>>()),
    {
        Some(core::mem::size_of::<core::cell::Cell<T>>())
    }

    fn align() -> (r: Option<usize>)
        ensures
            (r matches Some(a) && a as nat == vstd::layout::align_of::<core::cell::Cell<T>>()),
    {
        Some(core::mem::align_of::<core::cell::Cell<T>>())
    }

    fn def(collector: &mut TypesCollector) -> (d: DefType)
        ensures
            (d matches DefType::Cell(w) && w.name@ == Self::key()
                && w.size as nat == vstd::layout::size_of::<core::cell::Cell<T>>()
                && w.align as nat == vstd::layout::align_of::<core::cell::Cell<T>>()
                && w.value_type_id < final(collector).len_spec()
                && final(collector).key_at(w.value_type_id as int) == T::key()
                && (!(exists|i: int|
                    0 <= i < old(collector).len_spec() && old(collector).key_at(i) == T::key())
                    ==> w.value_type_id == old(collector).len_spec())),
    {
        let id = collector.collect::<T>();
        DefType::Cell(DefCell {
            name: Self::name(),
            size: core::mem::size_of::<core::cell::Cell<T>>(),
            align: core::mem::align_of::<core::cell::Cell<T>>(),
            value_type_id: id,
        })
    }
}

impl<T: Inspect> Inspect for core::cell::RefCell<T> {
    open spec fn key() -> Seq<char> {
        "RefCell<"@ + T::key() + ">"@
    }

    fn name() -> (r: String) {
        let mut s = String::from_str("RefCell<");
        s.append(T::name().as_str());
        s.append(">");
        s
    }

    fn size() -> (r: Option<usize>)
        ensures
            (r matches Some(s) && s as nat == vstd::layout::size_of::<core::cell::RefCell<T>>()),
    {
        Some(core::mem::size_of::<core::cell::RefCell<T>>())
    }

    fn align() -> (r: Option<usize>)
        ensures
            (r matches Some(a) && a as nat == vstd::layout::align_of::<core::cell::RefCell<T>>()),
    {
        Some(core::mem::align_of::<core::cell::RefCell<T>>())
    }

    fn def(collector: &mut TypesCollector) -> (d: DefType)
        ensures
            (d matches DefType::RefCell(w) && w.name@ == Self::key()
                && w.size as nat == vstd::layout::size_of::<core::cell::RefCell<T>>()
                && w.align as nat == vstd::layout::align_of::<core::cell::RefCell<T>>()
                && w.value_type_id < final(collector).len_spec()
                && final(collector).key_at(w.value_type_id as int) == T::key()
                && (!(exists|i: int|
                    0 <= i < old(collector).len_spec() && old(collector).key_at(i) == T::key())
                    ==> w.value_type_id == old(collector).len_spec())),
    {
        let id = collector.collect::<T>();
        DefType::RefCell(DefRefCell {
            name: Self::name(),
            size: core::mem::size_of::<core::cell::RefCell<T>>(),
            align: core::mem::align_of::<core::cell::RefCell<T>>(),
            value_type_id: id,
        })
    }
}

impl<T: Inspect> Inspect for std::sync::Mutex<T> {
    open spec fn key() -> Seq<char> {
        "Mutex<"@ + T::key() + ">"@
    }

    fn name() -> (r: String) {
        let mut s = String::from_str("Mutex<");
        s.append(T::name().as_str());
        s.append(">");
        s
    }

    fn size() -> (r: Option<usize>)
        ensures
            (r matches Some(s) && s as nat == vstd::layout::size_of::<std::sync::Mutex<T>>()),
    {
        Some(core::mem::size_of::<std::sync::Mutex<T>>())
    }

    fn align() -> (r: Option<usize>)
        ensures
            (r matches Some(a) && a as nat == vstd::layout::align_of::<std::sync::Mutex<T>>()),
    {
        Some(core::mem::align_of::<std::sync::Mutex<T>>())
    }

    fn def(collector: &mut TypesCollector) -> (d: DefType)
        ensures
            (d matches DefType::Mutex(w) && w.name@ == Self::key()
                && w.size as nat == vstd::layout::size_of::<std::sync::Mutex<T>>()
                && w.align as nat == vstd::layout::align_of::<std::sync::Mutex<T>>()
                && w.value_type_id < final(collector).len_spec()
                && final(collector).key_at(w.value_type_id as int) == T::key()
                && (!(exists|i: int|
                    0 <= i < old(collector).len_spec() && old(collector).key_at(i) == T::key())
                    ==> w.value_type_id == old(collector).len_spec())),
    {
        let id = collector.collect::<T>();
        DefType::Mutex(DefMutex {
            name: Self::name(),
            size: core::mem::size_of::<std::sync::Mutex<T>>(),
            align: core::mem::align_of::<std::sync::Mutex<T>>(),
            value_type_id: id,
        })
    }
}

impl<T: Inspect> Inspect for std::sync::RwLock<T> {
    open spec fn key() -> Seq<char> {
        "RwLock<"@ + T::key() + ">"@
    }

    fn name() -> (r: String) {
        let mut s = String::from_str("RwLock<");
        s.append(T::name().as_str());
        s.append(">");
        s
    }

    fn size() -> (r: Option<usize>)
        ensures
            (r matches Some(s) && s as nat == vstd::layout::size_of::<std::sync::RwLock<T>>()),
    {
        Some(core::mem::size_of::<std::sync::RwLock<T>>())
    }

    fn align() -> (r: Option<usize>)
        ensures
            (r matches Some(a) && a as nat == vstd::layout::align_of::<std::sync::RwLock<T>>()),
    {
        Some(core::mem::align_of::<std::sync::RwLock<T>>())
    }

    fn def(collector: &mut TypesCollector) -> (d: DefType)
        ensures
            (d matches DefType::RwLock(w) && w.name@ == Self::key()
                && w.size as nat == vstd::layout::size_of::<std::sync::RwLock<T>>()
                && w.align as nat == vstd::layout::align_of::<std::sync::RwLock<T>>()
                && w.value_type_id < final(collector).len_spec()
                && final(collector).key_at(w.value_type_id as int) == T::key()
                && (!(exists|i: int|
                    0 <= i < old(collector).len_spec() && old(collector).key_at(i) == T::key())
                    ==> w.value_type_id == old(collector).len_spec())),
    {
        let id = collector.collect::<T>();
        DefType::RwLock(DefRwLock {
            name: Self::name(),
            size: core::mem::size_of::<std::sync::RwLock<T>>(),
            align: core::mem::align_of::<std::sync::RwLock<T>>(),
            value_type_id: id,
        })
    }
}

impl<T: Inspect> Inspect for std::rc::Rc<T> {
    open spec fn key() -> Seq<char> {
        "Rc<"@ + T::key() + ">"@
    }

    fn name() -> (r: String) {
        let mut s = String::from_str("Rc<");
        s.append(T::name().as_str());
        s.append(">");
        s
    }

    fn size() -> (r: Option<usize>)
        ensures
            (r matches Some(s) && s as nat == vstd::layout::size_of::<std::rc::Rc<T>>()),
    {
        Some(core::mem::size_of::<std::rc::Rc<T>>())
    }

    fn align() -> (r: Option<usize>)
        ensures
            (r matches Some(a) && a as nat == vstd::layout::align_of::<std::rc::Rc<T>>()),
    {
        Some(core::mem::align_of::<std::rc::Rc<T>>())
    }

    fn def(collector: &mut TypesCollector) -> (d: DefType)
        ensures
            (d matches DefType::Rc(w) && w.name@ == Self::key()
                && w.size as nat == vstd::layout::size_of::<std::rc::Rc<T>>()
                && w.align as nat == vstd::layout::align_of::<std::rc::Rc<T>>()
                && w.value_type_id < final(collector).len_spec()
                && final(collector).key_at(w.value_type_id as int) == T::key()
                && (!(exists|i: int|
                    0 <= i < old(collector).len_spec() && old(collector).key_at(i) == T::key())
                    ==> w.value_type_id == old(collector).len_spec())),
    {
        let id = collector.collect::<T>();
        DefType::Rc(DefRc {
            name: Self::name(),
            size: core::mem::size_of::<std::rc::Rc<T>>(),
            align: core::mem::align_of::<std::rc::Rc<T>>(),
            value_type_id: id,
        })
    }
}

impl<T: Inspect> Inspect for std::sync::Arc<T> {
    open spec fn key() -> Seq<char> {
        "Arc<"@ + T::key() + ">"@
    }

    fn name() -> (r: String) {
        let mut s = String::from_str("Arc<");
        s.append(T::name().as_str());
        s.append(">");
        s
    }

    fn size() -> (r: Option<usize>)
        ensures
            (r matches Some(s) && s as nat == vstd::layout::size_of::<std::sync::Arc<T>>()),
    {
        Some(core::mem::size_of::<std::sync::Arc<T>>())
    }

    fn align() -> (r: Option<usize>)
        ensures
            (r matches Some(a) && a as nat == vstd::layout::align_of::<std::sync::Arc<T>>()),
    {
        Some(core::mem::align_of::<std::sync::Arc<T>>())
    }

    fn def(collector: &mut TypesCollector) -> (d: DefType)
        ensures
            (d matches DefType::Arc(w) && w.name@ == Self::key()
                && w.size as nat == vstd::layout::size_of::<std::sync::Arc<T>>()
                && w.align as nat == vstd::layout::align_of::<std::sync::Arc<T>>()
                && w.value_type_id < final(collector).len_spec()
                && final(collector).key_at(w.value_type_id as int) == T::key()
                && (!(exists|i: int|
                    0 <= i < old(collector).len_spec() && old(collector).key_at(i) == T::key())
                    ==> w.value_type_id == old(collector).len_spec())),
    {
        let id = collector.collect::<T>();
        DefType::Arc(DefArc {
            name: Self::name(),
            size: core::mem::size_of::<std::sync::Arc<T>>(),
            align: core::mem::align_of::<std::sync::Arc<T>>(),
            value_type_id: id,
        })
    }
}

impl<T: Inspect, T2: Inspect> Inspect for Result<T, T2> {
    open spec fn key() -> Seq<char> {
        "Result<"@ + T::key() + ","@ + T2::key() + ">"@
    }

    fn name() -> (r: String) {
        let mut s = String::from_str("Result<");
        s.append(T::name().as_str());
        s.append(",");
        s.append(T2::name().as_str());
        s.append(">");
        s
    }

    fn size() -> (r: Option<usize>)
        ensures
            (r matches Some(s) && s as nat == vstd::layout::size_of::<Result<T, T2>>()),
    {
        Some(core::mem::size_of::<Result<T, T2>>())
    }

    fn align() -> (r: Option<usize>)
        ensures
            (r matches Some(a) && a as nat == vstd::layout::align_of::<Result<T, T2>>()),
    {
        Some(core::mem::align_of::<Result<T, T2>>())
    }

    fn def(collector: &mut TypesCollector) -> (d: DefType)
        ensures
            (d matches DefType::Result(w) && w.name@ == Self::key()
                && w.size as nat == vstd::layout::size_of::<Result<T, T2>>()
                && w.align as nat == vstd::layout::align_of::<Result<T, T2>>()
                && w.ok_type_id < final(collector).len_spec()
                && final(collector).key_at(w.ok_type_id as int) == T::key()
                && w.err_type_id < final(collector).len_spec()
                && final(collector).key_at(w.err_type_id as int) == T2::key()
                && (!(exists|i: int|
                    0 <= i < old(collector).len_spec() && old(collector).key_at(i) == T::key())
                    ==> w.ok_type_id == old(collector).len_spec())
                && ((!(exists|i: int|
                    0 <= i < old(collector).len_spec() && old(collector).key_at(i) == T2::key())
                    && T2::key() != T::key()) ==> w.err_type_id >= old(collector).len_spec()
                    && w.err_type_id != w.ok_type_id)),
    {
        let ghost c0 = *old(collector);
        let ok_id = collector.collect::<T>();
        let ghost c1 = *collector;
        let err_id = collector.collect::<T2>();
        proof {
            if !(exists|i: int| 0 <= i < c0.len_spec() && c0.key_at(i) == T2::key())
                && T2::key() != T::key() {
                if err_id < c0.len_spec() {
                    collector.lemma_preserved_key(c1, err_id as int);
                    c1.lemma_preserved_key(c0, err_id as int);
                    assert(c0.key_at(err_id as int) == T2::key());
                    assert(false);
                }
                collector.lemma_preserved_key(c1, ok_id as int);
                assert(collector.key_at(ok_id as int) == T::key());
                assert(err_id != ok_id);
            }
        }
        DefType::Result(DefResult {
            name: Self::name(),
            size: core::mem::size_of::<Result<T, T2>>(),
            align: core::mem::align_of::<Result<T, T2>>(),
            ok_type_id: ok_id,
            err_type_id: err_id,
        })
    }
}

} // verus!

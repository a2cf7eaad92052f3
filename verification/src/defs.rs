use vstd::prelude::*;
use crate::TypeId;

verus! {

/// How a variant type's discriminating information appears in serialized form.
#[derive(PartialEq, Eq, Hash, Debug)]
pub enum DefEnumTag {
    NoTag,
    Tag(String),
    TagAndContent { tag: String, content: String },
    Untagged,
}

/// One catalog entry: the layout and serialization shape of a single type.
#[derive(PartialEq, Eq, Hash, Debug)]
pub enum DefType {
    Primitive(DefPrimitive),
    Struct(DefStruct),
    Enum(DefEnum),
    String(DefString),
    Str(DefStr),
    StrSlice(DefStrSlice),
    Box(DefBox),
    Vec(DefVec),
    Option(DefOption),
    PhantomData(DefPhantomData),
    Cell(DefCell),
    RefCell(DefRefCell),
    Mutex(DefMutex),
    RwLock(DefRwLock),
    Rc(DefRc),
    Arc(DefArc),
    Result(DefResult),
}

#[derive(PartialEq, Eq, Hash, Debug)]
pub struct DefPrimitive {
    pub name: String,
    pub size: usize,
    pub align: usize,
}

#[derive(PartialEq, Eq, Hash, Debug)]
pub struct DefStruct {
    pub name: String,
    pub ser_name: String,
    pub size: Option<usize>,
    pub align: Option<usize>,
    pub fields: Vec<DefStructField>,
    pub tag: Option<String>,
    pub transparent: bool,
}

#[derive(PartialEq, Eq, Hash, Debug)]
pub struct DefStructField {
    pub name: String,
    pub ser_name: String,
    pub type_id: TypeId,
    pub offset: usize,
    pub flatten: bool,
    pub skip: bool,
}

#[derive(PartialEq, Eq, Hash, Debug)]
pub struct DefEnum {
    pub name: String,
    pub ser_name: String,
    pub size: usize,
    pub align: usize,
    pub variants: Vec<DefEnumVariant>,
    pub tag: DefEnumTag,
}

#[derive(PartialEq, Eq, Hash, Debug)]
pub struct DefEnumVariant {
    pub name: String,
    pub discriminant: u64,
    pub ser_value: Option<String>,
    pub value_type_id: Option<TypeId>,
}

#[derive(PartialEq, Eq, Hash, Debug)]
pub struct DefString {
    pub name: String,
    pub size: usize,
    pub align: usize,
}

#[derive(PartialEq, Eq, Hash, Debug)]
pub struct DefStr {
    pub name: String,
    pub size: Option<usize>,
    pub align: usize,
}

#[derive(PartialEq, Eq, Hash, Debug)]
pub struct DefStrSlice {
    pub name: String,
    pub size: usize,
    pub align: usize,
}

#[derive(PartialEq, Eq, Hash, Debug)]
pub struct DefBox {
    pub name: String,
    pub size: usize,
    pub align: usize,
    pub value_type_id: TypeId,
}

#[derive(PartialEq, Eq, Hash, Debug)]
pub struct DefVec {
    pub name: String,
    pub size: usize,
    pub align: usize,
    pub value_type_id: TypeId,
}

#[derive(PartialEq, Eq, Hash, Debug)]
pub struct DefOption {
    pub name: String,
    pub size: usize,
    pub align: usize,
    pub value_type_id: TypeId,
}

#[derive(PartialEq, Eq, Hash, Debug)]
pub struct DefPhantomData {
    pub name: String,
    pub size: usize,
    pub align: usize,
    pub value_type_id: TypeId,
}

#[derive(PartialEq, Eq, Hash, Debug)]
pub struct DefCell {
    pub name: String,
    pub size: usize,
    pub align: usize,
    pub value_type_id: TypeId,
}

#[derive(PartialEq, Eq, Hash, Debug)]
pub struct DefRefCell {
    pub name: String,
    pub size: usize,
    pub align: usize,
    pub value_type_id: TypeId,
}

#[derive(PartialEq, Eq, Hash, Debug)]
pub struct DefMutex {
    pub name: String,
    pub size: usize,
    pub align: usize,
    pub value_type_id: TypeId,
}

#[derive(PartialEq, Eq, Hash, Debug)]
pub struct DefRwLock {
    pub name: String,
    pub size: usize,
    pub align: usize,
    pub value_type_id: TypeId,
}

#[derive(PartialEq, Eq, Hash, Debug)]
pub struct DefRc {
    pub name: String,
    pub size: usize,
    pub align: usize,
    pub value_type_id: TypeId,
}

#[derive(PartialEq, Eq, Hash, Debug)]
pub struct DefArc {
    pub name: String,
    pub size: usize,
    pub align: usize,
    pub value_type_id: TypeId,
}

#[derive(PartialEq, Eq, Hash, Debug)]
pub struct DefResult {
    pub name: String,
    pub size: usize,
    pub align: usize,
    pub ok_type_id: TypeId,
    pub err_type_id: TypeId,
}

impl DefType {
    /// The display name carried by any descriptor.
    pub open spec fn def_name(self) -> Seq<char> {
        match self {
            DefType::Primitive(d) => d.name@,
            DefType::Struct(d) => d.name@,
            DefType::Enum(d) => d.name@,
            DefType::String(d) => d.name@,
            DefType::Str(d) => d.name@,
            DefType::StrSlice(d) => d.name@,
            DefType::Box(d) => d.name@,
            DefType::Vec(d) => d.name@,
            DefType::Option(d) => d.name@,
            DefType::PhantomData(d) => d.name@,
            DefType::Cell(d) => d.name@,
            DefType::RefCell(d) => d.name@,
            DefType::Mutex(d) => d.name@,
            DefType::RwLock(d) => d.name@,
            DefType::Rc(d) => d.name@,
            DefType::Arc(d) => d.name@,
            DefType::Result(d) => d.name@,
        }
    }

    /// The size reported by any descriptor; `None` only for unsized shapes.
    pub open spec fn size_opt(self) -> Option<usize> {
        match self {
            DefType::Primitive(d) => Some(d.size),
            DefType::Struct(d) => d.size,
            DefType::Enum(d) => Some(d.size),
            DefType::String(d) => Some(d.size),
            DefType::Str(d) => d.size,
            DefType::StrSlice(d) => Some(d.size),
            DefType::Box(d) => Some(d.size),
            DefType::Vec(d) => Some(d.size),
            DefType::Option(d) => Some(d.size),
            DefType::PhantomData(d) => Some(d.size),
            DefType::Cell(d) => Some(d.size),
            DefType::RefCell(d) => Some(d.size),
            DefType::Mutex(d) => Some(d.size),
            DefType::RwLock(d) => Some(d.size),
            DefType::Rc(d) => Some(d.size),
            DefType::Arc(d) => Some(d.size),
            DefType::Result(d) => Some(d.size),
        }
    }

    /// The alignment reported by any descriptor; `None` only where unknown.
    pub open spec fn align_opt(self) -> Option<usize> {
        match self {
            DefType::Primitive(d) => Some(d.align),
            DefType::Struct(d) => d.align,
            DefType::Enum(d) => Some(d.align),
            DefType::String(d) => Some(d.align),
            DefType::Str(d) => Some(d.align),
            DefType::StrSlice(d) => Some(d.align),
            DefType::Box(d) => Some(d.align),
            DefType::Vec(d) => Some(d.align),
            DefType::Option(d) => Some(d.align),
            DefType::PhantomData(d) => Some(d.align),
            DefType::Cell(d) => Some(d.align),
            DefType::RefCell(d) => Some(d.align),
            DefType::Mutex(d) => Some(d.align),
            DefType::RwLock(d) => Some(d.align),
            DefType::Rc(d) => Some(d.align),
            DefType::Arc(d) => Some(d.align),
            DefType::Result(d) => Some(d.align),
        }
    }

    /// Every `TypeId` this descriptor mentions lies below `n`.
    pub open spec fn refs_ok(self, n: nat) -> bool {
        match self {
            DefType::Primitive(_) => true,
            DefType::Struct(d) => forall|i: int|
                0 <= i < d.fields@.len() ==> (#[trigger] d.fields@[i]).type_id < n,
            DefType::Enum(d) => forall|i: int|
                0 <= i < d.variants@.len() ==> ((#[trigger] d.variants@[i]).value_type_id matches Some(t) ==> t < n),
            DefType::String(_) => true,
            DefType::Str(_) => true,
            DefType::StrSlice(_) => true,
            DefType::Box(d) => d.value_type_id < n,
            DefType::Vec(d) => d.value_type_id < n,
            DefType::Option(d) => d.value_type_id < n,
            DefType::PhantomData(d) => d.value_type_id < n,
            DefType::Cell(d) => d.value_type_id < n,
            DefType::RefCell(d) => d.value_type_id < n,
            DefType::Mutex(d) => d.value_type_id < n,
            DefType::RwLock(d) => d.value_type_id < n,
            DefType::Rc(d) => d.value_type_id < n,
            DefType::Arc(d) => d.value_type_id < n,
            DefType::Result(d) => d.ok_type_id < n && d.err_type_id < n,
        }
    }

    /// The display name of this descriptor.
    pub fn name(&self) -> (r: &str)
        ensures
            r@ == self.def_name(),
    {
        match self {
            DefType::Primitive(d) => d.name.as_str(),
            DefType::Struct(d) => d.name.as_str(),
            DefType::Enum(d) => d.name.as_str(),
            DefType::String(d) => d.name.as_str(),
            DefType::Str(d) => d.name.as_str(),
            DefType::StrSlice(d) => d.name.as_str(),
            DefType::Box(d) => d.name.as_str(),
            DefType::Vec(d) => d.name.as_str(),
            DefType::Option(d) => d.name.as_str(),
            DefType::PhantomData(d) => d.name.as_str(),
            DefType::Cell(d) => d.name.as_str(),
            DefType::RefCell(d) => d.name.as_str(),
            DefType::Mutex(d) => d.name.as_str(),
            DefType::RwLock(d) => d.name.as_str(),
            DefType::Rc(d) => d.name.as_str(),
            DefType::Arc(d) => d.name.as_str(),
            DefType::Result(d) => d.name.as_str(),
        }
    }

    /// The size in bytes, where statically known.
    pub fn size(&self) -> (r: Option<usize>)
        ensures
            r == self.size_opt(),
    {
        match self {
            DefType::Primitive(d) => Some(d.size),
            DefType::Struct(d) => d.size,
            DefType::Enum(d) => Some(d.size),
            DefType::String(d) => Some(d.size),
            DefType::Str(d) => d.size,
            DefType::StrSlice(d) => Some(d.size),
            DefType::Box(d) => Some(d.size),
            DefType::Vec(d) => Some(d.size),
            DefType::Option(d) => Some(d.size),
            DefType::PhantomData(d) => Some(d.size),
            DefType::Cell(d) => Some(d.size),
            DefType::RefCell(d) => Some(d.size),
            DefType::Mutex(d) => Some(d.size),
            DefType::RwLock(d) => Some(d.size),
            DefType::Rc(d) => Some(d.size),
            DefType::Arc(d) => Some(d.size),
            DefType::Result(d) => Some(d.size),
        }
    }

    /// The alignment in bytes, where known.
    pub fn align(&self) -> (r: Option<usize>)
        ensures
            r == self.align_opt(),
    {
        match self {
            DefType::Primitive(d) => Some(d.align),
            DefType::Struct(d) => d.align,
            DefType::Enum(d) => Some(d.align),
            DefType::String(d) => Some(d.align),
            DefType::Str(d) => Some(d.align),
            DefType::StrSlice(d) => Some(d.align),
            DefType::Box(d) => Some(d.align),
            DefType::Vec(d) => Some(d.align),
            DefType::Option(d) => Some(d.align),
            DefType::PhantomData(d) => Some(d.align),
            DefType::Cell(d) => Some(d.align),
            DefType::RefCell(d) => Some(d.align),
            DefType::Mutex(d) => Some(d.align),
            DefType::RwLock(d) => Some(d.align),
            DefType::Rc(d) => Some(d.align),
            DefType::Arc(d) => Some(d.align),
            DefType::Result(d) => Some(d.align),
        }
    }

    pub fn into_primitive(self) -> (r: Option<DefPrimitive>)
        ensures
            (self matches DefType::Primitive(d) ==> r == Some(d)),
            (!(self is Primitive) ==> r is None),
    {
        match self {
            DefType::Primitive(d) => Some(d),
            _ => None,
        }
    }

    pub fn into_struct(self) -> (r: Option<DefStruct>)
        ensures
            (self matches DefType::Struct(d) ==> r == Some(d)),
            (!(self is Struct) ==> r is None),
    {
        match self {
            DefType::Struct(d) => Some(d),
            _ => None,
        }
    }

    pub fn into_enum(self) -> (r: Option<DefEnum>)
        ensures
            (self matches DefType::Enum(d) ==> r == Some(d)),
            (!(self is Enum) ==> r is None),
    {
        match self {
            DefType::Enum(d) => Some(d),
            _ => None,
        }
    }

    pub fn into_string(self) -> (r: Option<DefString>)
        ensures
            (self matches DefType::String(d) ==> r == Some(d)),
            (!(self is String) ==> r is None),
    {
        match self {
            DefType::String(d) => Some(d),
            _ => None,
        }
    }

    pub fn into_str(self) -> (r: Option<DefStr>)
        ensures
            (self matches DefType::Str(d) ==> r == Some(d)),
            (!(self is Str) ==> r is None),
    {
        match self {
            DefType::Str(d) => Some(d),
            _ => None,
        }
    }

    pub fn into_str_slice(self) -> (r: Option<DefStrSlice>)
        ensures
            (self matches DefType::StrSlice(d) ==> r == Some(d)),
            (!(self is StrSlice) ==> r is None),
    {
        match self {
            DefType::StrSlice(d) => Some(d),
            _ => None,
        }
    }

    pub fn into_box(self) -> (r: Option<DefBox>)
        ensures
            (self matches DefType::Box(d) ==> r == Some(d)),
            (!(self is Box) ==> r is None),
    {
        match self {
            DefType::Box(d) => Some(d),
            _ => None,
        }
    }

    pub fn into_vec(self) -> (r: Option<DefVec>)
        ensures
            (self matches DefType::Vec(d) ==> r == Some(d)),
            (!(self is Vec) ==> r is None),
    {
        match self {
            DefType::Vec(d) => Some(d),
            _ => None,
        }
    }

    pub fn into_option(self) -> (r: Option<DefOption>)
        ensures
            (self matches DefType::Option(d) ==> r == Some(d)),
            (!(self is Option) ==> r is None),
    {
        match self {
            DefType::Option(d) => Some(d),
            _ => None,
        }
    }

    pub fn into_phantom_data(self) -> (r: Option<DefPhantomData>)
        ensures
            (self matches DefType::PhantomData(d) ==> r == Some(d)),
            (!(self is PhantomData) ==> r is None),
    {
        match self {
            DefType::PhantomData(d) => Some(d),
            _ => None,
        }
    }

    pub fn into_cell(self) -> (r: Option<DefCell>)
        ensures
            (self matches DefType::Cell(d) ==> r == Some(d)),
            (!(self is Cell) ==> r is None),
    {
        match self {
            DefType::Cell(d) => Some(d),
            _ => None,
        }
    }

    pub fn into_ref_cell(self) -> (r: Option<DefRefCell>)
        ensures
            (self matches DefType::RefCell(d) ==> r == Some(d)),
            (!(self is RefCell) ==> r is None),
    {
        match self {
            DefType::RefCell(d) => Some(d),
            _ => None,
        }
    }

    pub fn into_mutex(self) -> (r: Option<DefMutex>)
        ensures
            (self matches DefType::Mutex(d) ==> r == Some(d)),
            (!(self is Mutex) ==> r is None),
    {
        match self {
            DefType::Mutex(d) => Some(d),
            _ => None,
        }
    }

    pub fn into_rw_lock(self) -> (r: Option<DefRwLock>)
        ensures
            (self matches DefType::RwLock(d) ==> r == Some(d)),
            (!(self is RwLock) ==> r is None),
    {
        match self {
            DefType::RwLock(d) => Some(d),
            _ => None,
        }
    }

    pub fn into_rc(self) -> (r: Option<DefRc>)
        ensures
            (self matches DefType::Rc(d) ==> r == Some(d)),
            (!(self is Rc) ==> r is None),
    {
        match self {
            DefType::Rc(d) => Some(d),
            _ => None,
        }
    }

    pub fn into_arc(self) -> (r: Option<DefArc>)
        ensures
            (self matches DefType::Arc(d) ==> r == Some(d)),
            (!(self is Arc) ==> r is None),
    {
        match self {
            DefType::Arc(d) => Some(d),
            _ => None,
        }
    }

    pub fn into_result(self) -> (r: Option<DefResult>)
        ensures
            (self matches DefType::Result(d) ==> r == Some(d)),
            (!(self is Result) ==> r is None),
    {
        match self {
            DefType::Result(d) => Some(d),
            _ => None,
        }
    }

    pub fn to_primitive(&self) -> (r: Option<&DefPrimitive>)
        ensures
            (self matches DefType::Primitive(d) ==> (r matches Some(rd) && *rd == d)),
            (!(self is Primitive) ==> r is None),
    {
        match self {
            DefType::Primitive(d) => Some(d),
            _ => None,
        }
    }

    pub fn to_struct(&self) -> (r: Option<&DefStruct>)
        ensures
            (self matches DefType::Struct(d) ==> (r matches Some(rd) && *rd == d)),
            (!(self is Struct) ==> r is None),
    {
        match self {
            DefType::Struct(d) => Some(d),
            _ => None,
        }
    }

    pub fn to_enum(&self) -> (r: Option<&DefEnum>)
        ensures
            (self matches DefType::Enum(d) ==> (r matches Some(rd) && *rd == d)),
            (!(self is Enum) ==> r is None),
    {
        match self {
            DefType::Enum(d) => Some(d),
            _ => None,
        }
    }

    pub fn to_string(&self) -> (r: Option<&DefString>)
        ensures
            (self matches DefType::String(d) ==> (r matches Some(rd) && *rd == d)),
            (!(self is String) ==> r is None),
    {
        match self {
            DefType::String(d) => Some(d),
            _ => None,
        }
    }

    pub fn to_str(&self) -> (r: Option<&DefStr>)
        ensures
            (self matches DefType::Str(d) ==> (r matches Some(rd) && *rd == d)),
            (!(self is Str) ==> r is None),
    {
        match self {
            DefType::Str(d) => Some(d),
            _ => None,
        }
    }

    pub fn to_str_slice(&self) -> (r: Option<&DefStrSlice>)
        ensures
            (self matches DefType::StrSlice(d) ==> (r matches Some(rd) && *rd == d)),
            (!(self is StrSlice) ==> r is None),
    {
        match self {
            DefType::StrSlice(d) => Some(d),
            _ => None,
        }
    }

    pub fn to_box(&self) -> (r: Option<&DefBox>)
        ensures
            (self matches DefType::Box(d) ==> (r matches Some(rd) && *rd == d)),
            (!(self is Box) ==> r is None),
    {
        match self {
            DefType::Box(d) => Some(d),
            _ => None,
        }
    }

    pub fn to_vec(&self) -> (r: Option<&DefVec>)
        ensures
            (self matches DefType::Vec(d) ==> (r matches Some(rd) && *rd == d)),
            (!(self is Vec) ==> r is None),
    {
        match self {
            DefType::Vec(d) => Some(d),
            _ => None,
        }
    }

    pub fn to_option(&self) -> (r: Option<&DefOption>)
        ensures
            (self matches DefType::Option(d) ==> (r matches Some(rd) && *rd == d)),
            (!(self is Option) ==> r is None),
    {
        match self {
            DefType::Option(d) => Some(d),
            _ => None,
        }
    }

    pub fn to_phantom_data(&self) -> (r: Option<&DefPhantomData>)
        ensures
            (self matches DefType::PhantomData(d) ==> (r matches Some(rd) && *rd == d)),
            (!(self is PhantomData) ==> r is None),
    {
        match self {
            DefType::PhantomData(d) => Some(d),
            _ => None,
        }
    }

    pub fn to_cell(&self) -> (r: Option<&DefCell>)
        ensures
            (self matches DefType::Cell(d) ==> (r matches Some(rd) && *rd == d)),
            (!(self is Cell) ==> r is None),
    {
        match self {
            DefType::Cell(d) => Some(d),
            _ => None,
        }
    }

    pub fn to_ref_cell(&self) -> (r: Option<&DefRefCell>)
        ensures
            (self matches DefType::RefCell(d) ==> (r matches Some(rd) && *rd == d)),
            (!(self is RefCell) ==> r is None),
    {
        match self {
            DefType::RefCell(d) => Some(d),
            _ => None,
        }
    }

    pub fn to_mutex(&self) -> (r: Option<&DefMutex>)
        ensures
            (self matches DefType::Mutex(d) ==> (r matches Some(rd) && *rd == d)),
            (!(self is Mutex) ==> r is None),
    {
        match self {
            DefType::Mutex(d) => Some(d),
            _ => None,
        }
    }

    pub fn to_rw_lock(&self) -> (r: Option<&DefRwLock>)
        ensures
            (self matches DefType::RwLock(d) ==> (r matches Some(rd) && *rd == d)),
            (!(self is RwLock) ==> r is None),
    {
        match self {
            DefType::RwLock(d) => Some(d),
            _ => None,
        }
    }

    pub fn to_rc(&self) -> (r: Option<&DefRc>)
        ensures
            (self matches DefType::Rc(d) ==> (r matches Some(rd) && *rd == d)),
            (!(self is Rc) ==> r is None),
    {
        match self {
            DefType::Rc(d) => Some(d),
            _ => None,
        }
    }

    pub fn to_arc(&self) -> (r: Option<&DefArc>)
        ensures
            (self matches DefType::Arc(d) ==> (r matches Some(rd) && *rd == d)),
            (!(self is Arc) ==> r is None),
    {
        match self {
            DefType::Arc(d) => Some(d),
            _ => None,
        }
    }

    pub fn to_result(&self) -> (r: Option<&DefResult>)
        ensures
            (self matches DefType::Result(d) ==> (r matches Some(rd) && *rd == d)),
            (!(self is Result) ==> r is None),
    {
        match self {
            DefType::Result(d) => Some(d),
            _ => None,
        }
    }

    pub fn primitive_ref(&self) -> (r: Option<&DefPrimitive>)
        ensures
            (self matches DefType::Primitive(d) ==> (r matches Some(rd) && *rd == d)),
            (!(self is Primitive) ==> r is None),
    {
        match self {
            DefType::Primitive(d) => Some(d),
            _ => None,
        }
    }

    pub fn struct_ref(&self) -> (r: Option<&DefStruct>)
        ensures
            (self matches DefType::Struct(d) ==> (r matches Some(rd) && *rd == d)),
            (!(self is Struct) ==> r is None),
    {
        match self {
            DefType::Struct(d) => Some(d),
            _ => None,
        }
    }

    pub fn enum_ref(&self) -> (r: Option<&DefEnum>)
        ensures
            (self matches DefType::Enum(d) ==> (r matches Some(rd) && *rd == d)),
            (!(self is Enum) ==> r is None),
    {
        match self {
            DefType::Enum(d) => Some(d),
            _ => None,
        }
    }

    pub fn string_ref(&self) -> (r: Option<&DefString>)
        ensures
            (self matches DefType::String(d) ==> (r matches Some(rd) && *rd == d)),
            (!(self is String) ==> r is None),
    {
        match self {
            DefType::String(d) => Some(d),
            _ => None,
        }
    }

    pub fn box_ref(&self) -> (r: Option<&DefBox>)
        ensures
            (self matches DefType::Box(d) ==> (r matches Some(rd) && *rd == d)),
            (!(self is Box) ==> r is None),
    {
        match self {
            DefType::Box(d) => Some(d),
            _ => None,
        }
    }

    pub fn vec_ref(&self) -> (r: Option<&DefVec>)
        ensures
            (self matches DefType::Vec(d) ==> (r matches Some(rd) && *rd == d)),
            (!(self is Vec) ==> r is None),
    {
        match self {
            DefType::Vec(d) => Some(d),
            _ => None,
        }
    }

    pub fn option_ref(&self) -> (r: Option<&DefOption>)
        ensures
            (self matches DefType::Option(d) ==> (r matches Some(rd) && *rd == d)),
            (!(self is Option) ==> r is None),
    {
        match self {
            DefType::Option(d) => Some(d),
            _ => None,
        }
    }
}

} // verus!

use vstd::prelude::*;
use crate::TypeId;
use crate::attrs::{first_nv, get_serde_attrs, has_flag, nv_count, opt_view, AttrItem, DuplicateAttr};
use crate::decimal::{dec_digits, usize_to_string};
use crate::defs::{DefStruct, DefStructField};
use crate::rename::{get_ident_name, get_ser_name, ident_name_spec, is_rename_all_policy,
    is_valid_rename_all, rename_spec};

verus! {

broadcast use vstd::string::group_string_axioms;

/// A rejected shape or annotation list, found while deriving a descriptor.
#[derive(PartialEq, Eq, Hash, Debug)]
pub enum DeriveError {
    /// The same valued annotation key stood twice on one host.
    Duplicate(DuplicateAttr),
    /// A rename-all annotation named an unsupported case conversion.
    UnknownRenameAll { value: String },
    /// A variant carried named payload fields, or not exactly one unnamed one.
    UnsupportedVariantShape { variant: String },
}

impl DeriveError {
    /// The diagnostic for a rejected shape or annotation list.
    pub fn message(&self) -> (r: String)
        ensures
            (self matches DeriveError::Duplicate(e) ==> r@ == "Multiple serde `"@ + e.key@
                + "` tags on same "@ + e.host@),
            (self matches DeriveError::UnknownRenameAll { value } ==> r@
                == "Unexpected `serde(rename_all)` attribute `"@ + value@ + "`"@),
            (self matches DeriveError::UnsupportedVariantShape { variant } ==> r@
                == "Unsupported payload shape on variant `"@ + variant@ + "`"@),
    {
        match self {
            DeriveError::Duplicate(e) => e.message(),
            DeriveError::UnknownRenameAll { value } => {
                let mut m = String::from_str("Unexpected `serde(rename_all)` attribute `");
                m.append(value.as_str());
                m.append("`");
                m
            },
            DeriveError::UnsupportedVariantShape { variant } => {
                let mut m = String::from_str("Unsupported payload shape on variant `");
                m.append(variant.as_str());
                m.append("`");
                m
            },
        }
    }
}

/// The declared shape of one struct field, as the upstream generator sees it:
/// its name (`None` for a positional field), its annotations, the identity of
/// its type, and its byte offset as the layout primitives report it.
#[derive(PartialEq, Eq, Hash, Debug)]
pub struct FieldShape {
    pub name: Option<String>,
    pub attrs: Vec<AttrItem>,
    pub type_id: TypeId,
    pub offset: usize,
}

/// The declared shape of a struct, as the upstream generator sees it.
#[derive(PartialEq, Eq, Hash, Debug)]
pub struct StructShape {
    pub name: String,
    pub attrs: Vec<AttrItem>,
    pub size: Option<usize>,
    pub align: Option<usize>,
    pub fields: Vec<FieldShape>,
}

/// The declared name of a field: a named field loses any raw-identifier
/// escape; a positional field is named by its decimal index.
pub open spec fn field_name_spec(f: FieldShape, idx: int) -> Seq<char> {
    match f.name {
        Some(n) => ident_name_spec(n@),
        None => dec_digits(idx as nat),
    }
}

/// The serialization name of a field: an explicit rename wins; otherwise the
/// container's rename-all policy applies to the declared name; otherwise the
/// declared name stands.
pub open spec fn field_ser_name_spec(f: FieldShape, idx: int, rename_all: Option<Seq<char>>)
    -> Seq<char> {
    match first_nv(f.attrs@, "rename"@) {
        Some(r) => r,
        None => match rename_all {
            Some(p) => rename_spec(field_name_spec(f, idx), p),
            None => field_name_spec(f, idx),
        },
    }
}

/// Whether one field's annotation list is accepted.
pub open spec fn field_attrs_ok(f: FieldShape) -> bool {
    &&& nv_count(f.attrs@, "rename"@) <= 1
    &&& nv_count(f.attrs@, "rename_all"@) <= 1
    &&& nv_count(f.attrs@, "tag"@) <= 1
    &&& nv_count(f.attrs@, "content"@) <= 1
}

/// Whether a whole struct shape is accepted.
pub open spec fn struct_shape_ok(shape: StructShape) -> bool {
    &&& nv_count(shape.attrs@, "rename"@) <= 1
    &&& nv_count(shape.attrs@, "rename_all"@) <= 1
    &&& nv_count(shape.attrs@, "tag"@) <= 1
    &&& nv_count(shape.attrs@, "content"@) <= 1
    &&& (first_nv(shape.attrs@, "rename_all"@) matches Some(p) ==> is_rename_all_policy(p))
    &&& forall|i: int| 0 <= i < shape.fields@.len() ==> field_attrs_ok(#[trigger] shape.fields@[i])
}

/// What the accepted descriptor of one field is.
pub open spec fn field_def_spec(f: FieldShape, idx: int, rename_all: Option<Seq<char>>, d:
    DefStructField) -> bool {
    &&& d.name@ == field_name_spec(f, idx)
    &&& d.ser_name@ == field_ser_name_spec(f, idx, rename_all)
    &&& d.type_id == f.type_id
    &&& d.offset == f.offset
    &&& d.flatten == has_flag(f.attrs@, "flatten"@)
    &&& d.skip == has_flag(f.attrs@, "skip"@)
}

/// Derive the descriptor of a composite record from its declared shape.
///
/// The record's serialization name is its explicit rename, if any, else its
/// declared name; an external tag key and a transparent flag are copied from
/// the annotations; each field's offset and type identity are copied, its
/// serialization name follows the rename precedence, and its flatten and skip
/// flags come from its own annotations.
pub fn derive_struct(shape: &StructShape) -> (r: Result<DefStruct, DeriveError>)
    ensures
        r is Ok <==> struct_shape_ok(*shape),
        (r matches Ok(d) ==> {
            &&& d.name@ == shape.name@
            &&& d.ser_name@ == (match first_nv(shape.attrs@, "rename"@) {
                Some(n) => n,
                None => shape.name@,
            })
            &&& d.size == shape.size
            &&& d.align == shape.align
            &&& opt_view(d.tag) == first_nv(shape.attrs@, "tag"@)
            &&& d.transparent == has_flag(shape.attrs@, "transparent"@)
            &&& d.fields@.len() == shape.fields@.len()
            &&& forall|i: int|
                0 <= i < shape.fields@.len() ==> field_def_spec(
                    shape.fields@[i],
                    i,
                    first_nv(shape.attrs@, "rename_all"@),
                    #[trigger] d.fields@[i],
                )
        }),
        (r matches Err(DeriveError::Duplicate(e)) ==> {
            ||| (e.host@ == "struct"@ && nv_count(shape.attrs@, e.key@) >= 2)
            ||| (e.host@ == "struct field"@ && exists|i: int|
                0 <= i < shape.fields@.len() && nv_count(
                    (#[trigger] shape.fields@[i]).attrs@,
                    e.key@,
                ) >= 2)
        }),
        (r matches Err(DeriveError::UnknownRenameAll { value }) ==> {
            &&& first_nv(shape.attrs@, "rename_all"@) == Some(value@)
            &&& !is_rename_all_policy(value@)
        }),
        (r matches Err(e) ==> !(e is UnsupportedVariantShape)),
{
    let attrs = match get_serde_attrs(&shape.attrs, "struct") {
        Ok(a) => a,
        Err(e) => {
            return Err(DeriveError::Duplicate(e));
        },
    };
    if let Some(p) = &attrs.rename_all {
        if !is_valid_rename_all(p.as_str()) {
            return Err(DeriveError::UnknownRenameAll { value: p.clone() });
        }
    }
    let ser_name = match &attrs.rename {
        Some(n) => n.clone(),
        None => shape.name.clone(),
    };
    let mut fields: Vec<DefStructField> = Vec::new();
    let n = shape.fields.len();
    let mut i: usize = 0;
    while i < n
        invariant
            i <= n,
            n == shape.fields@.len(),
            fields@.len() == i,
            opt_view(attrs.rename_all) == first_nv(shape.attrs@, "rename_all"@),
            (attrs.rename_all matches Some(p) ==> is_rename_all_policy(p@)),
            forall|j: int|
                0 <= j < i ==> field_def_spec(
                    shape.fields@[j],
                    j,
                    first_nv(shape.attrs@, "rename_all"@),
                    #[trigger] fields@[j],
                ),
            forall|j: int| 0 <= j < i ==> field_attrs_ok(#[trigger] shape.fields@[j]),
        decreases n - i,
    {
        let f = &shape.fields[i];
        let fattrs = match get_serde_attrs(&f.attrs, "struct field") {
            Ok(a) => a,
            Err(e) => {
                return Err(DeriveError::Duplicate(e));
            },
        };
        let name = match &f.name {
            Some(id) => get_ident_name(id.as_str()),
            None => usize_to_string(i),
        };
        let ser = get_ser_name(name.as_str(), &fattrs.rename, &attrs.rename_all);
        fields.push(DefStructField {
            name,
            ser_name: ser,
            type_id: f.type_id,
            offset: f.offset,
            flatten: fattrs.flatten,
            skip: fattrs.skip,
        });
        i += 1;
    }
    Ok(DefStruct {
        name: shape.name.clone(),
        ser_name,
        size: shape.size,
        align: shape.align,
        fields,
        tag: attrs.tag,
        transparent: attrs.transparent,
    })
}

/// The generic arguments joined with commas.
pub open spec fn joined_names(args: Seq<String>) -> Seq<char>
    decreases args.len(),
{
    if args.len() == 0 {
        Seq::empty()
    } else if args.len() == 1 {
        args[0]@
    } else {
        joined_names(args.drop_last()) + ","@ + args.last()@
    }
}

/// A declared type name with its generic arguments appended in angle
/// brackets, if there are any.
pub open spec fn generic_name_spec(base: Seq<char>, args: Seq<String>) -> Seq<char> {
    if args.len() == 0 {
        base
    } else {
        base + "<"@ + joined_names(args) + ">"@
    }
}

/// Build a type's display name: the declared name, with the comma-joined
/// names of its generic arguments in angle brackets if it has any.
pub fn generic_name(base: &str, args: &Vec<String>) -> (r: String)
    ensures
        r@ == generic_name_spec(base@, args@),
{
    let mut s = String::from_str(base);
    let n = args.len();
    if n == 0 {
        proof {
            assert(s@ =~= generic_name_spec(base@, args@));
        }
        return s;
    }
    s.append("<");
    let mut i: usize = 0;
    while i < n
        invariant
            0 < n == args@.len(),
            i <= n,
            i > 0 ==> s@ == base@ + "<"@ + joined_names(args@.subrange(0, i as int)),
            i == 0 ==> s@ == base@ + "<"@,
        decreases n - i,
    {
        if i > 0 {
            s.append(",");
        }
        s.append(args[i].as_str());
        proof {
            assert(args@.subrange(0, i + 1).drop_last() =~= args@.subrange(0, i as int));
            assert(args@.subrange(0, i + 1).last() == args@[i as int]);
            if i == 0 {
                assert(args@.subrange(0, 1) =~= seq![args@[0]]);
                assert(joined_names(args@.subrange(0, 1)) == args@[0]@);
            }
            assert(s@ =~= base@ + "<"@ + joined_names(args@.subrange(0, i + 1)));
        }
        i += 1;
    }
    s.append(">");
    proof {
        assert(args@.subrange(0, n as int) =~= args@);
        assert(s@ =~= generic_name_spec(base@, args@));
    }
    s
}

} // verus!

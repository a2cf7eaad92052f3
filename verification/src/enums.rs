use vstd::prelude::*;
use crate::TypeId;
use crate::attrs::{first_nv, get_serde_attrs, has_flag, nv_count, AttrItem, DuplicateAttr};
use crate::defs::{DefEnum, DefEnumTag, DefEnumVariant};
use crate::rename::{get_ident_name, get_ser_name, ident_name_spec, is_rename_all_policy,
    is_valid_rename_all, rename_spec};
use crate::structs::DeriveError;

verus! {

broadcast use vstd::string::group_string_axioms;

/// The declared payload of one enum variant.
#[derive(PartialEq, Eq, Hash, Debug)]
pub enum VariantFields {
    Unit,
    Unnamed(Vec<TypeId>),
    Named,
}

/// The declared shape of one enum variant, as the upstream generator sees it.
#[derive(PartialEq, Eq, Hash, Debug)]
pub struct VariantShape {
    pub name: String,
    pub attrs: Vec<AttrItem>,
    pub discriminant: Option<u64>,
    pub fields: VariantFields,
}

/// The declared shape of an enum, as the upstream generator sees it.
#[derive(PartialEq, Eq, Hash, Debug)]
pub struct EnumShape {
    pub name: String,
    pub attrs: Vec<AttrItem>,
    pub size: usize,
    pub align: usize,
    pub variants: Vec<VariantShape>,
}

/// The discriminant of variant `i`: an explicit value stands as declared;
/// otherwise the previous variant's discriminant plus one, starting from 0.
pub open spec fn disc_spec(vs: Seq<VariantShape>, i: int) -> int
    recommends
        0 <= i < vs.len(),
    decreases i,
{
    match vs[i].discriminant {
        Some(v) => v as int,
        None => if i <= 0 {
            0
        } else {
            disc_spec(vs, i - 1) + 1
        },
    }
}

/// Every discriminant stays below the last representable value, so the
/// running counter never overflows.
proof fn lemma_disc_bound(vs: Seq<VariantShape>, i: int)
    requires
        0 <= i < vs.len(),
        vs.len() <= u64::MAX,
        forall|j: int|
            0 <= j < vs.len() ==> ((#[trigger] vs[j].discriminant) matches Some(v) ==> v + vs.len()
                <= u64::MAX),
    ensures
        disc_spec(vs, i) <= u64::MAX - vs.len() + i,
        0 <= disc_spec(vs, i),
    decreases i,
{
    if i > 0 {
        lemma_disc_bound(vs, i - 1);
    }
}

/// A run of variants with no explicit discriminant is numbered consecutively
/// from zero.
pub proof fn lemma_default_discriminants(vs: Seq<VariantShape>, i: int)
    requires
        0 <= i < vs.len(),
        forall|j: int| 0 <= j < vs.len() ==> (#[trigger] vs[j].discriminant) is None,
    ensures
        disc_spec(vs, i) == i,
    decreases i,
{
    if i > 0 {
        lemma_default_discriminants(vs, i - 1);
    }
}

/// Whether the variant's annotations matter and are accepted: only a
/// payload-less variant's annotations are read at all.
pub open spec fn variant_attrs_ok(v: VariantShape) -> bool {
    v.fields is Unit ==> {
        &&& nv_count(v.attrs@, "rename"@) <= 1
        &&& nv_count(v.attrs@, "rename_all"@) <= 1
        &&& nv_count(v.attrs@, "tag"@) <= 1
        &&& nv_count(v.attrs@, "content"@) <= 1
    }
}

/// Whether the variant's payload is a supported shape: no payload at all, or
/// exactly one unnamed payload field.
pub open spec fn variant_fields_ok(v: VariantShape) -> bool {
    match v.fields {
        VariantFields::Unit => true,
        VariantFields::Unnamed(ids) => ids@.len() == 1,
        VariantFields::Named => false,
    }
}

/// Whether a whole enum shape is accepted.
pub open spec fn enum_shape_ok(shape: EnumShape) -> bool {
    &&& nv_count(shape.attrs@, "rename"@) <= 1
    &&& nv_count(shape.attrs@, "rename_all"@) <= 1
    &&& nv_count(shape.attrs@, "tag"@) <= 1
    &&& nv_count(shape.attrs@, "content"@) <= 1
    &&& (first_nv(shape.attrs@, "rename_all"@) matches Some(p) ==> is_rename_all_policy(p))
    &&& forall|i: int| 0 <= i < shape.variants@.len() ==> variant_attrs_ok(
        #[trigger] shape.variants@[i],
    )
    &&& forall|i: int| 0 <= i < shape.variants@.len() ==> variant_fields_ok(
        #[trigger] shape.variants@[i],
    )
}

/// Whether `t` is the tag mode the annotations call for: a tag key with a
/// content key is tag-with-content, a tag key alone is an inline tag, an
/// untagged flag alone is untagged, and nothing at all is no special tagging.
pub open spec fn tag_mode_ok(attrs: Seq<AttrItem>, t: DefEnumTag) -> bool {
    match first_nv(attrs, "tag"@) {
        Some(tv) => match first_nv(attrs, "content"@) {
            Some(cv) => (t matches DefEnumTag::TagAndContent { tag, content } && tag@ == tv
                && content@ == cv),
            None => (t matches DefEnumTag::Tag(x) && x@ == tv),
        },
        None => if has_flag(attrs, "untagged"@) {
            t is Untagged
        } else {
            t is NoTag
        },
    }
}

/// What the accepted descriptor of one variant is.
pub open spec fn variant_def_spec(vs: Seq<VariantShape>, i: int, rename_all: Option<Seq<char>>, v:
    DefEnumVariant) -> bool {
    &&& v.name@ == ident_name_spec(vs[i].name@)
    &&& v.discriminant as int == disc_spec(vs, i)
    &&& match vs[i].fields {
        VariantFields::Unit => {
            &&& v.value_type_id is None
            &&& (v.ser_value matches Some(s) && s@ == (match first_nv(vs[i].attrs@, "rename"@) {
                Some(r) => r,
                None => match rename_all {
                    Some(p) => rename_spec(ident_name_spec(vs[i].name@), p),
                    None => ident_name_spec(vs[i].name@),
                },
            }))
        },
        VariantFields::Unnamed(ids) => {
            &&& v.ser_value is None
            &&& (v.value_type_id matches Some(t) && ids@.len() == 1 && t == ids@[0])
        },
        VariantFields::Named => false,
    }
}

/// Derive the descriptor of a variant type from its declared shape.
///
/// Discriminants follow the declared sequencing rule; a payload-less variant
/// carries its serialization value and no payload identity, a one-payload
/// variant carries its payload's identity and no serialization value, and any
/// other payload shape is rejected.
pub fn derive_enum(shape: &EnumShape) -> (r: Result<DefEnum, DeriveError>)
    requires
        shape.variants@.len() <= u64::MAX,
        forall|j: int|
            0 <= j < shape.variants@.len() ==> ((#[trigger] shape.variants@[j].discriminant)
                matches Some(v) ==> v + shape.variants@.len() <= u64::MAX),
    ensures
        r is Ok <==> enum_shape_ok(*shape),
        (r matches Ok(d) ==> {
            &&& d.name@ == shape.name@
            &&& d.ser_name@ == (match first_nv(shape.attrs@, "rename"@) {
                Some(n) => n,
                None => shape.name@,
            })
            &&& d.size == shape.size
            &&& d.align == shape.align
            &&& tag_mode_ok(shape.attrs@, d.tag)
            &&& d.variants@.len() == shape.variants@.len()
            &&& forall|i: int|
                0 <= i < shape.variants@.len() ==> variant_def_spec(
                    shape.variants@,
                    i,
                    first_nv(shape.attrs@, "rename_all"@),
                    #[trigger] d.variants@[i],
                )
            &&& forall|i: int|
                0 <= i < d.variants@.len() ==> ((#[trigger] d.variants@[i]).ser_value is Some
                    <==> d.variants@[i].value_type_id is None)
        }),
        (r matches Err(DeriveError::Duplicate(e)) ==> {
            ||| (e.host@ == "enum"@ && nv_count(shape.attrs@, e.key@) >= 2)
            ||| (e.host@ == "enum variant"@ && exists|i: int|
                0 <= i < shape.variants@.len() && (#[trigger] shape.variants@[i]).fields is Unit
                    && nv_count(shape.variants@[i].attrs@, e.key@) >= 2)
        }),
        (r matches Err(DeriveError::UnknownRenameAll { value }) ==> {
            &&& first_nv(shape.attrs@, "rename_all"@) == Some(value@)
            &&& !is_rename_all_policy(value@)
        }),
        (r matches Err(DeriveError::UnsupportedVariantShape { variant }) ==> exists|i: int|
            0 <= i < shape.variants@.len() && variant@ == ident_name_spec(
                (#[trigger] shape.variants@[i]).name@,
            ) && !variant_fields_ok(shape.variants@[i])),
{
    let attrs = match get_serde_attrs(&shape.attrs, "enum") {
        Ok(a) => a,
        Err(e) => {
            return Err(DeriveError::Duplicate(e));
        },
    };
    if let Some(p) = &attrs.rename_all {
        if !is_valid_rename_all(p.as_str()) {
            return Err(DeriveError::UnknownRenameAll { value: p.clone() });
        }
    }
    let ser_name = match &attrs.rename {
        Some(n) => n.clone(),
        None => shape.name.clone(),
    };
    let tag = match &attrs.tag {
        Some(t) => match &attrs.content {
            Some(c) => DefEnumTag::TagAndContent { tag: t.clone(), content: c.clone() },
            None => DefEnumTag::Tag(t.clone()),
        },
        None => if attrs.untagged {
            DefEnumTag::Untagged
        } else {
            DefEnumTag::NoTag
        },
    };
    let mut variants: Vec<DefEnumVariant> = Vec::new();
    let n = shape.variants.len();
    let mut next_discriminant: u64 = 0;
    let mut i: usize = 0;
    while i < n
        invariant
            i <= n,
            n == shape.variants@.len(),
            n <= u64::MAX,
            forall|j: int|
                0 <= j < n ==> ((#[trigger] shape.variants@[j].discriminant) matches Some(v) ==> v
                    + n <= u64::MAX),
            variants@.len() == i,
            next_discriminant as int == (if i == 0 {
                0int
            } else {
                disc_spec(shape.variants@, i - 1) + 1
            }),
            (attrs.rename_all matches Some(p) ==> is_rename_all_policy(p@)
                && first_nv(shape.attrs@, "rename_all"@) == Some(p@)),
            (attrs.rename_all is None ==> first_nv(shape.attrs@, "rename_all"@) is None),
            forall|j: int|
                0 <= j < i ==> variant_def_spec(
                    shape.variants@,
                    j,
                    first_nv(shape.attrs@, "rename_all"@),
                    #[trigger] variants@[j],
                ),
            forall|j: int| 0 <= j < i ==> variant_attrs_ok(#[trigger] shape.variants@[j]),
            forall|j: int| 0 <= j < i ==> variant_fields_ok(#[trigger] shape.variants@[j]),
        decreases n - i,
    {
        let v = &shape.variants[i];
        let name = get_ident_name(v.name.as_str());
        proof {
            lemma_disc_bound(shape.variants@, i as int);
            if i > 0 {
                lemma_disc_bound(shape.variants@, i - 1);
            }
        }
        let discriminant: u64 = match &v.discriminant {
            Some(d) => *d,
            None => next_discriminant,
        };
        next_discriminant = discriminant + 1;
        let (ser_value, value_type_id) = match &v.fields {
            VariantFields::Unit => {
                let vattrs = match get_serde_attrs(&v.attrs, "enum variant") {
                    Ok(a) => a,
                    Err(e) => {
                        return Err(DeriveError::Duplicate(e));
                    },
                };
                let sv = get_ser_name(name.as_str(), &vattrs.rename, &attrs.rename_all);
                (Some(sv), None)
            },
            VariantFields::Unnamed(ids) => {
                if ids.len() != 1 {
                    return Err(DeriveError::UnsupportedVariantShape { variant: name });
                }
                (None, Some(ids[0]))
            },
            VariantFields::Named => {
                return Err(DeriveError::UnsupportedVariantShape { variant: name });
            },
        };
        variants.push(DefEnumVariant { name, discriminant, ser_value, value_type_id });
        i += 1;
    }
    Ok(DefEnum {
        name: shape.name.clone(),
        ser_name,
        size: shape.size,
        align: shape.align,
        variants,
        tag,
    })
}

} // verus!

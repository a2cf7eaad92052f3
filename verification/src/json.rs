use vstd::prelude::*;
use crate::attrs::opt_view;
use crate::decimal::{dec_digit, dec_digits, is_digit_char, lemma_dec_all_digits,
    lemma_digit_chars,
    lemma_dec_digits_len, lemma_dec_leading, lemma_dec_prefix, u64_to_string, usize_to_string};
use crate::defs::{DefArc, DefBox, DefCell, DefEnum, DefEnumTag, DefEnumVariant, DefMutex,
    DefOption, DefPhantomData, DefPrimitive, DefRc, DefRefCell, DefResult, DefRwLock, DefStr,
    DefString, DefStrSlice, DefStruct, DefStructField, DefType, DefVec};

verus! {

// The boundary text format: one JSON value per catalog, a straight structural
// mapping of the descriptor schema. Descriptors are objects carrying a "kind"
// discriminator; field names are the schema's names in camel case; an absent
// size is `null`. The spec functions below state the exact text, and the
// emitter produces it character for character.

/// How one character stands inside a JSON string: quote and backslash are
/// escaped, anything else stands as itself.
pub open spec fn esc_char(c: char) -> Seq<char> {
    if c == '"' {
        seq!['\\', '"']
    } else if c == '\\' {
        seq!['\\', '\\']
    } else {
        seq![c]
    }
}

/// A character sequence with its JSON string escapes applied.
pub open spec fn esc(s: Seq<char>) -> Seq<char>
    decreases s.len(),
{
    if s.len() == 0 {
        Seq::empty()
    } else {
        esc(s.drop_last()) + esc_char(s.last())
    }
}

/// A JSON string literal.
pub open spec fn jstr(s: Seq<char>) -> Seq<char> {
    seq!['"'] + esc(s) + seq!['"']
}

/// A JSON boolean.
pub open spec fn jbool(b: bool) -> Seq<char> {
    if b {
        "true"@
    } else {
        "false"@
    }
}

/// An optional count: a decimal number, or `null` where there is none.
pub open spec fn jopt_num(o: Option<usize>) -> Seq<char> {
    match o {
        Some(n) => dec_digits(n as nat),
        None => "null"@,
    }
}

/// An optional string: a JSON string, or `null` where there is none.
pub open spec fn jopt_str(o: Option<Seq<char>>) -> Seq<char> {
    match o {
        Some(s) => jstr(s),
        None => "null"@,
    }
}

/// The opening of a descriptor object: its kind and its display name.
pub open spec fn jhead(kind: Seq<char>, name: Seq<char>) -> Seq<char> {
    "{\"kind\":\""@ + kind + "\",\"name\":"@ + jstr(name)
}

/// The size and alignment fields.
pub open spec fn jsa(size: usize, align: usize) -> Seq<char> {
    ",\"size\":"@ + dec_digits(size as nat) + ",\"align\":"@ + dec_digits(align as nat)
}

/// One field descriptor.
pub open spec fn jfield(f: DefStructField) -> Seq<char> {
    "{\"name\":"@ + jstr(f.name@) + ",\"serName\":"@ + jstr(f.ser_name@) + ",\"typeId\":"@
        + dec_digits(f.type_id as nat) + ",\"offset\":"@ + dec_digits(f.offset as nat)
        + ",\"flatten\":"@ + jbool(f.flatten) + ",\"skip\":"@ + jbool(f.skip) + "}"@
}

/// A comma-separated run of field descriptors.
pub open spec fn jfields(fs: Seq<DefStructField>) -> Seq<char>
    decreases fs.len(),
{
    if fs.len() == 0 {
        Seq::empty()
    } else if fs.len() == 1 {
        jfield(fs[0])
    } else {
        jfields(fs.drop_last()) + seq![','] + jfield(fs.last())
    }
}

/// One variant descriptor.
pub open spec fn jvariant(v: DefEnumVariant) -> Seq<char> {
    "{\"name\":"@ + jstr(v.name@) + ",\"discriminant\":"@ + dec_digits(v.discriminant as nat)
        + ",\"serValue\":"@ + jopt_str(opt_view(v.ser_value)) + ",\"valueTypeId\":"@ + jopt_num(
        v.value_type_id,
    ) + "}"@
}

/// A comma-separated run of variant descriptors.
pub open spec fn jvariants(vs: Seq<DefEnumVariant>) -> Seq<char>
    decreases vs.len(),
{
    if vs.len() == 0 {
        Seq::empty()
    } else if vs.len() == 1 {
        jvariant(vs[0])
    } else {
        jvariants(vs.drop_last()) + seq![','] + jvariant(vs.last())
    }
}

/// A tag mode.
pub open spec fn jtag(t: DefEnumTag) -> Seq<char> {
    match t {
        DefEnumTag::NoTag => "\"none\""@,
        DefEnumTag::Untagged => "\"untagged\""@,
        DefEnumTag::Tag(x) => "{\"tag\":"@ + jstr(x@) + "}"@,
        DefEnumTag::TagAndContent { tag, content } => "{\"tag\":"@ + jstr(tag@) + ",\"content\":"@
            + jstr(content@) + "}"@,
    }
}

/// A descriptor with no children: its kind, name, size and alignment.
pub open spec fn jsimple(kind: Seq<char>, name: Seq<char>, size: usize, align: usize) -> Seq<
    char,
> {
    jhead(kind, name) + jsa(size, align) + "}"@
}

/// A single-type-parameter wrapper descriptor.
pub open spec fn jwrap(kind: Seq<char>, name: Seq<char>, size: usize, align: usize, id: usize)
    -> Seq<char> {
    jhead(kind, name) + jsa(size, align) + ",\"valueTypeId\":"@ + dec_digits(id as nat) + "}"@
}

/// The unsized string view's descriptor.
pub open spec fn jstr_desc(p: crate::defs::DefStr) -> Seq<char> {
    jhead("str"@, p.name@) + ",\"size\":"@ + jopt_num(p.size) + ",\"align\":"@ + dec_digits(
        p.align as nat,
    ) + "}"@
}

/// The two-branch result wrapper's descriptor.
pub open spec fn jresult(w: crate::defs::DefResult) -> Seq<char> {
    jhead("result"@, w.name@) + jsa(w.size, w.align) + ",\"okTypeId\":"@ + dec_digits(
        w.ok_type_id as nat,
    ) + ",\"errTypeId\":"@ + dec_digits(w.err_type_id as nat) + "}"@
}

/// A composite record's descriptor.
pub open spec fn jstruct(p: crate::defs::DefStruct) -> Seq<char> {
    jhead("struct"@, p.name@) + ",\"serName\":"@ + jstr(p.ser_name@) + ",\"size\":"@ + jopt_num(
        p.size,
    ) + ",\"align\":"@ + jopt_num(p.align) + ",\"fields\":["@ + jfields(p.fields@)
        + "],\"tag\":"@ + jopt_str(opt_view(p.tag)) + ",\"transparent\":"@ + jbool(
        p.transparent,
    ) + "}"@
}

/// A variant type's descriptor.
pub open spec fn jenum(p: crate::defs::DefEnum) -> Seq<char> {
    jhead("enum"@, p.name@) + ",\"serName\":"@ + jstr(p.ser_name@) + jsa(p.size, p.align)
        + ",\"variants\":["@ + jvariants(p.variants@) + "],\"tag\":"@ + jtag(p.tag) + "}"@
}

/// One catalog entry.
pub open spec fn jdesc(d: DefType) -> Seq<char> {
    match d {
        DefType::Primitive(p) => jsimple("primitive"@, p.name@, p.size, p.align),
        DefType::String(p) => jsimple("string"@, p.name@, p.size, p.align),
        DefType::StrSlice(p) => jsimple("strSlice"@, p.name@, p.size, p.align),
        DefType::Str(p) => jstr_desc(p),
        DefType::Box(w) => jwrap("box"@, w.name@, w.size, w.align, w.value_type_id),
        DefType::Vec(w) => jwrap("vec"@, w.name@, w.size, w.align, w.value_type_id),
        DefType::Option(w) => jwrap("option"@, w.name@, w.size, w.align, w.value_type_id),
        DefType::PhantomData(w) => jwrap("phantomData"@, w.name@, w.size, w.align, w.value_type_id),
        DefType::Cell(w) => jwrap("cell"@, w.name@, w.size, w.align, w.value_type_id),
        DefType::RefCell(w) => jwrap("refCell"@, w.name@, w.size, w.align, w.value_type_id),
        DefType::Mutex(w) => jwrap("mutex"@, w.name@, w.size, w.align, w.value_type_id),
        DefType::RwLock(w) => jwrap("rwLock"@, w.name@, w.size, w.align, w.value_type_id),
        DefType::Rc(w) => jwrap("rc"@, w.name@, w.size, w.align, w.value_type_id),
        DefType::Arc(w) => jwrap("arc"@, w.name@, w.size, w.align, w.value_type_id),
        DefType::Result(w) => jresult(w),
        DefType::Struct(p) => jstruct(p),
        DefType::Enum(p) => jenum(p),
    }
}

/// A comma-separated run of catalog entries.
pub open spec fn jdescs(ds: Seq<DefType>) -> Seq<char>
    decreases ds.len(),
{
    if ds.len() == 0 {
        Seq::empty()
    } else if ds.len() == 1 {
        jdesc(ds[0])
    } else {
        jdescs(ds.drop_last()) + seq![','] + jdesc(ds.last())
    }
}

/// A whole catalog.
pub open spec fn jcatalog(ds: Seq<DefType>) -> Seq<char> {
    seq!['['] + jdescs(ds) + seq![']']
}

fn push_lit(out: &mut Vec<char>, lit: &str)
    ensures
        final(out)@ == old(out)@ + lit@,
{
    let n = lit.unicode_len();
    let mut i: usize = 0;
    while i < n
        invariant
            i <= n,
            n == lit@.len(),
            out@ == old(out)@ + lit@.subrange(0, i as int),
        decreases n - i,
    {
        out.push(lit.get_char(i));
        proof {
            assert(lit@.subrange(0, i + 1) =~= lit@.subrange(0, i as int).push(lit@[i as int]));
            assert(out@ =~= old(out)@ + lit@.subrange(0, i + 1));
        }
        i += 1;
    }
    proof {
        assert(lit@.subrange(0, n as int) =~= lit@);
        assert(out@ =~= old(out)@ + lit@);
    }
}

fn push_jstring(out: &mut Vec<char>, s: &str)
    ensures
        final(out)@ == old(out)@ + jstr(s@),
{
    out.push('"');
    let n = s.unicode_len();
    let mut i: usize = 0;
    while i < n
        invariant
            i <= n,
            n == s@.len(),
            out@ == old(out)@ + seq!['"'] + esc(s@.subrange(0, i as int)),
        decreases n - i,
    {
        let c = s.get_char(i);
        if c == '"' {
            out.push('\\');
            out.push('"');
        } else if c == '\\' {
            out.push('\\');
            out.push('\\');
        } else {
            out.push(c);
        }
        proof {
            assert(s@.subrange(0, i + 1).drop_last() =~= s@.subrange(0, i as int));
            assert(s@.subrange(0, i + 1).last() == s@[i as int]);
            assert(out@ =~= old(out)@ + seq!['"'] + esc(s@.subrange(0, i + 1)));
        }
        i += 1;
    }
    out.push('"');
    proof {
        assert(s@.subrange(0, n as int) =~= s@);
        assert(out@ =~= old(out)@ + jstr(s@));
    }
}

fn push_usize(out: &mut Vec<char>, n: usize)
    ensures
        final(out)@ == old(out)@ + dec_digits(n as nat),
{
    let s = usize_to_string(n);
    push_lit(out, s.as_str());
}

fn push_u64(out: &mut Vec<char>, n: u64)
    ensures
        final(out)@ == old(out)@ + dec_digits(n as nat),
{
    let s = u64_to_string(n);
    push_lit(out, s.as_str());
}

fn push_bool(out: &mut Vec<char>, b: bool)
    ensures
        final(out)@ == old(out)@ + jbool(b),
{
    if b {
        push_lit(out, "true");
    } else {
        push_lit(out, "false");
    }
}

fn push_opt_usize(out: &mut Vec<char>, o: &Option<usize>)
    ensures
        final(out)@ == old(out)@ + jopt_num(*o),
{
    match o {
        Some(n) => push_usize(out, *n),
        None => push_lit(out, "null"),
    }
}

fn push_opt_string(out: &mut Vec<char>, o: &Option<String>)
    ensures
        final(out)@ == old(out)@ + jopt_str(opt_view(*o)),
{
    match o {
        Some(s) => push_jstring(out, s.as_str()),
        None => push_lit(out, "null"),
    }
}

fn push_head(out: &mut Vec<char>, kind: &str, name: &str)
    ensures
        final(out)@ == old(out)@ + jhead(kind@, name@),
{
    push_lit(out, "{\"kind\":\"");
    push_lit(out, kind);
    push_lit(out, "\",\"name\":");
    push_jstring(out, name);
    proof {
        assert(out@ =~= old(out)@ + jhead(kind@, name@));
    }
}

fn push_sa(out: &mut Vec<char>, size: usize, align: usize)
    ensures
        final(out)@ == old(out)@ + jsa(size, align),
{
    push_lit(out, ",\"size\":");
    push_usize(out, size);
    push_lit(out, ",\"align\":");
    push_usize(out, align);
    proof {
        assert(out@ =~= old(out)@ + jsa(size, align));
    }
}

fn push_value_type_id(out: &mut Vec<char>, id: usize)
    ensures
        final(out)@ == old(out)@ + ",\"valueTypeId\":"@ + dec_digits(id as nat) + "}"@,
{
    push_lit(out, ",\"valueTypeId\":");
    push_usize(out, id);
    push_lit(out, "}");
    proof {
        assert(out@ =~= old(out)@ + ",\"valueTypeId\":"@ + dec_digits(id as nat) + "}"@);
    }
}

fn push_field(out: &mut Vec<char>, f: &DefStructField)
    ensures
        final(out)@ == old(out)@ + jfield(*f),
{
    push_lit(out, "{\"name\":");
    push_jstring(out, f.name.as_str());
    push_lit(out, ",\"serName\":");
    push_jstring(out, f.ser_name.as_str());
    push_lit(out, ",\"typeId\":");
    push_usize(out, f.type_id);
    push_lit(out, ",\"offset\":");
    push_usize(out, f.offset);
    push_lit(out, ",\"flatten\":");
    push_bool(out, f.flatten);
    push_lit(out, ",\"skip\":");
    push_bool(out, f.skip);
    push_lit(out, "}");
    proof {
        assert(out@ =~= old(out)@ + jfield(*f));
    }
}

fn push_variant(out: &mut Vec<char>, v: &DefEnumVariant)
    ensures
        final(out)@ == old(out)@ + jvariant(*v),
{
    push_lit(out, "{\"name\":");
    push_jstring(out, v.name.as_str());
    push_lit(out, ",\"discriminant\":");
    push_u64(out, v.discriminant);
    push_lit(out, ",\"serValue\":");
    push_opt_string(out, &v.ser_value);
    push_lit(out, ",\"valueTypeId\":");
    push_opt_usize(out, &v.value_type_id);
    push_lit(out, "}");
    proof {
        assert(out@ =~= old(out)@ + jvariant(*v));
    }
}

fn push_tag(out: &mut Vec<char>, t: &DefEnumTag)
    ensures
        final(out)@ == old(out)@ + jtag(*t),
{
    match t {
        DefEnumTag::NoTag => push_lit(out, "\"none\""),
        DefEnumTag::Untagged => push_lit(out, "\"untagged\""),
        DefEnumTag::Tag(x) => {
            push_lit(out, "{\"tag\":");
            push_jstring(out, x.as_str());
            push_lit(out, "}");
            proof {
                assert(out@ =~= old(out)@ + jtag(*t));
            }
        },
        DefEnumTag::TagAndContent { tag, content } => {
            push_lit(out, "{\"tag\":");
            push_jstring(out, tag.as_str());
            push_lit(out, ",\"content\":");
            push_jstring(out, content.as_str());
            push_lit(out, "}");
            proof {
                assert(out@ =~= old(out)@ + jtag(*t));
            }
        },
    }
}

fn push_simple(out: &mut Vec<char>, kind: &str, name: &str, size: usize, align: usize)
    ensures
        final(out)@ == old(out)@ + jsimple(kind@, name@, size, align),
{
    push_head(out, kind, name);
    push_sa(out, size, align);
    push_lit(out, "}");
    proof {
        assert(out@ =~= old(out)@ + jsimple(kind@, name@, size, align));
    }
}

fn push_wrap(out: &mut Vec<char>, kind: &str, name: &str, size: usize, align: usize, id: usize)
    ensures
        final(out)@ == old(out)@ + jwrap(kind@, name@, size, align, id),
{
    push_head(out, kind, name);
    push_sa(out, size, align);
    push_lit(out, ",\"valueTypeId\":");
    push_usize(out, id);
    push_lit(out, "}");
    proof {
        assert(out@ =~= old(out)@ + jwrap(kind@, name@, size, align, id));
    }
}

#[verifier::rlimit(100)]
fn push_struct_desc(out: &mut Vec<char>, p: &crate::defs::DefStruct)
    ensures
        final(out)@ == old(out)@ + jstruct(*p),
{
    push_head(out, "struct", p.name.as_str());
    push_lit(out, ",\"serName\":");
    push_jstring(out, p.ser_name.as_str());
    push_lit(out, ",\"size\":");
    push_opt_usize(out, &p.size);
    push_lit(out, ",\"align\":");
    push_opt_usize(out, &p.align);
    push_lit(out, ",\"fields\":[");
    let n = p.fields.len();
    let mut i: usize = 0;
    let ghost mid = out@;
    while i < n
        invariant
            i <= n,
            n == p.fields@.len(),
            out@ == mid + jfields(p.fields@.subrange(0, i as int)),
        decreases n - i,
    {
        if i > 0 {
            push_lit(out, ",");
            proof {
                reveal_strlit(",");
            }
        }
        push_field(out, &p.fields[i]);
        proof {
            assert(p.fields@.subrange(0, i + 1).drop_last() =~= p.fields@.subrange(0, i as int));
            assert(p.fields@.subrange(0, i + 1).last() == p.fields@[i as int]);
            if i == 0 {
                assert(p.fields@.subrange(0, 1) =~= seq![p.fields@[0]]);
            }
            assert(out@ =~= mid + jfields(p.fields@.subrange(0, i + 1)));
        }
        i += 1;
    }
    proof {
        assert(p.fields@.subrange(0, n as int) =~= p.fields@);
    }
    push_lit(out, "],\"tag\":");
    push_opt_string(out, &p.tag);
    push_lit(out, ",\"transparent\":");
    push_bool(out, p.transparent);
    push_lit(out, "}");
    proof {
        assert(out@ =~= old(out)@ + jstruct(*p));
    }
}

fn push_enum_desc(out: &mut Vec<char>, p: &crate::defs::DefEnum)
    ensures
        final(out)@ == old(out)@ + jenum(*p),
{
    push_head(out, "enum", p.name.as_str());
    push_lit(out, ",\"serName\":");
    push_jstring(out, p.ser_name.as_str());
    push_sa(out, p.size, p.align);
    push_lit(out, ",\"variants\":[");
    let n = p.variants.len();
    let mut i: usize = 0;
    let ghost mid = out@;
    while i < n
        invariant
            i <= n,
            n == p.variants@.len(),
            out@ == mid + jvariants(p.variants@.subrange(0, i as int)),
        decreases n - i,
    {
        if i > 0 {
            push_lit(out, ",");
            proof {
                reveal_strlit(",");
            }
        }
        push_variant(out, &p.variants[i]);
        proof {
            assert(p.variants@.subrange(0, i + 1).drop_last() =~= p.variants@.subrange(
                0,
                i as int,
            ));
            assert(p.variants@.subrange(0, i + 1).last() == p.variants@[i as int]);
            if i == 0 {
                assert(p.variants@.subrange(0, 1) =~= seq![p.variants@[0]]);
            }
            assert(out@ =~= mid + jvariants(p.variants@.subrange(0, i + 1)));
        }
        i += 1;
    }
    proof {
        assert(p.variants@.subrange(0, n as int) =~= p.variants@);
    }
    push_lit(out, "],\"tag\":");
    push_tag(out, &p.tag);
    push_lit(out, "}");
    proof {
        assert(out@ =~= old(out)@ + jenum(*p));
    }
}

fn push_desc(out: &mut Vec<char>, d: &DefType)
    ensures
        final(out)@ == old(out)@ + jdesc(*d),
{
    match d {
        DefType::Primitive(p) => push_simple(out, "primitive", p.name.as_str(), p.size, p.align),
        DefType::String(p) => push_simple(out, "string", p.name.as_str(), p.size, p.align),
        DefType::StrSlice(p) => push_simple(out, "strSlice", p.name.as_str(), p.size, p.align),
        DefType::Str(p) => {
            push_head(out, "str", p.name.as_str());
            push_lit(out, ",\"size\":");
            push_opt_usize(out, &p.size);
            push_lit(out, ",\"align\":");
            push_usize(out, p.align);
            push_lit(out, "}");
            proof {
                assert(out@ =~= old(out)@ + jstr_desc(*p));
            }
        },
        DefType::Box(w) => push_wrap(out, "box", w.name.as_str(), w.size, w.align, w.value_type_id),
        DefType::Vec(w) => push_wrap(out, "vec", w.name.as_str(), w.size, w.align, w.value_type_id),
        DefType::Option(w) => push_wrap(
            out,
            "option",
            w.name.as_str(),
            w.size,
            w.align,
            w.value_type_id,
        ),
        DefType::PhantomData(w) => push_wrap(
            out,
            "phantomData",
            w.name.as_str(),
            w.size,
            w.align,
            w.value_type_id,
        ),
        DefType::Cell(w) => push_wrap(
            out,
            "cell",
            w.name.as_str(),
            w.size,
            w.align,
            w.value_type_id,
        ),
        DefType::RefCell(w) => push_wrap(
            out,
            "refCell",
            w.name.as_str(),
            w.size,
            w.align,
            w.value_type_id,
        ),
        DefType::Mutex(w) => push_wrap(
            out,
            "mutex",
            w.name.as_str(),
            w.size,
            w.align,
            w.value_type_id,
        ),
        DefType::RwLock(w) => push_wrap(
            out,
            "rwLock",
            w.name.as_str(),
            w.size,
            w.align,
            w.value_type_id,
        ),
        DefType::Rc(w) => push_wrap(out, "rc", w.name.as_str(), w.size, w.align, w.value_type_id),
        DefType::Arc(w) => push_wrap(out, "arc", w.name.as_str(), w.size, w.align, w.value_type_id),
        DefType::Result(w) => {
            push_head(out, "result", w.name.as_str());
            push_sa(out, w.size, w.align);
            push_lit(out, ",\"okTypeId\":");
            push_usize(out, w.ok_type_id);
            push_lit(out, ",\"errTypeId\":");
            push_usize(out, w.err_type_id);
            push_lit(out, "}");
            proof {
                assert(out@ =~= old(out)@ + jresult(*w));
            }
        },
        DefType::Struct(p) => push_struct_desc(out, p),
        DefType::Enum(p) => push_enum_desc(out, p),
    }
}

/// Relies on String::from_iter over chars: collecting characters yields the
/// string of exactly those characters.
#[verifier::external_body]
fn chars_to_string(v: &Vec<char>) -> (r: String)
    ensures
        r@ == v@,
{
    v.iter().collect()
}

/// Render a whole catalog in the boundary text format.
pub fn types_to_json(types: &Vec<DefType>) -> (r: String)
    ensures
        r@ == jcatalog(types@),
{
    let mut out: Vec<char> = Vec::new();
    push_lit(&mut out, "[");
    proof {
        reveal_strlit("[");
        assert("["@ =~= seq!['[']);
        assert(types@.subrange(0, 0) =~= Seq::<DefType>::empty());
        assert(out@ =~= seq!['['] + jdescs(types@.subrange(0, 0)));
    }
    let n = types.len();
    let mut i: usize = 0;
    while i < n
        invariant
            i <= n,
            n == types@.len(),
            out@ == seq!['['] + jdescs(types@.subrange(0, i as int)),
        decreases n - i,
    {
        if i > 0 {
            push_lit(&mut out, ",");
        }
        push_desc(&mut out, &types[i]);
        proof {
            reveal_strlit(",");
            assert(","@ =~= seq![',']);
            assert(types@.subrange(0, i + 1).drop_last() =~= types@.subrange(0, i as int));
            assert(types@.subrange(0, i + 1).last() == types@[i as int]);
            if i == 0 {
                assert(types@.subrange(0, 1) =~= seq![types@[0]]);
            }
            assert(out@ =~= seq!['['] + jdescs(types@.subrange(0, i + 1)));
        }
        i += 1;
    }
    proof {
        assert(types@.subrange(0, n as int) =~= types@);
    }
    push_lit(&mut out, "]");
    proof {
        reveal_strlit("]");
        assert("]"@ =~= seq![']']);
        assert(out@ =~= jcatalog(types@));
    }
    chars_to_string(&out)
}


// The parser for the boundary format. Its contract is exact in one direction:
// whatever it accepts re-renders, character for character, to the text it
// consumed, so an accepted catalog text is the canonical rendering of the
// value handed back.

/// Relies on str::chars + Vec::from_iter: collecting a string's characters
/// yields exactly its character sequence.
#[verifier::external_body]
fn string_to_chars(s: &str) -> (r: Vec<char>)
    ensures
        r@ == s@,
{
    s.chars().collect()
}

fn expect(s: &Vec<char>, pos: usize, lit: &str) -> (r: Option<usize>)
    ensures
        (r matches Some(p) ==> pos <= p <= s@.len() && p == pos + lit@.len() && s@.subrange(
            pos as int,
            p as int,
        ) == lit@),
        (r is None ==> !(pos + lit@.len() <= s@.len() && s@.subrange(
            pos as int,
            pos + lit@.len(),
        ) == lit@)),
{
    let n = lit.unicode_len();
    let sl = s.len();
    if pos > sl || sl - pos < n {
        return None;
    }
    let mut i: usize = 0;
    while i < n
        invariant
            i <= n,
            n == lit@.len(),
            sl == s@.len(),
            pos + n <= sl,
            forall|j: int| 0 <= j < i ==> s@[pos + j] == lit@[j],
        decreases n - i,
    {
        if s[pos + i] != lit.get_char(i) {
            proof {
                assert(s@.subrange(pos as int, pos + n)[i as int] == s@[pos + i]);
            }
            return None;
        }
        i += 1;
    }
    proof {
        assert(s@.subrange(pos as int, (pos + n) as int) =~= lit@);
    }
    Some(pos + n)
}

/// Joins the consumed pieces of a run of parses back into one span.
proof fn lemma_subrange_concat(s: Seq<char>, a: int, b: int, c: int)
    requires
        0 <= a <= b <= c <= s.len(),
    ensures
        s.subrange(a, c) == s.subrange(a, b) + s.subrange(b, c),
{
    assert(s.subrange(a, c) =~= s.subrange(a, b) + s.subrange(b, c));
}

/// Escaping distributes over concatenation.
proof fn lemma_esc_concat(a: Seq<char>, b: Seq<char>)
    ensures
        esc(a + b) == esc(a) + esc(b),
    decreases b.len(),
{
    if b.len() == 0 {
        assert(a + b =~= a);
        assert(esc(a) + esc(b) =~= esc(a));
    } else {
        assert((a + b).drop_last() =~= a + b.drop_last());
        assert((a + b).last() == b.last());
        lemma_esc_concat(a, b.drop_last());
        assert(esc(a + b) =~= esc(a) + esc(b));
    }
}

/// A JSON string literal for `w` spans `s[pos..q]`.
pub open spec fn jstr_run(s: Seq<char>, pos: int, q: int, w: Seq<char>) -> bool {
    &&& 0 <= pos <= q <= s.len()
    &&& s.subrange(pos, q) == jstr(w)
}

/// What each position inside a spanned string literal holds, relative to how
/// much of `w` has been decoded.
proof fn lemma_jstr_char_at(s: Seq<char>, pos: int, q: int, w: Seq<char>, k: int, j: int)
    requires
        jstr_run(s, pos, q, w),
        0 <= k <= w.len(),
        j == pos + 1 + esc(w.subrange(0, k)).len(),
    ensures
        j <= q - 1,
        k < w.len() ==> s[j] == esc_char(w[k])[0] && j < q - 1,
        k < w.len() && (w[k] == '"' || w[k] == '\\') ==> j + 1 < q - 1 + 1 && s[j + 1] == w[k],
        k == w.len() ==> j == q - 1 && s[j] == '"',
{
    assert(s.subrange(pos, q).len() == q - pos);
    assert(jstr(w).len() == q - pos);
    assert(w =~= w.subrange(0, k) + w.subrange(k, w.len() as int));
    lemma_esc_concat(w.subrange(0, k), w.subrange(k, w.len() as int));
    let pre = esc(w.subrange(0, k));
    if k < w.len() {
        assert(w.subrange(k, w.len() as int) =~= seq![w[k]] + w.subrange(k + 1, w.len() as int));
        lemma_esc_concat(seq![w[k]], w.subrange(k + 1, w.len() as int));
        assert(seq![w[k]].len() == 1);
        assert(seq![w[k]].last() == w[k]);
        assert(seq![w[k]].drop_last() =~= Seq::<char>::empty());
        assert(esc(Seq::<char>::empty()) =~= Seq::<char>::empty());
        assert(esc(seq![w[k]]) =~= esc_char(w[k]));
        assert(esc(w) == pre + esc_char(w[k]) + esc(w.subrange(k + 1, w.len() as int)));
        assert(esc_char(w[k]).len() >= 1);
        assert(pre.len() < esc(w).len());
        assert(esc(w)[pre.len() as int] == esc_char(w[k])[0]);
        assert(jstr(w)[j - pos] == esc(w)[j - pos - 1]);
        assert(s.subrange(pos, q)[j - pos] == s[j]);
        assert(s[j] == esc_char(w[k])[0]);
        if w[k] == '"' || w[k] == '\\' {
            assert(esc_char(w[k]).len() == 2);
            assert(esc(w)[pre.len() as int + 1] == esc_char(w[k])[1]);
            assert(jstr(w)[j + 1 - pos] == esc(w)[j - pos]);
            assert(s.subrange(pos, q)[j + 1 - pos] == s[j + 1]);
            assert(s[j + 1] == esc_char(w[k])[1]);
            assert(esc_char(w[k])[1] == w[k]);
        }
    } else {
        assert(w.subrange(0, k) =~= w);
        assert(j == pos + 1 + esc(w).len());
        assert(j == q - 1);
        assert(jstr(w)[j - pos] == '"');
        assert(s.subrange(pos, q)[j - pos] == s[j]);
    }
}

fn parse_jstring(s: &Vec<char>, pos: usize) -> (r: Option<(String, usize)>)
    ensures
        (r matches Some((v, p)) ==> pos < p <= s@.len() && s@.subrange(pos as int, p as int)
            == jstr(v@)),
        (forall|w: Seq<char>, q: int|
            jstr_run(s@, pos as int, q, w) ==> (r matches Some((v, p)) && v@ == w && p == q)),
{
    let sl = s.len();
    if pos >= sl || s[pos] != '"' {
        proof {
            assert forall|w: Seq<char>, q: int| !jstr_run(s@, pos as int, q, w) by {
                if jstr_run(s@, pos as int, q, w) {
                    assert(jstr(w).len() == q - pos);
                    assert(jstr(w)[0] == '"');
                    assert(s@.subrange(pos as int, q)[0] == s@[pos as int]);
                    assert(false);
                }
            }
        }
        return None;
    }
    let mut buf: Vec<char> = Vec::new();
    let mut j: usize = pos + 1;
    proof {
        assert(s@.subrange(pos + 1, pos + 1) =~= esc(buf@));
        assert forall|w: Seq<char>, q: int|
            jstr_run(s@, pos as int, q, w) implies (buf@.len() <= w.len() && buf@ == w.subrange(
            0,
            buf@.len() as int,
        ) && j <= q - 1) by {
            assert(s@.subrange(pos as int, q).len() == q - pos);
            assert(jstr(w).len() == q - pos);
            assert(w.subrange(0, 0) =~= buf@);
        }
    }
    loop
        invariant
            pos < j <= sl,
            sl == s@.len(),
            s@[pos as int] == '"',
            s@.subrange(pos + 1, j as int) == esc(buf@),
            forall|w: Seq<char>, q: int|
                #[trigger] jstr_run(s@, pos as int, q, w) ==> (buf@.len() <= w.len() && buf@
                    == w.subrange(0, buf@.len() as int) && j <= q - 1),
        decreases sl - j,
    {
        proof {
            assert(esc(buf@).len() == j - pos - 1);
        }
        if j >= sl {
            proof {
                assert forall|w: Seq<char>, q: int| !jstr_run(s@, pos as int, q, w) by {
                    if jstr_run(s@, pos as int, q, w) {
                        assert(j <= q - 1 && q <= s@.len());
                        assert(false);
                    }
                }
            }
            return None;
        }
        let c = s[j];
        if c == '"' {
            let v = chars_to_string(&buf);
            proof {
                lemma_subrange_concat(s@, pos as int, pos + 1, j + 1);
                lemma_subrange_concat(s@, pos + 1, j as int, j + 1);
                assert(s@.subrange(pos as int, pos + 1) =~= seq!['"']);
                assert(s@.subrange(j as int, j + 1) =~= seq!['"']);
                assert(seq!['"'] + (esc(buf@) + seq!['"']) =~= seq!['"'] + esc(buf@) + seq!['"']);
                assert(s@.subrange(pos as int, j + 1) == jstr(v@));
                assert forall|w: Seq<char>, q: int|
                    jstr_run(s@, pos as int, q, w) implies (v@ == w && j + 1 == q) by {
                    let k = buf@.len() as int;
                    assert(esc(buf@) == esc(w.subrange(0, k)));
                    lemma_jstr_char_at(s@, pos as int, q, w, k, j as int);
                    if k < w.len() {
                        assert(s@[j as int] == esc_char(w[k])[0]);
                        assert(esc_char(w[k])[0] != '"');
                        assert(false);
                    }
                    assert(w.subrange(0, k) =~= w);
                }
            }
            return Some((v, j + 1));
        } else if c == '\\' {
            proof {
                assert forall|w: Seq<char>, q: int|
                    jstr_run(s@, pos as int, q, w) implies (buf@.len() < w.len() && (w[buf@.len() as int]
                        == '"' || w[buf@.len() as int] == '\\') && j + 1 <= q - 1 && (j + 1 < s@.len())
                        && s@[j + 1] == w[buf@.len() as int]) by {
                    let k = buf@.len() as int;
                    assert(esc(buf@) == esc(w.subrange(0, k)));
                    lemma_jstr_char_at(s@, pos as int, q, w, k, j as int);
                    if k == w.len() {
                        assert(s@[j as int] == '"');
                        assert(false);
                    }
                    assert(s@[j as int] == esc_char(w[k])[0]);
                    if !(w[k] == '"' || w[k] == '\\') {
                        assert(esc_char(w[k])[0] == w[k]);
                        assert(false);
                    }
                }
            }
            if j + 1 >= sl {
                proof {
                    assert forall|w: Seq<char>, q: int| !jstr_run(s@, pos as int, q, w) by {
                        if jstr_run(s@, pos as int, q, w) {
                            assert(j + 1 < s@.len());
                            assert(false);
                        }
                    }
                }
                return None;
            }
            let e = s[j + 1];
            if e == '"' || e == '\\' {
                let ghost prev = buf@;
                buf.push(e);
                proof {
                    assert(buf@.drop_last() =~= prev);
                    assert(esc(buf@) == esc(prev) + esc_char(e));
                    lemma_subrange_concat(s@, pos + 1, j as int, j + 2);
                    assert(s@.subrange(j as int, j + 2) =~= seq!['\\', e]);
                    assert(esc_char(e) =~= seq!['\\', e]);
                    assert(s@.subrange(pos + 1, j + 2) == esc(buf@));
                    assert forall|w: Seq<char>, q: int|
                        jstr_run(s@, pos as int, q, w) implies (buf@.len() <= w.len() && buf@
                            == w.subrange(0, buf@.len() as int) && j + 2 <= q - 1) by {
                        let k = prev.len() as int;
                        assert(k < w.len() && w[k] == s@[j + 1]);
                        assert(w[k] == e);
                        assert(buf@ =~= w.subrange(0, k + 1));
                        assert(esc(prev) == esc(w.subrange(0, k)));
                        lemma_jstr_char_at(s@, pos as int, q, w, k + 1, j + 2);
                    }
                }
                j += 2;
            } else {
                proof {
                    assert forall|w: Seq<char>, q: int| !jstr_run(s@, pos as int, q, w) by {
                        if jstr_run(s@, pos as int, q, w) {
                            assert(s@[j + 1] == w[buf@.len() as int]);
                            assert(false);
                        }
                    }
                }
                return None;
            }
        } else {
            let ghost prev = buf@;
            buf.push(c);
            proof {
                assert(buf@.drop_last() =~= prev);
                assert(esc(buf@) == esc(prev) + esc_char(c));
                lemma_subrange_concat(s@, pos + 1, j as int, j + 1);
                assert(s@.subrange(j as int, j + 1) =~= seq![c]);
                assert(esc_char(c) =~= seq![c]);
                assert(s@.subrange(pos + 1, j + 1) == esc(buf@));
                assert forall|w: Seq<char>, q: int|
                    jstr_run(s@, pos as int, q, w) implies (buf@.len() <= w.len() && buf@
                        == w.subrange(0, buf@.len() as int) && j + 1 <= q - 1) by {
                    let k = prev.len() as int;
                    assert(esc(prev) == esc(w.subrange(0, k)));
                    lemma_jstr_char_at(s@, pos as int, q, w, k, j as int);
                    if k == w.len() {
                        assert(s@[j as int] == '"');
                        assert(false);
                    }
                    assert(s@[j as int] == esc_char(w[k])[0]);
                    if w[k] == '"' || w[k] == '\\' {
                        assert(esc_char(w[k])[0] == '\\');
                        assert(false);
                    }
                    assert(w[k] == c);
                    assert(buf@ =~= w.subrange(0, k + 1));
                    assert(esc(buf@) == esc(w.subrange(0, k + 1)));
                    lemma_jstr_char_at(s@, pos as int, q, w, k + 1, j + 1);
                }
            }
            j += 1;
        }
    }
}

/// A decimal rendering of `n2` spans `s[pos..q]`, fits in `bound`, and ends
/// at a non-digit boundary.
pub open spec fn dec_run(s: Seq<char>, pos: int, q: int, n2: nat, bound: nat) -> bool {
    &&& 0 <= pos <= q <= s.len()
    &&& s.subrange(pos, q) == dec_digits(n2)
    &&& n2 <= bound
    &&& (q == s.len() || !is_digit_char(s[q]))
}

fn digit_of(c: char) -> (r: Option<usize>)
    ensures
        (r matches Some(d) ==> d < 10 && dec_digit(d as nat) == c),
        (r is None ==> forall|d: nat| d < 10 ==> dec_digit(d) != c),
{
    match c {
        '0' => Some(0),
        '1' => Some(1),
        '2' => Some(2),
        '3' => Some(3),
        '4' => Some(4),
        '5' => Some(5),
        '6' => Some(6),
        '7' => Some(7),
        '8' => Some(8),
        '9' => Some(9),
        _ => None,
    }
}

fn parse_usize(s: &Vec<char>, pos: usize) -> (r: Option<(usize, usize)>)
    ensures
        (r matches Some((n, p)) ==> pos < p <= s@.len() && s@.subrange(pos as int, p as int)
            == dec_digits(n as nat)),
        (forall|n2: nat, q: int|
            dec_run(s@, pos as int, q, n2, usize::MAX as nat) ==> (r matches Some((m, p))
                && m as nat == n2 && p == q)),
{
    let sl = s.len();
    if pos >= sl {
        proof {
            assert forall|n2: nat, q: int| !dec_run(s@, pos as int, q, n2, usize::MAX as nat) by {
                if dec_run(s@, pos as int, q, n2, usize::MAX as nat) {
                    lemma_dec_digits_len(n2);
                }
            }
        }
        return None;
    }
    let d0 = match digit_of(s[pos]) {
        Some(d) => d,
        None => {
            proof {
                assert forall|n2: nat, q: int| !dec_run(s@, pos as int, q, n2, usize::MAX as nat) by {
                    if dec_run(s@, pos as int, q, n2, usize::MAX as nat) {
                        lemma_dec_digits_len(n2);
                        lemma_dec_all_digits(n2);
                        assert(dec_digits(n2).len() == q - pos);
                        assert(s@.subrange(pos as int, q)[0] == s@[pos as int]);
                        assert(s@[pos as int] == dec_digits(n2)[0]);
                        assert(is_digit_char(s@[pos as int]));
                        lemma_digit_chars();
                        assert(false);
                    }
                }
            }
            return None;
        },
    };
    if d0 == 0 {
        proof {
            assert(s@.subrange(pos as int, pos + 1) =~= seq![s@[pos as int]]);
            assert forall|n2: nat, q: int|
                dec_run(s@, pos as int, q, n2, usize::MAX as nat) implies (n2 == 0 && q == pos
                + 1) by {
                lemma_dec_digits_len(n2);
                assert(dec_digits(n2).len() == q - pos);
                assert(s@.subrange(pos as int, q)[0] == s@[pos as int]);
                assert(s@[pos as int] == dec_digits(n2)[0]);
                lemma_dec_leading(n2);
                assert(n2 == 0);
            }
        }
        return Some((0, pos + 1));
    }
    let mut acc: usize = d0 as usize;
    let mut j: usize = pos + 1;
    proof {
        assert(s@.subrange(pos as int, pos + 1) =~= seq![s@[pos as int]]);
    }
    while j < sl
        invariant
            pos < j <= sl,
            sl == s@.len(),
            1 <= acc,
            s@.subrange(pos as int, j as int) == dec_digits(acc as nat),
        decreases sl - j,
    {
        let du = match digit_of(s[j]) {
            Some(d) => d,
            None => {
                proof {
                    assert forall|n2: nat, q: int|
                        dec_run(s@, pos as int, q, n2, usize::MAX as nat) implies (n2 == acc as nat
                        && q == j as int) by {
                        lemma_dec_all_digits(n2);
                        lemma_dec_all_digits(acc as nat);
                        if q > j {
                            assert(s@.subrange(pos as int, q)[j - pos] == s@[j as int]);
                            assert(s@[j as int] == dec_digits(n2)[j - pos]);
                            assert(is_digit_char(s@[j as int]));
                            lemma_digit_chars();
                            assert(false);
                        }
                        if q < j {
                            assert(s@.subrange(pos as int, j as int)[q - pos] == s@[q]);
                            assert(s@[q] == dec_digits(acc as nat)[q - pos]);
                            assert(is_digit_char(s@[q]));
                            assert(false);
                        }
                        assert(dec_digits(n2) == dec_digits(acc as nat));
                        assert(dec_digits(n2) =~= dec_digits(acc as nat).subrange(
                            0,
                            dec_digits(n2).len() as int,
                        ));
                        lemma_dec_prefix(n2, acc as nat);
                    }
                }
                return Some((acc, j));
            },
        };
        let d = du as usize;
        if acc > (usize::MAX - d) / 10 {
            proof {
                assert forall|n2: nat, q: int| !dec_run(s@, pos as int, q, n2, usize::MAX as nat) by {
                    if dec_run(s@, pos as int, q, n2, usize::MAX as nat) {
                        lemma_dec_all_digits(acc as nat);
                        if q < j {
                            assert(s@.subrange(pos as int, j as int)[q - pos] == s@[q]);
                            assert(s@[q] == dec_digits(acc as nat)[q - pos]);
                            assert(is_digit_char(s@[q]));
                            assert(false);
                        }
                        if q == j {
                            assert(is_digit_char(s@[j as int]));
                            lemma_digit_chars();
                            assert(false);
                        }
                        let n3 = acc as nat * 10 + d as nat;
                        assert(n3 / 10 == acc as nat && n3 % 10 == d as nat) by (nonlinear_arith)
                            requires
                                n3 == acc as nat * 10 + d as nat,
                                0 <= d < 10,
                                acc >= 1,
                        ;
                        assert(n3 >= 10) by (nonlinear_arith)
                            requires
                                n3 == acc as nat * 10 + d as nat,
                                acc >= 1,
                                d >= 0,
                        ;
                        assert(dec_digits(n3) == dec_digits(acc as nat) + seq![
                            dec_digit(d as nat),
                        ]);
                        assert(s@.subrange(pos as int, j + 1) =~= s@.subrange(pos as int, j as int)
                            + seq![s@[j as int]]);
                        assert(s@[j as int] == dec_digit(d as nat));
                        assert(dec_digits(n3) == s@.subrange(pos as int, j + 1));
                        assert(dec_digits(n3) =~= dec_digits(n2).subrange(0, j + 1 - pos));
                        lemma_dec_prefix(n3, n2);
                        assert(n3 <= n2);
                        assert(false) by (nonlinear_arith)
                            requires
                                acc > (usize::MAX - d) / 10,
                                0 <= d < 10,
                                n3 == acc as nat * 10 + d as nat,
                                n3 <= usize::MAX as nat,
                        ;
                    }
                }
            }
            return None;
        }
        proof {
            assert(acc * 10 + d <= usize::MAX) by (nonlinear_arith)
                requires
                    acc <= (usize::MAX - d) / 10,
                    0 <= d < 10,
                    acc >= 1,
            ;
        }
        let next = acc * 10 + d;
        proof {
            assert(next as nat / 10 == acc as nat && next as nat % 10 == d as nat)
                by (nonlinear_arith)
                requires
                    next == acc * 10 + d,
                    0 <= d < 10,
                    acc >= 1,
            ;
            assert(dec_digits(next as nat) == dec_digits(acc as nat) + seq![
                dec_digit(d as nat),
            ]);
            assert(s@.subrange(pos as int, j + 1) =~= s@.subrange(pos as int, j as int) + seq![
                s@[j as int],
            ]);
        }
        acc = next;
        j += 1;
    }
    proof {
        assert forall|n2: nat, q: int|
            dec_run(s@, pos as int, q, n2, usize::MAX as nat) implies (n2 == acc as nat && q
            == j as int) by {
            lemma_dec_all_digits(acc as nat);
            if q < j {
                assert(s@.subrange(pos as int, j as int)[q - pos] == s@[q]);
                assert(s@[q] == dec_digits(acc as nat)[q - pos]);
                assert(is_digit_char(s@[q]));
                assert(false);
            }
            assert(dec_digits(n2) == dec_digits(acc as nat));
            assert(dec_digits(n2) =~= dec_digits(acc as nat).subrange(
                0,
                dec_digits(n2).len() as int,
            ));
            lemma_dec_prefix(n2, acc as nat);
        }
    }
    Some((acc, j))
}

fn parse_u64(s: &Vec<char>, pos: usize) -> (r: Option<(u64, usize)>)
    ensures
        (r matches Some((n, p)) ==> pos < p <= s@.len() && s@.subrange(pos as int, p as int)
            == dec_digits(n as nat)),
        (forall|n2: nat, q: int|
            dec_run(s@, pos as int, q, n2, u64::MAX as nat) ==> (r matches Some((m, p))
                && m as nat == n2 && p == q)),
{
    let sl = s.len();
    if pos >= sl {
        proof {
            assert forall|n2: nat, q: int| !dec_run(s@, pos as int, q, n2, u64::MAX as nat) by {
                if dec_run(s@, pos as int, q, n2, u64::MAX as nat) {
                    lemma_dec_digits_len(n2);
                }
            }
        }
        return None;
    }
    let d0 = match digit_of(s[pos]) {
        Some(d) => d,
        None => {
            proof {
                assert forall|n2: nat, q: int| !dec_run(s@, pos as int, q, n2, u64::MAX as nat) by {
                    if dec_run(s@, pos as int, q, n2, u64::MAX as nat) {
                        lemma_dec_digits_len(n2);
                        lemma_dec_all_digits(n2);
                        assert(dec_digits(n2).len() == q - pos);
                        assert(s@.subrange(pos as int, q)[0] == s@[pos as int]);
                        assert(s@[pos as int] == dec_digits(n2)[0]);
                        assert(is_digit_char(s@[pos as int]));
                        lemma_digit_chars();
                        assert(false);
                    }
                }
            }
            return None;
        },
    };
    if d0 == 0 {
        proof {
            assert(s@.subrange(pos as int, pos + 1) =~= seq![s@[pos as int]]);
            assert forall|n2: nat, q: int|
                dec_run(s@, pos as int, q, n2, u64::MAX as nat) implies (n2 == 0 && q == pos
                + 1) by {
                lemma_dec_digits_len(n2);
                assert(dec_digits(n2).len() == q - pos);
                assert(s@.subrange(pos as int, q)[0] == s@[pos as int]);
                assert(s@[pos as int] == dec_digits(n2)[0]);
                lemma_dec_leading(n2);
                assert(n2 == 0);
            }
        }
        return Some((0, pos + 1));
    }
    let mut acc: u64 = d0 as u64;
    let mut j: usize = pos + 1;
    proof {
        assert(s@.subrange(pos as int, pos + 1) =~= seq![s@[pos as int]]);
    }
    while j < sl
        invariant
            pos < j <= sl,
            sl == s@.len(),
            1 <= acc,
            s@.subrange(pos as int, j as int) == dec_digits(acc as nat),
        decreases sl - j,
    {
        let du = match digit_of(s[j]) {
            Some(d) => d,
            None => {
                proof {
                    assert forall|n2: nat, q: int|
                        dec_run(s@, pos as int, q, n2, u64::MAX as nat) implies (n2 == acc as nat
                        && q == j as int) by {
                        lemma_dec_all_digits(n2);
                        lemma_dec_all_digits(acc as nat);
                        if q > j {
                            assert(s@.subrange(pos as int, q)[j - pos] == s@[j as int]);
                            assert(s@[j as int] == dec_digits(n2)[j - pos]);
                            assert(is_digit_char(s@[j as int]));
                            lemma_digit_chars();
                            assert(false);
                        }
                        if q < j {
                            assert(s@.subrange(pos as int, j as int)[q - pos] == s@[q]);
                            assert(s@[q] == dec_digits(acc as nat)[q - pos]);
                            assert(is_digit_char(s@[q]));
                            assert(false);
                        }
                        assert(dec_digits(n2) == dec_digits(acc as nat));
                        assert(dec_digits(n2) =~= dec_digits(acc as nat).subrange(
                            0,
                            dec_digits(n2).len() as int,
                        ));
                        lemma_dec_prefix(n2, acc as nat);
                    }
                }
                return Some((acc, j));
            },
        };
        let d = du as u64;
        if acc > (u64::MAX - d) / 10 {
            proof {
                assert forall|n2: nat, q: int| !dec_run(s@, pos as int, q, n2, u64::MAX as nat) by {
                    if dec_run(s@, pos as int, q, n2, u64::MAX as nat) {
                        lemma_dec_all_digits(acc as nat);
                        if q < j {
                            assert(s@.subrange(pos as int, j as int)[q - pos] == s@[q]);
                            assert(s@[q] == dec_digits(acc as nat)[q - pos]);
                            assert(is_digit_char(s@[q]));
                            assert(false);
                        }
                        if q == j {
                            assert(is_digit_char(s@[j as int]));
                            lemma_digit_chars();
                            assert(false);
                        }
                        let n3 = acc as nat * 10 + d as nat;
                        assert(n3 / 10 == acc as nat && n3 % 10 == d as nat) by (nonlinear_arith)
                            requires
                                n3 == acc as nat * 10 + d as nat,
                                0 <= d < 10,
                                acc >= 1,
                        ;
                        assert(n3 >= 10) by (nonlinear_arith)
                            requires
                                n3 == acc as nat * 10 + d as nat,
                                acc >= 1,
                                d >= 0,
                        ;
                        assert(dec_digits(n3) == dec_digits(acc as nat) + seq![
                            dec_digit(d as nat),
                        ]);
                        assert(s@.subrange(pos as int, j + 1) =~= s@.subrange(pos as int, j as int)
                            + seq![s@[j as int]]);
                        assert(s@[j as int] == dec_digit(d as nat));
                        assert(dec_digits(n3) == s@.subrange(pos as int, j + 1));
                        assert(dec_digits(n3) =~= dec_digits(n2).subrange(0, j + 1 - pos));
                        lemma_dec_prefix(n3, n2);
                        assert(n3 <= n2);
                        assert(false) by (nonlinear_arith)
                            requires
                                acc > (u64::MAX - d) / 10,
                                0 <= d < 10,
                                n3 == acc as nat * 10 + d as nat,
                                n3 <= u64::MAX as nat,
                        ;
                    }
                }
            }
            return None;
        }
        proof {
            assert(acc * 10 + d <= u64::MAX) by (nonlinear_arith)
                requires
                    acc <= (u64::MAX - d) / 10,
                    0 <= d < 10,
                    acc >= 1,
            ;
        }
        let next = acc * 10 + d;
        proof {
            assert(next as nat / 10 == acc as nat && next as nat % 10 == d as nat)
                by (nonlinear_arith)
                requires
                    next == acc * 10 + d,
                    0 <= d < 10,
                    acc >= 1,
            ;
            assert(dec_digits(next as nat) == dec_digits(acc as nat) + seq![
                dec_digit(d as nat),
            ]);
            assert(s@.subrange(pos as int, j + 1) =~= s@.subrange(pos as int, j as int) + seq![
                s@[j as int],
            ]);
        }
        acc = next;
        j += 1;
    }
    proof {
        assert forall|n2: nat, q: int|
            dec_run(s@, pos as int, q, n2, u64::MAX as nat) implies (n2 == acc as nat && q
            == j as int) by {
            lemma_dec_all_digits(acc as nat);
            if q < j {
                assert(s@.subrange(pos as int, j as int)[q - pos] == s@[q]);
                assert(s@[q] == dec_digits(acc as nat)[q - pos]);
                assert(is_digit_char(s@[q]));
                assert(false);
            }
            assert(dec_digits(n2) == dec_digits(acc as nat));
            assert(dec_digits(n2) =~= dec_digits(acc as nat).subrange(
                0,
                dec_digits(n2).len() as int,
            ));
            lemma_dec_prefix(n2, acc as nat);
        }
    }
    Some((acc, j))
}

fn parse_opt_usize(s: &Vec<char>, pos: usize) -> (r: Option<(Option<usize>, usize)>)
    ensures
        (r matches Some((o, p)) ==> pos < p <= s@.len() && s@.subrange(pos as int, p as int)
            == jopt_num(o)),
        (forall|o: Option<usize>, q: int|
            (0 <= pos <= q <= s@.len() && s@.subrange(pos as int, q) == jopt_num(o) && (q
                == s@.len() || !is_digit_char(s@[q]))) ==> (r matches Some((o2, p)) && o2 == o && p
                == q)),
{
    if let Some(p) = expect(s, pos, "null") {
        proof {
            reveal_strlit("null");
            lemma_digit_chars();
            assert forall|o: Option<usize>, q: int|
                (0 <= pos <= q <= s@.len() && s@.subrange(pos as int, q) == jopt_num(o) && (q
                    == s@.len() || !is_digit_char(s@[q]))) implies (o is None && q == p as int) by {
                assert(s@.subrange(pos as int, q).len() == q - pos);
                if o is Some {
                    let n = o->0;
                    lemma_dec_digits_len(n as nat);
                    lemma_dec_all_digits(n as nat);
                    assert(s@.subrange(pos as int, q)[0] == s@[pos as int]);
                    assert(s@.subrange(pos as int, p as int)[0] == s@[pos as int]);
                    assert(is_digit_char(dec_digits(n as nat)[0]));
                    assert(s@[pos as int] == 'n');
                    assert(false);
                }
            }
        }
        return Some((None, p));
    }
    match parse_usize(s, pos) {
        Some((n, p)) => {
            proof {
                reveal_strlit("null");
                assert forall|o: Option<usize>, q: int|
                    (0 <= pos <= q <= s@.len() && s@.subrange(pos as int, q) == jopt_num(o) && (q
                        == s@.len() || !is_digit_char(s@[q]))) implies (o matches Some(n2) && n2
                        == n && q == p as int) by {
                    assert(s@.subrange(pos as int, q).len() == q - pos);
                    if o is None {
                        assert(s@.subrange(pos as int, q) == "null"@);
                        assert(s@.subrange(pos as int, pos + 4) =~= s@.subrange(pos as int, q));
                        assert(false);
                    }
                    assert(dec_run(s@, pos as int, q, o->0 as nat, usize::MAX as nat));
                }
            }
            Some((Some(n), p))
        },
        None => {
            proof {
                reveal_strlit("null");
                assert forall|o: Option<usize>, q: int|
                    !(0 <= pos <= q <= s@.len() && s@.subrange(pos as int, q) == jopt_num(o) && (q
                        == s@.len() || !is_digit_char(s@[q]))) by {
                    if 0 <= pos <= q <= s@.len() && s@.subrange(pos as int, q) == jopt_num(o) && (q
                        == s@.len() || !is_digit_char(s@[q])) {
                        assert(s@.subrange(pos as int, q).len() == q - pos);
                        if o is None {
                            assert(s@.subrange(pos as int, pos + 4) =~= s@.subrange(
                                pos as int,
                                q,
                            ));
                            assert(false);
                        }
                        assert(dec_run(s@, pos as int, q, o->0 as nat, usize::MAX as nat));
                        assert(false);
                    }
                }
            }
            None
        },
    }
}

fn parse_bool(s: &Vec<char>, pos: usize) -> (r: Option<(bool, usize)>)
    ensures
        (r matches Some((b, p)) ==> pos < p <= s@.len() && s@.subrange(pos as int, p as int)
            == jbool(b)),
        (forall|b: bool, q: int|
            (0 <= pos <= q <= s@.len() && s@.subrange(pos as int, q) == jbool(b)) ==> (r
                matches Some((b2, p)) && b2 == b && p == q)),
{
    if let Some(p) = expect(s, pos, "true") {
        proof {
            reveal_strlit("true");
            reveal_strlit("false");
            assert forall|b: bool, q: int|
                (0 <= pos <= q <= s@.len() && s@.subrange(pos as int, q) == jbool(b)) implies (b
                    == true && q == p as int) by {
                assert(s@.subrange(pos as int, q).len() == q - pos);
                if !b {
                    assert(s@.subrange(pos as int, q)[0] == s@[pos as int]);
                    assert(s@.subrange(pos as int, p as int)[0] == s@[pos as int]);
                    assert(false);
                }
            }
        }
        return Some((true, p));
    }
    if let Some(p) = expect(s, pos, "false") {
        proof {
            reveal_strlit("true");
            reveal_strlit("false");
            assert forall|b: bool, q: int|
                (0 <= pos <= q <= s@.len() && s@.subrange(pos as int, q) == jbool(b)) implies (b
                    == false && q == p as int) by {
                assert(s@.subrange(pos as int, q).len() == q - pos);
                if b {
                    assert(s@.subrange(pos as int, pos + 4) =~= s@.subrange(pos as int, q));
                    assert(false);
                }
            }
        }
        return Some((false, p));
    }
    proof {
        reveal_strlit("true");
        reveal_strlit("false");
        assert forall|b: bool, q: int|
            !(0 <= pos <= q <= s@.len() && s@.subrange(pos as int, q) == jbool(b)) by {
            if 0 <= pos <= q <= s@.len() && s@.subrange(pos as int, q) == jbool(b) {
                assert(s@.subrange(pos as int, q).len() == q - pos);
                if b {
                    assert(s@.subrange(pos as int, pos + 4) =~= s@.subrange(pos as int, q));
                } else {
                    assert(s@.subrange(pos as int, pos + 5) =~= s@.subrange(pos as int, q));
                }
                assert(false);
            }
        }
    }
    None
}

fn parse_opt_string(s: &Vec<char>, pos: usize) -> (r: Option<(Option<String>, usize)>)
    ensures
        (r matches Some((o, p)) ==> pos < p <= s@.len() && s@.subrange(pos as int, p as int)
            == jopt_str(opt_view(o))),
        (forall|ow: Option<Seq<char>>, q: int|
            (0 <= pos <= q <= s@.len() && s@.subrange(pos as int, q) == jopt_str(ow)) ==> (r
                matches Some((o2, p)) && opt_view(o2) == ow && p == q)),
{
    if let Some(p) = expect(s, pos, "null") {
        proof {
            reveal_strlit("null");
            assert forall|ow: Option<Seq<char>>, q: int|
                (0 <= pos <= q <= s@.len() && s@.subrange(pos as int, q) == jopt_str(ow)) implies (
                ow is None && q == p as int) by {
                assert(s@.subrange(pos as int, q).len() == q - pos);
                if ow is Some {
                    let w = ow->0;
                    assert(jstr(w)[0] == '"');
                    assert(s@.subrange(pos as int, q)[0] == s@[pos as int]);
                    assert(s@.subrange(pos as int, p as int)[0] == s@[pos as int]);
                    assert(s@[pos as int] == 'n');
                    assert(false);
                }
            }
        }
        return Some((None, p));
    }
    match parse_jstring(s, pos) {
        Some((v, p)) => {
            proof {
                reveal_strlit("null");
                assert forall|ow: Option<Seq<char>>, q: int|
                    (0 <= pos <= q <= s@.len() && s@.subrange(pos as int, q) == jopt_str(ow))
                    implies (ow matches Some(w) && v@ == w && q == p as int) by {
                    assert(s@.subrange(pos as int, q).len() == q - pos);
                    if ow is None {
                        assert(s@.subrange(pos as int, pos + 4) =~= s@.subrange(pos as int, q));
                        assert(false);
                    }
                    assert(jstr_run(s@, pos as int, q, ow->0));
                }
            }
            Some((Some(v), p))
        },
        None => {
            proof {
                reveal_strlit("null");
                assert forall|ow: Option<Seq<char>>, q: int|
                    !(0 <= pos <= q <= s@.len() && s@.subrange(pos as int, q) == jopt_str(ow)) by {
                    if 0 <= pos <= q <= s@.len() && s@.subrange(pos as int, q) == jopt_str(ow) {
                        assert(s@.subrange(pos as int, q).len() == q - pos);
                        if ow is None {
                            assert(s@.subrange(pos as int, pos + 4) =~= s@.subrange(
                                pos as int,
                                q,
                            ));
                            assert(false);
                        }
                        assert(jstr_run(s@, pos as int, q, ow->0));
                        assert(false);
                    }
                }
            }
            None
        },
    }
}

/// Split a spanned concatenation at its first piece.
proof fn lemma_take_lit(s: Seq<char>, pos: int, q: int, piece: Seq<char>, rest: Seq<char>)
    requires
        0 <= pos <= q <= s.len(),
        s.subrange(pos, q) == piece + rest,
    ensures
        pos + piece.len() <= q,
        s.subrange(pos, pos + piece.len()) == piece,
        s.subrange(pos + piece.len(), q) == rest,
{
    assert(s.subrange(pos, q).len() == q - pos);
    assert forall|i: int| 0 <= i < piece.len() implies s[pos + i] == piece[i] by {
        assert(s.subrange(pos, q)[i] == s[pos + i]);
        assert((piece + rest)[i] == piece[i]);
    }
    assert forall|i: int| 0 <= i < rest.len() implies s[pos + piece.len() + i] == rest[i] by {
        assert(s.subrange(pos, q)[piece.len() + i] == s[pos + piece.len() + i]);
        assert((piece + rest)[piece.len() + i] == rest[i]);
    }
    assert(s.subrange(pos, pos + piece.len()) =~= piece);
    assert(s.subrange(pos + piece.len(), q) =~= rest);
}

#[verifier::rlimit(100)]
proof fn lemma_sa_pieces(s: Seq<char>, pos: int, q: int, size: usize, align: usize)
    requires
        0 <= pos <= q <= s.len(),
        s.subrange(pos, q) == jsa(size, align),
        q == s.len() || !is_digit_char(s[q]),
    ensures
        s.subrange(pos, pos + ",\"size\":"@.len()) == ",\"size\":"@,
        dec_run(s, pos + ",\"size\":"@.len(), pos + ",\"size\":"@.len() + dec_digits(size as nat).len(), size as nat, usize::MAX as nat),
        s.subrange(pos + ",\"size\":"@.len() + dec_digits(size as nat).len(), pos + ",\"size\":"@.len() + dec_digits(size as nat).len() + ",\"align\":"@.len()) == ",\"align\":"@,
        dec_run(s, pos + ",\"size\":"@.len() + dec_digits(size as nat).len() + ",\"align\":"@.len(), pos + ",\"size\":"@.len() + dec_digits(size as nat).len() + ",\"align\":"@.len() + dec_digits(align as nat).len(), align as nat, usize::MAX as nat),
        q == pos + ",\"size\":"@.len() + dec_digits(size as nat).len() + ",\"align\":"@.len() + dec_digits(align as nat).len(),
{
    reveal_strlit(",\"size\":");
    reveal_strlit(",\"align\":");
    lemma_digit_chars();
    assert(s.subrange(pos, q).len() == q - pos);
    assert(jsa(size, align) =~= ",\"size\":"@ + (dec_digits(size as nat) + (",\"align\":"@ + (dec_digits(align as nat)))));
    lemma_take_lit(s, pos, q, ",\"size\":"@, dec_digits(size as nat) + (",\"align\":"@ + (dec_digits(align as nat))));
    lemma_take_lit(s, pos + ",\"size\":"@.len(), q, dec_digits(size as nat), ",\"align\":"@ + (dec_digits(align as nat)));
    assert(s.subrange(pos + ",\"size\":"@.len() + dec_digits(size as nat).len(), q)[0] == s[pos + ",\"size\":"@.len() + dec_digits(size as nat).len()]);
    assert(s[pos + ",\"size\":"@.len() + dec_digits(size as nat).len()] == ",\"align\":"@[0]);
    lemma_take_lit(s, pos + ",\"size\":"@.len() + dec_digits(size as nat).len(), q, ",\"align\":"@, dec_digits(align as nat));
    lemma_take_lit(s, pos + ",\"size\":"@.len() + dec_digits(size as nat).len() + ",\"align\":"@.len(), q, dec_digits(align as nat), Seq::<char>::empty());
    assert(s.subrange(pos + ",\"size\":"@.len() + dec_digits(size as nat).len() + ",\"align\":"@.len() + dec_digits(align as nat).len(), q) =~= Seq::<char>::empty());
}

#[verifier::rlimit(100)]
proof fn lemma_variant_pieces(s: Seq<char>, pos: int, q: int, v: DefEnumVariant)
    requires
        0 <= pos <= q <= s.len(),
        s.subrange(pos, q) == jvariant(v),
    ensures
        s.subrange(pos, pos + "{\"name\":"@.len()) == "{\"name\":"@,
        jstr_run(s, pos + "{\"name\":"@.len(), pos + "{\"name\":"@.len() + jstr(v.name@).len(), v.name@),
        s.subrange(pos + "{\"name\":"@.len() + jstr(v.name@).len(), pos + "{\"name\":"@.len() + jstr(v.name@).len() + ",\"discriminant\":"@.len()) == ",\"discriminant\":"@,
        dec_run(s, pos + "{\"name\":"@.len() + jstr(v.name@).len() + ",\"discriminant\":"@.len(), pos + "{\"name\":"@.len() + jstr(v.name@).len() + ",\"discriminant\":"@.len() + dec_digits(v.discriminant as nat).len(), v.discriminant as nat, u64::MAX as nat),
        s.subrange(pos + "{\"name\":"@.len() + jstr(v.name@).len() + ",\"discriminant\":"@.len() + dec_digits(v.discriminant as nat).len(), pos + "{\"name\":"@.len() + jstr(v.name@).len() + ",\"discriminant\":"@.len() + dec_digits(v.discriminant as nat).len() + ",\"serValue\":"@.len()) == ",\"serValue\":"@,
        0 <= pos + "{\"name\":"@.len() + jstr(v.name@).len() + ",\"discriminant\":"@.len() + dec_digits(v.discriminant as nat).len() + ",\"serValue\":"@.len() <= pos + "{\"name\":"@.len() + jstr(v.name@).len() + ",\"discriminant\":"@.len() + dec_digits(v.discriminant as nat).len() + ",\"serValue\":"@.len() + jopt_str(opt_view(v.ser_value)).len() <= s.len() && s.subrange(pos + "{\"name\":"@.len() + jstr(v.name@).len() + ",\"discriminant\":"@.len() + dec_digits(v.discriminant as nat).len() + ",\"serValue\":"@.len(), pos + "{\"name\":"@.len() + jstr(v.name@).len() + ",\"discriminant\":"@.len() + dec_digits(v.discriminant as nat).len() + ",\"serValue\":"@.len() + jopt_str(opt_view(v.ser_value)).len()) == jopt_str(opt_view(v.ser_value)),
        s.subrange(pos + "{\"name\":"@.len() + jstr(v.name@).len() + ",\"discriminant\":"@.len() + dec_digits(v.discriminant as nat).len() + ",\"serValue\":"@.len() + jopt_str(opt_view(v.ser_value)).len(), pos + "{\"name\":"@.len() + jstr(v.name@).len() + ",\"discriminant\":"@.len() + dec_digits(v.discriminant as nat).len() + ",\"serValue\":"@.len() + jopt_str(opt_view(v.ser_value)).len() + ",\"valueTypeId\":"@.len()) == ",\"valueTypeId\":"@,
        0 <= pos + "{\"name\":"@.len() + jstr(v.name@).len() + ",\"discriminant\":"@.len() + dec_digits(v.discriminant as nat).len() + ",\"serValue\":"@.len() + jopt_str(opt_view(v.ser_value)).len() + ",\"valueTypeId\":"@.len() <= pos + "{\"name\":"@.len() + jstr(v.name@).len() + ",\"discriminant\":"@.len() + dec_digits(v.discriminant as nat).len() + ",\"serValue\":"@.len() + jopt_str(opt_view(v.ser_value)).len() + ",\"valueTypeId\":"@.len() + jopt_num(v.value_type_id).len() <= s.len() && s.subrange(pos + "{\"name\":"@.len() + jstr(v.name@).len() + ",\"discriminant\":"@.len() + dec_digits(v.discriminant as nat).len() + ",\"serValue\":"@.len() + jopt_str(opt_view(v.ser_value)).len() + ",\"valueTypeId\":"@.len(), pos + "{\"name\":"@.len() + jstr(v.name@).len() + ",\"discriminant\":"@.len() + dec_digits(v.discriminant as nat).len() + ",\"serValue\":"@.len() + jopt_str(opt_view(v.ser_value)).len() + ",\"valueTypeId\":"@.len() + jopt_num(v.value_type_id).len()) == jopt_num(v.value_type_id) && (pos + "{\"name\":"@.len() + jstr(v.name@).len() + ",\"discriminant\":"@.len() + dec_digits(v.discriminant as nat).len() + ",\"serValue\":"@.len() + jopt_str(opt_view(v.ser_value)).len() + ",\"valueTypeId\":"@.len() + jopt_num(v.value_type_id).len() == s.len() || !is_digit_char(s[pos + "{\"name\":"@.len() + jstr(v.name@).len() + ",\"discriminant\":"@.len() + dec_digits(v.discriminant as nat).len() + ",\"serValue\":"@.len() + jopt_str(opt_view(v.ser_value)).len() + ",\"valueTypeId\":"@.len() + jopt_num(v.value_type_id).len()])),
        s.subrange(pos + "{\"name\":"@.len() + jstr(v.name@).len() + ",\"discriminant\":"@.len() + dec_digits(v.discriminant as nat).len() + ",\"serValue\":"@.len() + jopt_str(opt_view(v.ser_value)).len() + ",\"valueTypeId\":"@.len() + jopt_num(v.value_type_id).len(), pos + "{\"name\":"@.len() + jstr(v.name@).len() + ",\"discriminant\":"@.len() + dec_digits(v.discriminant as nat).len() + ",\"serValue\":"@.len() + jopt_str(opt_view(v.ser_value)).len() + ",\"valueTypeId\":"@.len() + jopt_num(v.value_type_id).len() + "}"@.len()) == "}"@,
        q == pos + "{\"name\":"@.len() + jstr(v.name@).len() + ",\"discriminant\":"@.len() + dec_digits(v.discriminant as nat).len() + ",\"serValue\":"@.len() + jopt_str(opt_view(v.ser_value)).len() + ",\"valueTypeId\":"@.len() + jopt_num(v.value_type_id).len() + "}"@.len(),
{
    reveal_strlit("{\"name\":");
    reveal_strlit(",\"discriminant\":");
    reveal_strlit(",\"serValue\":");
    reveal_strlit(",\"valueTypeId\":");
    reveal_strlit("}");
    lemma_digit_chars();
    assert(s.subrange(pos, q).len() == q - pos);
    assert(jvariant(v) =~= "{\"name\":"@ + (jstr(v.name@) + (",\"discriminant\":"@ + (dec_digits(v.discriminant as nat) + (",\"serValue\":"@ + (jopt_str(opt_view(v.ser_value)) + (",\"valueTypeId\":"@ + (jopt_num(v.value_type_id) + ("}"@)))))))));
    lemma_take_lit(s, pos, q, "{\"name\":"@, jstr(v.name@) + (",\"discriminant\":"@ + (dec_digits(v.discriminant as nat) + (",\"serValue\":"@ + (jopt_str(opt_view(v.ser_value)) + (",\"valueTypeId\":"@ + (jopt_num(v.value_type_id) + ("}"@))))))));
    lemma_take_lit(s, pos + "{\"name\":"@.len(), q, jstr(v.name@), ",\"discriminant\":"@ + (dec_digits(v.discriminant as nat) + (",\"serValue\":"@ + (jopt_str(opt_view(v.ser_value)) + (",\"valueTypeId\":"@ + (jopt_num(v.value_type_id) + ("}"@)))))));
    lemma_take_lit(s, pos + "{\"name\":"@.len() + jstr(v.name@).len(), q, ",\"discriminant\":"@, dec_digits(v.discriminant as nat) + (",\"serValue\":"@ + (jopt_str(opt_view(v.ser_value)) + (",\"valueTypeId\":"@ + (jopt_num(v.value_type_id) + ("}"@))))));
    lemma_take_lit(s, pos + "{\"name\":"@.len() + jstr(v.name@).len() + ",\"discriminant\":"@.len(), q, dec_digits(v.discriminant as nat), ",\"serValue\":"@ + (jopt_str(opt_view(v.ser_value)) + (",\"valueTypeId\":"@ + (jopt_num(v.value_type_id) + ("}"@)))));
    assert(s.subrange(pos + "{\"name\":"@.len() + jstr(v.name@).len() + ",\"discriminant\":"@.len() + dec_digits(v.discriminant as nat).len(), q)[0] == s[pos + "{\"name\":"@.len() + jstr(v.name@).len() + ",\"discriminant\":"@.len() + dec_digits(v.discriminant as nat).len()]);
    assert(s[pos + "{\"name\":"@.len() + jstr(v.name@).len() + ",\"discriminant\":"@.len() + dec_digits(v.discriminant as nat).len()] == ",\"serValue\":"@[0]);
    lemma_take_lit(s, pos + "{\"name\":"@.len() + jstr(v.name@).len() + ",\"discriminant\":"@.len() + dec_digits(v.discriminant as nat).len(), q, ",\"serValue\":"@, jopt_str(opt_view(v.ser_value)) + (",\"valueTypeId\":"@ + (jopt_num(v.value_type_id) + ("}"@))));
    lemma_take_lit(s, pos + "{\"name\":"@.len() + jstr(v.name@).len() + ",\"discriminant\":"@.len() + dec_digits(v.discriminant as nat).len() + ",\"serValue\":"@.len(), q, jopt_str(opt_view(v.ser_value)), ",\"valueTypeId\":"@ + (jopt_num(v.value_type_id) + ("}"@)));
    lemma_take_lit(s, pos + "{\"name\":"@.len() + jstr(v.name@).len() + ",\"discriminant\":"@.len() + dec_digits(v.discriminant as nat).len() + ",\"serValue\":"@.len() + jopt_str(opt_view(v.ser_value)).len(), q, ",\"valueTypeId\":"@, jopt_num(v.value_type_id) + ("}"@));
    lemma_take_lit(s, pos + "{\"name\":"@.len() + jstr(v.name@).len() + ",\"discriminant\":"@.len() + dec_digits(v.discriminant as nat).len() + ",\"serValue\":"@.len() + jopt_str(opt_view(v.ser_value)).len() + ",\"valueTypeId\":"@.len(), q, jopt_num(v.value_type_id), "}"@);
    assert(s.subrange(pos + "{\"name\":"@.len() + jstr(v.name@).len() + ",\"discriminant\":"@.len() + dec_digits(v.discriminant as nat).len() + ",\"serValue\":"@.len() + jopt_str(opt_view(v.ser_value)).len() + ",\"valueTypeId\":"@.len() + jopt_num(v.value_type_id).len(), q)[0] == s[pos + "{\"name\":"@.len() + jstr(v.name@).len() + ",\"discriminant\":"@.len() + dec_digits(v.discriminant as nat).len() + ",\"serValue\":"@.len() + jopt_str(opt_view(v.ser_value)).len() + ",\"valueTypeId\":"@.len() + jopt_num(v.value_type_id).len()]);
    assert(s[pos + "{\"name\":"@.len() + jstr(v.name@).len() + ",\"discriminant\":"@.len() + dec_digits(v.discriminant as nat).len() + ",\"serValue\":"@.len() + jopt_str(opt_view(v.ser_value)).len() + ",\"valueTypeId\":"@.len() + jopt_num(v.value_type_id).len()] == "}"@[0]);
    lemma_take_lit(s, pos + "{\"name\":"@.len() + jstr(v.name@).len() + ",\"discriminant\":"@.len() + dec_digits(v.discriminant as nat).len() + ",\"serValue\":"@.len() + jopt_str(opt_view(v.ser_value)).len() + ",\"valueTypeId\":"@.len() + jopt_num(v.value_type_id).len(), q, "}"@, Seq::<char>::empty());
    assert(s.subrange(pos + "{\"name\":"@.len() + jstr(v.name@).len() + ",\"discriminant\":"@.len() + dec_digits(v.discriminant as nat).len() + ",\"serValue\":"@.len() + jopt_str(opt_view(v.ser_value)).len() + ",\"valueTypeId\":"@.len() + jopt_num(v.value_type_id).len() + "}"@.len(), q) =~= Seq::<char>::empty());
}

pub open spec fn sa_run(s: Seq<char>, pos: int, q: int, size: usize, align: usize) -> bool {
    &&& 0 <= pos <= q <= s.len()
    &&& s.subrange(pos, q) == jsa(size, align)
    &&& (q == s.len() || !is_digit_char(s[q]))
}

#[verifier::rlimit(100)]
fn parse_sa(s: &Vec<char>, pos: usize) -> (r: Option<(usize, usize, usize)>)
    ensures
        (r matches Some((size, align, p)) ==> pos < p <= s@.len() && s@.subrange(pos as int, p as int) == jsa(size, align)),
        (forall|size: usize, align: usize, q: int| sa_run(s@, pos as int, q, size, align) ==> (r matches Some((sz2, al2, p)) && sz2 == size && al2 == align && p == q)),
{
    let p1 = match expect(s, pos, ",\"size\":") {
        Some(p) => p,
        None => {
            proof {
                assert forall|size: usize, align: usize, q: int| !(sa_run(s@, pos as int, q, size, align)) by {
                    if sa_run(s@, pos as int, q, size, align) {
                        lemma_sa_pieces(s@, pos as int, q, size, align);
                        assert(false);
                    }
                }
            }
            return None;
        },
    };
    let (vsize, p2) = match parse_usize(s, p1) {
        Some(t) => t,
        None => {
            proof {
                assert forall|size: usize, align: usize, q: int| !(sa_run(s@, pos as int, q, size, align)) by {
                    if sa_run(s@, pos as int, q, size, align) {
                        lemma_sa_pieces(s@, pos as int, q, size, align);
                        assert(false);
                    }
                }
            }
            return None;
        },
    };
    let p3 = match expect(s, p2, ",\"align\":") {
        Some(p) => p,
        None => {
            proof {
                assert forall|size: usize, align: usize, q: int| !(sa_run(s@, pos as int, q, size, align)) by {
                    if sa_run(s@, pos as int, q, size, align) {
                        lemma_sa_pieces(s@, pos as int, q, size, align);
                        assert(false);
                    }
                }
            }
            return None;
        },
    };
    let (valign, p4) = match parse_usize(s, p3) {
        Some(t) => t,
        None => {
            proof {
                assert forall|size: usize, align: usize, q: int| !(sa_run(s@, pos as int, q, size, align)) by {
                    if sa_run(s@, pos as int, q, size, align) {
                        lemma_sa_pieces(s@, pos as int, q, size, align);
                        assert(false);
                    }
                }
            }
            return None;
        },
    };
    proof {
        lemma_subrange_concat(s@, pos as int, p1 as int, p2 as int);
        lemma_subrange_concat(s@, pos as int, p2 as int, p3 as int);
        lemma_subrange_concat(s@, pos as int, p3 as int, p4 as int);
        assert(s@.subrange(pos as int, p4 as int) =~= jsa(vsize, valign));
        assert forall|size: usize, align: usize, q: int| sa_run(s@, pos as int, q, size, align) implies (vsize == size && valign == align && p4 as int == q) by {
            lemma_sa_pieces(s@, pos as int, q, size, align);
        }
    }
    Some((vsize, valign, p4))
}

pub open spec fn field_run(s: Seq<char>, pos: int, q: int, f: DefStructField) -> bool {
    &&& 0 <= pos <= q <= s.len()
    &&& s.subrange(pos, q) == jfield(f)
}

/// Two field descriptors carrying the same contents.
pub open spec fn field_like(a: DefStructField, b: DefStructField) -> bool {
    &&& a.name@ == b.name@
    &&& a.ser_name@ == b.ser_name@
    &&& a.type_id == b.type_id
    &&& a.offset == b.offset
    &&& a.flatten == b.flatten
    &&& a.skip == b.skip
}

/// The naming half of a field descriptor's text.
spec fn jfield_a(name: Seq<char>, ser_name: Seq<char>) -> Seq<char> {
    "{\"name\":"@ + jstr(name) + ",\"serName\":"@ + jstr(ser_name)
}

/// The layout-and-flags half of a field descriptor's text.
spec fn jfield_b(type_id: usize, offset: usize, flatten: bool, skip: bool) -> Seq<char> {
    ",\"typeId\":"@ + dec_digits(type_id as nat) + ",\"offset\":"@ + dec_digits(offset as nat)
        + ",\"flatten\":"@ + jbool(flatten) + ",\"skip\":"@ + jbool(skip) + "}"@
}

spec fn field_a_run(s: Seq<char>, pos: int, q: int, name: Seq<char>, ser_name: Seq<char>) -> bool {
    &&& 0 <= pos <= q <= s.len()
    &&& s.subrange(pos, q) == jfield_a(name, ser_name)
}

spec fn field_b_run(s: Seq<char>, pos: int, q: int, type_id: usize, offset: usize, flatten: bool, skip: bool) -> bool {
    &&& 0 <= pos <= q <= s.len()
    &&& s.subrange(pos, q) == jfield_b(type_id, offset, flatten, skip)
}

#[verifier::rlimit(100)]
proof fn lemma_field_a_pieces(s: Seq<char>, pos: int, q: int, name: Seq<char>, ser_name: Seq<char>)
    requires
        field_a_run(s, pos, q, name, ser_name),
    ensures
        s.subrange(pos, pos + "{\"name\":"@.len()) == "{\"name\":"@,
        jstr_run(s, pos + "{\"name\":"@.len(), pos + "{\"name\":"@.len() + jstr(name).len(), name),
        s.subrange(pos + "{\"name\":"@.len() + jstr(name).len(), pos + "{\"name\":"@.len() + jstr(name).len() + ",\"serName\":"@.len()) == ",\"serName\":"@,
        jstr_run(s, pos + "{\"name\":"@.len() + jstr(name).len() + ",\"serName\":"@.len(), pos + "{\"name\":"@.len() + jstr(name).len() + ",\"serName\":"@.len() + jstr(ser_name).len(), ser_name),
        q == pos + "{\"name\":"@.len() + jstr(name).len() + ",\"serName\":"@.len() + jstr(ser_name).len(),
{
    assert(s.subrange(pos, q).len() == q - pos);
    assert(jfield_a(name, ser_name) =~= "{\"name\":"@ + (jstr(name) + (",\"serName\":"@ + (jstr(ser_name)))));
    lemma_take_lit(s, pos, q, "{\"name\":"@, jstr(name) + (",\"serName\":"@ + (jstr(ser_name))));
    lemma_take_lit(s, pos + "{\"name\":"@.len(), q, jstr(name), ",\"serName\":"@ + (jstr(ser_name)));
    lemma_take_lit(s, pos + "{\"name\":"@.len() + jstr(name).len(), q, ",\"serName\":"@, jstr(ser_name));
    lemma_take_lit(s, pos + "{\"name\":"@.len() + jstr(name).len() + ",\"serName\":"@.len(), q, jstr(ser_name), Seq::<char>::empty());
    assert(s.subrange(pos + "{\"name\":"@.len() + jstr(name).len() + ",\"serName\":"@.len() + jstr(ser_name).len(), q) =~= Seq::<char>::empty());
}

#[verifier::rlimit(100)]
proof fn lemma_field_b_pieces(s: Seq<char>, pos: int, q: int, type_id: usize, offset: usize, flatten: bool, skip: bool)
    requires
        field_b_run(s, pos, q, type_id, offset, flatten, skip),
    ensures
        s.subrange(pos, pos + ",\"typeId\":"@.len()) == ",\"typeId\":"@,
        dec_run(s, pos + ",\"typeId\":"@.len(), pos + ",\"typeId\":"@.len() + dec_digits(type_id as nat).len(), type_id as nat, usize::MAX as nat),
        s.subrange(pos + ",\"typeId\":"@.len() + dec_digits(type_id as nat).len(), pos + ",\"typeId\":"@.len() + dec_digits(type_id as nat).len() + ",\"offset\":"@.len()) == ",\"offset\":"@,
        dec_run(s, pos + ",\"typeId\":"@.len() + dec_digits(type_id as nat).len() + ",\"offset\":"@.len(), pos + ",\"typeId\":"@.len() + dec_digits(type_id as nat).len() + ",\"offset\":"@.len() + dec_digits(offset as nat).len(), offset as nat, usize::MAX as nat),
        s.subrange(pos + ",\"typeId\":"@.len() + dec_digits(type_id as nat).len() + ",\"offset\":"@.len() + dec_digits(offset as nat).len(), pos + ",\"typeId\":"@.len() + dec_digits(type_id as nat).len() + ",\"offset\":"@.len() + dec_digits(offset as nat).len() + ",\"flatten\":"@.len()) == ",\"flatten\":"@,
        ({
            let b0 = pos + ",\"typeId\":"@.len() + dec_digits(type_id as nat).len() + ",\"offset\":"@.len() + dec_digits(offset as nat).len() + ",\"flatten\":"@.len();
            0 <= b0 <= b0 + jbool(flatten).len() <= s.len() && s.subrange(b0, b0 + jbool(flatten).len()) == jbool(flatten)
        }),
        ({
            let b1 = pos + ",\"typeId\":"@.len() + dec_digits(type_id as nat).len() + ",\"offset\":"@.len() + dec_digits(offset as nat).len() + ",\"flatten\":"@.len() + jbool(flatten).len();
            s.subrange(b1, b1 + ",\"skip\":"@.len()) == ",\"skip\":"@
        }),
        ({
            let b2 = pos + ",\"typeId\":"@.len() + dec_digits(type_id as nat).len() + ",\"offset\":"@.len() + dec_digits(offset as nat).len() + ",\"flatten\":"@.len() + jbool(flatten).len() + ",\"skip\":"@.len();
            0 <= b2 <= b2 + jbool(skip).len() <= s.len() && s.subrange(b2, b2 + jbool(skip).len()) == jbool(skip)
        }),
        ({
            let b3 = pos + ",\"typeId\":"@.len() + dec_digits(type_id as nat).len() + ",\"offset\":"@.len() + dec_digits(offset as nat).len() + ",\"flatten\":"@.len() + jbool(flatten).len() + ",\"skip\":"@.len() + jbool(skip).len();
            s.subrange(b3, b3 + "}"@.len()) == "}"@ && q == b3 + "}"@.len()
        }),
{
    reveal_strlit(",\"typeId\":");
    reveal_strlit(",\"offset\":");
    reveal_strlit(",\"flatten\":");
    reveal_strlit(",\"skip\":");
    reveal_strlit("}");
    lemma_digit_chars();
    assert(s.subrange(pos, q).len() == q - pos);
    assert(jfield_b(type_id, offset, flatten, skip) =~= ",\"typeId\":"@ + (dec_digits(type_id as nat) + (",\"offset\":"@ + (dec_digits(offset as nat) + (",\"flatten\":"@ + (jbool(flatten) + (",\"skip\":"@ + (jbool(skip) + ("}"@)))))))));
    let a0 = pos;
    lemma_take_lit(s, a0, q, ",\"typeId\":"@, dec_digits(type_id as nat) + (",\"offset\":"@ + (dec_digits(offset as nat) + (",\"flatten\":"@ + (jbool(flatten) + (",\"skip\":"@ + (jbool(skip) + ("}"@))))))));
    let a1 = a0 + ",\"typeId\":"@.len();
    lemma_take_lit(s, a1, q, dec_digits(type_id as nat), ",\"offset\":"@ + (dec_digits(offset as nat) + (",\"flatten\":"@ + (jbool(flatten) + (",\"skip\":"@ + (jbool(skip) + ("}"@)))))));
    let a2 = a1 + dec_digits(type_id as nat).len();
    assert(s.subrange(a2, q)[0] == s[a2]);
    assert(s[a2] == ",\"offset\":"@[0]);
    lemma_take_lit(s, a2, q, ",\"offset\":"@, dec_digits(offset as nat) + (",\"flatten\":"@ + (jbool(flatten) + (",\"skip\":"@ + (jbool(skip) + ("}"@))))));
    let a3 = a2 + ",\"offset\":"@.len();
    lemma_take_lit(s, a3, q, dec_digits(offset as nat), ",\"flatten\":"@ + (jbool(flatten) + (",\"skip\":"@ + (jbool(skip) + ("}"@)))));
    let a4 = a3 + dec_digits(offset as nat).len();
    assert(s.subrange(a4, q)[0] == s[a4]);
    assert(s[a4] == ",\"flatten\":"@[0]);
    lemma_take_lit(s, a4, q, ",\"flatten\":"@, jbool(flatten) + (",\"skip\":"@ + (jbool(skip) + ("}"@))));
    let a5 = a4 + ",\"flatten\":"@.len();
    lemma_take_lit(s, a5, q, jbool(flatten), ",\"skip\":"@ + (jbool(skip) + ("}"@)));
    let a6 = a5 + jbool(flatten).len();
    lemma_take_lit(s, a6, q, ",\"skip\":"@, jbool(skip) + ("}"@));
    let a7 = a6 + ",\"skip\":"@.len();
    lemma_take_lit(s, a7, q, jbool(skip), "}"@);
    let a8 = a7 + jbool(skip).len();
    lemma_take_lit(s, a8, q, "}"@, Seq::<char>::empty());
    assert(s.subrange(a8 + "}"@.len(), q) =~= Seq::<char>::empty());
}

/// A field descriptor's text splits into its naming and layout halves.
proof fn lemma_field_split(s: Seq<char>, pos: int, q: int, f: DefStructField)
    requires
        field_run(s, pos, q, f),
    ensures
        field_a_run(s, pos, pos + jfield_a(f.name@, f.ser_name@).len(), f.name@, f.ser_name@),
        field_b_run(
            s,
            pos + jfield_a(f.name@, f.ser_name@).len(),
            q,
            f.type_id,
            f.offset,
            f.flatten,
            f.skip,
        ),
{
    assert(jfield(f) =~= jfield_a(f.name@, f.ser_name@) + jfield_b(
        f.type_id,
        f.offset,
        f.flatten,
        f.skip,
    ));
    lemma_take_lit(
        s,
        pos,
        q,
        jfield_a(f.name@, f.ser_name@),
        jfield_b(f.type_id, f.offset, f.flatten, f.skip),
    );
}

fn parse_field_a(s: &Vec<char>, pos: usize) -> (r: Option<(String, String, usize)>)
    ensures
        (r matches Some((name, ser, p)) ==> pos <= p <= s@.len() && s@.subrange(
            pos as int,
            p as int,
        ) == jfield_a(name@, ser@)),
        (forall|name: Seq<char>, ser: Seq<char>, q: int|
            field_a_run(s@, pos as int, q, name, ser) ==> (r matches Some((n2, s2, p)) && n2@
                == name && s2@ == ser && p == q)),
{
    let p1 = match expect(s, pos, "{\"name\":") {
        Some(p) => p,
        None => {
            proof {
                assert forall|name: Seq<char>, ser: Seq<char>, q: int|
                    !field_a_run(s@, pos as int, q, name, ser) by {
                    if field_a_run(s@, pos as int, q, name, ser) {
                        lemma_field_a_pieces(s@, pos as int, q, name, ser);
                        assert(false);
                    }
                }
            }
            return None;
        },
    };
    let (vname, p2) = match parse_jstring(s, p1) {
        Some(t) => t,
        None => {
            proof {
                assert forall|name: Seq<char>, ser: Seq<char>, q: int|
                    !field_a_run(s@, pos as int, q, name, ser) by {
                    if field_a_run(s@, pos as int, q, name, ser) {
                        lemma_field_a_pieces(s@, pos as int, q, name, ser);
                        assert(false);
                    }
                }
            }
            return None;
        },
    };
    let p3 = match expect(s, p2, ",\"serName\":") {
        Some(p) => p,
        None => {
            proof {
                assert forall|name: Seq<char>, ser: Seq<char>, q: int|
                    !field_a_run(s@, pos as int, q, name, ser) by {
                    if field_a_run(s@, pos as int, q, name, ser) {
                        lemma_field_a_pieces(s@, pos as int, q, name, ser);
                        assert(false);
                    }
                }
            }
            return None;
        },
    };
    let (vser, p4) = match parse_jstring(s, p3) {
        Some(t) => t,
        None => {
            proof {
                assert forall|name: Seq<char>, ser: Seq<char>, q: int|
                    !field_a_run(s@, pos as int, q, name, ser) by {
                    if field_a_run(s@, pos as int, q, name, ser) {
                        lemma_field_a_pieces(s@, pos as int, q, name, ser);
                        assert(false);
                    }
                }
            }
            return None;
        },
    };
    proof {
        lemma_subrange_concat(s@, pos as int, p1 as int, p2 as int);
        lemma_subrange_concat(s@, pos as int, p2 as int, p3 as int);
        lemma_subrange_concat(s@, pos as int, p3 as int, p4 as int);
        assert(s@.subrange(pos as int, p4 as int) =~= jfield_a(vname@, vser@));
        assert forall|name: Seq<char>, ser: Seq<char>, q: int|
            field_a_run(s@, pos as int, q, name, ser) implies (vname@ == name && vser@ == ser && p4
            as int == q) by {
            lemma_field_a_pieces(s@, pos as int, q, name, ser);
        }
    }
    Some((vname, vser, p4))
}

#[verifier::rlimit(100)]
#[verifier::spinoff_prover]
fn parse_field_b(s: &Vec<char>, pos: usize) -> (r: Option<(usize, usize, bool, bool, usize)>)
    ensures
        (r matches Some((tid, off, fl, sk, p)) ==> pos <= p <= s@.len() && s@.subrange(
            pos as int,
            p as int,
        ) == jfield_b(tid, off, fl, sk)),
        (forall|tid: usize, off: usize, fl: bool, sk: bool, q: int|
            field_b_run(s@, pos as int, q, tid, off, fl, sk) ==> (r matches Some(
                (t2, o2, f2, s2, p),
            ) && t2 == tid && o2 == off && f2 == fl && s2 == sk && p == q)),
{
    let p1 = match expect(s, pos, ",\"typeId\":") {
        Some(p) => p,
        None => {
            proof {
                assert forall|tid: usize, off: usize, fl: bool, sk: bool, q: int|
                    !field_b_run(s@, pos as int, q, tid, off, fl, sk) by {
                    if field_b_run(s@, pos as int, q, tid, off, fl, sk) {
                        lemma_field_b_pieces(s@, pos as int, q, tid, off, fl, sk);
                        assert(false);
                    }
                }
            }
            return None;
        },
    };
    let (vtid, p2) = match parse_usize(s, p1) {
        Some(t) => t,
        None => {
            proof {
                assert forall|tid: usize, off: usize, fl: bool, sk: bool, q: int|
                    !field_b_run(s@, pos as int, q, tid, off, fl, sk) by {
                    if field_b_run(s@, pos as int, q, tid, off, fl, sk) {
                        lemma_field_b_pieces(s@, pos as int, q, tid, off, fl, sk);
                        assert(false);
                    }
                }
            }
            return None;
        },
    };
    let p3 = match expect(s, p2, ",\"offset\":") {
        Some(p) => p,
        None => {
            proof {
                assert forall|tid: usize, off: usize, fl: bool, sk: bool, q: int|
                    !field_b_run(s@, pos as int, q, tid, off, fl, sk) by {
                    if field_b_run(s@, pos as int, q, tid, off, fl, sk) {
                        lemma_field_b_pieces(s@, pos as int, q, tid, off, fl, sk);
                        assert(false);
                    }
                }
            }
            return None;
        },
    };
    let (voff, p4) = match parse_usize(s, p3) {
        Some(t) => t,
        None => {
            proof {
                assert forall|tid: usize, off: usize, fl: bool, sk: bool, q: int|
                    !field_b_run(s@, pos as int, q, tid, off, fl, sk) by {
                    if field_b_run(s@, pos as int, q, tid, off, fl, sk) {
                        lemma_field_b_pieces(s@, pos as int, q, tid, off, fl, sk);
                        assert(false);
                    }
                }
            }
            return None;
        },
    };
    let p5 = match expect(s, p4, ",\"flatten\":") {
        Some(p) => p,
        None => {
            proof {
                assert forall|tid: usize, off: usize, fl: bool, sk: bool, q: int|
                    !field_b_run(s@, pos as int, q, tid, off, fl, sk) by {
                    if field_b_run(s@, pos as int, q, tid, off, fl, sk) {
                        lemma_field_b_pieces(s@, pos as int, q, tid, off, fl, sk);
                        assert(false);
                    }
                }
            }
            return None;
        },
    };
    let (vfl, p6) = match parse_bool(s, p5) {
        Some(t) => t,
        None => {
            proof {
                assert forall|tid: usize, off: usize, fl: bool, sk: bool, q: int|
                    !field_b_run(s@, pos as int, q, tid, off, fl, sk) by {
                    if field_b_run(s@, pos as int, q, tid, off, fl, sk) {
                        lemma_field_b_pieces(s@, pos as int, q, tid, off, fl, sk);
                        assert(false);
                    }
                }
            }
            return None;
        },
    };
    let p7 = match expect(s, p6, ",\"skip\":") {
        Some(p) => p,
        None => {
            proof {
                assert forall|tid: usize, off: usize, fl: bool, sk: bool, q: int|
                    !field_b_run(s@, pos as int, q, tid, off, fl, sk) by {
                    if field_b_run(s@, pos as int, q, tid, off, fl, sk) {
                        lemma_field_b_pieces(s@, pos as int, q, tid, off, fl, sk);
                        assert(false);
                    }
                }
            }
            return None;
        },
    };
    let (vsk, p8) = match parse_bool(s, p7) {
        Some(t) => t,
        None => {
            proof {
                assert forall|tid: usize, off: usize, fl: bool, sk: bool, q: int|
                    !field_b_run(s@, pos as int, q, tid, off, fl, sk) by {
                    if field_b_run(s@, pos as int, q, tid, off, fl, sk) {
                        lemma_field_b_pieces(s@, pos as int, q, tid, off, fl, sk);
                        assert(false);
                    }
                }
            }
            return None;
        },
    };
    let p9 = match expect(s, p8, "}") {
        Some(p) => p,
        None => {
            proof {
                assert forall|tid: usize, off: usize, fl: bool, sk: bool, q: int|
                    !field_b_run(s@, pos as int, q, tid, off, fl, sk) by {
                    if field_b_run(s@, pos as int, q, tid, off, fl, sk) {
                        lemma_field_b_pieces(s@, pos as int, q, tid, off, fl, sk);
                        assert(false);
                    }
                }
            }
            return None;
        },
    };
    proof {
        lemma_subrange_concat(s@, pos as int, p1 as int, p2 as int);
        lemma_subrange_concat(s@, pos as int, p2 as int, p3 as int);
        lemma_subrange_concat(s@, pos as int, p3 as int, p4 as int);
        lemma_subrange_concat(s@, pos as int, p4 as int, p5 as int);
        lemma_subrange_concat(s@, pos as int, p5 as int, p6 as int);
        lemma_subrange_concat(s@, pos as int, p6 as int, p7 as int);
        lemma_subrange_concat(s@, pos as int, p7 as int, p8 as int);
        lemma_subrange_concat(s@, pos as int, p8 as int, p9 as int);
        assert(s@.subrange(pos as int, p9 as int) =~= jfield_b(vtid, voff, vfl, vsk));
        assert forall|tid: usize, off: usize, fl: bool, sk: bool, q: int|
            field_b_run(s@, pos as int, q, tid, off, fl, sk) implies (vtid == tid && voff == off
            && vfl == fl && vsk == sk && p9 as int == q) by {
            lemma_field_b_pieces(s@, pos as int, q, tid, off, fl, sk);
        }
    }
    Some((vtid, voff, vfl, vsk, p9))
}

#[verifier::rlimit(100)]
fn parse_field(s: &Vec<char>, pos: usize) -> (r: Option<(DefStructField, usize)>)
    ensures
        (r matches Some((g, p)) ==> pos < p <= s@.len() && s@.subrange(pos as int, p as int)
            == jfield(g)),
        (forall|f: DefStructField, q: int|
            field_run(s@, pos as int, q, f) ==> (r matches Some((g, p)) && field_like(g, f) && p
                == q)),
{
    let (vname, vser, pa) = match parse_field_a(s, pos) {
        Some(t) => t,
        None => {
            proof {
                assert forall|f: DefStructField, q: int| !field_run(s@, pos as int, q, f) by {
                    if field_run(s@, pos as int, q, f) {
                        lemma_field_split(s@, pos as int, q, f);
                        assert(false);
                    }
                }
            }
            return None;
        },
    };
    let (vtid, voff, vfl, vsk, pb) = match parse_field_b(s, pa) {
        Some(t) => t,
        None => {
            proof {
                assert forall|f: DefStructField, q: int| !field_run(s@, pos as int, q, f) by {
                    if field_run(s@, pos as int, q, f) {
                        lemma_field_split(s@, pos as int, q, f);
                        assert(false);
                    }
                }
            }
            return None;
        },
    };
    let g = DefStructField {
        name: vname,
        ser_name: vser,
        type_id: vtid,
        offset: voff,
        flatten: vfl,
        skip: vsk,
    };
    proof {
        lemma_subrange_concat(s@, pos as int, pa as int, pb as int);
        assert(s@.subrange(pos as int, pb as int) =~= jfield(g));
        assert forall|f: DefStructField, q: int|
            field_run(s@, pos as int, q, f) implies (field_like(g, f) && pb as int == q) by {
            lemma_field_split(s@, pos as int, q, f);
        }
    }
    Some((g, pb))
}

pub open spec fn variant_run(s: Seq<char>, pos: int, q: int, v: DefEnumVariant) -> bool {
    &&& 0 <= pos <= q <= s.len()
    &&& s.subrange(pos, q) == jvariant(v)
}

/// Two variant descriptors carrying the same contents.
pub open spec fn variant_like(a: DefEnumVariant, b: DefEnumVariant) -> bool {
    &&& a.name@ == b.name@
    &&& a.discriminant == b.discriminant
    &&& opt_view(a.ser_value) == opt_view(b.ser_value)
    &&& a.value_type_id == b.value_type_id
}

#[verifier::rlimit(100)]
fn parse_variant(s: &Vec<char>, pos: usize) -> (r: Option<(DefEnumVariant, usize)>)
    ensures
        (r matches Some((g, p)) ==> pos < p <= s@.len() && s@.subrange(pos as int, p as int) == jvariant(g)),
        (forall|v: DefEnumVariant, q: int| variant_run(s@, pos as int, q, v) ==> (r matches Some((g, p)) && variant_like(g, v) && p == q)),
{
    let p1 = match expect(s, pos, "{\"name\":") {
        Some(p) => p,
        None => {
            proof {
                assert forall|v: DefEnumVariant, q: int| !(variant_run(s@, pos as int, q, v)) by {
                    if variant_run(s@, pos as int, q, v) {
                        lemma_variant_pieces(s@, pos as int, q, v);
                        assert(false);
                    }
                }
            }
            return None;
        },
    };
    let (vname, p2) = match parse_jstring(s, p1) {
        Some(t) => t,
        None => {
            proof {
                assert forall|v: DefEnumVariant, q: int| !(variant_run(s@, pos as int, q, v)) by {
                    if variant_run(s@, pos as int, q, v) {
                        lemma_variant_pieces(s@, pos as int, q, v);
                        assert(false);
                    }
                }
            }
            return None;
        },
    };
    let p3 = match expect(s, p2, ",\"discriminant\":") {
        Some(p) => p,
        None => {
            proof {
                assert forall|v: DefEnumVariant, q: int| !(variant_run(s@, pos as int, q, v)) by {
                    if variant_run(s@, pos as int, q, v) {
                        lemma_variant_pieces(s@, pos as int, q, v);
                        assert(false);
                    }
                }
            }
            return None;
        },
    };
    let (vdisc, p4) = match parse_u64(s, p3) {
        Some(t) => t,
        None => {
            proof {
                assert forall|v: DefEnumVariant, q: int| !(variant_run(s@, pos as int, q, v)) by {
                    if variant_run(s@, pos as int, q, v) {
                        lemma_variant_pieces(s@, pos as int, q, v);
                        assert(false);
                    }
                }
            }
            return None;
        },
    };
    let p5 = match expect(s, p4, ",\"serValue\":") {
        Some(p) => p,
        None => {
            proof {
                assert forall|v: DefEnumVariant, q: int| !(variant_run(s@, pos as int, q, v)) by {
                    if variant_run(s@, pos as int, q, v) {
                        lemma_variant_pieces(s@, pos as int, q, v);
                        assert(false);
                    }
                }
            }
            return None;
        },
    };
    let (vsv, p6) = match parse_opt_string(s, p5) {
        Some(t) => t,
        None => {
            proof {
                assert forall|v: DefEnumVariant, q: int| !(variant_run(s@, pos as int, q, v)) by {
                    if variant_run(s@, pos as int, q, v) {
                        lemma_variant_pieces(s@, pos as int, q, v);
                        assert(false);
                    }
                }
            }
            return None;
        },
    };
    let p7 = match expect(s, p6, ",\"valueTypeId\":") {
        Some(p) => p,
        None => {
            proof {
                assert forall|v: DefEnumVariant, q: int| !(variant_run(s@, pos as int, q, v)) by {
                    if variant_run(s@, pos as int, q, v) {
                        lemma_variant_pieces(s@, pos as int, q, v);
                        assert(false);
                    }
                }
            }
            return None;
        },
    };
    let (vvt, p8) = match parse_opt_usize(s, p7) {
        Some(t) => t,
        None => {
            proof {
                assert forall|v: DefEnumVariant, q: int| !(variant_run(s@, pos as int, q, v)) by {
                    if variant_run(s@, pos as int, q, v) {
                        lemma_variant_pieces(s@, pos as int, q, v);
                        assert(false);
                    }
                }
            }
            return None;
        },
    };
    let p9 = match expect(s, p8, "}") {
        Some(p) => p,
        None => {
            proof {
                assert forall|v: DefEnumVariant, q: int| !(variant_run(s@, pos as int, q, v)) by {
                    if variant_run(s@, pos as int, q, v) {
                        lemma_variant_pieces(s@, pos as int, q, v);
                        assert(false);
                    }
                }
            }
            return None;
        },
    };
    let g = DefEnumVariant { name: vname, discriminant: vdisc, ser_value: vsv, value_type_id: vvt };
    proof {
        lemma_subrange_concat(s@, pos as int, p1 as int, p2 as int);
        lemma_subrange_concat(s@, pos as int, p2 as int, p3 as int);
        lemma_subrange_concat(s@, pos as int, p3 as int, p4 as int);
        lemma_subrange_concat(s@, pos as int, p4 as int, p5 as int);
        lemma_subrange_concat(s@, pos as int, p5 as int, p6 as int);
        lemma_subrange_concat(s@, pos as int, p6 as int, p7 as int);
        lemma_subrange_concat(s@, pos as int, p7 as int, p8 as int);
        lemma_subrange_concat(s@, pos as int, p8 as int, p9 as int);
        assert(s@.subrange(pos as int, p9 as int) =~= jvariant(g));
        assert forall|v: DefEnumVariant, q: int| variant_run(s@, pos as int, q, v) implies (variant_like(g, v) && p9 as int == q) by {
            lemma_variant_pieces(s@, pos as int, q, v);
        }
    }
    Some((g, p9))
}

/// Two tag modes carrying the same contents.
pub open spec fn tag_like(a: DefEnumTag, b: DefEnumTag) -> bool {
    match (a, b) {
        (DefEnumTag::NoTag, DefEnumTag::NoTag) => true,
        (DefEnumTag::Untagged, DefEnumTag::Untagged) => true,
        (DefEnumTag::Tag(x), DefEnumTag::Tag(y)) => x@ == y@,
        (
            DefEnumTag::TagAndContent { tag: t1, content: c1 },
            DefEnumTag::TagAndContent { tag: t2, content: c2 },
        ) => t1@ == t2@ && c1@ == c2@,
        _ => false,
    }
}

pub open spec fn tag_run(s: Seq<char>, pos: int, q: int, t: DefEnumTag) -> bool {
    &&& 0 <= pos <= q <= s.len()
    &&& s.subrange(pos, q) == jtag(t)
}

#[verifier::rlimit(100)]
proof fn lemma_tag_pieces(s: Seq<char>, pos: int, q: int, t: DefEnumTag)
    requires
        tag_run(s, pos, q, t),
    ensures
        (t is NoTag ==> s.subrange(pos, pos + "\"none\""@.len()) == "\"none\""@ && q == pos
            + "\"none\""@.len()),
        (t is Untagged ==> s.subrange(pos, pos + "\"untagged\""@.len()) == "\"untagged\""@ && q
            == pos + "\"untagged\""@.len()),
        (t matches DefEnumTag::Tag(x) ==> s.subrange(pos, pos + "{\"tag\":"@.len())
            == "{\"tag\":"@ && jstr_run(
            s,
            pos + "{\"tag\":"@.len(),
            pos + "{\"tag\":"@.len() + jstr(x@).len(),
            x@,
        ) && s.subrange(
            pos + "{\"tag\":"@.len() + jstr(x@).len(),
            pos + "{\"tag\":"@.len() + jstr(x@).len() + "}"@.len(),
        ) == "}"@ && q == pos + "{\"tag\":"@.len() + jstr(x@).len() + "}"@.len()),
        (t matches DefEnumTag::TagAndContent { tag, content } ==> s.subrange(
            pos,
            pos + "{\"tag\":"@.len(),
        ) == "{\"tag\":"@ && jstr_run(
            s,
            pos + "{\"tag\":"@.len(),
            pos + "{\"tag\":"@.len() + jstr(tag@).len(),
            tag@,
        ) && s.subrange(
            pos + "{\"tag\":"@.len() + jstr(tag@).len(),
            pos + "{\"tag\":"@.len() + jstr(tag@).len() + ",\"content\":"@.len(),
        ) == ",\"content\":"@ && jstr_run(
            s,
            pos + "{\"tag\":"@.len() + jstr(tag@).len() + ",\"content\":"@.len(),
            pos + "{\"tag\":"@.len() + jstr(tag@).len() + ",\"content\":"@.len() + jstr(
                content@,
            ).len(),
            content@,
        ) && s.subrange(
            pos + "{\"tag\":"@.len() + jstr(tag@).len() + ",\"content\":"@.len() + jstr(
                content@,
            ).len(),
            q,
        ) == "}"@ && q == pos + "{\"tag\":"@.len() + jstr(tag@).len() + ",\"content\":"@.len()
            + jstr(content@).len() + "}"@.len()),
{
    assert(s.subrange(pos, q).len() == q - pos);
    match t {
        DefEnumTag::NoTag => {
            assert(s.subrange(pos, pos + "\"none\""@.len()) =~= "\"none\""@);
        },
        DefEnumTag::Untagged => {
            assert(s.subrange(pos, pos + "\"untagged\""@.len()) =~= "\"untagged\""@);
        },
        DefEnumTag::Tag(x) => {
            assert(jtag(t) =~= "{\"tag\":"@ + (jstr(x@) + ("}"@)));
            lemma_take_lit(s, pos, q, "{\"tag\":"@, jstr(x@) + ("}"@));
            lemma_take_lit(s, pos + "{\"tag\":"@.len(), q, jstr(x@), "}"@);
            lemma_take_lit(
                s,
                pos + "{\"tag\":"@.len() + jstr(x@).len(),
                q,
                "}"@,
                Seq::<char>::empty(),
            );
            assert(s.subrange(pos + "{\"tag\":"@.len() + jstr(x@).len() + "}"@.len(), q)
                =~= Seq::<char>::empty());
        },
        DefEnumTag::TagAndContent { tag, content } => {
            assert(jtag(t) =~= "{\"tag\":"@ + (jstr(tag@) + (",\"content\":"@ + (jstr(content@)
                + ("}"@)))));
            lemma_take_lit(s, pos, q, "{\"tag\":"@, jstr(tag@) + (",\"content\":"@ + (jstr(
                content@,
            ) + ("}"@))));
            lemma_take_lit(s, pos + "{\"tag\":"@.len(), q, jstr(tag@), ",\"content\":"@ + (jstr(
                content@,
            ) + ("}"@)));
            lemma_take_lit(
                s,
                pos + "{\"tag\":"@.len() + jstr(tag@).len(),
                q,
                ",\"content\":"@,
                jstr(content@) + ("}"@),
            );
            lemma_take_lit(
                s,
                pos + "{\"tag\":"@.len() + jstr(tag@).len() + ",\"content\":"@.len(),
                q,
                jstr(content@),
                "}"@,
            );
            lemma_take_lit(
                s,
                pos + "{\"tag\":"@.len() + jstr(tag@).len() + ",\"content\":"@.len() + jstr(
                    content@,
                ).len(),
                q,
                "}"@,
                Seq::<char>::empty(),
            );
            assert(s.subrange(
                pos + "{\"tag\":"@.len() + jstr(tag@).len() + ",\"content\":"@.len() + jstr(
                    content@,
                ).len() + "}"@.len(),
                q,
            ) =~= Seq::<char>::empty());
        },
    }
}

/// The four tag encodings are told apart by their opening characters.
proof fn lemma_tag_distinct(s: Seq<char>, pos: int, q: int, t: DefEnumTag)
    requires
        tag_run(s, pos, q, t),
    ensures
        (t is NoTag || t is Untagged) ==> pos < s.len() && s[pos] == '"',
        (t is Tag || t is TagAndContent) ==> pos < s.len() && s[pos] == '{',
        t is NoTag ==> pos + 1 < s.len() + 1 && s[pos + 1] == 'n',
        t is Untagged ==> pos + 1 < s.len() + 1 && s[pos + 1] == 'u',
{
    reveal_strlit("\"none\"");
    reveal_strlit("\"untagged\"");
    reveal_strlit("{\"tag\":");
    assert(s.subrange(pos, q).len() == q - pos);
    lemma_tag_pieces(s, pos, q, t);
    match t {
        DefEnumTag::NoTag => {
            assert(s.subrange(pos, pos + 6)[0] == s[pos]);
            assert(s.subrange(pos, pos + 6)[1] == s[pos + 1]);
        },
        DefEnumTag::Untagged => {
            assert(s.subrange(pos, pos + 10)[0] == s[pos]);
            assert(s.subrange(pos, pos + 10)[1] == s[pos + 1]);
        },
        DefEnumTag::Tag(x) => {
            assert(s.subrange(pos, pos + 7)[0] == s[pos]);
        },
        DefEnumTag::TagAndContent { tag, content } => {
            assert(s.subrange(pos, pos + 7)[0] == s[pos]);
        },
    }
}

#[verifier::rlimit(100)]
fn parse_tag(s: &Vec<char>, pos: usize) -> (r: Option<(DefEnumTag, usize)>)
    ensures
        (r matches Some((t, p)) ==> pos < p <= s@.len() && s@.subrange(pos as int, p as int)
            == jtag(t)),
        (forall|t: DefEnumTag, q: int|
            tag_run(s@, pos as int, q, t) ==> (r matches Some((t2, p)) && tag_like(t2, t) && p
                == q)),
{
    if let Some(p) = expect(s, pos, "\"none\"") {
        proof {
            reveal_strlit("\"none\"");
            reveal_strlit("\"untagged\"");
            assert forall|t: DefEnumTag, q: int|
                tag_run(s@, pos as int, q, t) implies (t is NoTag && p as int == q) by {
                lemma_tag_distinct(s@, pos as int, q, t);
                lemma_tag_pieces(s@, pos as int, q, t);
                assert(s@.subrange(pos as int, p as int)[0] == s@[pos as int]);
                assert(s@.subrange(pos as int, p as int)[1] == s@[pos + 1]);
            }
        }
        return Some((DefEnumTag::NoTag, p));
    }
    if let Some(p) = expect(s, pos, "\"untagged\"") {
        proof {
            reveal_strlit("\"none\"");
            reveal_strlit("\"untagged\"");
            assert forall|t: DefEnumTag, q: int|
                tag_run(s@, pos as int, q, t) implies (t is Untagged && p as int == q) by {
                lemma_tag_distinct(s@, pos as int, q, t);
                lemma_tag_pieces(s@, pos as int, q, t);
                assert(s@.subrange(pos as int, p as int)[0] == s@[pos as int]);
                assert(s@.subrange(pos as int, p as int)[1] == s@[pos + 1]);
            }
        }
        return Some((DefEnumTag::Untagged, p));
    }
    let p1 = match expect(s, pos, "{\"tag\":") {
        Some(p) => p,
        None => {
            proof {
                assert forall|t: DefEnumTag, q: int| !tag_run(s@, pos as int, q, t) by {
                    if tag_run(s@, pos as int, q, t) {
                        lemma_tag_pieces(s@, pos as int, q, t);
                        assert(false);
                    }
                }
            }
            return None;
        },
    };
    let (tag, p2) = match parse_jstring(s, p1) {
        Some(t) => t,
        None => {
            proof {
                assert forall|t: DefEnumTag, q: int| !tag_run(s@, pos as int, q, t) by {
                    if tag_run(s@, pos as int, q, t) {
                        lemma_tag_distinct(s@, pos as int, q, t);
                        lemma_tag_pieces(s@, pos as int, q, t);
                        assert(false);
                    }
                }
            }
            return None;
        },
    };
    if let Some(p3) = expect(s, p2, "}") {
        let t = DefEnumTag::Tag(tag);
        proof {
            reveal_strlit("}");
            reveal_strlit(",\"content\":");
            lemma_subrange_concat(s@, pos as int, p1 as int, p2 as int);
            lemma_subrange_concat(s@, pos as int, p2 as int, p3 as int);
            assert(s@.subrange(pos as int, p3 as int) =~= jtag(t));
            assert forall|t0: DefEnumTag, q: int|
                tag_run(s@, pos as int, q, t0) implies (tag_like(t, t0) && p3 as int == q) by {
                lemma_tag_distinct(s@, pos as int, q, t0);
                lemma_tag_pieces(s@, pos as int, q, t0);
                if t0 matches DefEnumTag::TagAndContent { tag: tg, content: ct } {
                    assert(s@.subrange(p2 as int, p2 + ",\"content\":"@.len())
                        == ",\"content\":"@);
                    assert(s@.subrange(p2 as int, p2 + ",\"content\":"@.len())[0] == s@[p2 as int]);
                    assert(s@.subrange(p2 as int, p2 + 1) == "}"@);
                    assert(s@.subrange(p2 as int, p2 + 1)[0] == s@[p2 as int]);
                    assert(false);
                }
            }
        }
        return Some((t, p3));
    }
    let p3 = match expect(s, p2, ",\"content\":") {
        Some(p) => p,
        None => {
            proof {
                assert forall|t0: DefEnumTag, q: int| !tag_run(s@, pos as int, q, t0) by {
                    if tag_run(s@, pos as int, q, t0) {
                        lemma_tag_distinct(s@, pos as int, q, t0);
                        lemma_tag_pieces(s@, pos as int, q, t0);
                        assert(false);
                    }
                }
            }
            return None;
        },
    };
    let (content, p4) = match parse_jstring(s, p3) {
        Some(t) => t,
        None => {
            proof {
                assert forall|t0: DefEnumTag, q: int| !tag_run(s@, pos as int, q, t0) by {
                    if tag_run(s@, pos as int, q, t0) {
                        lemma_tag_distinct(s@, pos as int, q, t0);
                        lemma_tag_pieces(s@, pos as int, q, t0);
                        assert(false);
                    }
                }
            }
            return None;
        },
    };
    let p5 = match expect(s, p4, "}") {
        Some(p) => p,
        None => {
            proof {
                assert forall|t0: DefEnumTag, q: int| !tag_run(s@, pos as int, q, t0) by {
                    if tag_run(s@, pos as int, q, t0) {
                        lemma_tag_distinct(s@, pos as int, q, t0);
                        lemma_tag_pieces(s@, pos as int, q, t0);
                        assert(false);
                    }
                }
            }
            return None;
        },
    };
    let t = DefEnumTag::TagAndContent { tag, content };
    proof {
        lemma_subrange_concat(s@, pos as int, p1 as int, p2 as int);
        lemma_subrange_concat(s@, pos as int, p2 as int, p3 as int);
        lemma_subrange_concat(s@, pos as int, p3 as int, p4 as int);
        lemma_subrange_concat(s@, pos as int, p4 as int, p5 as int);
        assert(s@.subrange(pos as int, p5 as int) =~= jtag(t));
        assert forall|t0: DefEnumTag, q: int|
            tag_run(s@, pos as int, q, t0) implies (tag_like(t, t0) && p5 as int == q) by {
            lemma_tag_distinct(s@, pos as int, q, t0);
            lemma_tag_pieces(s@, pos as int, q, t0);
        }
    }
    Some((t, p5))
}

/// The rendering of the elements from `k` on, with their separators.
pub open spec fn jfields_from(es: Seq<DefStructField>, k: int) -> Seq<char>
    decreases es.len() - k,
{
    if k < 0 || k >= es.len() {
        Seq::empty()
    } else if k == 0 {
        jfield(es[0]) + jfields_from(es, 1)
    } else {
        seq![','] + jfield(es[k]) + jfields_from(es, k + 1)
    }
}

/// The forward rendering agrees with the rendering.
proof fn lemma_jfields_from_full(es: Seq<DefStructField>)
    ensures
        jfields_from(es, 0) == jfields(es),
    decreases es.len(),
{
    if es.len() == 0 {
    } else if es.len() == 1 {
        assert(jfields_from(es, 1) =~= Seq::<char>::empty());
        assert(jfields_from(es, 0) =~= jfields(es));
    } else {
        lemma_jfields_from_full(es.drop_last());
        lemma_jfields_from_shift(es, 0);
        assert(jfields_from(es, 0) =~= jfields(es));
    }
}

/// Dropping the last element removes exactly its separated rendering.
proof fn lemma_jfields_from_shift(es: Seq<DefStructField>, k: int)
    requires
        0 <= k <= es.len() - 1,
        es.len() >= 2,
    ensures
        jfields_from(es, k) == jfields_from(es.drop_last(), k) + seq![','] + jfield(es.last()),
    decreases es.len() - k,
{
    if k == es.len() - 1 {
        assert(jfields_from(es.drop_last(), k) =~= Seq::<char>::empty());
        assert(jfields_from(es, k + 1) =~= Seq::<char>::empty());
        if k == 0 {
            assert(jfields_from(es, k) =~= jfields_from(es.drop_last(), k) + seq![','] + jfield(
                es.last(),
            ));
        } else {
            assert(jfields_from(es, k) =~= jfields_from(es.drop_last(), k) + seq![','] + jfield(
                es.last(),
            ));
        }
    } else {
        lemma_jfields_from_shift(es, k + 1);
        assert(es.drop_last()[k] == es[k]);
        assert(jfields_from(es, k) =~= jfields_from(es.drop_last(), k) + seq![','] + jfield(
            es.last(),
        ));
    }
}

pub open spec fn fields_run(s: Seq<char>, pos: int, q: int, es: Seq<DefStructField>) -> bool {
    &&& 0 <= pos <= q <= s.len()
    &&& s.subrange(pos, q) == jfields(es) + "],\"tag\":"@
}

#[verifier::rlimit(100)]
fn parse_fields(s: &Vec<char>, pos: usize) -> (r: Option<(Vec<DefStructField>, usize)>)
    ensures
        (r matches Some((es, p)) ==> pos <= p <= s@.len() && s@.subrange(pos as int, p as int)
            == jfields(es@) + "],\"tag\":"@),
        (forall|es0: Seq<DefStructField>, q: int|
            fields_run(s@, pos as int, q, es0) ==> (r matches Some((es, p)) && es@.len()
                == es0.len() && (forall|i: int|
                0 <= i < es0.len() ==> field_like(#[trigger] es@[i], es0[i])) && p == q)),
{
    if pos > s.len() {
        proof {
            assert forall|es0: Seq<DefStructField>, q: int| !fields_run(s@, pos as int, q, es0) by {}
        }
        return None;
    }
    let mut es: Vec<DefStructField> = Vec::new();
    let mut j: usize = pos;
    proof {
        assert(s@.subrange(pos as int, j as int) =~= jfields(es@));
        assert forall|es0: Seq<DefStructField>, q: int|
            #[trigger] fields_run(s@, pos as int, q, es0) implies (j <= q && s@.subrange(
            j as int,
            q,
        ) == jfields_from(es0, 0) + "],\"tag\":"@) by {
            lemma_jfields_from_full(es0);
        }
    }
    loop
        invariant
            pos <= j <= s@.len(),
            s@.subrange(pos as int, j as int) == jfields(es@),
            es@.len() >= 1 ==> j > pos,
            forall|es0: Seq<DefStructField>, q: int|
                #[trigger] fields_run(s@, pos as int, q, es0) ==> (es@.len() <= es0.len() && (
                forall|i: int| 0 <= i < es@.len() ==> field_like(#[trigger] es@[i], es0[i]))
                    && j <= q && s@.subrange(j as int, q) == jfields_from(es0, es@.len() as int) + "],\"tag\":"@),
        decreases s@.len() - j,
    {
        if let Some(p) = expect(s, j, "],\"tag\":") {
            proof {
                lemma_subrange_concat(s@, pos as int, j as int, p as int);
                assert forall|es0: Seq<DefStructField>, q: int|
                    fields_run(s@, pos as int, q, es0) implies (es@.len() == es0.len() && (forall|
                    i: int,
                |
                    0 <= i < es0.len() ==> field_like(#[trigger] es@[i], es0[i])) && p as int
                    == q) by {
                    let k = es@.len() as int;
                    if k < es0.len() {
                        reveal_strlit("],\"tag\":");
                        lemma_fields_open_char(s@, j as int, q, es0, k);
                        assert(s@.subrange(j as int, p as int)[0] == s@[j as int]);
                        assert(false);
                    }
                    assert(jfields_from(es0, k) =~= Seq::<char>::empty());
                    assert(Seq::<char>::empty() + "],\"tag\":"@ =~= "],\"tag\":"@);
                    assert(s@.subrange(j as int, q) =~= s@.subrange(j as int, p as int));
                }
            }
            return Some((es, p));
        }
        let pc = if es.len() > 0 {
            match expect(s, j, ",") {
                Some(p) => p,
                None => {
                    proof {
                        assert forall|es0: Seq<DefStructField>, q: int|
                            !fields_run(s@, pos as int, q, es0) by {
                            if fields_run(s@, pos as int, q, es0) {
                                let k = es@.len() as int;
                                reveal_strlit(",");
                                reveal_strlit("],\"tag\":");
                                if k == es0.len() {
                                    assert(Seq::<char>::empty() + "],\"tag\":"@ =~= "],\"tag\":"@);
                                    assert(s@.subrange(j as int, q) =~= "],\"tag\":"@);
                                    assert(s@.subrange(j as int, j + "],\"tag\":"@.len()) =~= "],\"tag\":"@);
                                    assert(false);
                                }
                                assert(jfields_from(es0, k) =~= seq![','] + jfield(es0[k])
                                    + jfields_from(es0, k + 1));
                                assert(s@.subrange(j as int, q).len() == q - j);
                                assert(jfields_from(es0, k)[0] == ',');
                                assert((jfields_from(es0, k) + "],\"tag\":"@)[0] == ',');
                                assert(s@.subrange(j as int, q)[0] == s@[j as int]);
                                assert(s@[j as int] == ',');
                                assert(","@ =~= seq![',']);
                                assert(s@.subrange(j as int, j + 1) =~= seq![',']);
                                assert(false);
                            }
                        }
                    }
                    return None;
                },
            }
        } else {
            j
        };
        let (e, p2) = match parse_field(s, pc) {
            Some(t) => t,
            None => {
                proof {
                    assert forall|es0: Seq<DefStructField>, q: int| !fields_run(s@, pos as int, q, es0) by {
                        if fields_run(s@, pos as int, q, es0) {
                            let k = es@.len() as int;
                            reveal_strlit(",");
                            reveal_strlit("],\"tag\":");
                            if k == es0.len() {
                                assert(Seq::<char>::empty() + "],\"tag\":"@ =~= "],\"tag\":"@);
                                assert(s@.subrange(j as int, q) =~= "],\"tag\":"@);
                                assert(s@.subrange(j as int, j + "],\"tag\":"@.len()) =~= "],\"tag\":"@);
                                assert(false);
                            }
                            lemma_fields_elem_at(s@, j as int, q, es0, k, pc as int);
                            assert(false);
                        }
                    }
                }
                return None;
            },
        };
        let ghost prev = es@;
        es.push(e);
        proof {
            if prev.len() == 0 {
                assert(es@ =~= seq![es@[0]]);
                assert(s@.subrange(pos as int, p2 as int) =~= jfields(es@));
            } else {
                assert(es@.drop_last() =~= prev);
                assert(jfields(es@) == jfields(prev) + seq![','] + jfield(e));
                reveal_strlit(",");
                assert(s@.subrange(j as int, pc as int) =~= seq![',']);
                lemma_subrange_concat(s@, pos as int, j as int, pc as int);
                lemma_subrange_concat(s@, pos as int, pc as int, p2 as int);
                assert(s@.subrange(pos as int, p2 as int) =~= jfields(es@));
            }
            assert forall|es0: Seq<DefStructField>, q: int|
                fields_run(s@, pos as int, q, es0) implies (es@.len() <= es0.len() && (forall|
                i: int,
            |
                0 <= i < es@.len() ==> field_like(#[trigger] es@[i], es0[i])) && s@.subrange(
                p2 as int,
                q,
            ) == jfields_from(es0, es@.len() as int) + "],\"tag\":"@) by {
                let k = prev.len() as int;
                reveal_strlit(",");
                reveal_strlit("],\"tag\":");
                if k == es0.len() {
                    assert(Seq::<char>::empty() + "],\"tag\":"@ =~= "],\"tag\":"@);
                    assert(s@.subrange(j as int, q) =~= "],\"tag\":"@);
                    assert(s@.subrange(j as int, j + "],\"tag\":"@.len()) =~= "],\"tag\":"@);
                    assert(false);
                }
                lemma_fields_elem_at(s@, j as int, q, es0, k, pc as int);
                assert(field_run(s@, pc as int, pc + jfield(es0[k]).len(), es0[k]));
                assert(p2 as int == pc + jfield(es0[k]).len());
                assert forall|i: int| 0 <= i < es@.len() implies field_like(
                    #[trigger] es@[i],
                    es0[i],
                ) by {
                    if i < k {
                        assert(es@[i] == prev[i]);
                    }
                }
                lemma_subrange_concat(s@, j as int, p2 as int, q);
                assert(s@.subrange(p2 as int, q) =~= jfields_from(es0, k + 1) + "],\"tag\":"@);
            }
        }
        j = p2;
    }
}

/// Where the next element's rendering stands inside a spanned run.
proof fn lemma_fields_elem_at(s: Seq<char>, j: int, q: int, es0: Seq<DefStructField>, k: int, pc: int)
    requires
        0 <= j <= q <= s.len(),
        0 <= k < es0.len(),
        s.subrange(j, q) == jfields_from(es0, k) + "],\"tag\":"@,
        pc == if k == 0 {
            j
        } else {
            j + 1
        },
    ensures
        field_run(s, pc, pc + jfield(es0[k]).len(), es0[k]),
        pc + jfield(es0[k]).len() <= q,
        k >= 1 ==> s.subrange(j, j + 1) == seq![','],
        s.subrange(pc + jfield(es0[k]).len(), q) == jfields_from(es0, k + 1) + "],\"tag\":"@,
{
    assert(s.subrange(j, q).len() == q - j);
    if k == 0 {
        assert(jfields_from(es0, k) + "],\"tag\":"@ =~= jfield(es0[0]) + (jfields_from(es0, 1) + "],\"tag\":"@));
        lemma_take_lit(s, j, q, jfield(es0[0]), jfields_from(es0, 1) + "],\"tag\":"@);
    } else {
        assert(jfields_from(es0, k) + "],\"tag\":"@ =~= seq![','] + (jfield(es0[k]) + (jfields_from(
            es0,
            k + 1,
        ) + "],\"tag\":"@)));
        lemma_take_lit(s, j, q, seq![','], jfield(es0[k]) + (jfields_from(es0, k + 1) + "],\"tag\":"@));
        lemma_take_lit(s, j + 1, q, jfield(es0[k]), jfields_from(es0, k + 1) + "],\"tag\":"@);
    }
    assert(s.subrange(pc + jfield(es0[k]).len(), q) =~= jfields_from(es0, k + 1) + "],\"tag\":"@);
}

/// The first character of a pending element differs from the terminator's.
proof fn lemma_fields_open_char(s: Seq<char>, j: int, q: int, es0: Seq<DefStructField>, k: int)
    requires
        0 <= j <= q <= s.len(),
        0 <= k < es0.len(),
        s.subrange(j, q) == jfields_from(es0, k) + "],\"tag\":"@,
    ensures
        j < s.len(),
        k == 0 ==> s[j] == '{',
        k >= 1 ==> s[j] == ',',
{
    reveal_strlit("{\"name\":");
    assert(s.subrange(j, q).len() == q - j);
    if k == 0 {
        assert(jfields_from(es0, k) + "],\"tag\":"@ =~= jfield(es0[0]) + (jfields_from(es0, 1) + "],\"tag\":"@));
        lemma_take_lit(s, j, q, jfield(es0[0]), jfields_from(es0, 1) + "],\"tag\":"@);
        assert(jfield(es0[0])[0] == "{\"name\":"@[0]);
        assert(s.subrange(j, j + jfield(es0[0]).len())[0] == s[j]);
    } else {
        assert(jfields_from(es0, k) + "],\"tag\":"@ =~= seq![','] + (jfield(es0[k]) + (jfields_from(
            es0,
            k + 1,
        ) + "],\"tag\":"@)));
        lemma_take_lit(s, j, q, seq![','], jfield(es0[k]) + (jfields_from(es0, k + 1) + "],\"tag\":"@));
        assert(s.subrange(j, j + 1)[0] == s[j]);
    }
}

/// The rendering of the elements from `k` on, with their separators.
pub open spec fn jvariants_from(es: Seq<DefEnumVariant>, k: int) -> Seq<char>
    decreases es.len() - k,
{
    if k < 0 || k >= es.len() {
        Seq::empty()
    } else if k == 0 {
        jvariant(es[0]) + jvariants_from(es, 1)
    } else {
        seq![','] + jvariant(es[k]) + jvariants_from(es, k + 1)
    }
}

/// The forward rendering agrees with the rendering.
proof fn lemma_jvariants_from_full(es: Seq<DefEnumVariant>)
    ensures
        jvariants_from(es, 0) == jvariants(es),
    decreases es.len(),
{
    if es.len() == 0 {
    } else if es.len() == 1 {
        assert(jvariants_from(es, 1) =~= Seq::<char>::empty());
        assert(jvariants_from(es, 0) =~= jvariants(es));
    } else {
        lemma_jvariants_from_full(es.drop_last());
        lemma_jvariants_from_shift(es, 0);
        assert(jvariants_from(es, 0) =~= jvariants(es));
    }
}

/// Dropping the last element removes exactly its separated rendering.
proof fn lemma_jvariants_from_shift(es: Seq<DefEnumVariant>, k: int)
    requires
        0 <= k <= es.len() - 1,
        es.len() >= 2,
    ensures
        jvariants_from(es, k) == jvariants_from(es.drop_last(), k) + seq![','] + jvariant(es.last()),
    decreases es.len() - k,
{
    if k == es.len() - 1 {
        assert(jvariants_from(es.drop_last(), k) =~= Seq::<char>::empty());
        assert(jvariants_from(es, k + 1) =~= Seq::<char>::empty());
        if k == 0 {
            assert(jvariants_from(es, k) =~= jvariants_from(es.drop_last(), k) + seq![','] + jvariant(
                es.last(),
            ));
        } else {
            assert(jvariants_from(es, k) =~= jvariants_from(es.drop_last(), k) + seq![','] + jvariant(
                es.last(),
            ));
        }
    } else {
        lemma_jvariants_from_shift(es, k + 1);
        assert(es.drop_last()[k] == es[k]);
        assert(jvariants_from(es, k) =~= jvariants_from(es.drop_last(), k) + seq![','] + jvariant(
            es.last(),
        ));
    }
}

pub open spec fn variants_run(s: Seq<char>, pos: int, q: int, es: Seq<DefEnumVariant>) -> bool {
    &&& 0 <= pos <= q <= s.len()
    &&& s.subrange(pos, q) == jvariants(es) + "],\"tag\":"@
}

#[verifier::rlimit(100)]
fn parse_variants(s: &Vec<char>, pos: usize) -> (r: Option<(Vec<DefEnumVariant>, usize)>)
    ensures
        (r matches Some((es, p)) ==> pos <= p <= s@.len() && s@.subrange(pos as int, p as int)
            == jvariants(es@) + "],\"tag\":"@),
        (forall|es0: Seq<DefEnumVariant>, q: int|
            variants_run(s@, pos as int, q, es0) ==> (r matches Some((es, p)) && es@.len()
                == es0.len() && (forall|i: int|
                0 <= i < es0.len() ==> variant_like(#[trigger] es@[i], es0[i])) && p == q)),
{
    if pos > s.len() {
        proof {
            assert forall|es0: Seq<DefEnumVariant>, q: int| !variants_run(s@, pos as int, q, es0) by {}
        }
        return None;
    }
    let mut es: Vec<DefEnumVariant> = Vec::new();
    let mut j: usize = pos;
    proof {
        assert(s@.subrange(pos as int, j as int) =~= jvariants(es@));
        assert forall|es0: Seq<DefEnumVariant>, q: int|
            #[trigger] variants_run(s@, pos as int, q, es0) implies (j <= q && s@.subrange(
            j as int,
            q,
        ) == jvariants_from(es0, 0) + "],\"tag\":"@) by {
            lemma_jvariants_from_full(es0);
        }
    }
    loop
        invariant
            pos <= j <= s@.len(),
            s@.subrange(pos as int, j as int) == jvariants(es@),
            es@.len() >= 1 ==> j > pos,
            forall|es0: Seq<DefEnumVariant>, q: int|
                #[trigger] variants_run(s@, pos as int, q, es0) ==> (es@.len() <= es0.len() && (
                forall|i: int| 0 <= i < es@.len() ==> variant_like(#[trigger] es@[i], es0[i]))
                    && j <= q && s@.subrange(j as int, q) == jvariants_from(es0, es@.len() as int) + "],\"tag\":"@),
        decreases s@.len() - j,
    {
        if let Some(p) = expect(s, j, "],\"tag\":") {
            proof {
                lemma_subrange_concat(s@, pos as int, j as int, p as int);
                assert forall|es0: Seq<DefEnumVariant>, q: int|
                    variants_run(s@, pos as int, q, es0) implies (es@.len() == es0.len() && (forall|
                    i: int,
                |
                    0 <= i < es0.len() ==> variant_like(#[trigger] es@[i], es0[i])) && p as int
                    == q) by {
                    let k = es@.len() as int;
                    if k < es0.len() {
                        reveal_strlit("],\"tag\":");
                        lemma_variants_open_char(s@, j as int, q, es0, k);
                        assert(s@.subrange(j as int, p as int)[0] == s@[j as int]);
                        assert(false);
                    }
                    assert(jvariants_from(es0, k) =~= Seq::<char>::empty());
                    assert(Seq::<char>::empty() + "],\"tag\":"@ =~= "],\"tag\":"@);
                    assert(s@.subrange(j as int, q) =~= s@.subrange(j as int, p as int));
                }
            }
            return Some((es, p));
        }
        let pc = if es.len() > 0 {
            match expect(s, j, ",") {
                Some(p) => p,
                None => {
                    proof {
                        assert forall|es0: Seq<DefEnumVariant>, q: int|
                            !variants_run(s@, pos as int, q, es0) by {
                            if variants_run(s@, pos as int, q, es0) {
                                let k = es@.len() as int;
                                reveal_strlit(",");
                                reveal_strlit("],\"tag\":");
                                if k == es0.len() {
                                    assert(Seq::<char>::empty() + "],\"tag\":"@ =~= "],\"tag\":"@);
                                    assert(s@.subrange(j as int, q) =~= "],\"tag\":"@);
                                    assert(s@.subrange(j as int, j + "],\"tag\":"@.len()) =~= "],\"tag\":"@);
                                    assert(false);
                                }
                                assert(jvariants_from(es0, k) =~= seq![','] + jvariant(es0[k])
                                    + jvariants_from(es0, k + 1));
                                assert(s@.subrange(j as int, q).len() == q - j);
                                assert(jvariants_from(es0, k)[0] == ',');
                                assert((jvariants_from(es0, k) + "],\"tag\":"@)[0] == ',');
                                assert(s@.subrange(j as int, q)[0] == s@[j as int]);
                                assert(s@[j as int] == ',');
                                assert(","@ =~= seq![',']);
                                assert(s@.subrange(j as int, j + 1) =~= seq![',']);
                                assert(false);
                            }
                        }
                    }
                    return None;
                },
            }
        } else {
            j
        };
        let (e, p2) = match parse_variant(s, pc) {
            Some(t) => t,
            None => {
                proof {
                    assert forall|es0: Seq<DefEnumVariant>, q: int| !variants_run(s@, pos as int, q, es0) by {
                        if variants_run(s@, pos as int, q, es0) {
                            let k = es@.len() as int;
                            reveal_strlit(",");
                            reveal_strlit("],\"tag\":");
                            if k == es0.len() {
                                assert(Seq::<char>::empty() + "],\"tag\":"@ =~= "],\"tag\":"@);
                                assert(s@.subrange(j as int, q) =~= "],\"tag\":"@);
                                assert(s@.subrange(j as int, j + "],\"tag\":"@.len()) =~= "],\"tag\":"@);
                                assert(false);
                            }
                            lemma_variants_elem_at(s@, j as int, q, es0, k, pc as int);
                            assert(false);
                        }
                    }
                }
                return None;
            },
        };
        let ghost prev = es@;
        es.push(e);
        proof {
            if prev.len() == 0 {
                assert(es@ =~= seq![es@[0]]);
                assert(s@.subrange(pos as int, p2 as int) =~= jvariants(es@));
            } else {
                assert(es@.drop_last() =~= prev);
                assert(jvariants(es@) == jvariants(prev) + seq![','] + jvariant(e));
                reveal_strlit(",");
                assert(s@.subrange(j as int, pc as int) =~= seq![',']);
                lemma_subrange_concat(s@, pos as int, j as int, pc as int);
                lemma_subrange_concat(s@, pos as int, pc as int, p2 as int);
                assert(s@.subrange(pos as int, p2 as int) =~= jvariants(es@));
            }
            assert forall|es0: Seq<DefEnumVariant>, q: int|
                variants_run(s@, pos as int, q, es0) implies (es@.len() <= es0.len() && (forall|
                i: int,
            |
                0 <= i < es@.len() ==> variant_like(#[trigger] es@[i], es0[i])) && s@.subrange(
                p2 as int,
                q,
            ) == jvariants_from(es0, es@.len() as int) + "],\"tag\":"@) by {
                let k = prev.len() as int;
                reveal_strlit(",");
                reveal_strlit("],\"tag\":");
                if k == es0.len() {
                    assert(Seq::<char>::empty() + "],\"tag\":"@ =~= "],\"tag\":"@);
                    assert(s@.subrange(j as int, q) =~= "],\"tag\":"@);
                    assert(s@.subrange(j as int, j + "],\"tag\":"@.len()) =~= "],\"tag\":"@);
                    assert(false);
                }
                lemma_variants_elem_at(s@, j as int, q, es0, k, pc as int);
                assert(variant_run(s@, pc as int, pc + jvariant(es0[k]).len(), es0[k]));
                assert(p2 as int == pc + jvariant(es0[k]).len());
                assert forall|i: int| 0 <= i < es@.len() implies variant_like(
                    #[trigger] es@[i],
                    es0[i],
                ) by {
                    if i < k {
                        assert(es@[i] == prev[i]);
                    }
                }
                lemma_subrange_concat(s@, j as int, p2 as int, q);
                assert(s@.subrange(p2 as int, q) =~= jvariants_from(es0, k + 1) + "],\"tag\":"@);
            }
        }
        j = p2;
    }
}

/// Where the next element's rendering stands inside a spanned run.
proof fn lemma_variants_elem_at(s: Seq<char>, j: int, q: int, es0: Seq<DefEnumVariant>, k: int, pc: int)
    requires
        0 <= j <= q <= s.len(),
        0 <= k < es0.len(),
        s.subrange(j, q) == jvariants_from(es0, k) + "],\"tag\":"@,
        pc == if k == 0 {
            j
        } else {
            j + 1
        },
    ensures
        variant_run(s, pc, pc + jvariant(es0[k]).len(), es0[k]),
        pc + jvariant(es0[k]).len() <= q,
        k >= 1 ==> s.subrange(j, j + 1) == seq![','],
        s.subrange(pc + jvariant(es0[k]).len(), q) == jvariants_from(es0, k + 1) + "],\"tag\":"@,
{
    assert(s.subrange(j, q).len() == q - j);
    if k == 0 {
        assert(jvariants_from(es0, k) + "],\"tag\":"@ =~= jvariant(es0[0]) + (jvariants_from(es0, 1) + "],\"tag\":"@));
        lemma_take_lit(s, j, q, jvariant(es0[0]), jvariants_from(es0, 1) + "],\"tag\":"@);
    } else {
        assert(jvariants_from(es0, k) + "],\"tag\":"@ =~= seq![','] + (jvariant(es0[k]) + (jvariants_from(
            es0,
            k + 1,
        ) + "],\"tag\":"@)));
        lemma_take_lit(s, j, q, seq![','], jvariant(es0[k]) + (jvariants_from(es0, k + 1) + "],\"tag\":"@));
        lemma_take_lit(s, j + 1, q, jvariant(es0[k]), jvariants_from(es0, k + 1) + "],\"tag\":"@);
    }
    assert(s.subrange(pc + jvariant(es0[k]).len(), q) =~= jvariants_from(es0, k + 1) + "],\"tag\":"@);
}

/// The first character of a pending element differs from the terminator's.
proof fn lemma_variants_open_char(s: Seq<char>, j: int, q: int, es0: Seq<DefEnumVariant>, k: int)
    requires
        0 <= j <= q <= s.len(),
        0 <= k < es0.len(),
        s.subrange(j, q) == jvariants_from(es0, k) + "],\"tag\":"@,
    ensures
        j < s.len(),
        k == 0 ==> s[j] == '{',
        k >= 1 ==> s[j] == ',',
{
    reveal_strlit("{\"name\":");
    assert(s.subrange(j, q).len() == q - j);
    if k == 0 {
        assert(jvariants_from(es0, k) + "],\"tag\":"@ =~= jvariant(es0[0]) + (jvariants_from(es0, 1) + "],\"tag\":"@));
        lemma_take_lit(s, j, q, jvariant(es0[0]), jvariants_from(es0, 1) + "],\"tag\":"@);
        assert(jvariant(es0[0])[0] == "{\"name\":"@[0]);
        assert(s.subrange(j, j + jvariant(es0[0]).len())[0] == s[j]);
    } else {
        assert(jvariants_from(es0, k) + "],\"tag\":"@ =~= seq![','] + (jvariant(es0[k]) + (jvariants_from(
            es0,
            k + 1,
        ) + "],\"tag\":"@)));
        lemma_take_lit(s, j, q, seq![','], jvariant(es0[k]) + (jvariants_from(es0, k + 1) + "],\"tag\":"@));
        assert(s.subrange(j, j + 1)[0] == s[j]);
    }
}

pub open spec fn wrest_run(s: Seq<char>, pos: int, q: int, size: usize, align: usize, id: usize) -> bool {
    &&& 0 <= pos <= q <= s.len()
    &&& s.subrange(pos, q) == jsa(size, align) + ",\"valueTypeId\":"@ + dec_digits(id as nat)
        + "}"@
}

pub open spec fn srest_run(s: Seq<char>, pos: int, q: int, size: usize, align: usize) -> bool {
    &&& 0 <= pos <= q <= s.len()
    &&& s.subrange(pos, q) == jsa(size, align) + "}"@
}

#[verifier::rlimit(100)]
proof fn lemma_wrest_pieces(s: Seq<char>, pos: int, q: int, size: usize, align: usize, id: usize)
    requires
        wrest_run(s, pos, q, size, align, id),
    ensures
        sa_run(s, pos, pos + jsa(size, align).len(), size, align),
        s.subrange(pos + jsa(size, align).len(), pos + jsa(size, align).len()
            + ",\"valueTypeId\":"@.len()) == ",\"valueTypeId\":"@,
        dec_run(
            s,
            pos + jsa(size, align).len() + ",\"valueTypeId\":"@.len(),
            pos + jsa(size, align).len() + ",\"valueTypeId\":"@.len() + dec_digits(
                id as nat,
            ).len(),
            id as nat,
            usize::MAX as nat,
        ),
        s.subrange(pos + jsa(size, align).len() + ",\"valueTypeId\":"@.len() + dec_digits(
            id as nat,
        ).len(), q) == "}"@,
        q == pos + jsa(size, align).len() + ",\"valueTypeId\":"@.len() + dec_digits(
            id as nat,
        ).len() + "}"@.len(),
{
    reveal_strlit(",\"valueTypeId\":");
    reveal_strlit("}");
    lemma_digit_chars();
    assert(s.subrange(pos, q).len() == q - pos);
    assert(jsa(size, align) + ",\"valueTypeId\":"@ + dec_digits(id as nat) + "}"@ =~= jsa(
        size,
        align,
    ) + (",\"valueTypeId\":"@ + (dec_digits(id as nat) + ("}"@))));
    lemma_take_lit(s, pos, q, jsa(size, align), ",\"valueTypeId\":"@ + (dec_digits(id as nat)
        + ("}"@)));
    let a1 = pos + jsa(size, align).len();
    assert(s.subrange(a1, q)[0] == s[a1]);
    assert(s[a1] == ",\"valueTypeId\":"@[0]);
    lemma_take_lit(s, a1, q, ",\"valueTypeId\":"@, dec_digits(id as nat) + ("}"@));
    let a2 = a1 + ",\"valueTypeId\":"@.len();
    lemma_take_lit(s, a2, q, dec_digits(id as nat), "}"@);
    let a3 = a2 + dec_digits(id as nat).len();
    assert(s.subrange(a3, q)[0] == s[a3]);
    assert(s[a3] == "}"@[0]);
    lemma_take_lit(s, a3, q, "}"@, Seq::<char>::empty());
    assert(s.subrange(a3 + "}"@.len(), q) =~= Seq::<char>::empty());
}

proof fn lemma_srest_pieces(s: Seq<char>, pos: int, q: int, size: usize, align: usize)
    requires
        srest_run(s, pos, q, size, align),
    ensures
        sa_run(s, pos, pos + jsa(size, align).len(), size, align),
        s.subrange(pos + jsa(size, align).len(), q) == "}"@,
        q == pos + jsa(size, align).len() + "}"@.len(),
{
    reveal_strlit("}");
    lemma_digit_chars();
    assert(s.subrange(pos, q).len() == q - pos);
    lemma_take_lit(s, pos, q, jsa(size, align), "}"@);
    let a1 = pos + jsa(size, align).len();
    assert(s.subrange(a1, q)[0] == s[a1]);
    assert(s[a1] == "}"@[0]);
}

fn parse_wrap_rest(s: &Vec<char>, pos: usize) -> (r: Option<(usize, usize, usize, usize)>)
    ensures
        (r matches Some((size, align, id, p)) ==> pos < p <= s@.len() && s@.subrange(
            pos as int,
            p as int,
        ) == jsa(size, align) + ",\"valueTypeId\":"@ + dec_digits(id as nat) + "}"@),
        (forall|size: usize, align: usize, id: usize, q: int|
            wrest_run(s@, pos as int, q, size, align, id) ==> (r matches Some((s2, a2, i2, p))
                && s2 == size && a2 == align && i2 == id && p == q)),
{
    let (size, align, p1) = match parse_sa(s, pos) {
        Some(t) => t,
        None => {
            proof {
                assert forall|size: usize, align: usize, id: usize, q: int|
                    !wrest_run(s@, pos as int, q, size, align, id) by {
                    if wrest_run(s@, pos as int, q, size, align, id) {
                        lemma_wrest_pieces(s@, pos as int, q, size, align, id);
                        assert(false);
                    }
                }
            }
            return None;
        },
    };
    let p2 = match expect(s, p1, ",\"valueTypeId\":") {
        Some(p) => p,
        None => {
            proof {
                assert forall|size: usize, align: usize, id: usize, q: int|
                    !wrest_run(s@, pos as int, q, size, align, id) by {
                    if wrest_run(s@, pos as int, q, size, align, id) {
                        lemma_wrest_pieces(s@, pos as int, q, size, align, id);
                        assert(false);
                    }
                }
            }
            return None;
        },
    };
    let (id, p3) = match parse_usize(s, p2) {
        Some(t) => t,
        None => {
            proof {
                assert forall|size: usize, align: usize, id: usize, q: int|
                    !wrest_run(s@, pos as int, q, size, align, id) by {
                    if wrest_run(s@, pos as int, q, size, align, id) {
                        lemma_wrest_pieces(s@, pos as int, q, size, align, id);
                        assert(false);
                    }
                }
            }
            return None;
        },
    };
    let p4 = match expect(s, p3, "}") {
        Some(p) => p,
        None => {
            proof {
                assert forall|size: usize, align: usize, id: usize, q: int|
                    !wrest_run(s@, pos as int, q, size, align, id) by {
                    if wrest_run(s@, pos as int, q, size, align, id) {
                        lemma_wrest_pieces(s@, pos as int, q, size, align, id);
                        assert(false);
                    }
                }
            }
            return None;
        },
    };
    proof {
        lemma_subrange_concat(s@, pos as int, p1 as int, p2 as int);
        lemma_subrange_concat(s@, pos as int, p2 as int, p3 as int);
        lemma_subrange_concat(s@, pos as int, p3 as int, p4 as int);
        assert(s@.subrange(pos as int, p4 as int) =~= jsa(size, align) + ",\"valueTypeId\":"@
            + dec_digits(id as nat) + "}"@);
        assert forall|sz: usize, al: usize, i0: usize, q: int|
            wrest_run(s@, pos as int, q, sz, al, i0) implies (size == sz && align == al && id == i0
            && p4 as int == q) by {
            lemma_wrest_pieces(s@, pos as int, q, sz, al, i0);
        }
    }
    Some((size, align, id, p4))
}

fn parse_simple_rest(s: &Vec<char>, pos: usize) -> (r: Option<(usize, usize, usize)>)
    ensures
        (r matches Some((size, align, p)) ==> pos < p <= s@.len() && s@.subrange(
            pos as int,
            p as int,
        ) == jsa(size, align) + "}"@),
        (forall|size: usize, align: usize, q: int|
            srest_run(s@, pos as int, q, size, align) ==> (r matches Some((s2, a2, p)) && s2
                == size && a2 == align && p == q)),
{
    let (size, align, p1) = match parse_sa(s, pos) {
        Some(t) => t,
        None => {
            proof {
                assert forall|size: usize, align: usize, q: int|
                    !srest_run(s@, pos as int, q, size, align) by {
                    if srest_run(s@, pos as int, q, size, align) {
                        lemma_srest_pieces(s@, pos as int, q, size, align);
                        assert(false);
                    }
                }
            }
            return None;
        },
    };
    let p2 = match expect(s, p1, "}") {
        Some(p) => p,
        None => {
            proof {
                assert forall|size: usize, align: usize, q: int|
                    !srest_run(s@, pos as int, q, size, align) by {
                    if srest_run(s@, pos as int, q, size, align) {
                        lemma_srest_pieces(s@, pos as int, q, size, align);
                        assert(false);
                    }
                }
            }
            return None;
        },
    };
    proof {
        lemma_subrange_concat(s@, pos as int, p1 as int, p2 as int);
        assert(s@.subrange(pos as int, p2 as int) =~= jsa(size, align) + "}"@);
        assert forall|sz: usize, al: usize, q: int|
            srest_run(s@, pos as int, q, sz, al) implies (size == sz && align == al && p2 as int
            == q) by {
            lemma_srest_pieces(s@, pos as int, q, sz, al);
        }
    }
    Some((size, align, p2))
}

/// Two catalog entries carrying the same contents.
pub open spec fn desc_like(a: DefType, b: DefType) -> bool {
    match (a, b) {
        (DefType::Primitive(x), DefType::Primitive(y)) => x.name@ == y.name@ && x.size == y.size
            && x.align == y.align,
        (DefType::String(x), DefType::String(y)) => x.name@ == y.name@ && x.size == y.size
            && x.align == y.align,
        (DefType::StrSlice(x), DefType::StrSlice(y)) => x.name@ == y.name@ && x.size == y.size
            && x.align == y.align,
        (DefType::Str(x), DefType::Str(y)) => x.name@ == y.name@ && x.size == y.size && x.align
            == y.align,
        (DefType::Box(x), DefType::Box(y)) => x.name@ == y.name@ && x.size == y.size && x.align
            == y.align && x.value_type_id == y.value_type_id,
        (DefType::Vec(x), DefType::Vec(y)) => x.name@ == y.name@ && x.size == y.size && x.align
            == y.align && x.value_type_id == y.value_type_id,
        (DefType::Option(x), DefType::Option(y)) => x.name@ == y.name@ && x.size == y.size
            && x.align == y.align && x.value_type_id == y.value_type_id,
        (DefType::PhantomData(x), DefType::PhantomData(y)) => x.name@ == y.name@ && x.size
            == y.size && x.align == y.align && x.value_type_id == y.value_type_id,
        (DefType::Cell(x), DefType::Cell(y)) => x.name@ == y.name@ && x.size == y.size && x.align
            == y.align && x.value_type_id == y.value_type_id,
        (DefType::RefCell(x), DefType::RefCell(y)) => x.name@ == y.name@ && x.size == y.size
            && x.align == y.align && x.value_type_id == y.value_type_id,
        (DefType::Mutex(x), DefType::Mutex(y)) => x.name@ == y.name@ && x.size == y.size
            && x.align == y.align && x.value_type_id == y.value_type_id,
        (DefType::RwLock(x), DefType::RwLock(y)) => x.name@ == y.name@ && x.size == y.size
            && x.align == y.align && x.value_type_id == y.value_type_id,
        (DefType::Rc(x), DefType::Rc(y)) => x.name@ == y.name@ && x.size == y.size && x.align
            == y.align && x.value_type_id == y.value_type_id,
        (DefType::Arc(x), DefType::Arc(y)) => x.name@ == y.name@ && x.size == y.size && x.align
            == y.align && x.value_type_id == y.value_type_id,
        (DefType::Result(x), DefType::Result(y)) => x.name@ == y.name@ && x.size == y.size
            && x.align == y.align && x.ok_type_id == y.ok_type_id && x.err_type_id
            == y.err_type_id,
        (DefType::Struct(x), DefType::Struct(y)) => x.name@ == y.name@ && x.ser_name@
            == y.ser_name@ && x.size == y.size && x.align == y.align && x.fields@.len()
            == y.fields@.len() && (forall|i: int|
            0 <= i < y.fields@.len() ==> field_like(#[trigger] x.fields@[i], y.fields@[i]))
            && opt_view(x.tag) == opt_view(y.tag) && x.transparent == y.transparent,
        (DefType::Enum(x), DefType::Enum(y)) => x.name@ == y.name@ && x.ser_name@ == y.ser_name@
            && x.size == y.size && x.align == y.align && x.variants@.len() == y.variants@.len()
            && (forall|i: int|
            0 <= i < y.variants@.len() ==> variant_like(#[trigger] x.variants@[i], y.variants@[i]))
            && tag_like(x.tag, y.tag),
        _ => false,
    }
}

pub open spec fn desc_run(s: Seq<char>, pos: int, q: int, d: DefType) -> bool {
    &&& 0 <= pos <= q <= s.len()
    &&& s.subrange(pos, q) == jdesc(d)
}

spec fn strd_run(s: Seq<char>, pos: int, q: int, size: Option<usize>, align: usize) -> bool {
    &&& 0 <= pos <= q <= s.len()
    &&& s.subrange(pos, q) == ",\"size\":"@ + jopt_num(size) + ",\"align\":"@ + dec_digits(
        align as nat,
    ) + "}"@
}

spec fn resrest_run(s: Seq<char>, pos: int, q: int, size: usize, align: usize, ok: usize, err: usize) -> bool {
    &&& 0 <= pos <= q <= s.len()
    &&& s.subrange(pos, q) == jsa(size, align) + ",\"okTypeId\":"@ + dec_digits(ok as nat)
        + ",\"errTypeId\":"@ + dec_digits(err as nat) + "}"@
}

spec fn structrest_run(s: Seq<char>, pos: int, q: int, ser_name: Seq<char>, size: Option<usize>, align: Option<usize>, fields: Seq<DefStructField>, tag: Option<Seq<char>>, transparent: bool) -> bool {
    &&& 0 <= pos <= q <= s.len()
    &&& s.subrange(pos, q) == ",\"serName\":"@ + jstr(ser_name) + ",\"size\":"@ + jopt_num(size)
        + ",\"align\":"@ + jopt_num(align) + ",\"fields\":["@ + jfields(fields) + "],\"tag\":"@
        + jopt_str(tag) + ",\"transparent\":"@ + jbool(transparent) + "}"@
}

spec fn enumrest_run(s: Seq<char>, pos: int, q: int, ser_name: Seq<char>, size: usize, align: usize, variants: Seq<DefEnumVariant>, tag: DefEnumTag) -> bool {
    &&& 0 <= pos <= q <= s.len()
    &&& s.subrange(pos, q) == ",\"serName\":"@ + jstr(ser_name) + jsa(size, align)
        + ",\"variants\":["@ + jvariants(variants) + "],\"tag\":"@ + jtag(tag) + "}"@
}


#[verifier::rlimit(100)]
proof fn lemma_desc_pieces_g0(s: Seq<char>, pos: int, q: int, d: DefType)
    requires
        desc_run(s, pos, q, d),
        d is Primitive || d is String || d is StrSlice || d is Str || d is Box,
    ensures
        (d matches DefType::Primitive(p) ==> pos + "{\"kind\":\"primitive\",\"name\":"@.len() <= q && s.subrange(pos, pos + "{\"kind\":\"primitive\",\"name\":"@.len()) == "{\"kind\":\"primitive\",\"name\":"@ && jstr_run(s, pos + "{\"kind\":\"primitive\",\"name\":"@.len(), pos + "{\"kind\":\"primitive\",\"name\":"@.len() + jstr(p.name@).len(), p.name@) && srest_run(s, pos + "{\"kind\":\"primitive\",\"name\":"@.len() + jstr(p.name@).len(), q, p.size, p.align)),
        (d matches DefType::String(p) ==> pos + "{\"kind\":\"string\",\"name\":"@.len() <= q && s.subrange(pos, pos + "{\"kind\":\"string\",\"name\":"@.len()) == "{\"kind\":\"string\",\"name\":"@ && jstr_run(s, pos + "{\"kind\":\"string\",\"name\":"@.len(), pos + "{\"kind\":\"string\",\"name\":"@.len() + jstr(p.name@).len(), p.name@) && srest_run(s, pos + "{\"kind\":\"string\",\"name\":"@.len() + jstr(p.name@).len(), q, p.size, p.align)),
        (d matches DefType::StrSlice(p) ==> pos + "{\"kind\":\"strSlice\",\"name\":"@.len() <= q && s.subrange(pos, pos + "{\"kind\":\"strSlice\",\"name\":"@.len()) == "{\"kind\":\"strSlice\",\"name\":"@ && jstr_run(s, pos + "{\"kind\":\"strSlice\",\"name\":"@.len(), pos + "{\"kind\":\"strSlice\",\"name\":"@.len() + jstr(p.name@).len(), p.name@) && srest_run(s, pos + "{\"kind\":\"strSlice\",\"name\":"@.len() + jstr(p.name@).len(), q, p.size, p.align)),
        (d matches DefType::Str(p) ==> pos + "{\"kind\":\"str\",\"name\":"@.len() <= q && s.subrange(pos, pos + "{\"kind\":\"str\",\"name\":"@.len()) == "{\"kind\":\"str\",\"name\":"@ && jstr_run(s, pos + "{\"kind\":\"str\",\"name\":"@.len(), pos + "{\"kind\":\"str\",\"name\":"@.len() + jstr(p.name@).len(), p.name@) && strd_run(s, pos + "{\"kind\":\"str\",\"name\":"@.len() + jstr(p.name@).len(), q, p.size, p.align)),
        (d matches DefType::Box(p) ==> pos + "{\"kind\":\"box\",\"name\":"@.len() <= q && s.subrange(pos, pos + "{\"kind\":\"box\",\"name\":"@.len()) == "{\"kind\":\"box\",\"name\":"@ && jstr_run(s, pos + "{\"kind\":\"box\",\"name\":"@.len(), pos + "{\"kind\":\"box\",\"name\":"@.len() + jstr(p.name@).len(), p.name@) && wrest_run(s, pos + "{\"kind\":\"box\",\"name\":"@.len() + jstr(p.name@).len(), q, p.size, p.align, p.value_type_id)),
{
    assert(s.subrange(pos, q).len() == q - pos);
    match d {
        DefType::Primitive(p) => {
            reveal_strlit("{\"kind\":\"primitive\",\"name\":");
            reveal_strlit("{\"kind\":\"");
            reveal_strlit("primitive");
            reveal_strlit("\",\"name\":");
            assert("{\"kind\":\"primitive\",\"name\":"@ =~= "{\"kind\":\""@ + "primitive"@ + "\",\"name\":"@);
            assert(jdesc(d) =~= "{\"kind\":\"primitive\",\"name\":"@ + (jstr(p.name@) + (jsa(p.size, p.align) + "}"@)));
            lemma_take_lit(s, pos, q, "{\"kind\":\"primitive\",\"name\":"@, jstr(p.name@) + (jsa(p.size, p.align) + "}"@));
            lemma_take_lit(s, pos + "{\"kind\":\"primitive\",\"name\":"@.len(), q, jstr(p.name@), jsa(p.size, p.align) + "}"@);
        },
        DefType::String(p) => {
            reveal_strlit("{\"kind\":\"string\",\"name\":");
            reveal_strlit("{\"kind\":\"");
            reveal_strlit("string");
            reveal_strlit("\",\"name\":");
            assert("{\"kind\":\"string\",\"name\":"@ =~= "{\"kind\":\""@ + "string"@ + "\",\"name\":"@);
            assert(jdesc(d) =~= "{\"kind\":\"string\",\"name\":"@ + (jstr(p.name@) + (jsa(p.size, p.align) + "}"@)));
            lemma_take_lit(s, pos, q, "{\"kind\":\"string\",\"name\":"@, jstr(p.name@) + (jsa(p.size, p.align) + "}"@));
            lemma_take_lit(s, pos + "{\"kind\":\"string\",\"name\":"@.len(), q, jstr(p.name@), jsa(p.size, p.align) + "}"@);
        },
        DefType::StrSlice(p) => {
            reveal_strlit("{\"kind\":\"strSlice\",\"name\":");
            reveal_strlit("{\"kind\":\"");
            reveal_strlit("strSlice");
            reveal_strlit("\",\"name\":");
            assert("{\"kind\":\"strSlice\",\"name\":"@ =~= "{\"kind\":\""@ + "strSlice"@ + "\",\"name\":"@);
            assert(jdesc(d) =~= "{\"kind\":\"strSlice\",\"name\":"@ + (jstr(p.name@) + (jsa(p.size, p.align) + "}"@)));
            lemma_take_lit(s, pos, q, "{\"kind\":\"strSlice\",\"name\":"@, jstr(p.name@) + (jsa(p.size, p.align) + "}"@));
            lemma_take_lit(s, pos + "{\"kind\":\"strSlice\",\"name\":"@.len(), q, jstr(p.name@), jsa(p.size, p.align) + "}"@);
        },
        DefType::Str(p) => {
            reveal_strlit("{\"kind\":\"str\",\"name\":");
            reveal_strlit("{\"kind\":\"");
            reveal_strlit("str");
            reveal_strlit("\",\"name\":");
            assert("{\"kind\":\"str\",\"name\":"@ =~= "{\"kind\":\""@ + "str"@ + "\",\"name\":"@);
            assert(jdesc(d) =~= "{\"kind\":\"str\",\"name\":"@ + (jstr(p.name@) + (",\"size\":"@ + jopt_num(p.size) + ",\"align\":"@ + dec_digits(p.align as nat) + "}"@)));
            lemma_take_lit(s, pos, q, "{\"kind\":\"str\",\"name\":"@, jstr(p.name@) + (",\"size\":"@ + jopt_num(p.size) + ",\"align\":"@ + dec_digits(p.align as nat) + "}"@));
            lemma_take_lit(s, pos + "{\"kind\":\"str\",\"name\":"@.len(), q, jstr(p.name@), ",\"size\":"@ + jopt_num(p.size) + ",\"align\":"@ + dec_digits(p.align as nat) + "}"@);
        },
        DefType::Box(p) => {
            reveal_strlit("{\"kind\":\"box\",\"name\":");
            reveal_strlit("{\"kind\":\"");
            reveal_strlit("box");
            reveal_strlit("\",\"name\":");
            assert("{\"kind\":\"box\",\"name\":"@ =~= "{\"kind\":\""@ + "box"@ + "\",\"name\":"@);
            assert(jdesc(d) =~= "{\"kind\":\"box\",\"name\":"@ + (jstr(p.name@) + (jsa(p.size, p.align) + ",\"valueTypeId\":"@ + dec_digits(p.value_type_id as nat) + "}"@)));
            lemma_take_lit(s, pos, q, "{\"kind\":\"box\",\"name\":"@, jstr(p.name@) + (jsa(p.size, p.align) + ",\"valueTypeId\":"@ + dec_digits(p.value_type_id as nat) + "}"@));
            lemma_take_lit(s, pos + "{\"kind\":\"box\",\"name\":"@.len(), q, jstr(p.name@), jsa(p.size, p.align) + ",\"valueTypeId\":"@ + dec_digits(p.value_type_id as nat) + "}"@);
        },
        _ => {},
    }
}

#[verifier::rlimit(100)]
proof fn lemma_desc_pieces_g1(s: Seq<char>, pos: int, q: int, d: DefType)
    requires
        desc_run(s, pos, q, d),
        d is Vec || d is Option || d is PhantomData || d is Cell || d is RefCell,
    ensures
        (d matches DefType::Vec(p) ==> pos + "{\"kind\":\"vec\",\"name\":"@.len() <= q && s.subrange(pos, pos + "{\"kind\":\"vec\",\"name\":"@.len()) == "{\"kind\":\"vec\",\"name\":"@ && jstr_run(s, pos + "{\"kind\":\"vec\",\"name\":"@.len(), pos + "{\"kind\":\"vec\",\"name\":"@.len() + jstr(p.name@).len(), p.name@) && wrest_run(s, pos + "{\"kind\":\"vec\",\"name\":"@.len() + jstr(p.name@).len(), q, p.size, p.align, p.value_type_id)),
        (d matches DefType::Option(p) ==> pos + "{\"kind\":\"option\",\"name\":"@.len() <= q && s.subrange(pos, pos + "{\"kind\":\"option\",\"name\":"@.len()) == "{\"kind\":\"option\",\"name\":"@ && jstr_run(s, pos + "{\"kind\":\"option\",\"name\":"@.len(), pos + "{\"kind\":\"option\",\"name\":"@.len() + jstr(p.name@).len(), p.name@) && wrest_run(s, pos + "{\"kind\":\"option\",\"name\":"@.len() + jstr(p.name@).len(), q, p.size, p.align, p.value_type_id)),
        (d matches DefType::PhantomData(p) ==> pos + "{\"kind\":\"phantomData\",\"name\":"@.len() <= q && s.subrange(pos, pos + "{\"kind\":\"phantomData\",\"name\":"@.len()) == "{\"kind\":\"phantomData\",\"name\":"@ && jstr_run(s, pos + "{\"kind\":\"phantomData\",\"name\":"@.len(), pos + "{\"kind\":\"phantomData\",\"name\":"@.len() + jstr(p.name@).len(), p.name@) && wrest_run(s, pos + "{\"kind\":\"phantomData\",\"name\":"@.len() + jstr(p.name@).len(), q, p.size, p.align, p.value_type_id)),
        (d matches DefType::Cell(p) ==> pos + "{\"kind\":\"cell\",\"name\":"@.len() <= q && s.subrange(pos, pos + "{\"kind\":\"cell\",\"name\":"@.len()) == "{\"kind\":\"cell\",\"name\":"@ && jstr_run(s, pos + "{\"kind\":\"cell\",\"name\":"@.len(), pos + "{\"kind\":\"cell\",\"name\":"@.len() + jstr(p.name@).len(), p.name@) && wrest_run(s, pos + "{\"kind\":\"cell\",\"name\":"@.len() + jstr(p.name@).len(), q, p.size, p.align, p.value_type_id)),
        (d matches DefType::RefCell(p) ==> pos + "{\"kind\":\"refCell\",\"name\":"@.len() <= q && s.subrange(pos, pos + "{\"kind\":\"refCell\",\"name\":"@.len()) == "{\"kind\":\"refCell\",\"name\":"@ && jstr_run(s, pos + "{\"kind\":\"refCell\",\"name\":"@.len(), pos + "{\"kind\":\"refCell\",\"name\":"@.len() + jstr(p.name@).len(), p.name@) && wrest_run(s, pos + "{\"kind\":\"refCell\",\"name\":"@.len() + jstr(p.name@).len(), q, p.size, p.align, p.value_type_id)),
{
    assert(s.subrange(pos, q).len() == q - pos);
    match d {
        DefType::Vec(p) => {
            reveal_strlit("{\"kind\":\"vec\",\"name\":");
            reveal_strlit("{\"kind\":\"");
            reveal_strlit("vec");
            reveal_strlit("\",\"name\":");
            assert("{\"kind\":\"vec\",\"name\":"@ =~= "{\"kind\":\""@ + "vec"@ + "\",\"name\":"@);
            assert(jdesc(d) =~= "{\"kind\":\"vec\",\"name\":"@ + (jstr(p.name@) + (jsa(p.size, p.align) + ",\"valueTypeId\":"@ + dec_digits(p.value_type_id as nat) + "}"@)));
            lemma_take_lit(s, pos, q, "{\"kind\":\"vec\",\"name\":"@, jstr(p.name@) + (jsa(p.size, p.align) + ",\"valueTypeId\":"@ + dec_digits(p.value_type_id as nat) + "}"@));
            lemma_take_lit(s, pos + "{\"kind\":\"vec\",\"name\":"@.len(), q, jstr(p.name@), jsa(p.size, p.align) + ",\"valueTypeId\":"@ + dec_digits(p.value_type_id as nat) + "}"@);
        },
        DefType::Option(p) => {
            reveal_strlit("{\"kind\":\"option\",\"name\":");
            reveal_strlit("{\"kind\":\"");
            reveal_strlit("option");
            reveal_strlit("\",\"name\":");
            assert("{\"kind\":\"option\",\"name\":"@ =~= "{\"kind\":\""@ + "option"@ + "\",\"name\":"@);
            assert(jdesc(d) =~= "{\"kind\":\"option\",\"name\":"@ + (jstr(p.name@) + (jsa(p.size, p.align) + ",\"valueTypeId\":"@ + dec_digits(p.value_type_id as nat) + "}"@)));
            lemma_take_lit(s, pos, q, "{\"kind\":\"option\",\"name\":"@, jstr(p.name@) + (jsa(p.size, p.align) + ",\"valueTypeId\":"@ + dec_digits(p.value_type_id as nat) + "}"@));
            lemma_take_lit(s, pos + "{\"kind\":\"option\",\"name\":"@.len(), q, jstr(p.name@), jsa(p.size, p.align) + ",\"valueTypeId\":"@ + dec_digits(p.value_type_id as nat) + "}"@);
        },
        DefType::PhantomData(p) => {
            reveal_strlit("{\"kind\":\"phantomData\",\"name\":");
            reveal_strlit("{\"kind\":\"");
            reveal_strlit("phantomData");
            reveal_strlit("\",\"name\":");
            assert("{\"kind\":\"phantomData\",\"name\":"@ =~= "{\"kind\":\""@ + "phantomData"@ + "\",\"name\":"@);
            assert(jdesc(d) =~= "{\"kind\":\"phantomData\",\"name\":"@ + (jstr(p.name@) + (jsa(p.size, p.align) + ",\"valueTypeId\":"@ + dec_digits(p.value_type_id as nat) + "}"@)));
            lemma_take_lit(s, pos, q, "{\"kind\":\"phantomData\",\"name\":"@, jstr(p.name@) + (jsa(p.size, p.align) + ",\"valueTypeId\":"@ + dec_digits(p.value_type_id as nat) + "}"@));
            lemma_take_lit(s, pos + "{\"kind\":\"phantomData\",\"name\":"@.len(), q, jstr(p.name@), jsa(p.size, p.align) + ",\"valueTypeId\":"@ + dec_digits(p.value_type_id as nat) + "}"@);
        },
        DefType::Cell(p) => {
            reveal_strlit("{\"kind\":\"cell\",\"name\":");
            reveal_strlit("{\"kind\":\"");
            reveal_strlit("cell");
            reveal_strlit("\",\"name\":");
            assert("{\"kind\":\"cell\",\"name\":"@ =~= "{\"kind\":\""@ + "cell"@ + "\",\"name\":"@);
            assert(jdesc(d) =~= "{\"kind\":\"cell\",\"name\":"@ + (jstr(p.name@) + (jsa(p.size, p.align) + ",\"valueTypeId\":"@ + dec_digits(p.value_type_id as nat) + "}"@)));
            lemma_take_lit(s, pos, q, "{\"kind\":\"cell\",\"name\":"@, jstr(p.name@) + (jsa(p.size, p.align) + ",\"valueTypeId\":"@ + dec_digits(p.value_type_id as nat) + "}"@));
            lemma_take_lit(s, pos + "{\"kind\":\"cell\",\"name\":"@.len(), q, jstr(p.name@), jsa(p.size, p.align) + ",\"valueTypeId\":"@ + dec_digits(p.value_type_id as nat) + "}"@);
        },
        DefType::RefCell(p) => {
            reveal_strlit("{\"kind\":\"refCell\",\"name\":");
            reveal_strlit("{\"kind\":\"");
            reveal_strlit("refCell");
            reveal_strlit("\",\"name\":");
            assert("{\"kind\":\"refCell\",\"name\":"@ =~= "{\"kind\":\""@ + "refCell"@ + "\",\"name\":"@);
            assert(jdesc(d) =~= "{\"kind\":\"refCell\",\"name\":"@ + (jstr(p.name@) + (jsa(p.size, p.align) + ",\"valueTypeId\":"@ + dec_digits(p.value_type_id as nat) + "}"@)));
            lemma_take_lit(s, pos, q, "{\"kind\":\"refCell\",\"name\":"@, jstr(p.name@) + (jsa(p.size, p.align) + ",\"valueTypeId\":"@ + dec_digits(p.value_type_id as nat) + "}"@));
            lemma_take_lit(s, pos + "{\"kind\":\"refCell\",\"name\":"@.len(), q, jstr(p.name@), jsa(p.size, p.align) + ",\"valueTypeId\":"@ + dec_digits(p.value_type_id as nat) + "}"@);
        },
        _ => {},
    }
}

#[verifier::rlimit(100)]
proof fn lemma_desc_pieces_g2(s: Seq<char>, pos: int, q: int, d: DefType)
    requires
        desc_run(s, pos, q, d),
        d is Mutex || d is RwLock || d is Rc || d is Arc,
    ensures
        (d matches DefType::Mutex(p) ==> pos + "{\"kind\":\"mutex\",\"name\":"@.len() <= q && s.subrange(pos, pos + "{\"kind\":\"mutex\",\"name\":"@.len()) == "{\"kind\":\"mutex\",\"name\":"@ && jstr_run(s, pos + "{\"kind\":\"mutex\",\"name\":"@.len(), pos + "{\"kind\":\"mutex\",\"name\":"@.len() + jstr(p.name@).len(), p.name@) && wrest_run(s, pos + "{\"kind\":\"mutex\",\"name\":"@.len() + jstr(p.name@).len(), q, p.size, p.align, p.value_type_id)),
        (d matches DefType::RwLock(p) ==> pos + "{\"kind\":\"rwLock\",\"name\":"@.len() <= q && s.subrange(pos, pos + "{\"kind\":\"rwLock\",\"name\":"@.len()) == "{\"kind\":\"rwLock\",\"name\":"@ && jstr_run(s, pos + "{\"kind\":\"rwLock\",\"name\":"@.len(), pos + "{\"kind\":\"rwLock\",\"name\":"@.len() + jstr(p.name@).len(), p.name@) && wrest_run(s, pos + "{\"kind\":\"rwLock\",\"name\":"@.len() + jstr(p.name@).len(), q, p.size, p.align, p.value_type_id)),
        (d matches DefType::Rc(p) ==> pos + "{\"kind\":\"rc\",\"name\":"@.len() <= q && s.subrange(pos, pos + "{\"kind\":\"rc\",\"name\":"@.len()) == "{\"kind\":\"rc\",\"name\":"@ && jstr_run(s, pos + "{\"kind\":\"rc\",\"name\":"@.len(), pos + "{\"kind\":\"rc\",\"name\":"@.len() + jstr(p.name@).len(), p.name@) && wrest_run(s, pos + "{\"kind\":\"rc\",\"name\":"@.len() + jstr(p.name@).len(), q, p.size, p.align, p.value_type_id)),
        (d matches DefType::Arc(p) ==> pos + "{\"kind\":\"arc\",\"name\":"@.len() <= q && s.subrange(pos, pos + "{\"kind\":\"arc\",\"name\":"@.len()) == "{\"kind\":\"arc\",\"name\":"@ && jstr_run(s, pos + "{\"kind\":\"arc\",\"name\":"@.len(), pos + "{\"kind\":\"arc\",\"name\":"@.len() + jstr(p.name@).len(), p.name@) && wrest_run(s, pos + "{\"kind\":\"arc\",\"name\":"@.len() + jstr(p.name@).len(), q, p.size, p.align, p.value_type_id)),
{
    assert(s.subrange(pos, q).len() == q - pos);
    match d {
        DefType::Mutex(p) => {
            reveal_strlit("{\"kind\":\"mutex\",\"name\":");
            reveal_strlit("{\"kind\":\"");
            reveal_strlit("mutex");
            reveal_strlit("\",\"name\":");
            assert("{\"kind\":\"mutex\",\"name\":"@ =~= "{\"kind\":\""@ + "mutex"@ + "\",\"name\":"@);
            assert(jdesc(d) =~= "{\"kind\":\"mutex\",\"name\":"@ + (jstr(p.name@) + (jsa(p.size, p.align) + ",\"valueTypeId\":"@ + dec_digits(p.value_type_id as nat) + "}"@)));
            lemma_take_lit(s, pos, q, "{\"kind\":\"mutex\",\"name\":"@, jstr(p.name@) + (jsa(p.size, p.align) + ",\"valueTypeId\":"@ + dec_digits(p.value_type_id as nat) + "}"@));
            lemma_take_lit(s, pos + "{\"kind\":\"mutex\",\"name\":"@.len(), q, jstr(p.name@), jsa(p.size, p.align) + ",\"valueTypeId\":"@ + dec_digits(p.value_type_id as nat) + "}"@);
        },
        DefType::RwLock(p) => {
            reveal_strlit("{\"kind\":\"rwLock\",\"name\":");
            reveal_strlit("{\"kind\":\"");
            reveal_strlit("rwLock");
            reveal_strlit("\",\"name\":");
            assert("{\"kind\":\"rwLock\",\"name\":"@ =~= "{\"kind\":\""@ + "rwLock"@ + "\",\"name\":"@);
            assert(jdesc(d) =~= "{\"kind\":\"rwLock\",\"name\":"@ + (jstr(p.name@) + (jsa(p.size, p.align) + ",\"valueTypeId\":"@ + dec_digits(p.value_type_id as nat) + "}"@)));
            lemma_take_lit(s, pos, q, "{\"kind\":\"rwLock\",\"name\":"@, jstr(p.name@) + (jsa(p.size, p.align) + ",\"valueTypeId\":"@ + dec_digits(p.value_type_id as nat) + "}"@));
            lemma_take_lit(s, pos + "{\"kind\":\"rwLock\",\"name\":"@.len(), q, jstr(p.name@), jsa(p.size, p.align) + ",\"valueTypeId\":"@ + dec_digits(p.value_type_id as nat) + "}"@);
        },
        DefType::Rc(p) => {
            reveal_strlit("{\"kind\":\"rc\",\"name\":");
            reveal_strlit("{\"kind\":\"");
            reveal_strlit("rc");
            reveal_strlit("\",\"name\":");
            assert("{\"kind\":\"rc\",\"name\":"@ =~= "{\"kind\":\""@ + "rc"@ + "\",\"name\":"@);
            assert(jdesc(d) =~= "{\"kind\":\"rc\",\"name\":"@ + (jstr(p.name@) + (jsa(p.size, p.align) + ",\"valueTypeId\":"@ + dec_digits(p.value_type_id as nat) + "}"@)));
            lemma_take_lit(s, pos, q, "{\"kind\":\"rc\",\"name\":"@, jstr(p.name@) + (jsa(p.size, p.align) + ",\"valueTypeId\":"@ + dec_digits(p.value_type_id as nat) + "}"@));
            lemma_take_lit(s, pos + "{\"kind\":\"rc\",\"name\":"@.len(), q, jstr(p.name@), jsa(p.size, p.align) + ",\"valueTypeId\":"@ + dec_digits(p.value_type_id as nat) + "}"@);
        },
        DefType::Arc(p) => {
            reveal_strlit("{\"kind\":\"arc\",\"name\":");
            reveal_strlit("{\"kind\":\"");
            reveal_strlit("arc");
            reveal_strlit("\",\"name\":");
            assert("{\"kind\":\"arc\",\"name\":"@ =~= "{\"kind\":\""@ + "arc"@ + "\",\"name\":"@);
            assert(jdesc(d) =~= "{\"kind\":\"arc\",\"name\":"@ + (jstr(p.name@) + (jsa(p.size, p.align) + ",\"valueTypeId\":"@ + dec_digits(p.value_type_id as nat) + "}"@)));
            lemma_take_lit(s, pos, q, "{\"kind\":\"arc\",\"name\":"@, jstr(p.name@) + (jsa(p.size, p.align) + ",\"valueTypeId\":"@ + dec_digits(p.value_type_id as nat) + "}"@));
            lemma_take_lit(s, pos + "{\"kind\":\"arc\",\"name\":"@.len(), q, jstr(p.name@), jsa(p.size, p.align) + ",\"valueTypeId\":"@ + dec_digits(p.value_type_id as nat) + "}"@);
        },
        _ => {},
    }
}

#[verifier::rlimit(100)]
proof fn lemma_desc_pieces_g3(s: Seq<char>, pos: int, q: int, d: DefType)
    requires
        desc_run(s, pos, q, d),
        d is Result,
    ensures
        (d matches DefType::Result(p) ==> pos + "{\"kind\":\"result\",\"name\":"@.len() <= q && s.subrange(pos, pos + "{\"kind\":\"result\",\"name\":"@.len()) == "{\"kind\":\"result\",\"name\":"@ && jstr_run(s, pos + "{\"kind\":\"result\",\"name\":"@.len(), pos + "{\"kind\":\"result\",\"name\":"@.len() + jstr(p.name@).len(), p.name@) && resrest_run(s, pos + "{\"kind\":\"result\",\"name\":"@.len() + jstr(p.name@).len(), q, p.size, p.align, p.ok_type_id, p.err_type_id)),
{
    assert(s.subrange(pos, q).len() == q - pos);
    match d {
        DefType::Result(p) => {
            reveal_strlit("{\"kind\":\"result\",\"name\":");
            reveal_strlit("{\"kind\":\"");
            reveal_strlit("result");
            reveal_strlit("\",\"name\":");
            assert("{\"kind\":\"result\",\"name\":"@ =~= "{\"kind\":\""@ + "result"@ + "\",\"name\":"@);
            assert(jdesc(d) =~= "{\"kind\":\"result\",\"name\":"@ + (jstr(p.name@) + (jsa(p.size, p.align) + ",\"okTypeId\":"@ + dec_digits(p.ok_type_id as nat) + ",\"errTypeId\":"@ + dec_digits(p.err_type_id as nat) + "}"@)));
            lemma_take_lit(s, pos, q, "{\"kind\":\"result\",\"name\":"@, jstr(p.name@) + (jsa(p.size, p.align) + ",\"okTypeId\":"@ + dec_digits(p.ok_type_id as nat) + ",\"errTypeId\":"@ + dec_digits(p.err_type_id as nat) + "}"@));
            lemma_take_lit(s, pos + "{\"kind\":\"result\",\"name\":"@.len(), q, jstr(p.name@), jsa(p.size, p.align) + ",\"okTypeId\":"@ + dec_digits(p.ok_type_id as nat) + ",\"errTypeId\":"@ + dec_digits(p.err_type_id as nat) + "}"@);
        },
        _ => {},
    }
}

#[verifier::rlimit(100)]
proof fn lemma_desc_pieces_g4(s: Seq<char>, pos: int, q: int, d: DefType)
    requires
        desc_run(s, pos, q, d),
        d is Struct,
    ensures
        (d matches DefType::Struct(p) ==> pos + "{\"kind\":\"struct\",\"name\":"@.len() <= q && s.subrange(pos, pos + "{\"kind\":\"struct\",\"name\":"@.len()) == "{\"kind\":\"struct\",\"name\":"@ && jstr_run(s, pos + "{\"kind\":\"struct\",\"name\":"@.len(), pos + "{\"kind\":\"struct\",\"name\":"@.len() + jstr(p.name@).len(), p.name@) && structrest_run(s, pos + "{\"kind\":\"struct\",\"name\":"@.len() + jstr(p.name@).len(), q, p.ser_name@, p.size, p.align, p.fields@, opt_view(p.tag), p.transparent)),
{
    assert(s.subrange(pos, q).len() == q - pos);
    match d {
        DefType::Struct(p) => {
            reveal_strlit("{\"kind\":\"struct\",\"name\":");
            reveal_strlit("{\"kind\":\"");
            reveal_strlit("struct");
            reveal_strlit("\",\"name\":");
            assert("{\"kind\":\"struct\",\"name\":"@ =~= "{\"kind\":\""@ + "struct"@ + "\",\"name\":"@);
            assert(jdesc(d) =~= "{\"kind\":\"struct\",\"name\":"@ + (jstr(p.name@) + (",\"serName\":"@ + jstr(p.ser_name@) + ",\"size\":"@ + jopt_num(p.size) + ",\"align\":"@ + jopt_num(p.align) + ",\"fields\":["@ + jfields(p.fields@) + "],\"tag\":"@ + jopt_str(opt_view(p.tag)) + ",\"transparent\":"@ + jbool(p.transparent) + "}"@)));
            lemma_take_lit(s, pos, q, "{\"kind\":\"struct\",\"name\":"@, jstr(p.name@) + (",\"serName\":"@ + jstr(p.ser_name@) + ",\"size\":"@ + jopt_num(p.size) + ",\"align\":"@ + jopt_num(p.align) + ",\"fields\":["@ + jfields(p.fields@) + "],\"tag\":"@ + jopt_str(opt_view(p.tag)) + ",\"transparent\":"@ + jbool(p.transparent) + "}"@));
            lemma_take_lit(s, pos + "{\"kind\":\"struct\",\"name\":"@.len(), q, jstr(p.name@), ",\"serName\":"@ + jstr(p.ser_name@) + ",\"size\":"@ + jopt_num(p.size) + ",\"align\":"@ + jopt_num(p.align) + ",\"fields\":["@ + jfields(p.fields@) + "],\"tag\":"@ + jopt_str(opt_view(p.tag)) + ",\"transparent\":"@ + jbool(p.transparent) + "}"@);
        },
        _ => {},
    }
}

#[verifier::rlimit(100)]
proof fn lemma_desc_pieces_g5(s: Seq<char>, pos: int, q: int, d: DefType)
    requires
        desc_run(s, pos, q, d),
        d is Enum,
    ensures
        (d matches DefType::Enum(p) ==> pos + "{\"kind\":\"enum\",\"name\":"@.len() <= q && s.subrange(pos, pos + "{\"kind\":\"enum\",\"name\":"@.len()) == "{\"kind\":\"enum\",\"name\":"@ && jstr_run(s, pos + "{\"kind\":\"enum\",\"name\":"@.len(), pos + "{\"kind\":\"enum\",\"name\":"@.len() + jstr(p.name@).len(), p.name@) && enumrest_run(s, pos + "{\"kind\":\"enum\",\"name\":"@.len() + jstr(p.name@).len(), q, p.ser_name@, p.size, p.align, p.variants@, p.tag)),
{
    assert(s.subrange(pos, q).len() == q - pos);
    match d {
        DefType::Enum(p) => {
            reveal_strlit("{\"kind\":\"enum\",\"name\":");
            reveal_strlit("{\"kind\":\"");
            reveal_strlit("enum");
            reveal_strlit("\",\"name\":");
            assert("{\"kind\":\"enum\",\"name\":"@ =~= "{\"kind\":\""@ + "enum"@ + "\",\"name\":"@);
            assert(jdesc(d) =~= "{\"kind\":\"enum\",\"name\":"@ + (jstr(p.name@) + (",\"serName\":"@ + jstr(p.ser_name@) + jsa(p.size, p.align) + ",\"variants\":["@ + jvariants(p.variants@) + "],\"tag\":"@ + jtag(p.tag) + "}"@)));
            lemma_take_lit(s, pos, q, "{\"kind\":\"enum\",\"name\":"@, jstr(p.name@) + (",\"serName\":"@ + jstr(p.ser_name@) + jsa(p.size, p.align) + ",\"variants\":["@ + jvariants(p.variants@) + "],\"tag\":"@ + jtag(p.tag) + "}"@));
            lemma_take_lit(s, pos + "{\"kind\":\"enum\",\"name\":"@.len(), q, jstr(p.name@), ",\"serName\":"@ + jstr(p.ser_name@) + jsa(p.size, p.align) + ",\"variants\":["@ + jvariants(p.variants@) + "],\"tag\":"@ + jtag(p.tag) + "}"@);
        },
        _ => {},
    }
}

proof fn lemma_desc_pieces(s: Seq<char>, pos: int, q: int, d: DefType)
    requires
        desc_run(s, pos, q, d),
    ensures
        (d matches DefType::Primitive(p) ==> pos + "{\"kind\":\"primitive\",\"name\":"@.len() <= q && s.subrange(pos, pos + "{\"kind\":\"primitive\",\"name\":"@.len()) == "{\"kind\":\"primitive\",\"name\":"@ && jstr_run(s, pos + "{\"kind\":\"primitive\",\"name\":"@.len(), pos + "{\"kind\":\"primitive\",\"name\":"@.len() + jstr(p.name@).len(), p.name@) && srest_run(s, pos + "{\"kind\":\"primitive\",\"name\":"@.len() + jstr(p.name@).len(), q, p.size, p.align)),
        (d matches DefType::String(p) ==> pos + "{\"kind\":\"string\",\"name\":"@.len() <= q && s.subrange(pos, pos + "{\"kind\":\"string\",\"name\":"@.len()) == "{\"kind\":\"string\",\"name\":"@ && jstr_run(s, pos + "{\"kind\":\"string\",\"name\":"@.len(), pos + "{\"kind\":\"string\",\"name\":"@.len() + jstr(p.name@).len(), p.name@) && srest_run(s, pos + "{\"kind\":\"string\",\"name\":"@.len() + jstr(p.name@).len(), q, p.size, p.align)),
        (d matches DefType::StrSlice(p) ==> pos + "{\"kind\":\"strSlice\",\"name\":"@.len() <= q && s.subrange(pos, pos + "{\"kind\":\"strSlice\",\"name\":"@.len()) == "{\"kind\":\"strSlice\",\"name\":"@ && jstr_run(s, pos + "{\"kind\":\"strSlice\",\"name\":"@.len(), pos + "{\"kind\":\"strSlice\",\"name\":"@.len() + jstr(p.name@).len(), p.name@) && srest_run(s, pos + "{\"kind\":\"strSlice\",\"name\":"@.len() + jstr(p.name@).len(), q, p.size, p.align)),
        (d matches DefType::Str(p) ==> pos + "{\"kind\":\"str\",\"name\":"@.len() <= q && s.subrange(pos, pos + "{\"kind\":\"str\",\"name\":"@.len()) == "{\"kind\":\"str\",\"name\":"@ && jstr_run(s, pos + "{\"kind\":\"str\",\"name\":"@.len(), pos + "{\"kind\":\"str\",\"name\":"@.len() + jstr(p.name@).len(), p.name@) && strd_run(s, pos + "{\"kind\":\"str\",\"name\":"@.len() + jstr(p.name@).len(), q, p.size, p.align)),
        (d matches DefType::Box(p) ==> pos + "{\"kind\":\"box\",\"name\":"@.len() <= q && s.subrange(pos, pos + "{\"kind\":\"box\",\"name\":"@.len()) == "{\"kind\":\"box\",\"name\":"@ && jstr_run(s, pos + "{\"kind\":\"box\",\"name\":"@.len(), pos + "{\"kind\":\"box\",\"name\":"@.len() + jstr(p.name@).len(), p.name@) && wrest_run(s, pos + "{\"kind\":\"box\",\"name\":"@.len() + jstr(p.name@).len(), q, p.size, p.align, p.value_type_id)),
        (d matches DefType::Vec(p) ==> pos + "{\"kind\":\"vec\",\"name\":"@.len() <= q && s.subrange(pos, pos + "{\"kind\":\"vec\",\"name\":"@.len()) == "{\"kind\":\"vec\",\"name\":"@ && jstr_run(s, pos + "{\"kind\":\"vec\",\"name\":"@.len(), pos + "{\"kind\":\"vec\",\"name\":"@.len() + jstr(p.name@).len(), p.name@) && wrest_run(s, pos + "{\"kind\":\"vec\",\"name\":"@.len() + jstr(p.name@).len(), q, p.size, p.align, p.value_type_id)),
        (d matches DefType::Option(p) ==> pos + "{\"kind\":\"option\",\"name\":"@.len() <= q && s.subrange(pos, pos + "{\"kind\":\"option\",\"name\":"@.len()) == "{\"kind\":\"option\",\"name\":"@ && jstr_run(s, pos + "{\"kind\":\"option\",\"name\":"@.len(), pos + "{\"kind\":\"option\",\"name\":"@.len() + jstr(p.name@).len(), p.name@) && wrest_run(s, pos + "{\"kind\":\"option\",\"name\":"@.len() + jstr(p.name@).len(), q, p.size, p.align, p.value_type_id)),
        (d matches DefType::PhantomData(p) ==> pos + "{\"kind\":\"phantomData\",\"name\":"@.len() <= q && s.subrange(pos, pos + "{\"kind\":\"phantomData\",\"name\":"@.len()) == "{\"kind\":\"phantomData\",\"name\":"@ && jstr_run(s, pos + "{\"kind\":\"phantomData\",\"name\":"@.len(), pos + "{\"kind\":\"phantomData\",\"name\":"@.len() + jstr(p.name@).len(), p.name@) && wrest_run(s, pos + "{\"kind\":\"phantomData\",\"name\":"@.len() + jstr(p.name@).len(), q, p.size, p.align, p.value_type_id)),
        (d matches DefType::Cell(p) ==> pos + "{\"kind\":\"cell\",\"name\":"@.len() <= q && s.subrange(pos, pos + "{\"kind\":\"cell\",\"name\":"@.len()) == "{\"kind\":\"cell\",\"name\":"@ && jstr_run(s, pos + "{\"kind\":\"cell\",\"name\":"@.len(), pos + "{\"kind\":\"cell\",\"name\":"@.len() + jstr(p.name@).len(), p.name@) && wrest_run(s, pos + "{\"kind\":\"cell\",\"name\":"@.len() + jstr(p.name@).len(), q, p.size, p.align, p.value_type_id)),
        (d matches DefType::RefCell(p) ==> pos + "{\"kind\":\"refCell\",\"name\":"@.len() <= q && s.subrange(pos, pos + "{\"kind\":\"refCell\",\"name\":"@.len()) == "{\"kind\":\"refCell\",\"name\":"@ && jstr_run(s, pos + "{\"kind\":\"refCell\",\"name\":"@.len(), pos + "{\"kind\":\"refCell\",\"name\":"@.len() + jstr(p.name@).len(), p.name@) && wrest_run(s, pos + "{\"kind\":\"refCell\",\"name\":"@.len() + jstr(p.name@).len(), q, p.size, p.align, p.value_type_id)),
        (d matches DefType::Mutex(p) ==> pos + "{\"kind\":\"mutex\",\"name\":"@.len() <= q && s.subrange(pos, pos + "{\"kind\":\"mutex\",\"name\":"@.len()) == "{\"kind\":\"mutex\",\"name\":"@ && jstr_run(s, pos + "{\"kind\":\"mutex\",\"name\":"@.len(), pos + "{\"kind\":\"mutex\",\"name\":"@.len() + jstr(p.name@).len(), p.name@) && wrest_run(s, pos + "{\"kind\":\"mutex\",\"name\":"@.len() + jstr(p.name@).len(), q, p.size, p.align, p.value_type_id)),
        (d matches DefType::RwLock(p) ==> pos + "{\"kind\":\"rwLock\",\"name\":"@.len() <= q && s.subrange(pos, pos + "{\"kind\":\"rwLock\",\"name\":"@.len()) == "{\"kind\":\"rwLock\",\"name\":"@ && jstr_run(s, pos + "{\"kind\":\"rwLock\",\"name\":"@.len(), pos + "{\"kind\":\"rwLock\",\"name\":"@.len() + jstr(p.name@).len(), p.name@) && wrest_run(s, pos + "{\"kind\":\"rwLock\",\"name\":"@.len() + jstr(p.name@).len(), q, p.size, p.align, p.value_type_id)),
        (d matches DefType::Rc(p) ==> pos + "{\"kind\":\"rc\",\"name\":"@.len() <= q && s.subrange(pos, pos + "{\"kind\":\"rc\",\"name\":"@.len()) == "{\"kind\":\"rc\",\"name\":"@ && jstr_run(s, pos + "{\"kind\":\"rc\",\"name\":"@.len(), pos + "{\"kind\":\"rc\",\"name\":"@.len() + jstr(p.name@).len(), p.name@) && wrest_run(s, pos + "{\"kind\":\"rc\",\"name\":"@.len() + jstr(p.name@).len(), q, p.size, p.align, p.value_type_id)),
        (d matches DefType::Arc(p) ==> pos + "{\"kind\":\"arc\",\"name\":"@.len() <= q && s.subrange(pos, pos + "{\"kind\":\"arc\",\"name\":"@.len()) == "{\"kind\":\"arc\",\"name\":"@ && jstr_run(s, pos + "{\"kind\":\"arc\",\"name\":"@.len(), pos + "{\"kind\":\"arc\",\"name\":"@.len() + jstr(p.name@).len(), p.name@) && wrest_run(s, pos + "{\"kind\":\"arc\",\"name\":"@.len() + jstr(p.name@).len(), q, p.size, p.align, p.value_type_id)),
        (d matches DefType::Result(p) ==> pos + "{\"kind\":\"result\",\"name\":"@.len() <= q && s.subrange(pos, pos + "{\"kind\":\"result\",\"name\":"@.len()) == "{\"kind\":\"result\",\"name\":"@ && jstr_run(s, pos + "{\"kind\":\"result\",\"name\":"@.len(), pos + "{\"kind\":\"result\",\"name\":"@.len() + jstr(p.name@).len(), p.name@) && resrest_run(s, pos + "{\"kind\":\"result\",\"name\":"@.len() + jstr(p.name@).len(), q, p.size, p.align, p.ok_type_id, p.err_type_id)),
        (d matches DefType::Struct(p) ==> pos + "{\"kind\":\"struct\",\"name\":"@.len() <= q && s.subrange(pos, pos + "{\"kind\":\"struct\",\"name\":"@.len()) == "{\"kind\":\"struct\",\"name\":"@ && jstr_run(s, pos + "{\"kind\":\"struct\",\"name\":"@.len(), pos + "{\"kind\":\"struct\",\"name\":"@.len() + jstr(p.name@).len(), p.name@) && structrest_run(s, pos + "{\"kind\":\"struct\",\"name\":"@.len() + jstr(p.name@).len(), q, p.ser_name@, p.size, p.align, p.fields@, opt_view(p.tag), p.transparent)),
        (d matches DefType::Enum(p) ==> pos + "{\"kind\":\"enum\",\"name\":"@.len() <= q && s.subrange(pos, pos + "{\"kind\":\"enum\",\"name\":"@.len()) == "{\"kind\":\"enum\",\"name\":"@ && jstr_run(s, pos + "{\"kind\":\"enum\",\"name\":"@.len(), pos + "{\"kind\":\"enum\",\"name\":"@.len() + jstr(p.name@).len(), p.name@) && enumrest_run(s, pos + "{\"kind\":\"enum\",\"name\":"@.len() + jstr(p.name@).len(), q, p.ser_name@, p.size, p.align, p.variants@, p.tag)),
{
    if d is Primitive || d is String || d is StrSlice || d is Str || d is Box {
        lemma_desc_pieces_g0(s, pos, q, d);
    }
    if d is Vec || d is Option || d is PhantomData || d is Cell || d is RefCell {
        lemma_desc_pieces_g1(s, pos, q, d);
    }
    if d is Mutex || d is RwLock || d is Rc || d is Arc {
        lemma_desc_pieces_g2(s, pos, q, d);
    }
    if d is Result {
        lemma_desc_pieces_g3(s, pos, q, d);
    }
    if d is Struct {
        lemma_desc_pieces_g4(s, pos, q, d);
    }
    if d is Enum {
        lemma_desc_pieces_g5(s, pos, q, d);
    }
}

#[verifier::rlimit(100)]
proof fn lemma_strd_pieces(s: Seq<char>, pos: int, q: int, size: Option<usize>, align: usize)
    requires
        strd_run(s, pos, q, size, align),
    ensures
        pos <= pos + ",\"size\":"@.len() <= q && s.subrange(pos, pos + ",\"size\":"@.len()) == ",\"size\":"@,
        0 <= pos + ",\"size\":"@.len() <= pos + ",\"size\":"@.len() + jopt_num(size).len() <= s.len() && s.subrange(pos + ",\"size\":"@.len(), pos + ",\"size\":"@.len() + jopt_num(size).len()) == jopt_num(size) && (pos + ",\"size\":"@.len() + jopt_num(size).len() == s.len() || !is_digit_char(s[pos + ",\"size\":"@.len() + jopt_num(size).len()])),
        pos + ",\"size\":"@.len() + jopt_num(size).len() <= pos + ",\"size\":"@.len() + jopt_num(size).len() + ",\"align\":"@.len() <= q && s.subrange(pos + ",\"size\":"@.len() + jopt_num(size).len(), pos + ",\"size\":"@.len() + jopt_num(size).len() + ",\"align\":"@.len()) == ",\"align\":"@,
        dec_run(s, pos + ",\"size\":"@.len() + jopt_num(size).len() + ",\"align\":"@.len(), pos + ",\"size\":"@.len() + jopt_num(size).len() + ",\"align\":"@.len() + dec_digits(align as nat).len(), align as nat, usize::MAX as nat),
        pos + ",\"size\":"@.len() + jopt_num(size).len() + ",\"align\":"@.len() + dec_digits(align as nat).len() <= pos + ",\"size\":"@.len() + jopt_num(size).len() + ",\"align\":"@.len() + dec_digits(align as nat).len() + "}"@.len() <= q && s.subrange(pos + ",\"size\":"@.len() + jopt_num(size).len() + ",\"align\":"@.len() + dec_digits(align as nat).len(), pos + ",\"size\":"@.len() + jopt_num(size).len() + ",\"align\":"@.len() + dec_digits(align as nat).len() + "}"@.len()) == "}"@,
        q == pos + ",\"size\":"@.len() + jopt_num(size).len() + ",\"align\":"@.len() + dec_digits(align as nat).len() + "}"@.len(),
{
    reveal_strlit(",\"size\":");
    reveal_strlit(",\"align\":");
    reveal_strlit("}");
    lemma_digit_chars();
    assert(s.subrange(pos, q).len() == q - pos);
    assert(s.subrange(pos, q) =~= ",\"size\":"@ + (jopt_num(size) + (",\"align\":"@ + (dec_digits(align as nat) + ("}"@)))));
    lemma_take_lit(s, pos, q, ",\"size\":"@, jopt_num(size) + (",\"align\":"@ + (dec_digits(align as nat) + ("}"@))));
    lemma_take_lit(s, pos + ",\"size\":"@.len(), q, jopt_num(size), ",\"align\":"@ + (dec_digits(align as nat) + ("}"@)));
    assert(s.subrange(pos + ",\"size\":"@.len() + jopt_num(size).len(), q)[0] == s[pos + ",\"size\":"@.len() + jopt_num(size).len()]);
    assert(s[pos + ",\"size\":"@.len() + jopt_num(size).len()] == ",\"align\":"@[0]);
    lemma_take_lit(s, pos + ",\"size\":"@.len() + jopt_num(size).len(), q, ",\"align\":"@, dec_digits(align as nat) + ("}"@));
    lemma_take_lit(s, pos + ",\"size\":"@.len() + jopt_num(size).len() + ",\"align\":"@.len(), q, dec_digits(align as nat), "}"@);
    assert(s.subrange(pos + ",\"size\":"@.len() + jopt_num(size).len() + ",\"align\":"@.len() + dec_digits(align as nat).len(), q)[0] == s[pos + ",\"size\":"@.len() + jopt_num(size).len() + ",\"align\":"@.len() + dec_digits(align as nat).len()]);
    assert(s[pos + ",\"size\":"@.len() + jopt_num(size).len() + ",\"align\":"@.len() + dec_digits(align as nat).len()] == "}"@[0]);
    lemma_take_lit(s, pos + ",\"size\":"@.len() + jopt_num(size).len() + ",\"align\":"@.len() + dec_digits(align as nat).len(), q, "}"@, Seq::<char>::empty());
    assert(s.subrange(pos + ",\"size\":"@.len() + jopt_num(size).len() + ",\"align\":"@.len() + dec_digits(align as nat).len() + "}"@.len(), q) =~= Seq::<char>::empty());
}

#[verifier::rlimit(100)]
proof fn lemma_resrest_pieces(s: Seq<char>, pos: int, q: int, size: usize, align: usize, ok: usize, err: usize)
    requires
        resrest_run(s, pos, q, size, align, ok, err),
    ensures
        sa_run(s, pos, pos + jsa(size, align).len(), size, align),
        pos + jsa(size, align).len() <= pos + jsa(size, align).len() + ",\"okTypeId\":"@.len() <= q && s.subrange(pos + jsa(size, align).len(), pos + jsa(size, align).len() + ",\"okTypeId\":"@.len()) == ",\"okTypeId\":"@,
        dec_run(s, pos + jsa(size, align).len() + ",\"okTypeId\":"@.len(), pos + jsa(size, align).len() + ",\"okTypeId\":"@.len() + dec_digits(ok as nat).len(), ok as nat, usize::MAX as nat),
        pos + jsa(size, align).len() + ",\"okTypeId\":"@.len() + dec_digits(ok as nat).len() <= pos + jsa(size, align).len() + ",\"okTypeId\":"@.len() + dec_digits(ok as nat).len() + ",\"errTypeId\":"@.len() <= q && s.subrange(pos + jsa(size, align).len() + ",\"okTypeId\":"@.len() + dec_digits(ok as nat).len(), pos + jsa(size, align).len() + ",\"okTypeId\":"@.len() + dec_digits(ok as nat).len() + ",\"errTypeId\":"@.len()) == ",\"errTypeId\":"@,
        dec_run(s, pos + jsa(size, align).len() + ",\"okTypeId\":"@.len() + dec_digits(ok as nat).len() + ",\"errTypeId\":"@.len(), pos + jsa(size, align).len() + ",\"okTypeId\":"@.len() + dec_digits(ok as nat).len() + ",\"errTypeId\":"@.len() + dec_digits(err as nat).len(), err as nat, usize::MAX as nat),
        pos + jsa(size, align).len() + ",\"okTypeId\":"@.len() + dec_digits(ok as nat).len() + ",\"errTypeId\":"@.len() + dec_digits(err as nat).len() <= pos + jsa(size, align).len() + ",\"okTypeId\":"@.len() + dec_digits(ok as nat).len() + ",\"errTypeId\":"@.len() + dec_digits(err as nat).len() + "}"@.len() <= q && s.subrange(pos + jsa(size, align).len() + ",\"okTypeId\":"@.len() + dec_digits(ok as nat).len() + ",\"errTypeId\":"@.len() + dec_digits(err as nat).len(), pos + jsa(size, align).len() + ",\"okTypeId\":"@.len() + dec_digits(ok as nat).len() + ",\"errTypeId\":"@.len() + dec_digits(err as nat).len() + "}"@.len()) == "}"@,
        q == pos + jsa(size, align).len() + ",\"okTypeId\":"@.len() + dec_digits(ok as nat).len() + ",\"errTypeId\":"@.len() + dec_digits(err as nat).len() + "}"@.len(),
{
    reveal_strlit(",\"okTypeId\":");
    reveal_strlit(",\"errTypeId\":");
    reveal_strlit("}");
    lemma_digit_chars();
    assert(s.subrange(pos, q).len() == q - pos);
    assert(s.subrange(pos, q) =~= jsa(size, align) + (",\"okTypeId\":"@ + (dec_digits(ok as nat) + (",\"errTypeId\":"@ + (dec_digits(err as nat) + ("}"@))))));
    lemma_take_lit(s, pos, q, jsa(size, align), ",\"okTypeId\":"@ + (dec_digits(ok as nat) + (",\"errTypeId\":"@ + (dec_digits(err as nat) + ("}"@)))));
    assert(s.subrange(pos + jsa(size, align).len(), q)[0] == s[pos + jsa(size, align).len()]);
    assert(s[pos + jsa(size, align).len()] == ",\"okTypeId\":"@[0]);
    lemma_take_lit(s, pos + jsa(size, align).len(), q, ",\"okTypeId\":"@, dec_digits(ok as nat) + (",\"errTypeId\":"@ + (dec_digits(err as nat) + ("}"@))));
    lemma_take_lit(s, pos + jsa(size, align).len() + ",\"okTypeId\":"@.len(), q, dec_digits(ok as nat), ",\"errTypeId\":"@ + (dec_digits(err as nat) + ("}"@)));
    assert(s.subrange(pos + jsa(size, align).len() + ",\"okTypeId\":"@.len() + dec_digits(ok as nat).len(), q)[0] == s[pos + jsa(size, align).len() + ",\"okTypeId\":"@.len() + dec_digits(ok as nat).len()]);
    assert(s[pos + jsa(size, align).len() + ",\"okTypeId\":"@.len() + dec_digits(ok as nat).len()] == ",\"errTypeId\":"@[0]);
    lemma_take_lit(s, pos + jsa(size, align).len() + ",\"okTypeId\":"@.len() + dec_digits(ok as nat).len(), q, ",\"errTypeId\":"@, dec_digits(err as nat) + ("}"@));
    lemma_take_lit(s, pos + jsa(size, align).len() + ",\"okTypeId\":"@.len() + dec_digits(ok as nat).len() + ",\"errTypeId\":"@.len(), q, dec_digits(err as nat), "}"@);
    assert(s.subrange(pos + jsa(size, align).len() + ",\"okTypeId\":"@.len() + dec_digits(ok as nat).len() + ",\"errTypeId\":"@.len() + dec_digits(err as nat).len(), q)[0] == s[pos + jsa(size, align).len() + ",\"okTypeId\":"@.len() + dec_digits(ok as nat).len() + ",\"errTypeId\":"@.len() + dec_digits(err as nat).len()]);
    assert(s[pos + jsa(size, align).len() + ",\"okTypeId\":"@.len() + dec_digits(ok as nat).len() + ",\"errTypeId\":"@.len() + dec_digits(err as nat).len()] == "}"@[0]);
    lemma_take_lit(s, pos + jsa(size, align).len() + ",\"okTypeId\":"@.len() + dec_digits(ok as nat).len() + ",\"errTypeId\":"@.len() + dec_digits(err as nat).len(), q, "}"@, Seq::<char>::empty());
    assert(s.subrange(pos + jsa(size, align).len() + ",\"okTypeId\":"@.len() + dec_digits(ok as nat).len() + ",\"errTypeId\":"@.len() + dec_digits(err as nat).len() + "}"@.len(), q) =~= Seq::<char>::empty());
}


#[verifier::rlimit(100)]
proof fn lemma_enumrest_pieces(s: Seq<char>, pos: int, q: int, ser_name: Seq<char>, size: usize, align: usize, variants: Seq<DefEnumVariant>, tag: DefEnumTag)
    requires
        enumrest_run(s, pos, q, ser_name, size, align, variants, tag),
    ensures
        pos <= pos + ",\"serName\":"@.len() <= q && s.subrange(pos, pos + ",\"serName\":"@.len()) == ",\"serName\":"@,
        jstr_run(s, pos + ",\"serName\":"@.len(), pos + ",\"serName\":"@.len() + jstr(ser_name).len(), ser_name),
        sa_run(s, pos + ",\"serName\":"@.len() + jstr(ser_name).len(), pos + ",\"serName\":"@.len() + jstr(ser_name).len() + jsa(size, align).len(), size, align),
        pos + ",\"serName\":"@.len() + jstr(ser_name).len() + jsa(size, align).len() <= pos + ",\"serName\":"@.len() + jstr(ser_name).len() + jsa(size, align).len() + ",\"variants\":["@.len() <= q && s.subrange(pos + ",\"serName\":"@.len() + jstr(ser_name).len() + jsa(size, align).len(), pos + ",\"serName\":"@.len() + jstr(ser_name).len() + jsa(size, align).len() + ",\"variants\":["@.len()) == ",\"variants\":["@,
        variants_run(s, pos + ",\"serName\":"@.len() + jstr(ser_name).len() + jsa(size, align).len() + ",\"variants\":["@.len(), pos + ",\"serName\":"@.len() + jstr(ser_name).len() + jsa(size, align).len() + ",\"variants\":["@.len() + (jvariants(variants) + "],\"tag\":"@).len(), variants),
        tag_run(s, pos + ",\"serName\":"@.len() + jstr(ser_name).len() + jsa(size, align).len() + ",\"variants\":["@.len() + (jvariants(variants) + "],\"tag\":"@).len(), pos + ",\"serName\":"@.len() + jstr(ser_name).len() + jsa(size, align).len() + ",\"variants\":["@.len() + (jvariants(variants) + "],\"tag\":"@).len() + jtag(tag).len(), tag),
        pos + ",\"serName\":"@.len() + jstr(ser_name).len() + jsa(size, align).len() + ",\"variants\":["@.len() + (jvariants(variants) + "],\"tag\":"@).len() + jtag(tag).len() <= pos + ",\"serName\":"@.len() + jstr(ser_name).len() + jsa(size, align).len() + ",\"variants\":["@.len() + (jvariants(variants) + "],\"tag\":"@).len() + jtag(tag).len() + "}"@.len() <= q && s.subrange(pos + ",\"serName\":"@.len() + jstr(ser_name).len() + jsa(size, align).len() + ",\"variants\":["@.len() + (jvariants(variants) + "],\"tag\":"@).len() + jtag(tag).len(), pos + ",\"serName\":"@.len() + jstr(ser_name).len() + jsa(size, align).len() + ",\"variants\":["@.len() + (jvariants(variants) + "],\"tag\":"@).len() + jtag(tag).len() + "}"@.len()) == "}"@,
        q == pos + ",\"serName\":"@.len() + jstr(ser_name).len() + jsa(size, align).len() + ",\"variants\":["@.len() + (jvariants(variants) + "],\"tag\":"@).len() + jtag(tag).len() + "}"@.len(),
{
    reveal_strlit(",\"serName\":");
    reveal_strlit(",\"variants\":[");
    reveal_strlit("}");
    lemma_digit_chars();
    assert(s.subrange(pos, q).len() == q - pos);
    assert(s.subrange(pos, q) =~= ",\"serName\":"@ + (jstr(ser_name) + (jsa(size, align) + (",\"variants\":["@ + ((jvariants(variants) + "],\"tag\":"@) + (jtag(tag) + ("}"@)))))));
    lemma_take_lit(s, pos, q, ",\"serName\":"@, jstr(ser_name) + (jsa(size, align) + (",\"variants\":["@ + ((jvariants(variants) + "],\"tag\":"@) + (jtag(tag) + ("}"@))))));
    lemma_take_lit(s, pos + ",\"serName\":"@.len(), q, jstr(ser_name), jsa(size, align) + (",\"variants\":["@ + ((jvariants(variants) + "],\"tag\":"@) + (jtag(tag) + ("}"@)))));
    lemma_take_lit(s, pos + ",\"serName\":"@.len() + jstr(ser_name).len(), q, jsa(size, align), ",\"variants\":["@ + ((jvariants(variants) + "],\"tag\":"@) + (jtag(tag) + ("}"@))));
    assert(s.subrange(pos + ",\"serName\":"@.len() + jstr(ser_name).len() + jsa(size, align).len(), q)[0] == s[pos + ",\"serName\":"@.len() + jstr(ser_name).len() + jsa(size, align).len()]);
    assert(s[pos + ",\"serName\":"@.len() + jstr(ser_name).len() + jsa(size, align).len()] == ",\"variants\":["@[0]);
    lemma_take_lit(s, pos + ",\"serName\":"@.len() + jstr(ser_name).len() + jsa(size, align).len(), q, ",\"variants\":["@, (jvariants(variants) + "],\"tag\":"@) + (jtag(tag) + ("}"@)));
    lemma_take_lit(s, pos + ",\"serName\":"@.len() + jstr(ser_name).len() + jsa(size, align).len() + ",\"variants\":["@.len(), q, (jvariants(variants) + "],\"tag\":"@), jtag(tag) + ("}"@));
    lemma_take_lit(s, pos + ",\"serName\":"@.len() + jstr(ser_name).len() + jsa(size, align).len() + ",\"variants\":["@.len() + (jvariants(variants) + "],\"tag\":"@).len(), q, jtag(tag), "}"@);
    lemma_take_lit(s, pos + ",\"serName\":"@.len() + jstr(ser_name).len() + jsa(size, align).len() + ",\"variants\":["@.len() + (jvariants(variants) + "],\"tag\":"@).len() + jtag(tag).len(), q, "}"@, Seq::<char>::empty());
    assert(s.subrange(pos + ",\"serName\":"@.len() + jstr(ser_name).len() + jsa(size, align).len() + ",\"variants\":["@.len() + (jvariants(variants) + "],\"tag\":"@).len() + jtag(tag).len() + "}"@.len(), q) =~= Seq::<char>::empty());
}

#[verifier::rlimit(100)]
fn parse_desc_primitive(s: &Vec<char>, pos: usize) -> (r: Option<(DefType, usize)>)
    ensures
        (r matches Some((d, p)) ==> pos < p <= s@.len() && s@.subrange(pos as int, p as int) == jdesc(d)),
        (forall|d: DefType, q: int| desc_run(s@, pos as int, q, d) && d is Primitive ==> (r matches Some((d2, p)) && desc_like(d2, d) && p == q)),
        (forall|d: DefType, q: int| desc_run(s@, pos as int, q, d) && !(d is Primitive) ==> r is None),
{
    let p1 = match expect(s, pos, "{\"kind\":\"primitive\",\"name\":") {
        Some(p) => p,
        None => {
            proof {
                assert forall|d: DefType, q: int| !(desc_run(s@, pos as int, q, d) && d is Primitive) by {
                    if desc_run(s@, pos as int, q, d) && d is Primitive {
                        lemma_desc_pieces(s@, pos as int, q, d);
                        assert(false);
                    }
                }
            }
            return None;
        },
    };
    let (vname, p2) = match parse_jstring(s, p1) {
        Some(t) => t,
        None => {
            proof {
                reveal_strlit("{\"kind\":\"primitive\",\"name\":");
                assert forall|d: DefType, q: int| !desc_run(s@, pos as int, q, d) by {
                    if desc_run(s@, pos as int, q, d) {
                        lemma_desc_pieces(s@, pos as int, q, d);
                        match d {
                        DefType::Primitive(p) => {
                            assert(false);
                        },
                        DefType::String(p) => {
                            reveal_strlit("{\"kind\":\"string\",\"name\":");
                            assert(s@.subrange(pos as int, pos + "{\"kind\":\"string\",\"name\":"@.len())[9] == s@[pos + 9]);
                            assert(s@.subrange(pos as int, p1 as int)[9] == s@[pos + 9]);
                            assert(false);
                        },
                        DefType::StrSlice(p) => {
                            reveal_strlit("{\"kind\":\"strSlice\",\"name\":");
                            assert(s@.subrange(pos as int, pos + "{\"kind\":\"strSlice\",\"name\":"@.len())[9] == s@[pos + 9]);
                            assert(s@.subrange(pos as int, p1 as int)[9] == s@[pos + 9]);
                            assert(false);
                        },
                        DefType::Str(p) => {
                            reveal_strlit("{\"kind\":\"str\",\"name\":");
                            assert(s@.subrange(pos as int, pos + "{\"kind\":\"str\",\"name\":"@.len())[9] == s@[pos + 9]);
                            assert(s@.subrange(pos as int, p1 as int)[9] == s@[pos + 9]);
                            assert(false);
                        },
                        DefType::Box(p) => {
                            reveal_strlit("{\"kind\":\"box\",\"name\":");
                            assert(s@.subrange(pos as int, pos + "{\"kind\":\"box\",\"name\":"@.len())[9] == s@[pos + 9]);
                            assert(s@.subrange(pos as int, p1 as int)[9] == s@[pos + 9]);
                            assert(false);
                        },
                        DefType::Vec(p) => {
                            reveal_strlit("{\"kind\":\"vec\",\"name\":");
                            assert(s@.subrange(pos as int, pos + "{\"kind\":\"vec\",\"name\":"@.len())[9] == s@[pos + 9]);
                            assert(s@.subrange(pos as int, p1 as int)[9] == s@[pos + 9]);
                            assert(false);
                        },
                        DefType::Option(p) => {
                            reveal_strlit("{\"kind\":\"option\",\"name\":");
                            assert(s@.subrange(pos as int, pos + "{\"kind\":\"option\",\"name\":"@.len())[9] == s@[pos + 9]);
                            assert(s@.subrange(pos as int, p1 as int)[9] == s@[pos + 9]);
                            assert(false);
                        },
                        DefType::PhantomData(p) => {
                            reveal_strlit("{\"kind\":\"phantomData\",\"name\":");
                            assert(s@.subrange(pos as int, pos + "{\"kind\":\"phantomData\",\"name\":"@.len())[10] == s@[pos + 10]);
                            assert(s@.subrange(pos as int, p1 as int)[10] == s@[pos + 10]);
                            assert(false);
                        },
                        DefType::Cell(p) => {
                            reveal_strlit("{\"kind\":\"cell\",\"name\":");
                            assert(s@.subrange(pos as int, pos + "{\"kind\":\"cell\",\"name\":"@.len())[9] == s@[pos + 9]);
                            assert(s@.subrange(pos as int, p1 as int)[9] == s@[pos + 9]);
                            assert(false);
                        },
                        DefType::RefCell(p) => {
                            reveal_strlit("{\"kind\":\"refCell\",\"name\":");
                            assert(s@.subrange(pos as int, pos + "{\"kind\":\"refCell\",\"name\":"@.len())[9] == s@[pos + 9]);
                            assert(s@.subrange(pos as int, p1 as int)[9] == s@[pos + 9]);
                            assert(false);
                        },
                        DefType::Mutex(p) => {
                            reveal_strlit("{\"kind\":\"mutex\",\"name\":");
                            assert(s@.subrange(pos as int, pos + "{\"kind\":\"mutex\",\"name\":"@.len())[9] == s@[pos + 9]);
                            assert(s@.subrange(pos as int, p1 as int)[9] == s@[pos + 9]);
                            assert(false);
                        },
                        DefType::RwLock(p) => {
                            reveal_strlit("{\"kind\":\"rwLock\",\"name\":");
                            assert(s@.subrange(pos as int, pos + "{\"kind\":\"rwLock\",\"name\":"@.len())[9] == s@[pos + 9]);
                            assert(s@.subrange(pos as int, p1 as int)[9] == s@[pos + 9]);
                            assert(false);
                        },
                        DefType::Rc(p) => {
                            reveal_strlit("{\"kind\":\"rc\",\"name\":");
                            assert(s@.subrange(pos as int, pos + "{\"kind\":\"rc\",\"name\":"@.len())[9] == s@[pos + 9]);
                            assert(s@.subrange(pos as int, p1 as int)[9] == s@[pos + 9]);
                            assert(false);
                        },
                        DefType::Arc(p) => {
                            reveal_strlit("{\"kind\":\"arc\",\"name\":");
                            assert(s@.subrange(pos as int, pos + "{\"kind\":\"arc\",\"name\":"@.len())[9] == s@[pos + 9]);
                            assert(s@.subrange(pos as int, p1 as int)[9] == s@[pos + 9]);
                            assert(false);
                        },
                        DefType::Result(p) => {
                            reveal_strlit("{\"kind\":\"result\",\"name\":");
                            assert(s@.subrange(pos as int, pos + "{\"kind\":\"result\",\"name\":"@.len())[9] == s@[pos + 9]);
                            assert(s@.subrange(pos as int, p1 as int)[9] == s@[pos + 9]);
                            assert(false);
                        },
                        DefType::Struct(p) => {
                            reveal_strlit("{\"kind\":\"struct\",\"name\":");
                            assert(s@.subrange(pos as int, pos + "{\"kind\":\"struct\",\"name\":"@.len())[9] == s@[pos + 9]);
                            assert(s@.subrange(pos as int, p1 as int)[9] == s@[pos + 9]);
                            assert(false);
                        },
                        DefType::Enum(p) => {
                            reveal_strlit("{\"kind\":\"enum\",\"name\":");
                            assert(s@.subrange(pos as int, pos + "{\"kind\":\"enum\",\"name\":"@.len())[9] == s@[pos + 9]);
                            assert(s@.subrange(pos as int, p1 as int)[9] == s@[pos + 9]);
                            assert(false);
                        },
                        }
                    }
                }
            }
            return None;
        },
    };
    let (vsize, valign, pz) = match parse_simple_rest(s, p2) {
        Some(t) => t,
        None => {
            proof {
                reveal_strlit("{\"kind\":\"primitive\",\"name\":");
                assert forall|d: DefType, q: int| !desc_run(s@, pos as int, q, d) by {
                    if desc_run(s@, pos as int, q, d) {
                        lemma_desc_pieces(s@, pos as int, q, d);
                        match d {
                        DefType::Primitive(p) => {
                            assert(false);
                        },
                        DefType::String(p) => {
                            reveal_strlit("{\"kind\":\"string\",\"name\":");
                            assert(s@.subrange(pos as int, pos + "{\"kind\":\"string\",\"name\":"@.len())[9] == s@[pos + 9]);
                            assert(s@.subrange(pos as int, p1 as int)[9] == s@[pos + 9]);
                            assert(false);
                        },
                        DefType::StrSlice(p) => {
                            reveal_strlit("{\"kind\":\"strSlice\",\"name\":");
                            assert(s@.subrange(pos as int, pos + "{\"kind\":\"strSlice\",\"name\":"@.len())[9] == s@[pos + 9]);
                            assert(s@.subrange(pos as int, p1 as int)[9] == s@[pos + 9]);
                            assert(false);
                        },
                        DefType::Str(p) => {
                            reveal_strlit("{\"kind\":\"str\",\"name\":");
                            assert(s@.subrange(pos as int, pos + "{\"kind\":\"str\",\"name\":"@.len())[9] == s@[pos + 9]);
                            assert(s@.subrange(pos as int, p1 as int)[9] == s@[pos + 9]);
                            assert(false);
                        },
                        DefType::Box(p) => {
                            reveal_strlit("{\"kind\":\"box\",\"name\":");
                            assert(s@.subrange(pos as int, pos + "{\"kind\":\"box\",\"name\":"@.len())[9] == s@[pos + 9]);
                            assert(s@.subrange(pos as int, p1 as int)[9] == s@[pos + 9]);
                            assert(false);
                        },
                        DefType::Vec(p) => {
                            reveal_strlit("{\"kind\":\"vec\",\"name\":");
                            assert(s@.subrange(pos as int, pos + "{\"kind\":\"vec\",\"name\":"@.len())[9] == s@[pos + 9]);
                            assert(s@.subrange(pos as int, p1 as int)[9] == s@[pos + 9]);
                            assert(false);
                        },
                        DefType::Option(p) => {
                            reveal_strlit("{\"kind\":\"option\",\"name\":");
                            assert(s@.subrange(pos as int, pos + "{\"kind\":\"option\",\"name\":"@.len())[9] == s@[pos + 9]);
                            assert(s@.subrange(pos as int, p1 as int)[9] == s@[pos + 9]);
                            assert(false);
                        },
                        DefType::PhantomData(p) => {
                            reveal_strlit("{\"kind\":\"phantomData\",\"name\":");
                            assert(s@.subrange(pos as int, pos + "{\"kind\":\"phantomData\",\"name\":"@.len())[10] == s@[pos + 10]);
                            assert(s@.subrange(pos as int, p1 as int)[10] == s@[pos + 10]);
                            assert(false);
                        },
                        DefType::Cell(p) => {
                            reveal_strlit("{\"kind\":\"cell\",\"name\":");
                            assert(s@.subrange(pos as int, pos + "{\"kind\":\"cell\",\"name\":"@.len())[9] == s@[pos + 9]);
                            assert(s@.subrange(pos as int, p1 as int)[9] == s@[pos + 9]);
                            assert(false);
                        },
                        DefType::RefCell(p) => {
                            reveal_strlit("{\"kind\":\"refCell\",\"name\":");
                            assert(s@.subrange(pos as int, pos + "{\"kind\":\"refCell\",\"name\":"@.len())[9] == s@[pos + 9]);
                            assert(s@.subrange(pos as int, p1 as int)[9] == s@[pos + 9]);
                            assert(false);
                        },
                        DefType::Mutex(p) => {
                            reveal_strlit("{\"kind\":\"mutex\",\"name\":");
                            assert(s@.subrange(pos as int, pos + "{\"kind\":\"mutex\",\"name\":"@.len())[9] == s@[pos + 9]);
                            assert(s@.subrange(pos as int, p1 as int)[9] == s@[pos + 9]);
                            assert(false);
                        },
                        DefType::RwLock(p) => {
                            reveal_strlit("{\"kind\":\"rwLock\",\"name\":");
                            assert(s@.subrange(pos as int, pos + "{\"kind\":\"rwLock\",\"name\":"@.len())[9] == s@[pos + 9]);
                            assert(s@.subrange(pos as int, p1 as int)[9] == s@[pos + 9]);
                            assert(false);
                        },
                        DefType::Rc(p) => {
                            reveal_strlit("{\"kind\":\"rc\",\"name\":");
                            assert(s@.subrange(pos as int, pos + "{\"kind\":\"rc\",\"name\":"@.len())[9] == s@[pos + 9]);
                            assert(s@.subrange(pos as int, p1 as int)[9] == s@[pos + 9]);
                            assert(false);
                        },
                        DefType::Arc(p) => {
                            reveal_strlit("{\"kind\":\"arc\",\"name\":");
                            assert(s@.subrange(pos as int, pos + "{\"kind\":\"arc\",\"name\":"@.len())[9] == s@[pos + 9]);
                            assert(s@.subrange(pos as int, p1 as int)[9] == s@[pos + 9]);
                            assert(false);
                        },
                        DefType::Result(p) => {
                            reveal_strlit("{\"kind\":\"result\",\"name\":");
                            assert(s@.subrange(pos as int, pos + "{\"kind\":\"result\",\"name\":"@.len())[9] == s@[pos + 9]);
                            assert(s@.subrange(pos as int, p1 as int)[9] == s@[pos + 9]);
                            assert(false);
                        },
                        DefType::Struct(p) => {
                            reveal_strlit("{\"kind\":\"struct\",\"name\":");
                            assert(s@.subrange(pos as int, pos + "{\"kind\":\"struct\",\"name\":"@.len())[9] == s@[pos + 9]);
                            assert(s@.subrange(pos as int, p1 as int)[9] == s@[pos + 9]);
                            assert(false);
                        },
                        DefType::Enum(p) => {
                            reveal_strlit("{\"kind\":\"enum\",\"name\":");
                            assert(s@.subrange(pos as int, pos + "{\"kind\":\"enum\",\"name\":"@.len())[9] == s@[pos + 9]);
                            assert(s@.subrange(pos as int, p1 as int)[9] == s@[pos + 9]);
                            assert(false);
                        },
                        }
                    }
                }
            }
            return None;
        },
    };
    let d0 = DefType::Primitive(DefPrimitive { name: vname, size: vsize, align: valign });
    proof {
        reveal_strlit("{\"kind\":\"primitive\",\"name\":");
        reveal_strlit("{\"kind\":\"");
        reveal_strlit("primitive");
        reveal_strlit("\",\"name\":");
        assert("{\"kind\":\"primitive\",\"name\":"@ =~= "{\"kind\":\""@ + "primitive"@ + "\",\"name\":"@);
        lemma_subrange_concat(s@, pos as int, p1 as int, p2 as int);
        lemma_subrange_concat(s@, pos as int, p2 as int, pz as int);
        assert(s@.subrange(pos as int, pz as int) =~= jdesc(d0));
        assert forall|d: DefType, q: int| desc_run(s@, pos as int, q, d) implies (d is Primitive && desc_like(d0, d) && pz as int == q) by {
            lemma_desc_pieces(s@, pos as int, q, d);
            match d {
            DefType::Primitive(p) => {
            },
            DefType::String(p) => {
                reveal_strlit("{\"kind\":\"string\",\"name\":");
                assert(s@.subrange(pos as int, pos + "{\"kind\":\"string\",\"name\":"@.len())[9] == s@[pos + 9]);
                assert(s@.subrange(pos as int, p1 as int)[9] == s@[pos + 9]);
                assert(false);
            },
            DefType::StrSlice(p) => {
                reveal_strlit("{\"kind\":\"strSlice\",\"name\":");
                assert(s@.subrange(pos as int, pos + "{\"kind\":\"strSlice\",\"name\":"@.len())[9] == s@[pos + 9]);
                assert(s@.subrange(pos as int, p1 as int)[9] == s@[pos + 9]);
                assert(false);
            },
            DefType::Str(p) => {
                reveal_strlit("{\"kind\":\"str\",\"name\":");
                assert(s@.subrange(pos as int, pos + "{\"kind\":\"str\",\"name\":"@.len())[9] == s@[pos + 9]);
                assert(s@.subrange(pos as int, p1 as int)[9] == s@[pos + 9]);
                assert(false);
            },
            DefType::Box(p) => {
                reveal_strlit("{\"kind\":\"box\",\"name\":");
                assert(s@.subrange(pos as int, pos + "{\"kind\":\"box\",\"name\":"@.len())[9] == s@[pos + 9]);
                assert(s@.subrange(pos as int, p1 as int)[9] == s@[pos + 9]);
                assert(false);
            },
            DefType::Vec(p) => {
                reveal_strlit("{\"kind\":\"vec\",\"name\":");
                assert(s@.subrange(pos as int, pos + "{\"kind\":\"vec\",\"name\":"@.len())[9] == s@[pos + 9]);
                assert(s@.subrange(pos as int, p1 as int)[9] == s@[pos + 9]);
                assert(false);
            },
            DefType::Option(p) => {
                reveal_strlit("{\"kind\":\"option\",\"name\":");
                assert(s@.subrange(pos as int, pos + "{\"kind\":\"option\",\"name\":"@.len())[9] == s@[pos + 9]);
                assert(s@.subrange(pos as int, p1 as int)[9] == s@[pos + 9]);
                assert(false);
            },
            DefType::PhantomData(p) => {
                reveal_strlit("{\"kind\":\"phantomData\",\"name\":");
                assert(s@.subrange(pos as int, pos + "{\"kind\":\"phantomData\",\"name\":"@.len())[10] == s@[pos + 10]);
                assert(s@.subrange(pos as int, p1 as int)[10] == s@[pos + 10]);
                assert(false);
            },
            DefType::Cell(p) => {
                reveal_strlit("{\"kind\":\"cell\",\"name\":");
                assert(s@.subrange(pos as int, pos + "{\"kind\":\"cell\",\"name\":"@.len())[9] == s@[pos + 9]);
                assert(s@.subrange(pos as int, p1 as int)[9] == s@[pos + 9]);
                assert(false);
            },
            DefType::RefCell(p) => {
                reveal_strlit("{\"kind\":\"refCell\",\"name\":");
                assert(s@.subrange(pos as int, pos + "{\"kind\":\"refCell\",\"name\":"@.len())[9] == s@[pos + 9]);
                assert(s@.subrange(pos as int, p1 as int)[9] == s@[pos + 9]);
                assert(false);
            },
            DefType::Mutex(p) => {
                reveal_strlit("{\"kind\":\"mutex\",\"name\":");
                assert(s@.subrange(pos as int, pos + "{\"kind\":\"mutex\",\"name\":"@.len())[9] == s@[pos + 9]);
                assert(s@.subrange(pos as int, p1 as int)[9] == s@[pos + 9]);
                assert(false);
            },
            DefType::RwLock(p) => {
                reveal_strlit("{\"kind\":\"rwLock\",\"name\":");
                assert(s@.subrange(pos as int, pos + "{\"kind\":\"rwLock\",\"name\":"@.len())[9] == s@[pos + 9]);
                assert(s@.subrange(pos as int, p1 as int)[9] == s@[pos + 9]);
                assert(false);
            },
            DefType::Rc(p) => {
                reveal_strlit("{\"kind\":\"rc\",\"name\":");
                assert(s@.subrange(pos as int, pos + "{\"kind\":\"rc\",\"name\":"@.len())[9] == s@[pos + 9]);
                assert(s@.subrange(pos as int, p1 as int)[9] == s@[pos + 9]);
                assert(false);
            },
            DefType::Arc(p) => {
                reveal_strlit("{\"kind\":\"arc\",\"name\":");
                assert(s@.subrange(pos as int, pos + "{\"kind\":\"arc\",\"name\":"@.len())[9] == s@[pos + 9]);
                assert(s@.subrange(pos as int, p1 as int)[9] == s@[pos + 9]);
                assert(false);
            },
            DefType::Result(p) => {
                reveal_strlit("{\"kind\":\"result\",\"name\":");
                assert(s@.subrange(pos as int, pos + "{\"kind\":\"result\",\"name\":"@.len())[9] == s@[pos + 9]);
                assert(s@.subrange(pos as int, p1 as int)[9] == s@[pos + 9]);
                assert(false);
            },
            DefType::Struct(p) => {
                reveal_strlit("{\"kind\":\"struct\",\"name\":");
                assert(s@.subrange(pos as int, pos + "{\"kind\":\"struct\",\"name\":"@.len())[9] == s@[pos + 9]);
                assert(s@.subrange(pos as int, p1 as int)[9] == s@[pos + 9]);
                assert(false);
            },
            DefType::Enum(p) => {
                reveal_strlit("{\"kind\":\"enum\",\"name\":");
                assert(s@.subrange(pos as int, pos + "{\"kind\":\"enum\",\"name\":"@.len())[9] == s@[pos + 9]);
                assert(s@.subrange(pos as int, p1 as int)[9] == s@[pos + 9]);
                assert(false);
            },
            }
        }
    }
    Some((d0, pz))
}

#[verifier::rlimit(100)]
fn parse_desc_string(s: &Vec<char>, pos: usize) -> (r: Option<(DefType, usize)>)
    ensures
        (r matches Some((d, p)) ==> pos < p <= s@.len() && s@.subrange(pos as int, p as int) == jdesc(d)),
        (forall|d: DefType, q: int| desc_run(s@, pos as int, q, d) && d is String ==> (r matches Some((d2, p)) && desc_like(d2, d) && p == q)),
        (forall|d: DefType, q: int| desc_run(s@, pos as int, q, d) && !(d is String) ==> r is None),
{
    let p1 = match expect(s, pos, "{\"kind\":\"string\",\"name\":") {
        Some(p) => p,
        None => {
            proof {
                assert forall|d: DefType, q: int| !(desc_run(s@, pos as int, q, d) && d is String) by {
                    if desc_run(s@, pos as int, q, d) && d is String {
                        lemma_desc_pieces(s@, pos as int, q, d);
                        assert(false);
                    }
                }
            }
            return None;
        },
    };
    let (vname, p2) = match parse_jstring(s, p1) {
        Some(t) => t,
        None => {
            proof {
                reveal_strlit("{\"kind\":\"string\",\"name\":");
                assert forall|d: DefType, q: int| !desc_run(s@, pos as int, q, d) by {
                    if desc_run(s@, pos as int, q, d) {
                        lemma_desc_pieces(s@, pos as int, q, d);
                        match d {
                        DefType::String(p) => {
                            assert(false);
                        },
                        DefType::Primitive(p) => {
                            reveal_strlit("{\"kind\":\"primitive\",\"name\":");
                            assert(s@.subrange(pos as int, pos + "{\"kind\":\"primitive\",\"name\":"@.len())[9] == s@[pos + 9]);
                            assert(s@.subrange(pos as int, p1 as int)[9] == s@[pos + 9]);
                            assert(false);
                        },
                        DefType::StrSlice(p) => {
                            reveal_strlit("{\"kind\":\"strSlice\",\"name\":");
                            assert(s@.subrange(pos as int, pos + "{\"kind\":\"strSlice\",\"name\":"@.len())[12] == s@[pos + 12]);
                            assert(s@.subrange(pos as int, p1 as int)[12] == s@[pos + 12]);
                            assert(false);
                        },
                        DefType::Str(p) => {
                            reveal_strlit("{\"kind\":\"str\",\"name\":");
                            assert(s@.subrange(pos as int, pos + "{\"kind\":\"str\",\"name\":"@.len())[12] == s@[pos + 12]);
                            assert(s@.subrange(pos as int, p1 as int)[12] == s@[pos + 12]);
                            assert(false);
                        },
                        DefType::Box(p) => {
                            reveal_strlit("{\"kind\":\"box\",\"name\":");
                            assert(s@.subrange(pos as int, pos + "{\"kind\":\"box\",\"name\":"@.len())[9] == s@[pos + 9]);
                            assert(s@.subrange(pos as int, p1 as int)[9] == s@[pos + 9]);
                            assert(false);
                        },
                        DefType::Vec(p) => {
                            reveal_strlit("{\"kind\":\"vec\",\"name\":");
                            assert(s@.subrange(pos as int, pos + "{\"kind\":\"vec\",\"name\":"@.len())[9] == s@[pos + 9]);
                            assert(s@.subrange(pos as int, p1 as int)[9] == s@[pos + 9]);
                            assert(false);
                        },
                        DefType::Option(p) => {
                            reveal_strlit("{\"kind\":\"option\",\"name\":");
                            assert(s@.subrange(pos as int, pos + "{\"kind\":\"option\",\"name\":"@.len())[9] == s@[pos + 9]);
                            assert(s@.subrange(pos as int, p1 as int)[9] == s@[pos + 9]);
                            assert(false);
                        },
                        DefType::PhantomData(p) => {
                            reveal_strlit("{\"kind\":\"phantomData\",\"name\":");
                            assert(s@.subrange(pos as int, pos + "{\"kind\":\"phantomData\",\"name\":"@.len())[9] == s@[pos + 9]);
                            assert(s@.subrange(pos as int, p1 as int)[9] == s@[pos + 9]);
                            assert(false);
                        },
                        DefType::Cell(p) => {
                            reveal_strlit("{\"kind\":\"cell\",\"name\":");
                            assert(s@.subrange(pos as int, pos + "{\"kind\":\"cell\",\"name\":"@.len())[9] == s@[pos + 9]);
                            assert(s@.subrange(pos as int, p1 as int)[9] == s@[pos + 9]);
                            assert(false);
                        },
                        DefType::RefCell(p) => {
                            reveal_strlit("{\"kind\":\"refCell\",\"name\":");
                            assert(s@.subrange(pos as int, pos + "{\"kind\":\"refCell\",\"name\":"@.len())[9] == s@[pos + 9]);
                            assert(s@.subrange(pos as int, p1 as int)[9] == s@[pos + 9]);
                            assert(false);
                        },
                        DefType::Mutex(p) => {
                            reveal_strlit("{\"kind\":\"mutex\",\"name\":");
                            assert(s@.subrange(pos as int, pos + "{\"kind\":\"mutex\",\"name\":"@.len())[9] == s@[pos + 9]);
                            assert(s@.subrange(pos as int, p1 as int)[9] == s@[pos + 9]);
                            assert(false);
                        },
                        DefType::RwLock(p) => {
                            reveal_strlit("{\"kind\":\"rwLock\",\"name\":");
                            assert(s@.subrange(pos as int, pos + "{\"kind\":\"rwLock\",\"name\":"@.len())[9] == s@[pos + 9]);
                            assert(s@.subrange(pos as int, p1 as int)[9] == s@[pos + 9]);
                            assert(false);
                        },
                        DefType::Rc(p) => {
                            reveal_strlit("{\"kind\":\"rc\",\"name\":");
                            assert(s@.subrange(pos as int, pos + "{\"kind\":\"rc\",\"name\":"@.len())[9] == s@[pos + 9]);
                            assert(s@.subrange(pos as int, p1 as int)[9] == s@[pos + 9]);
                            assert(false);
                        },
                        DefType::Arc(p) => {
                            reveal_strlit("{\"kind\":\"arc\",\"name\":");
                            assert(s@.subrange(pos as int, pos + "{\"kind\":\"arc\",\"name\":"@.len())[9] == s@[pos + 9]);
                            assert(s@.subrange(pos as int, p1 as int)[9] == s@[pos + 9]);
                            assert(false);
                        },
                        DefType::Result(p) => {
                            reveal_strlit("{\"kind\":\"result\",\"name\":");
                            assert(s@.subrange(pos as int, pos + "{\"kind\":\"result\",\"name\":"@.len())[9] == s@[pos + 9]);
                            assert(s@.subrange(pos as int, p1 as int)[9] == s@[pos + 9]);
                            assert(false);
                        },
                        DefType::Struct(p) => {
                            reveal_strlit("{\"kind\":\"struct\",\"name\":");
                            assert(s@.subrange(pos as int, pos + "{\"kind\":\"struct\",\"name\":"@.len())[12] == s@[pos + 12]);
                            assert(s@.subrange(pos as int, p1 as int)[12] == s@[pos + 12]);
                            assert(false);
                        },
                        DefType::Enum(p) => {
                            reveal_strlit("{\"kind\":\"enum\",\"name\":");
                            assert(s@.subrange(pos as int, pos + "{\"kind\":\"enum\",\"name\":"@.len())[9] == s@[pos + 9]);
                            assert(s@.subrange(pos as int, p1 as int)[9] == s@[pos + 9]);
                            assert(false);
                        },
                        }
                    }
                }
            }
            return None;
        },
    };
    let (vsize, valign, pz) = match parse_simple_rest(s, p2) {
        Some(t) => t,
        None => {
            proof {
                reveal_strlit("{\"kind\":\"string\",\"name\":");
                assert forall|d: DefType, q: int| !desc_run(s@, pos as int, q, d) by {
                    if desc_run(s@, pos as int, q, d) {
                        lemma_desc_pieces(s@, pos as int, q, d);
                        match d {
                        DefType::String(p) => {
                            assert(false);
                        },
                        DefType::Primitive(p) => {
                            reveal_strlit("{\"kind\":\"primitive\",\"name\":");
                            assert(s@.subrange(pos as int, pos + "{\"kind\":\"primitive\",\"name\":"@.len())[9] == s@[pos + 9]);
                            assert(s@.subrange(pos as int, p1 as int)[9] == s@[pos + 9]);
                            assert(false);
                        },
                        DefType::StrSlice(p) => {
                            reveal_strlit("{\"kind\":\"strSlice\",\"name\":");
                            assert(s@.subrange(pos as int, pos + "{\"kind\":\"strSlice\",\"name\":"@.len())[12] == s@[pos + 12]);
                            assert(s@.subrange(pos as int, p1 as int)[12] == s@[pos + 12]);
                            assert(false);
                        },
                        DefType::Str(p) => {
                            reveal_strlit("{\"kind\":\"str\",\"name\":");
                            assert(s@.subrange(pos as int, pos + "{\"kind\":\"str\",\"name\":"@.len())[12] == s@[pos + 12]);
                            assert(s@.subrange(pos as int, p1 as int)[12] == s@[pos + 12]);
                            assert(false);
                        },
                        DefType::Box(p) => {
                            reveal_strlit("{\"kind\":\"box\",\"name\":");
                            assert(s@.subrange(pos as int, pos + "{\"kind\":\"box\",\"name\":"@.len())[9] == s@[pos + 9]);
                            assert(s@.subrange(pos as int, p1 as int)[9] == s@[pos + 9]);
                            assert(false);
                        },
                        DefType::Vec(p) => {
                            reveal_strlit("{\"kind\":\"vec\",\"name\":");
                            assert(s@.subrange(pos as int, pos + "{\"kind\":\"vec\",\"name\":"@.len())[9] == s@[pos + 9]);
                            assert(s@.subrange(pos as int, p1 as int)[9] == s@[pos + 9]);
                            assert(false);
                        },
                        DefType::Option(p) => {
                            reveal_strlit("{\"kind\":\"option\",\"name\":");
                            assert(s@.subrange(pos as int, pos + "{\"kind\":\"option\",\"name\":"@.len())[9] == s@[pos + 9]);
                            assert(s@.subrange(pos as int, p1 as int)[9] == s@[pos + 9]);
                            assert(false);
                        },
                        DefType::PhantomData(p) => {
                            reveal_strlit("{\"kind\":\"phantomData\",\"name\":");
                            assert(s@.subrange(pos as int, pos + "{\"kind\":\"phantomData\",\"name\":"@.len())[9] == s@[pos + 9]);
                            assert(s@.subrange(pos as int, p1 as int)[9] == s@[pos + 9]);
                            assert(false);
                        },
                        DefType::Cell(p) => {
                            reveal_strlit("{\"kind\":\"cell\",\"name\":");
                            assert(s@.subrange(pos as int, pos + "{\"kind\":\"cell\",\"name\":"@.len())[9] == s@[pos + 9]);
                            assert(s@.subrange(pos as int, p1 as int)[9] == s@[pos + 9]);
                            assert(false);
                        },
                        DefType::RefCell(p) => {
                            reveal_strlit("{\"kind\":\"refCell\",\"name\":");
                            assert(s@.subrange(pos as int, pos + "{\"kind\":\"refCell\",\"name\":"@.len())[9] == s@[pos + 9]);
                            assert(s@.subrange(pos as int, p1 as int)[9] == s@[pos + 9]);
                            assert(false);
                        },
                        DefType::Mutex(p) => {
                            reveal_strlit("{\"kind\":\"mutex\",\"name\":");
                            assert(s@.subrange(pos as int, pos + "{\"kind\":\"mutex\",\"name\":"@.len())[9] == s@[pos + 9]);
                            assert(s@.subrange(pos as int, p1 as int)[9] == s@[pos + 9]);
                            assert(false);
                        },
                        DefType::RwLock(p) => {
                            reveal_strlit("{\"kind\":\"rwLock\",\"name\":");
                            assert(s@.subrange(pos as int, pos + "{\"kind\":\"rwLock\",\"name\":"@.len())[9] == s@[pos + 9]);
                            assert(s@.subrange(pos as int, p1 as int)[9] == s@[pos + 9]);
                            assert(false);
                        },
                        DefType::Rc(p) => {
                            reveal_strlit("{\"kind\":\"rc\",\"name\":");
                            assert(s@.subrange(pos as int, pos + "{\"kind\":\"rc\",\"name\":"@.len())[9] == s@[pos + 9]);
                            assert(s@.subrange(pos as int, p1 as int)[9] == s@[pos + 9]);
                            assert(false);
                        },
                        DefType::Arc(p) => {
                            reveal_strlit("{\"kind\":\"arc\",\"name\":");
                            assert(s@.subrange(pos as int, pos + "{\"kind\":\"arc\",\"name\":"@.len())[9] == s@[pos + 9]);
                            assert(s@.subrange(pos as int, p1 as int)[9] == s@[pos + 9]);
                            assert(false);
                        },
                        DefType::Result(p) => {
                            reveal_strlit("{\"kind\":\"result\",\"name\":");
                            assert(s@.subrange(pos as int, pos + "{\"kind\":\"result\",\"name\":"@.len())[9] == s@[pos + 9]);
                            assert(s@.subrange(pos as int, p1 as int)[9] == s@[pos + 9]);
                            assert(false);
                        },
                        DefType::Struct(p) => {
                            reveal_strlit("{\"kind\":\"struct\",\"name\":");
                            assert(s@.subrange(pos as int, pos + "{\"kind\":\"struct\",\"name\":"@.len())[12] == s@[pos + 12]);
                            assert(s@.subrange(pos as int, p1 as int)[12] == s@[pos + 12]);
                            assert(false);
                        },
                        DefType::Enum(p) => {
                            reveal_strlit("{\"kind\":\"enum\",\"name\":");
                            assert(s@.subrange(pos as int, pos + "{\"kind\":\"enum\",\"name\":"@.len())[9] == s@[pos + 9]);
                            assert(s@.subrange(pos as int, p1 as int)[9] == s@[pos + 9]);
                            assert(false);
                        },
                        }
                    }
                }
            }
            return None;
        },
    };
    let d0 = DefType::String(DefString { name: vname, size: vsize, align: valign });
    proof {
        reveal_strlit("{\"kind\":\"string\",\"name\":");
        reveal_strlit("{\"kind\":\"");
        reveal_strlit("string");
        reveal_strlit("\",\"name\":");
        assert("{\"kind\":\"string\",\"name\":"@ =~= "{\"kind\":\""@ + "string"@ + "\",\"name\":"@);
        lemma_subrange_concat(s@, pos as int, p1 as int, p2 as int);
        lemma_subrange_concat(s@, pos as int, p2 as int, pz as int);
        assert(s@.subrange(pos as int, pz as int) =~= jdesc(d0));
        assert forall|d: DefType, q: int| desc_run(s@, pos as int, q, d) implies (d is String && desc_like(d0, d) && pz as int == q) by {
            lemma_desc_pieces(s@, pos as int, q, d);
            match d {
            DefType::String(p) => {
            },
            DefType::Primitive(p) => {
                reveal_strlit("{\"kind\":\"primitive\",\"name\":");
                assert(s@.subrange(pos as int, pos + "{\"kind\":\"primitive\",\"name\":"@.len())[9] == s@[pos + 9]);
                assert(s@.subrange(pos as int, p1 as int)[9] == s@[pos + 9]);
                assert(false);
            },
            DefType::StrSlice(p) => {
                reveal_strlit("{\"kind\":\"strSlice\",\"name\":");
                assert(s@.subrange(pos as int, pos + "{\"kind\":\"strSlice\",\"name\":"@.len())[12] == s@[pos + 12]);
                assert(s@.subrange(pos as int, p1 as int)[12] == s@[pos + 12]);
                assert(false);
            },
            DefType::Str(p) => {
                reveal_strlit("{\"kind\":\"str\",\"name\":");
                assert(s@.subrange(pos as int, pos + "{\"kind\":\"str\",\"name\":"@.len())[12] == s@[pos + 12]);
                assert(s@.subrange(pos as int, p1 as int)[12] == s@[pos + 12]);
                assert(false);
            },
            DefType::Box(p) => {
                reveal_strlit("{\"kind\":\"box\",\"name\":");
                assert(s@.subrange(pos as int, pos + "{\"kind\":\"box\",\"name\":"@.len())[9] == s@[pos + 9]);
                assert(s@.subrange(pos as int, p1 as int)[9] == s@[pos + 9]);
                assert(false);
            },
            DefType::Vec(p) => {
                reveal_strlit("{\"kind\":\"vec\",\"name\":");
                assert(s@.subrange(pos as int, pos + "{\"kind\":\"vec\",\"name\":"@.len())[9] == s@[pos + 9]);
                assert(s@.subrange(pos as int, p1 as int)[9] == s@[pos + 9]);
                assert(false);
            },
            DefType::Option(p) => {
                reveal_strlit("{\"kind\":\"option\",\"name\":");
                assert(s@.subrange(pos as int, pos + "{\"kind\":\"option\",\"name\":"@.len())[9] == s@[pos + 9]);
                assert(s@.subrange(pos as int, p1 as int)[9] == s@[pos + 9]);
                assert(false);
            },
            DefType::PhantomData(p) => {
                reveal_strlit("{\"kind\":\"phantomData\",\"name\":");
                assert(s@.subrange(pos as int, pos + "{\"kind\":\"phantomData\",\"name\":"@.len())[9] == s@[pos + 9]);
                assert(s@.subrange(pos as int, p1 as int)[9] == s@[pos + 9]);
                assert(false);
            },
            DefType::Cell(p) => {
                reveal_strlit("{\"kind\":\"cell\",\"name\":");
                assert(s@.subrange(pos as int, pos + "{\"kind\":\"cell\",\"name\":"@.len())[9] == s@[pos + 9]);
                assert(s@.subrange(pos as int, p1 as int)[9] == s@[pos + 9]);
                assert(false);
            },
            DefType::RefCell(p) => {
                reveal_strlit("{\"kind\":\"refCell\",\"name\":");
                assert(s@.subrange(pos as int, pos + "{\"kind\":\"refCell\",\"name\":"@.len())[9] == s@[pos + 9]);
                assert(s@.subrange(pos as int, p1 as int)[9] == s@[pos + 9]);
                assert(false);
            },
            DefType::Mutex(p) => {
                reveal_strlit("{\"kind\":\"mutex\",\"name\":");
                assert(s@.subrange(pos as int, pos + "{\"kind\":\"mutex\",\"name\":"@.len())[9] == s@[pos + 9]);
                assert(s@.subrange(pos as int, p1 as int)[9] == s@[pos + 9]);
                assert(false);
            },
            DefType::RwLock(p) => {
                reveal_strlit("{\"kind\":\"rwLock\",\"name\":");
                assert(s@.subrange(pos as int, pos + "{\"kind\":\"rwLock\",\"name\":"@.len())[9] == s@[pos + 9]);
                assert(s@.subrange(pos as int, p1 as int)[9] == s@[pos + 9]);
                assert(false);
            },
            DefType::Rc(p) => {
                reveal_strlit("{\"kind\":\"rc\",\"name\":");
                assert(s@.subrange(pos as int, pos + "{\"kind\":\"rc\",\"name\":"@.len())[9] == s@[pos + 9]);
                assert(s@.subrange(pos as int, p1 as int)[9] == s@[pos + 9]);
                assert(false);
            },
            DefType::Arc(p) => {
                reveal_strlit("{\"kind\":\"arc\",\"name\":");
                assert(s@.subrange(pos as int, pos + "{\"kind\":\"arc\",\"name\":"@.len())[9] == s@[pos + 9]);
                assert(s@.subrange(pos as int, p1 as int)[9] == s@[pos + 9]);
                assert(false);
            },
            DefType::Result(p) => {
                reveal_strlit("{\"kind\":\"result\",\"name\":");
                assert(s@.subrange(pos as int, pos + "{\"kind\":\"result\",\"name\":"@.len())[9] == s@[pos + 9]);
                assert(s@.subrange(pos as int, p1 as int)[9] == s@[pos + 9]);
                assert(false);
            },
            DefType::Struct(p) => {
                reveal_strlit("{\"kind\":\"struct\",\"name\":");
                assert(s@.subrange(pos as int, pos + "{\"kind\":\"struct\",\"name\":"@.len())[12] == s@[pos + 12]);
                assert(s@.subrange(pos as int, p1 as int)[12] == s@[pos + 12]);
                assert(false);
            },
            DefType::Enum(p) => {
                reveal_strlit("{\"kind\":\"enum\",\"name\":");
                assert(s@.subrange(pos as int, pos + "{\"kind\":\"enum\",\"name\":"@.len())[9] == s@[pos + 9]);
                assert(s@.subrange(pos as int, p1 as int)[9] == s@[pos + 9]);
                assert(false);
            },
            }
        }
    }
    Some((d0, pz))
}

#[verifier::rlimit(100)]
fn parse_desc_strslice(s: &Vec<char>, pos: usize) -> (r: Option<(DefType, usize)>)
    ensures
        (r matches Some((d, p)) ==> pos < p <= s@.len() && s@.subrange(pos as int, p as int) == jdesc(d)),
        (forall|d: DefType, q: int| desc_run(s@, pos as int, q, d) && d is StrSlice ==> (r matches Some((d2, p)) && desc_like(d2, d) && p == q)),
        (forall|d: DefType, q: int| desc_run(s@, pos as int, q, d) && !(d is StrSlice) ==> r is None),
{
    let p1 = match expect(s, pos, "{\"kind\":\"strSlice\",\"name\":") {
        Some(p) => p,
        None => {
            proof {
                assert forall|d: DefType, q: int| !(desc_run(s@, pos as int, q, d) && d is StrSlice) by {
                    if desc_run(s@, pos as int, q, d) && d is StrSlice {
                        lemma_desc_pieces(s@, pos as int, q, d);
                        assert(false);
                    }
                }
            }
            return None;
        },
    };
    let (vname, p2) = match parse_jstring(s, p1) {
        Some(t) => t,
        None => {
            proof {
                reveal_strlit("{\"kind\":\"strSlice\",\"name\":");
                assert forall|d: DefType, q: int| !desc_run(s@, pos as int, q, d) by {
                    if desc_run(s@, pos as int, q, d) {
                        lemma_desc_pieces(s@, pos as int, q, d);
                        match d {
                        DefType::StrSlice(p) => {
                            assert(false);
                        },
                        DefType::Primitive(p) => {
                            reveal_strlit("{\"kind\":\"primitive\",\"name\":");
                            assert(s@.subrange(pos as int, pos + "{\"kind\":\"primitive\",\"name\":"@.len())[9] == s@[pos + 9]);
                            assert(s@.subrange(pos as int, p1 as int)[9] == s@[pos + 9]);
                            assert(false);
                        },
                        DefType::String(p) => {
                            reveal_strlit("{\"kind\":\"string\",\"name\":");
                            assert(s@.subrange(pos as int, pos + "{\"kind\":\"string\",\"name\":"@.len())[12] == s@[pos + 12]);
                            assert(s@.subrange(pos as int, p1 as int)[12] == s@[pos + 12]);
                            assert(false);
                        },
                        DefType::Str(p) => {
                            reveal_strlit("{\"kind\":\"str\",\"name\":");
                            assert(s@.subrange(pos as int, pos + "{\"kind\":\"str\",\"name\":"@.len())[12] == s@[pos + 12]);
                            assert(s@.subrange(pos as int, p1 as int)[12] == s@[pos + 12]);
                            assert(false);
                        },
                        DefType::Box(p) => {
                            reveal_strlit("{\"kind\":\"box\",\"name\":");
                            assert(s@.subrange(pos as int, pos + "{\"kind\":\"box\",\"name\":"@.len())[9] == s@[pos + 9]);
                            assert(s@.subrange(pos as int, p1 as int)[9] == s@[pos + 9]);
                            assert(false);
                        },
                        DefType::Vec(p) => {
                            reveal_strlit("{\"kind\":\"vec\",\"name\":");
                            assert(s@.subrange(pos as int, pos + "{\"kind\":\"vec\",\"name\":"@.len())[9] == s@[pos + 9]);
                            assert(s@.subrange(pos as int, p1 as int)[9] == s@[pos + 9]);
                            assert(false);
                        },
                        DefType::Option(p) => {
                            reveal_strlit("{\"kind\":\"option\",\"name\":");
                            assert(s@.subrange(pos as int, pos + "{\"kind\":\"option\",\"name\":"@.len())[9] == s@[pos + 9]);
                            assert(s@.subrange(pos as int, p1 as int)[9] == s@[pos + 9]);
                            assert(false);
                        },
                        DefType::PhantomData(p) => {
                            reveal_strlit("{\"kind\":\"phantomData\",\"name\":");
                            assert(s@.subrange(pos as int, pos + "{\"kind\":\"phantomData\",\"name\":"@.len())[9] == s@[pos + 9]);
                            assert(s@.subrange(pos as int, p1 as int)[9] == s@[pos + 9]);
                            assert(false);
                        },
                        DefType::Cell(p) => {
                            reveal_strlit("{\"kind\":\"cell\",\"name\":");
                            assert(s@.subrange(pos as int, pos + "{\"kind\":\"cell\",\"name\":"@.len())[9] == s@[pos + 9]);
                            assert(s@.subrange(pos as int, p1 as int)[9] == s@[pos + 9]);
                            assert(false);
                        },
                        DefType::RefCell(p) => {
                            reveal_strlit("{\"kind\":\"refCell\",\"name\":");
                            assert(s@.subrange(pos as int, pos + "{\"kind\":\"refCell\",\"name\":"@.len())[9] == s@[pos + 9]);
                            assert(s@.subrange(pos as int, p1 as int)[9] == s@[pos + 9]);
                            assert(false);
                        },
                        DefType::Mutex(p) => {
                            reveal_strlit("{\"kind\":\"mutex\",\"name\":");
                            assert(s@.subrange(pos as int, pos + "{\"kind\":\"mutex\",\"name\":"@.len())[9] == s@[pos + 9]);
                            assert(s@.subrange(pos as int, p1 as int)[9] == s@[pos + 9]);
                            assert(false);
                        },
                        DefType::RwLock(p) => {
                            reveal_strlit("{\"kind\":\"rwLock\",\"name\":");
                            assert(s@.subrange(pos as int, pos + "{\"kind\":\"rwLock\",\"name\":"@.len())[9] == s@[pos + 9]);
                            assert(s@.subrange(pos as int, p1 as int)[9] == s@[pos + 9]);
                            assert(false);
                        },
                        DefType::Rc(p) => {
                            reveal_strlit("{\"kind\":\"rc\",\"name\":");
                            assert(s@.subrange(pos as int, pos + "{\"kind\":\"rc\",\"name\":"@.len())[9] == s@[pos + 9]);
                            assert(s@.subrange(pos as int, p1 as int)[9] == s@[pos + 9]);
                            assert(false);
                        },
                        DefType::Arc(p) => {
                            reveal_strlit("{\"kind\":\"arc\",\"name\":");
                            assert(s@.subrange(pos as int, pos + "{\"kind\":\"arc\",\"name\":"@.len())[9] == s@[pos + 9]);
                            assert(s@.subrange(pos as int, p1 as int)[9] == s@[pos + 9]);
                            assert(false);
                        },
                        DefType::Result(p) => {
                            reveal_strlit("{\"kind\":\"result\",\"name\":");
                            assert(s@.subrange(pos as int, pos + "{\"kind\":\"result\",\"name\":"@.len())[9] == s@[pos + 9]);
                            assert(s@.subrange(pos as int, p1 as int)[9] == s@[pos + 9]);
                            assert(false);
                        },
                        DefType::Struct(p) => {
                            reveal_strlit("{\"kind\":\"struct\",\"name\":");
                            assert(s@.subrange(pos as int, pos + "{\"kind\":\"struct\",\"name\":"@.len())[12] == s@[pos + 12]);
                            assert(s@.subrange(pos as int, p1 as int)[12] == s@[pos + 12]);
                            assert(false);
                        },
                        DefType::Enum(p) => {
                            reveal_strlit("{\"kind\":\"enum\",\"name\":");
                            assert(s@.subrange(pos as int, pos + "{\"kind\":\"enum\",\"name\":"@.len())[9] == s@[pos + 9]);
                            assert(s@.subrange(pos as int, p1 as int)[9] == s@[pos + 9]);
                            assert(false);
                        },
                        }
                    }
                }
            }
            return None;
        },
    };
    let (vsize, valign, pz) = match parse_simple_rest(s, p2) {
        Some(t) => t,
        None => {
            proof {
                reveal_strlit("{\"kind\":\"strSlice\",\"name\":");
                assert forall|d: DefType, q: int| !desc_run(s@, pos as int, q, d) by {
                    if desc_run(s@, pos as int, q, d) {
                        lemma_desc_pieces(s@, pos as int, q, d);
                        match d {
                        DefType::StrSlice(p) => {
                            assert(false);
                        },
                        DefType::Primitive(p) => {
                            reveal_strlit("{\"kind\":\"primitive\",\"name\":");
                            assert(s@.subrange(pos as int, pos + "{\"kind\":\"primitive\",\"name\":"@.len())[9] == s@[pos + 9]);
                            assert(s@.subrange(pos as int, p1 as int)[9] == s@[pos + 9]);
                            assert(false);
                        },
                        DefType::String(p) => {
                            reveal_strlit("{\"kind\":\"string\",\"name\":");
                            assert(s@.subrange(pos as int, pos + "{\"kind\":\"string\",\"name\":"@.len())[12] == s@[pos + 12]);
                            assert(s@.subrange(pos as int, p1 as int)[12] == s@[pos + 12]);
                            assert(false);
                        },
                        DefType::Str(p) => {
                            reveal_strlit("{\"kind\":\"str\",\"name\":");
                            assert(s@.subrange(pos as int, pos + "{\"kind\":\"str\",\"name\":"@.len())[12] == s@[pos + 12]);
                            assert(s@.subrange(pos as int, p1 as int)[12] == s@[pos + 12]);
                            assert(false);
                        },
                        DefType::Box(p) => {
                            reveal_strlit("{\"kind\":\"box\",\"name\":");
                            assert(s@.subrange(pos as int, pos + "{\"kind\":\"box\",\"name\":"@.len())[9] == s@[pos + 9]);
                            assert(s@.subrange(pos as int, p1 as int)[9] == s@[pos + 9]);
                            assert(false);
                        },
                        DefType::Vec(p) => {
                            reveal_strlit("{\"kind\":\"vec\",\"name\":");
                            assert(s@.subrange(pos as int, pos + "{\"kind\":\"vec\",\"name\":"@.len())[9] == s@[pos + 9]);
                            assert(s@.subrange(pos as int, p1 as int)[9] == s@[pos + 9]);
                            assert(false);
                        },
                        DefType::Option(p) => {
                            reveal_strlit("{\"kind\":\"option\",\"name\":");
                            assert(s@.subrange(pos as int, pos + "{\"kind\":\"option\",\"name\":"@.len())[9] == s@[pos + 9]);
                            assert(s@.subrange(pos as int, p1 as int)[9] == s@[pos + 9]);
                            assert(false);
                        },
                        DefType::PhantomData(p) => {
                            reveal_strlit("{\"kind\":\"phantomData\",\"name\":");
                            assert(s@.subrange(pos as int, pos + "{\"kind\":\"phantomData\",\"name\":"@.len())[9] == s@[pos + 9]);
                            assert(s@.subrange(pos as int, p1 as int)[9] == s@[pos + 9]);
                            assert(false);
                        },
                        DefType::Cell(p) => {
                            reveal_strlit("{\"kind\":\"cell\",\"name\":");
                            assert(s@.subrange(pos as int, pos + "{\"kind\":\"cell\",\"name\":"@.len())[9] == s@[pos + 9]);
                            assert(s@.subrange(pos as int, p1 as int)[9] == s@[pos + 9]);
                            assert(false);
                        },
                        DefType::RefCell(p) => {
                            reveal_strlit("{\"kind\":\"refCell\",\"name\":");
                            assert(s@.subrange(pos as int, pos + "{\"kind\":\"refCell\",\"name\":"@.len())[9] == s@[pos + 9]);
                            assert(s@.subrange(pos as int, p1 as int)[9] == s@[pos + 9]);
                            assert(false);
                        },
                        DefType::Mutex(p) => {
                            reveal_strlit("{\"kind\":\"mutex\",\"name\":");
                            assert(s@.subrange(pos as int, pos + "{\"kind\":\"mutex\",\"name\":"@.len())[9] == s@[pos + 9]);
                            assert(s@.subrange(pos as int, p1 as int)[9] == s@[pos + 9]);
                            assert(false);
                        },
                        DefType::RwLock(p) => {
                            reveal_strlit("{\"kind\":\"rwLock\",\"name\":");
                            assert(s@.subrange(pos as int, pos + "{\"kind\":\"rwLock\",\"name\":"@.len())[9] == s@[pos + 9]);
                            assert(s@.subrange(pos as int, p1 as int)[9] == s@[pos + 9]);
                            assert(false);
                        },
                        DefType::Rc(p) => {
                            reveal_strlit("{\"kind\":\"rc\",\"name\":");
                            assert(s@.subrange(pos as int, pos + "{\"kind\":\"rc\",\"name\":"@.len())[9] == s@[pos + 9]);
                            assert(s@.subrange(pos as int, p1 as int)[9] == s@[pos + 9]);
                            assert(false);
                        },
                        DefType::Arc(p) => {
                            reveal_strlit("{\"kind\":\"arc\",\"name\":");
                            assert(s@.subrange(pos as int, pos + "{\"kind\":\"arc\",\"name\":"@.len())[9] == s@[pos + 9]);
                            assert(s@.subrange(pos as int, p1 as int)[9] == s@[pos + 9]);
                            assert(false);
                        },
                        DefType::Result(p) => {
                            reveal_strlit("{\"kind\":\"result\",\"name\":");
                            assert(s@.subrange(pos as int, pos + "{\"kind\":\"result\",\"name\":"@.len())[9] == s@[pos + 9]);
                            assert(s@.subrange(pos as int, p1 as int)[9] == s@[pos + 9]);
                            assert(false);
                        },
                        DefType::Struct(p) => {
                            reveal_strlit("{\"kind\":\"struct\",\"name\":");
                            assert(s@.subrange(pos as int, pos + "{\"kind\":\"struct\",\"name\":"@.len())[12] == s@[pos + 12]);
                            assert(s@.subrange(pos as int, p1 as int)[12] == s@[pos + 12]);
                            assert(false);
                        },
                        DefType::Enum(p) => {
                            reveal_strlit("{\"kind\":\"enum\",\"name\":");
                            assert(s@.subrange(pos as int, pos + "{\"kind\":\"enum\",\"name\":"@.len())[9] == s@[pos + 9]);
                            assert(s@.subrange(pos as int, p1 as int)[9] == s@[pos + 9]);
                            assert(false);
                        },
                        }
                    }
                }
            }
            return None;
        },
    };
    let d0 = DefType::StrSlice(DefStrSlice { name: vname, size: vsize, align: valign });
    proof {
        reveal_strlit("{\"kind\":\"strSlice\",\"name\":");
        reveal_strlit("{\"kind\":\"");
        reveal_strlit("strSlice");
        reveal_strlit("\",\"name\":");
        assert("{\"kind\":\"strSlice\",\"name\":"@ =~= "{\"kind\":\""@ + "strSlice"@ + "\",\"name\":"@);
        lemma_subrange_concat(s@, pos as int, p1 as int, p2 as int);
        lemma_subrange_concat(s@, pos as int, p2 as int, pz as int);
        assert(s@.subrange(pos as int, pz as int) =~= jdesc(d0));
        assert forall|d: DefType, q: int| desc_run(s@, pos as int, q, d) implies (d is StrSlice && desc_like(d0, d) && pz as int == q) by {
            lemma_desc_pieces(s@, pos as int, q, d);
            match d {
            DefType::StrSlice(p) => {
            },
            DefType::Primitive(p) => {
                reveal_strlit("{\"kind\":\"primitive\",\"name\":");
                assert(s@.subrange(pos as int, pos + "{\"kind\":\"primitive\",\"name\":"@.len())[9] == s@[pos + 9]);
                assert(s@.subrange(pos as int, p1 as int)[9] == s@[pos + 9]);
                assert(false);
            },
            DefType::String(p) => {
                reveal_strlit("{\"kind\":\"string\",\"name\":");
                assert(s@.subrange(pos as int, pos + "{\"kind\":\"string\",\"name\":"@.len())[12] == s@[pos + 12]);
                assert(s@.subrange(pos as int, p1 as int)[12] == s@[pos + 12]);
                assert(false);
            },
            DefType::Str(p) => {
                reveal_strlit("{\"kind\":\"str\",\"name\":");
                assert(s@.subrange(pos as int, pos + "{\"kind\":\"str\",\"name\":"@.len())[12] == s@[pos + 12]);
                assert(s@.subrange(pos as int, p1 as int)[12] == s@[pos + 12]);
                assert(false);
            },
            DefType::Box(p) => {
                reveal_strlit("{\"kind\":\"box\",\"name\":");
                assert(s@.subrange(pos as int, pos + "{\"kind\":\"box\",\"name\":"@.len())[9] == s@[pos + 9]);
                assert(s@.subrange(pos as int, p1 as int)[9] == s@[pos + 9]);
                assert(false);
            },
            DefType::Vec(p) => {
                reveal_strlit("{\"kind\":\"vec\",\"name\":");
                assert(s@.subrange(pos as int, pos + "{\"kind\":\"vec\",\"name\":"@.len())[9] == s@[pos + 9]);
                assert(s@.subrange(pos as int, p1 as int)[9] == s@[pos + 9]);
                assert(false);
            },
            DefType::Option(p) => {
                reveal_strlit("{\"kind\":\"option\",\"name\":");
                assert(s@.subrange(pos as int, pos + "{\"kind\":\"option\",\"name\":"@.len())[9] == s@[pos + 9]);
                assert(s@.subrange(pos as int, p1 as int)[9] == s@[pos + 9]);
                assert(false);
            },
            DefType::PhantomData(p) => {
                reveal_strlit("{\"kind\":\"phantomData\",\"name\":");
                assert(s@.subrange(pos as int, pos + "{\"kind\":\"phantomData\",\"name\":"@.len())[9] == s@[pos + 9]);
                assert(s@.subrange(pos as int, p1 as int)[9] == s@[pos + 9]);
                assert(false);
            },
            DefType::Cell(p) => {
                reveal_strlit("{\"kind\":\"cell\",\"name\":");
                assert(s@.subrange(pos as int, pos + "{\"kind\":\"cell\",\"name\":"@.len())[9] == s@[pos + 9]);
                assert(s@.subrange(pos as int, p1 as int)[9] == s@[pos + 9]);
                assert(false);
            },
            DefType::RefCell(p) => {
                reveal_strlit("{\"kind\":\"refCell\",\"name\":");
                assert(s@.subrange(pos as int, pos + "{\"kind\":\"refCell\",\"name\":"@.len())[9] == s@[pos + 9]);
                assert(s@.subrange(pos as int, p1 as int)[9] == s@[pos + 9]);
                assert(false);
            },
            DefType::Mutex(p) => {
                reveal_strlit("{\"kind\":\"mutex\",\"name\":");
                assert(s@.subrange(pos as int, pos + "{\"kind\":\"mutex\",\"name\":"@.len())[9] == s@[pos + 9]);
                assert(s@.subrange(pos as int, p1 as int)[9] == s@[pos + 9]);
                assert(false);
            },
            DefType::RwLock(p) => {
                reveal_strlit("{\"kind\":\"rwLock\",\"name\":");
                assert(s@.subrange(pos as int, pos + "{\"kind\":\"rwLock\",\"name\":"@.len())[9] == s@[pos + 9]);
                assert(s@.subrange(pos as int, p1 as int)[9] == s@[pos + 9]);
                assert(false);
            },
            DefType::Rc(p) => {
                reveal_strlit("{\"kind\":\"rc\",\"name\":");
                assert(s@.subrange(pos as int, pos + "{\"kind\":\"rc\",\"name\":"@.len())[9] == s@[pos + 9]);
                assert(s@.subrange(pos as int, p1 as int)[9] == s@[pos + 9]);
                assert(false);
            },
            DefType::Arc(p) => {
                reveal_strlit("{\"kind\":\"arc\",\"name\":");
                assert(s@.subrange(pos as int, pos + "{\"kind\":\"arc\",\"name\":"@.len())[9] == s@[pos + 9]);
                assert(s@.subrange(pos as int, p1 as int)[9] == s@[pos + 9]);
                assert(false);
            },
            DefType::Result(p) => {
                reveal_strlit("{\"kind\":\"result\",\"name\":");
                assert(s@.subrange(pos as int, pos + "{\"kind\":\"result\",\"name\":"@.len())[9] == s@[pos + 9]);
                assert(s@.subrange(pos as int, p1 as int)[9] == s@[pos + 9]);
                assert(false);
            },
            DefType::Struct(p) => {
                reveal_strlit("{\"kind\":\"struct\",\"name\":");
                assert(s@.subrange(pos as int, pos + "{\"kind\":\"struct\",\"name\":"@.len())[12] == s@[pos + 12]);
                assert(s@.subrange(pos as int, p1 as int)[12] == s@[pos + 12]);
                assert(false);
            },
            DefType::Enum(p) => {
                reveal_strlit("{\"kind\":\"enum\",\"name\":");
                assert(s@.subrange(pos as int, pos + "{\"kind\":\"enum\",\"name\":"@.len())[9] == s@[pos + 9]);
                assert(s@.subrange(pos as int, p1 as int)[9] == s@[pos + 9]);
                assert(false);
            },
            }
        }
    }
    Some((d0, pz))
}

#[verifier::rlimit(100)]
fn parse_desc_str(s: &Vec<char>, pos: usize) -> (r: Option<(DefType, usize)>)
    ensures
        (r matches Some((d, p)) ==> pos < p <= s@.len() && s@.subrange(pos as int, p as int) == jdesc(d)),
        (forall|d: DefType, q: int| desc_run(s@, pos as int, q, d) && d is Str ==> (r matches Some((d2, p)) && desc_like(d2, d) && p == q)),
        (forall|d: DefType, q: int| desc_run(s@, pos as int, q, d) && !(d is Str) ==> r is None),
{
    let p1 = match expect(s, pos, "{\"kind\":\"str\",\"name\":") {
        Some(p) => p,
        None => {
            proof {
                assert forall|d: DefType, q: int| !(desc_run(s@, pos as int, q, d) && d is Str) by {
                    if desc_run(s@, pos as int, q, d) && d is Str {
                        lemma_desc_pieces(s@, pos as int, q, d);
                        assert(false);
                    }
                }
            }
            return None;
        },
    };
    let (vname, p2) = match parse_jstring(s, p1) {
        Some(t) => t,
        None => {
            proof {
                reveal_strlit("{\"kind\":\"str\",\"name\":");
                assert forall|d: DefType, q: int| !desc_run(s@, pos as int, q, d) by {
                    if desc_run(s@, pos as int, q, d) {
                        lemma_desc_pieces(s@, pos as int, q, d);
                        match d {
                        DefType::Str(p) => {
                            lemma_strd_pieces(s@, pos + "{\"kind\":\"str\",\"name\":"@.len() + jstr(p.name@).len(), q, p.size, p.align);
                            assert(false);
                        },
                        DefType::Primitive(p) => {
                            reveal_strlit("{\"kind\":\"primitive\",\"name\":");
                            assert(s@.subrange(pos as int, pos + "{\"kind\":\"primitive\",\"name\":"@.len())[9] == s@[pos + 9]);
                            assert(s@.subrange(pos as int, p1 as int)[9] == s@[pos + 9]);
                            assert(false);
                        },
                        DefType::String(p) => {
                            reveal_strlit("{\"kind\":\"string\",\"name\":");
                            assert(s@.subrange(pos as int, pos + "{\"kind\":\"string\",\"name\":"@.len())[12] == s@[pos + 12]);
                            assert(s@.subrange(pos as int, p1 as int)[12] == s@[pos + 12]);
                            assert(false);
                        },
                        DefType::StrSlice(p) => {
                            reveal_strlit("{\"kind\":\"strSlice\",\"name\":");
                            assert(s@.subrange(pos as int, pos + "{\"kind\":\"strSlice\",\"name\":"@.len())[12] == s@[pos + 12]);
                            assert(s@.subrange(pos as int, p1 as int)[12] == s@[pos + 12]);
                            assert(false);
                        },
                        DefType::Box(p) => {
                            reveal_strlit("{\"kind\":\"box\",\"name\":");
                            assert(s@.subrange(pos as int, pos + "{\"kind\":\"box\",\"name\":"@.len())[9] == s@[pos + 9]);
                            assert(s@.subrange(pos as int, p1 as int)[9] == s@[pos + 9]);
                            assert(false);
                        },
                        DefType::Vec(p) => {
                            reveal_strlit("{\"kind\":\"vec\",\"name\":");
                            assert(s@.subrange(pos as int, pos + "{\"kind\":\"vec\",\"name\":"@.len())[9] == s@[pos + 9]);
                            assert(s@.subrange(pos as int, p1 as int)[9] == s@[pos + 9]);
                            assert(false);
                        },
                        DefType::Option(p) => {
                            reveal_strlit("{\"kind\":\"option\",\"name\":");
                            assert(s@.subrange(pos as int, pos + "{\"kind\":\"option\",\"name\":"@.len())[9] == s@[pos + 9]);
                            assert(s@.subrange(pos as int, p1 as int)[9] == s@[pos + 9]);
                            assert(false);
                        },
                        DefType::PhantomData(p) => {
                            reveal_strlit("{\"kind\":\"phantomData\",\"name\":");
                            assert(s@.subrange(pos as int, pos + "{\"kind\":\"phantomData\",\"name\":"@.len())[9] == s@[pos + 9]);
                            assert(s@.subrange(pos as int, p1 as int)[9] == s@[pos + 9]);
                            assert(false);
                        },
                        DefType::Cell(p) => {
                            reveal_strlit("{\"kind\":\"cell\",\"name\":");
                            assert(s@.subrange(pos as int, pos + "{\"kind\":\"cell\",\"name\":"@.len())[9] == s@[pos + 9]);
                            assert(s@.subrange(pos as int, p1 as int)[9] == s@[pos + 9]);
                            assert(false);
                        },
                        DefType::RefCell(p) => {
                            reveal_strlit("{\"kind\":\"refCell\",\"name\":");
                            assert(s@.subrange(pos as int, pos + "{\"kind\":\"refCell\",\"name\":"@.len())[9] == s@[pos + 9]);
                            assert(s@.subrange(pos as int, p1 as int)[9] == s@[pos + 9]);
                            assert(false);
                        },
                        DefType::Mutex(p) => {
                            reveal_strlit("{\"kind\":\"mutex\",\"name\":");
                            assert(s@.subrange(pos as int, pos + "{\"kind\":\"mutex\",\"name\":"@.len())[9] == s@[pos + 9]);
                            assert(s@.subrange(pos as int, p1 as int)[9] == s@[pos + 9]);
                            assert(false);
                        },
                        DefType::RwLock(p) => {
                            reveal_strlit("{\"kind\":\"rwLock\",\"name\":");
                            assert(s@.subrange(pos as int, pos + "{\"kind\":\"rwLock\",\"name\":"@.len())[9] == s@[pos + 9]);
                            assert(s@.subrange(pos as int, p1 as int)[9] == s@[pos + 9]);
                            assert(false);
                        },
                        DefType::Rc(p) => {
                            reveal_strlit("{\"kind\":\"rc\",\"name\":");
                            assert(s@.subrange(pos as int, pos + "{\"kind\":\"rc\",\"name\":"@.len())[9] == s@[pos + 9]);
                            assert(s@.subrange(pos as int, p1 as int)[9] == s@[pos + 9]);
                            assert(false);
                        },
                        DefType::Arc(p) => {
                            reveal_strlit("{\"kind\":\"arc\",\"name\":");
                            assert(s@.subrange(pos as int, pos + "{\"kind\":\"arc\",\"name\":"@.len())[9] == s@[pos + 9]);
                            assert(s@.subrange(pos as int, p1 as int)[9] == s@[pos + 9]);
                            assert(false);
                        },
                        DefType::Result(p) => {
                            reveal_strlit("{\"kind\":\"result\",\"name\":");
                            assert(s@.subrange(pos as int, pos + "{\"kind\":\"result\",\"name\":"@.len())[9] == s@[pos + 9]);
                            assert(s@.subrange(pos as int, p1 as int)[9] == s@[pos + 9]);
                            assert(false);
                        },
                        DefType::Struct(p) => {
                            reveal_strlit("{\"kind\":\"struct\",\"name\":");
                            assert(s@.subrange(pos as int, pos + "{\"kind\":\"struct\",\"name\":"@.len())[12] == s@[pos + 12]);
                            assert(s@.subrange(pos as int, p1 as int)[12] == s@[pos + 12]);
                            assert(false);
                        },
                        DefType::Enum(p) => {
                            reveal_strlit("{\"kind\":\"enum\",\"name\":");
                            assert(s@.subrange(pos as int, pos + "{\"kind\":\"enum\",\"name\":"@.len())[9] == s@[pos + 9]);
                            assert(s@.subrange(pos as int, p1 as int)[9] == s@[pos + 9]);
                            assert(false);
                        },
                        }
                    }
                }
            }
            return None;
        },
    };
    let p_a = match expect(s, p2, ",\"size\":") {
        Some(t) => t,
        None => {
            proof {
                reveal_strlit("{\"kind\":\"str\",\"name\":");
                assert forall|d: DefType, q: int| !desc_run(s@, pos as int, q, d) by {
                    if desc_run(s@, pos as int, q, d) {
                        lemma_desc_pieces(s@, pos as int, q, d);
                        match d {
                        DefType::Str(p) => {
                            lemma_strd_pieces(s@, pos + "{\"kind\":\"str\",\"name\":"@.len() + jstr(p.name@).len(), q, p.size, p.align);
                            assert(false);
                        },
                        DefType::Primitive(p) => {
                            reveal_strlit("{\"kind\":\"primitive\",\"name\":");
                            assert(s@.subrange(pos as int, pos + "{\"kind\":\"primitive\",\"name\":"@.len())[9] == s@[pos + 9]);
                            assert(s@.subrange(pos as int, p1 as int)[9] == s@[pos + 9]);
                            assert(false);
                        },
                        DefType::String(p) => {
                            reveal_strlit("{\"kind\":\"string\",\"name\":");
                            assert(s@.subrange(pos as int, pos + "{\"kind\":\"string\",\"name\":"@.len())[12] == s@[pos + 12]);
                            assert(s@.subrange(pos as int, p1 as int)[12] == s@[pos + 12]);
                            assert(false);
                        },
                        DefType::StrSlice(p) => {
                            reveal_strlit("{\"kind\":\"strSlice\",\"name\":");
                            assert(s@.subrange(pos as int, pos + "{\"kind\":\"strSlice\",\"name\":"@.len())[12] == s@[pos + 12]);
                            assert(s@.subrange(pos as int, p1 as int)[12] == s@[pos + 12]);
                            assert(false);
                        },
                        DefType::Box(p) => {
                            reveal_strlit("{\"kind\":\"box\",\"name\":");
                            assert(s@.subrange(pos as int, pos + "{\"kind\":\"box\",\"name\":"@.len())[9] == s@[pos + 9]);
                            assert(s@.subrange(pos as int, p1 as int)[9] == s@[pos + 9]);
                            assert(false);
                        },
                        DefType::Vec(p) => {
                            reveal_strlit("{\"kind\":\"vec\",\"name\":");
                            assert(s@.subrange(pos as int, pos + "{\"kind\":\"vec\",\"name\":"@.len())[9] == s@[pos + 9]);
                            assert(s@.subrange(pos as int, p1 as int)[9] == s@[pos + 9]);
                            assert(false);
                        },
                        DefType::Option(p) => {
                            reveal_strlit("{\"kind\":\"option\",\"name\":");
                            assert(s@.subrange(pos as int, pos + "{\"kind\":\"option\",\"name\":"@.len())[9] == s@[pos + 9]);
                            assert(s@.subrange(pos as int, p1 as int)[9] == s@[pos + 9]);
                            assert(false);
                        },
                        DefType::PhantomData(p) => {
                            reveal_strlit("{\"kind\":\"phantomData\",\"name\":");
                            assert(s@.subrange(pos as int, pos + "{\"kind\":\"phantomData\",\"name\":"@.len())[9] == s@[pos + 9]);
                            assert(s@.subrange(pos as int, p1 as int)[9] == s@[pos + 9]);
                            assert(false);
                        },
                        DefType::Cell(p) => {
                            reveal_strlit("{\"kind\":\"cell\",\"name\":");
                            assert(s@.subrange(pos as int, pos + "{\"kind\":\"cell\",\"name\":"@.len())[9] == s@[pos + 9]);
                            assert(s@.subrange(pos as int, p1 as int)[9] == s@[pos + 9]);
                            assert(false);
                        },
                        DefType::RefCell(p) => {
                            reveal_strlit("{\"kind\":\"refCell\",\"name\":");
                            assert(s@.subrange(pos as int, pos + "{\"kind\":\"refCell\",\"name\":"@.len())[9] == s@[pos + 9]);
                            assert(s@.subrange(pos as int, p1 as int)[9] == s@[pos + 9]);
                            assert(false);
                        },
                        DefType::Mutex(p) => {
                            reveal_strlit("{\"kind\":\"mutex\",\"name\":");
                            assert(s@.subrange(pos as int, pos + "{\"kind\":\"mutex\",\"name\":"@.len())[9] == s@[pos + 9]);
                            assert(s@.subrange(pos as int, p1 as int)[9] == s@[pos + 9]);
                            assert(false);
                        },
                        DefType::RwLock(p) => {
                            reveal_strlit("{\"kind\":\"rwLock\",\"name\":");
                            assert(s@.subrange(pos as int, pos + "{\"kind\":\"rwLock\",\"name\":"@.len())[9] == s@[pos + 9]);
                            assert(s@.subrange(pos as int, p1 as int)[9] == s@[pos + 9]);
                            assert(false);
                        },
                        DefType::Rc(p) => {
                            reveal_strlit("{\"kind\":\"rc\",\"name\":");
                            assert(s@.subrange(pos as int, pos + "{\"kind\":\"rc\",\"name\":"@.len())[9] == s@[pos + 9]);
                            assert(s@.subrange(pos as int, p1 as int)[9] == s@[pos + 9]);
                            assert(false);
                        },
                        DefType::Arc(p) => {
                            reveal_strlit("{\"kind\":\"arc\",\"name\":");
                            assert(s@.subrange(pos as int, pos + "{\"kind\":\"arc\",\"name\":"@.len())[9] == s@[pos + 9]);
                            assert(s@.subrange(pos as int, p1 as int)[9] == s@[pos + 9]);
                            assert(false);
                        },
                        DefType::Result(p) => {
                            reveal_strlit("{\"kind\":\"result\",\"name\":");
                            assert(s@.subrange(pos as int, pos + "{\"kind\":\"result\",\"name\":"@.len())[9] == s@[pos + 9]);
                            assert(s@.subrange(pos as int, p1 as int)[9] == s@[pos + 9]);
                            assert(false);
                        },
                        DefType::Struct(p) => {
                            reveal_strlit("{\"kind\":\"struct\",\"name\":");
                            assert(s@.subrange(pos as int, pos + "{\"kind\":\"struct\",\"name\":"@.len())[12] == s@[pos + 12]);
                            assert(s@.subrange(pos as int, p1 as int)[12] == s@[pos + 12]);
                            assert(false);
                        },
                        DefType::Enum(p) => {
                            reveal_strlit("{\"kind\":\"enum\",\"name\":");
                            assert(s@.subrange(pos as int, pos + "{\"kind\":\"enum\",\"name\":"@.len())[9] == s@[pos + 9]);
                            assert(s@.subrange(pos as int, p1 as int)[9] == s@[pos + 9]);
                            assert(false);
                        },
                        }
                    }
                }
            }
            return None;
        },
    };
    let (vsize, p_b) = match parse_opt_usize(s, p_a) {
        Some(t) => t,
        None => {
            proof {
                reveal_strlit("{\"kind\":\"str\",\"name\":");
                assert forall|d: DefType, q: int| !desc_run(s@, pos as int, q, d) by {
                    if desc_run(s@, pos as int, q, d) {
                        lemma_desc_pieces(s@, pos as int, q, d);
                        match d {
                        DefType::Str(p) => {
                            lemma_strd_pieces(s@, pos + "{\"kind\":\"str\",\"name\":"@.len() + jstr(p.name@).len(), q, p.size, p.align);
                            assert(false);
                        },
                        DefType::Primitive(p) => {
                            reveal_strlit("{\"kind\":\"primitive\",\"name\":");
                            assert(s@.subrange(pos as int, pos + "{\"kind\":\"primitive\",\"name\":"@.len())[9] == s@[pos + 9]);
                            assert(s@.subrange(pos as int, p1 as int)[9] == s@[pos + 9]);
                            assert(false);
                        },
                        DefType::String(p) => {
                            reveal_strlit("{\"kind\":\"string\",\"name\":");
                            assert(s@.subrange(pos as int, pos + "{\"kind\":\"string\",\"name\":"@.len())[12] == s@[pos + 12]);
                            assert(s@.subrange(pos as int, p1 as int)[12] == s@[pos + 12]);
                            assert(false);
                        },
                        DefType::StrSlice(p) => {
                            reveal_strlit("{\"kind\":\"strSlice\",\"name\":");
                            assert(s@.subrange(pos as int, pos + "{\"kind\":\"strSlice\",\"name\":"@.len())[12] == s@[pos + 12]);
                            assert(s@.subrange(pos as int, p1 as int)[12] == s@[pos + 12]);
                            assert(false);
                        },
                        DefType::Box(p) => {
                            reveal_strlit("{\"kind\":\"box\",\"name\":");
                            assert(s@.subrange(pos as int, pos + "{\"kind\":\"box\",\"name\":"@.len())[9] == s@[pos + 9]);
                            assert(s@.subrange(pos as int, p1 as int)[9] == s@[pos + 9]);
                            assert(false);
                        },
                        DefType::Vec(p) => {
                            reveal_strlit("{\"kind\":\"vec\",\"name\":");
                            assert(s@.subrange(pos as int, pos + "{\"kind\":\"vec\",\"name\":"@.len())[9] == s@[pos + 9]);
                            assert(s@.subrange(pos as int, p1 as int)[9] == s@[pos + 9]);
                            assert(false);
                        },
                        DefType::Option(p) => {
                            reveal_strlit("{\"kind\":\"option\",\"name\":");
                            assert(s@.subrange(pos as int, pos + "{\"kind\":\"option\",\"name\":"@.len())[9] == s@[pos + 9]);
                            assert(s@.subrange(pos as int, p1 as int)[9] == s@[pos + 9]);
                            assert(false);
                        },
                        DefType::PhantomData(p) => {
                            reveal_strlit("{\"kind\":\"phantomData\",\"name\":");
                            assert(s@.subrange(pos as int, pos + "{\"kind\":\"phantomData\",\"name\":"@.len())[9] == s@[pos + 9]);
                            assert(s@.subrange(pos as int, p1 as int)[9] == s@[pos + 9]);
                            assert(false);
                        },
                        DefType::Cell(p) => {
                            reveal_strlit("{\"kind\":\"cell\",\"name\":");
                            assert(s@.subrange(pos as int, pos + "{\"kind\":\"cell\",\"name\":"@.len())[9] == s@[pos + 9]);
                            assert(s@.subrange(pos as int, p1 as int)[9] == s@[pos + 9]);
                            assert(false);
                        },
                        DefType::RefCell(p) => {
                            reveal_strlit("{\"kind\":\"refCell\",\"name\":");
                            assert(s@.subrange(pos as int, pos + "{\"kind\":\"refCell\",\"name\":"@.len())[9] == s@[pos + 9]);
                            assert(s@.subrange(pos as int, p1 as int)[9] == s@[pos + 9]);
                            assert(false);
                        },
                        DefType::Mutex(p) => {
                            reveal_strlit("{\"kind\":\"mutex\",\"name\":");
                            assert(s@.subrange(pos as int, pos + "{\"kind\":\"mutex\",\"name\":"@.len())[9] == s@[pos + 9]);
                            assert(s@.subrange(pos as int, p1 as int)[9] == s@[pos + 9]);
                            assert(false);
                        },
                        DefType::RwLock(p) => {
                            reveal_strlit("{\"kind\":\"rwLock\",\"name\":");
                            assert(s@.subrange(pos as int, pos + "{\"kind\":\"rwLock\",\"name\":"@.len())[9] == s@[pos + 9]);
                            assert(s@.subrange(pos as int, p1 as int)[9] == s@[pos + 9]);
                            assert(false);
                        },
                        DefType::Rc(p) => {
                            reveal_strlit("{\"kind\":\"rc\",\"name\":");
                            assert(s@.subrange(pos as int, pos + "{\"kind\":\"rc\",\"name\":"@.len())[9] == s@[pos + 9]);
                            assert(s@.subrange(pos as int, p1 as int)[9] == s@[pos + 9]);
                            assert(false);
                        },
                        DefType::Arc(p) => {
                            reveal_strlit("{\"kind\":\"arc\",\"name\":");
                            assert(s@.subrange(pos as int, pos + "{\"kind\":\"arc\",\"name\":"@.len())[9] == s@[pos + 9]);
                            assert(s@.subrange(pos as int, p1 as int)[9] == s@[pos + 9]);
                            assert(false);
                        },
                        DefType::Result(p) => {
                            reveal_strlit("{\"kind\":\"result\",\"name\":");
                            assert(s@.subrange(pos as int, pos + "{\"kind\":\"result\",\"name\":"@.len())[9] == s@[pos + 9]);
                            assert(s@.subrange(pos as int, p1 as int)[9] == s@[pos + 9]);
                            assert(false);
                        },
                        DefType::Struct(p) => {
                            reveal_strlit("{\"kind\":\"struct\",\"name\":");
                            assert(s@.subrange(pos as int, pos + "{\"kind\":\"struct\",\"name\":"@.len())[12] == s@[pos + 12]);
                            assert(s@.subrange(pos as int, p1 as int)[12] == s@[pos + 12]);
                            assert(false);
                        },
                        DefType::Enum(p) => {
                            reveal_strlit("{\"kind\":\"enum\",\"name\":");
                            assert(s@.subrange(pos as int, pos + "{\"kind\":\"enum\",\"name\":"@.len())[9] == s@[pos + 9]);
                            assert(s@.subrange(pos as int, p1 as int)[9] == s@[pos + 9]);
                            assert(false);
                        },
                        }
                    }
                }
            }
            return None;
        },
    };
    let p_c = match expect(s, p_b, ",\"align\":") {
        Some(t) => t,
        None => {
            proof {
                reveal_strlit("{\"kind\":\"str\",\"name\":");
                assert forall|d: DefType, q: int| !desc_run(s@, pos as int, q, d) by {
                    if desc_run(s@, pos as int, q, d) {
                        lemma_desc_pieces(s@, pos as int, q, d);
                        match d {
                        DefType::Str(p) => {
                            lemma_strd_pieces(s@, pos + "{\"kind\":\"str\",\"name\":"@.len() + jstr(p.name@).len(), q, p.size, p.align);
                            assert(false);
                        },
                        DefType::Primitive(p) => {
                            reveal_strlit("{\"kind\":\"primitive\",\"name\":");
                            assert(s@.subrange(pos as int, pos + "{\"kind\":\"primitive\",\"name\":"@.len())[9] == s@[pos + 9]);
                            assert(s@.subrange(pos as int, p1 as int)[9] == s@[pos + 9]);
                            assert(false);
                        },
                        DefType::String(p) => {
                            reveal_strlit("{\"kind\":\"string\",\"name\":");
                            assert(s@.subrange(pos as int, pos + "{\"kind\":\"string\",\"name\":"@.len())[12] == s@[pos + 12]);
                            assert(s@.subrange(pos as int, p1 as int)[12] == s@[pos + 12]);
                            assert(false);
                        },
                        DefType::StrSlice(p) => {
                            reveal_strlit("{\"kind\":\"strSlice\",\"name\":");
                            assert(s@.subrange(pos as int, pos + "{\"kind\":\"strSlice\",\"name\":"@.len())[12] == s@[pos + 12]);
                            assert(s@.subrange(pos as int, p1 as int)[12] == s@[pos + 12]);
                            assert(false);
                        },
                        DefType::Box(p) => {
                            reveal_strlit("{\"kind\":\"box\",\"name\":");
                            assert(s@.subrange(pos as int, pos + "{\"kind\":\"box\",\"name\":"@.len())[9] == s@[pos + 9]);
                            assert(s@.subrange(pos as int, p1 as int)[9] == s@[pos + 9]);
                            assert(false);
                        },
                        DefType::Vec(p) => {
                            reveal_strlit("{\"kind\":\"vec\",\"name\":");
                            assert(s@.subrange(pos as int, pos + "{\"kind\":\"vec\",\"name\":"@.len())[9] == s@[pos + 9]);
                            assert(s@.subrange(pos as int, p1 as int)[9] == s@[pos + 9]);
                            assert(false);
                        },
                        DefType::Option(p) => {
                            reveal_strlit("{\"kind\":\"option\",\"name\":");
                            assert(s@.subrange(pos as int, pos + "{\"kind\":\"option\",\"name\":"@.len())[9] == s@[pos + 9]);
                            assert(s@.subrange(pos as int, p1 as int)[9] == s@[pos + 9]);
                            assert(false);
                        },
                        DefType::PhantomData(p) => {
                            reveal_strlit("{\"kind\":\"phantomData\",\"name\":");
                            assert(s@.subrange(pos as int, pos + "{\"kind\":\"phantomData\",\"name\":"@.len())[9] == s@[pos + 9]);
                            assert(s@.subrange(pos as int, p1 as int)[9] == s@[pos + 9]);
                            assert(false);
                        },
                        DefType::Cell(p) => {
                            reveal_strlit("{\"kind\":\"cell\",\"name\":");
                            assert(s@.subrange(pos as int, pos + "{\"kind\":\"cell\",\"name\":"@.len())[9] == s@[pos + 9]);
                            assert(s@.subrange(pos as int, p1 as int)[9] == s@[pos + 9]);
                            assert(false);
                        },
                        DefType::RefCell(p) => {
                            reveal_strlit("{\"kind\":\"refCell\",\"name\":");
                            assert(s@.subrange(pos as int, pos + "{\"kind\":\"refCell\",\"name\":"@.len())[9] == s@[pos + 9]);
                            assert(s@.subrange(pos as int, p1 as int)[9] == s@[pos + 9]);
                            assert(false);
                        },
                        DefType::Mutex(p) => {
                            reveal_strlit("{\"kind\":\"mutex\",\"name\":");
                            assert(s@.subrange(pos as int, pos + "{\"kind\":\"mutex\",\"name\":"@.len())[9] == s@[pos + 9]);
                            assert(s@.subrange(pos as int, p1 as int)[9] == s@[pos + 9]);
                            assert(false);
                        },
                        DefType::RwLock(p) => {
                            reveal_strlit("{\"kind\":\"rwLock\",\"name\":");
                            assert(s@.subrange(pos as int, pos + "{\"kind\":\"rwLock\",\"name\":"@.len())[9] == s@[pos + 9]);
                            assert(s@.subrange(pos as int, p1 as int)[9] == s@[pos + 9]);
                            assert(false);
                        },
                        DefType::Rc(p) => {
                            reveal_strlit("{\"kind\":\"rc\",\"name\":");
                            assert(s@.subrange(pos as int, pos + "{\"kind\":\"rc\",\"name\":"@.len())[9] == s@[pos + 9]);
                            assert(s@.subrange(pos as int, p1 as int)[9] == s@[pos + 9]);
                            assert(false);
                        },
                        DefType::Arc(p) => {
                            reveal_strlit("{\"kind\":\"arc\",\"name\":");
                            assert(s@.subrange(pos as int, pos + "{\"kind\":\"arc\",\"name\":"@.len())[9] == s@[pos + 9]);
                            assert(s@.subrange(pos as int, p1 as int)[9] == s@[pos + 9]);
                            assert(false);
                        },
                        DefType::Result(p) => {
                            reveal_strlit("{\"kind\":\"result\",\"name\":");
                            assert(s@.subrange(pos as int, pos + "{\"kind\":\"result\",\"name\":"@.len())[9] == s@[pos + 9]);
                            assert(s@.subrange(pos as int, p1 as int)[9] == s@[pos + 9]);
                            assert(false);
                        },
                        DefType::Struct(p) => {
                            reveal_strlit("{\"kind\":\"struct\",\"name\":");
                            assert(s@.subrange(pos as int, pos + "{\"kind\":\"struct\",\"name\":"@.len())[12] == s@[pos + 12]);
                            assert(s@.subrange(pos as int, p1 as int)[12] == s@[pos + 12]);
                            assert(false);
                        },
                        DefType::Enum(p) => {
                            reveal_strlit("{\"kind\":\"enum\",\"name\":");
                            assert(s@.subrange(pos as int, pos + "{\"kind\":\"enum\",\"name\":"@.len())[9] == s@[pos + 9]);
                            assert(s@.subrange(pos as int, p1 as int)[9] == s@[pos + 9]);
                            assert(false);
                        },
                        }
                    }
                }
            }
            return None;
        },
    };
    let (valign, pz) = match parse_usize(s, p_c) {
        Some(t) => t,
        None => {
            proof {
                reveal_strlit("{\"kind\":\"str\",\"name\":");
                assert forall|d: DefType, q: int| !desc_run(s@, pos as int, q, d) by {
                    if desc_run(s@, pos as int, q, d) {
                        lemma_desc_pieces(s@, pos as int, q, d);
                        match d {
                        DefType::Str(p) => {
                            lemma_strd_pieces(s@, pos + "{\"kind\":\"str\",\"name\":"@.len() + jstr(p.name@).len(), q, p.size, p.align);
                            assert(false);
                        },
                        DefType::Primitive(p) => {
                            reveal_strlit("{\"kind\":\"primitive\",\"name\":");
                            assert(s@.subrange(pos as int, pos + "{\"kind\":\"primitive\",\"name\":"@.len())[9] == s@[pos + 9]);
                            assert(s@.subrange(pos as int, p1 as int)[9] == s@[pos + 9]);
                            assert(false);
                        },
                        DefType::String(p) => {
                            reveal_strlit("{\"kind\":\"string\",\"name\":");
                            assert(s@.subrange(pos as int, pos + "{\"kind\":\"string\",\"name\":"@.len())[12] == s@[pos + 12]);
                            assert(s@.subrange(pos as int, p1 as int)[12] == s@[pos + 12]);
                            assert(false);
                        },
                        DefType::StrSlice(p) => {
                            reveal_strlit("{\"kind\":\"strSlice\",\"name\":");
                            assert(s@.subrange(pos as int, pos + "{\"kind\":\"strSlice\",\"name\":"@.len())[12] == s@[pos + 12]);
                            assert(s@.subrange(pos as int, p1 as int)[12] == s@[pos + 12]);
                            assert(false);
                        },
                        DefType::Box(p) => {
                            reveal_strlit("{\"kind\":\"box\",\"name\":");
                            assert(s@.subrange(pos as int, pos + "{\"kind\":\"box\",\"name\":"@.len())[9] == s@[pos + 9]);
                            assert(s@.subrange(pos as int, p1 as int)[9] == s@[pos + 9]);
                            assert(false);
                        },
                        DefType::Vec(p) => {
                            reveal_strlit("{\"kind\":\"vec\",\"name\":");
                            assert(s@.subrange(pos as int, pos + "{\"kind\":\"vec\",\"name\":"@.len())[9] == s@[pos + 9]);
                            assert(s@.subrange(pos as int, p1 as int)[9] == s@[pos + 9]);
                            assert(false);
                        },
                        DefType::Option(p) => {
                            reveal_strlit("{\"kind\":\"option\",\"name\":");
                            assert(s@.subrange(pos as int, pos + "{\"kind\":\"option\",\"name\":"@.len())[9] == s@[pos + 9]);
                            assert(s@.subrange(pos as int, p1 as int)[9] == s@[pos + 9]);
                            assert(false);
                        },
                        DefType::PhantomData(p) => {
                            reveal_strlit("{\"kind\":\"phantomData\",\"name\":");
                            assert(s@.subrange(pos as int, pos + "{\"kind\":\"phantomData\",\"name\":"@.len())[9] == s@[pos + 9]);
                            assert(s@.subrange(pos as int, p1 as int)[9] == s@[pos + 9]);
                            assert(false);
                        },
                        DefType::Cell(p) => {
                            reveal_strlit("{\"kind\":\"cell\",\"name\":");
                            assert(s@.subrange(pos as int, pos + "{\"kind\":\"cell\",\"name\":"@.len())[9] == s@[pos + 9]);
                            assert(s@.subrange(pos as int, p1 as int)[9] == s@[pos + 9]);
                            assert(false);
                        },
                        DefType::RefCell(p) => {
                            reveal_strlit("{\"kind\":\"refCell\",\"name\":");
                            assert(s@.subrange(pos as int, pos + "{\"kind\":\"refCell\",\"name\":"@.len())[9] == s@[pos + 9]);
                            assert(s@.subrange(pos as int, p1 as int)[9] == s@[pos + 9]);
                            assert(false);
                        },
                        DefType::Mutex(p) => {
                            reveal_strlit("{\"kind\":\"mutex\",\"name\":");
                            assert(s@.subrange(pos as int, pos + "{\"kind\":\"mutex\",\"name\":"@.len())[9] == s@[pos + 9]);
                            assert(s@.subrange(pos as int, p1 as int)[9] == s@[pos + 9]);
                            assert(false);
                        },
                        DefType::RwLock(p) => {
                            reveal_strlit("{\"kind\":\"rwLock\",\"name\":");
                            assert(s@.subrange(pos as int, pos + "{\"kind\":\"rwLock\",\"name\":"@.len())[9] == s@[pos + 9]);
                            assert(s@.subrange(pos as int, p1 as int)[9] == s@[pos + 9]);
                            assert(false);
                        },
                        DefType::Rc(p) => {
                            reveal_strlit("{\"kind\":\"rc\",\"name\":");
                            assert(s@.subrange(pos as int, pos + "{\"kind\":\"rc\",\"name\":"@.len())[9] == s@[pos + 9]);
                            assert(s@.subrange(pos as int, p1 as int)[9] == s@[pos + 9]);
                            assert(false);
                        },
                        DefType::Arc(p) => {
                            reveal_strlit("{\"kind\":\"arc\",\"name\":");
                            assert(s@.subrange(pos as int, pos + "{\"kind\":\"arc\",\"name\":"@.len())[9] == s@[pos + 9]);
                            assert(s@.subrange(pos as int, p1 as int)[9] == s@[pos + 9]);
                            assert(false);
                        },
                        DefType::Result(p) => {
                            reveal_strlit("{\"kind\":\"result\",\"name\":");
                            assert(s@.subrange(pos as int, pos + "{\"kind\":\"result\",\"name\":"@.len())[9] == s@[pos + 9]);
                            assert(s@.subrange(pos as int, p1 as int)[9] == s@[pos + 9]);
                            assert(false);
                        },
                        DefType::Struct(p) => {
                            reveal_strlit("{\"kind\":\"struct\",\"name\":");
                            assert(s@.subrange(pos as int, pos + "{\"kind\":\"struct\",\"name\":"@.len())[12] == s@[pos + 12]);
                            assert(s@.subrange(pos as int, p1 as int)[12] == s@[pos + 12]);
                            assert(false);
                        },
                        DefType::Enum(p) => {
                            reveal_strlit("{\"kind\":\"enum\",\"name\":");
                            assert(s@.subrange(pos as int, pos + "{\"kind\":\"enum\",\"name\":"@.len())[9] == s@[pos + 9]);
                            assert(s@.subrange(pos as int, p1 as int)[9] == s@[pos + 9]);
                            assert(false);
                        },
                        }
                    }
                }
            }
            return None;
        },
    };
    let pz2 = match expect(s, pz, "}") {
        Some(t) => t,
        None => {
            proof {
                reveal_strlit("{\"kind\":\"str\",\"name\":");
                assert forall|d: DefType, q: int| !desc_run(s@, pos as int, q, d) by {
                    if desc_run(s@, pos as int, q, d) {
                        lemma_desc_pieces(s@, pos as int, q, d);
                        match d {
                        DefType::Str(p) => {
                            lemma_strd_pieces(s@, pos + "{\"kind\":\"str\",\"name\":"@.len() + jstr(p.name@).len(), q, p.size, p.align);
                            assert(false);
                        },
                        DefType::Primitive(p) => {
                            reveal_strlit("{\"kind\":\"primitive\",\"name\":");
                            assert(s@.subrange(pos as int, pos + "{\"kind\":\"primitive\",\"name\":"@.len())[9] == s@[pos + 9]);
                            assert(s@.subrange(pos as int, p1 as int)[9] == s@[pos + 9]);
                            assert(false);
                        },
                        DefType::String(p) => {
                            reveal_strlit("{\"kind\":\"string\",\"name\":");
                            assert(s@.subrange(pos as int, pos + "{\"kind\":\"string\",\"name\":"@.len())[12] == s@[pos + 12]);
                            assert(s@.subrange(pos as int, p1 as int)[12] == s@[pos + 12]);
                            assert(false);
                        },
                        DefType::StrSlice(p) => {
                            reveal_strlit("{\"kind\":\"strSlice\",\"name\":");
                            assert(s@.subrange(pos as int, pos + "{\"kind\":\"strSlice\",\"name\":"@.len())[12] == s@[pos + 12]);
                            assert(s@.subrange(pos as int, p1 as int)[12] == s@[pos + 12]);
                            assert(false);
                        },
                        DefType::Box(p) => {
                            reveal_strlit("{\"kind\":\"box\",\"name\":");
                            assert(s@.subrange(pos as int, pos + "{\"kind\":\"box\",\"name\":"@.len())[9] == s@[pos + 9]);
                            assert(s@.subrange(pos as int, p1 as int)[9] == s@[pos + 9]);
                            assert(false);
                        },
                        DefType::Vec(p) => {
                            reveal_strlit("{\"kind\":\"vec\",\"name\":");
                            assert(s@.subrange(pos as int, pos + "{\"kind\":\"vec\",\"name\":"@.len())[9] == s@[pos + 9]);
                            assert(s@.subrange(pos as int, p1 as int)[9] == s@[pos + 9]);
                            assert(false);
                        },
                        DefType::Option(p) => {
                            reveal_strlit("{\"kind\":\"option\",\"name\":");
                            assert(s@.subrange(pos as int, pos + "{\"kind\":\"option\",\"name\":"@.len())[9] == s@[pos + 9]);
                            assert(s@.subrange(pos as int, p1 as int)[9] == s@[pos + 9]);
                            assert(false);
                        },
                        DefType::PhantomData(p) => {
                            reveal_strlit("{\"kind\":\"phantomData\",\"name\":");
                            assert(s@.subrange(pos as int, pos + "{\"kind\":\"phantomData\",\"name\":"@.len())[9] == s@[pos + 9]);
                            assert(s@.subrange(pos as int, p1 as int)[9] == s@[pos + 9]);
                            assert(false);
                        },
                        DefType::Cell(p) => {
                            reveal_strlit("{\"kind\":\"cell\",\"name\":");
                            assert(s@.subrange(pos as int, pos + "{\"kind\":\"cell\",\"name\":"@.len())[9] == s@[pos + 9]);
                            assert(s@.subrange(pos as int, p1 as int)[9] == s@[pos + 9]);
                            assert(false);
                        },
                        DefType::RefCell(p) => {
                            reveal_strlit("{\"kind\":\"refCell\",\"name\":");
                            assert(s@.subrange(pos as int, pos + "{\"kind\":\"refCell\",\"name\":"@.len())[9] == s@[pos + 9]);
                            assert(s@.subrange(pos as int, p1 as int)[9] == s@[pos + 9]);
                            assert(false);
                        },
                        DefType::Mutex(p) => {
                            reveal_strlit("{\"kind\":\"mutex\",\"name\":");
                            assert(s@.subrange(pos as int, pos + "{\"kind\":\"mutex\",\"name\":"@.len())[9] == s@[pos + 9]);
                            assert(s@.subrange(pos as int, p1 as int)[9] == s@[pos + 9]);
                            assert(false);
                        },
                        DefType::RwLock(p) => {
                            reveal_strlit("{\"kind\":\"rwLock\",\"name\":");
                            assert(s@.subrange(pos as int, pos + "{\"kind\":\"rwLock\",\"name\":"@.len())[9] == s@[pos + 9]);
                            assert(s@.subrange(pos as int, p1 as int)[9] == s@[pos + 9]);
                            assert(false);
                        },
                        DefType::Rc(p) => {
                            reveal_strlit("{\"kind\":\"rc\",\"name\":");
                            assert(s@.subrange(pos as int, pos + "{\"kind\":\"rc\",\"name\":"@.len())[9] == s@[pos + 9]);
                            assert(s@.subrange(pos as int, p1 as int)[9] == s@[pos + 9]);
                            assert(false);
                        },
                        DefType::Arc(p) => {
                            reveal_strlit("{\"kind\":\"arc\",\"name\":");
                            assert(s@.subrange(pos as int, pos + "{\"kind\":\"arc\",\"name\":"@.len())[9] == s@[pos + 9]);
                            assert(s@.subrange(pos as int, p1 as int)[9] == s@[pos + 9]);
                            assert(false);
                        },
                        DefType::Result(p) => {
                            reveal_strlit("{\"kind\":\"result\",\"name\":");
                            assert(s@.subrange(pos as int, pos + "{\"kind\":\"result\",\"name\":"@.len())[9] == s@[pos + 9]);
                            assert(s@.subrange(pos as int, p1 as int)[9] == s@[pos + 9]);
                            assert(false);
                        },
                        DefType::Struct(p) => {
                            reveal_strlit("{\"kind\":\"struct\",\"name\":");
                            assert(s@.subrange(pos as int, pos + "{\"kind\":\"struct\",\"name\":"@.len())[12] == s@[pos + 12]);
                            assert(s@.subrange(pos as int, p1 as int)[12] == s@[pos + 12]);
                            assert(false);
                        },
                        DefType::Enum(p) => {
                            reveal_strlit("{\"kind\":\"enum\",\"name\":");
                            assert(s@.subrange(pos as int, pos + "{\"kind\":\"enum\",\"name\":"@.len())[9] == s@[pos + 9]);
                            assert(s@.subrange(pos as int, p1 as int)[9] == s@[pos + 9]);
                            assert(false);
                        },
                        }
                    }
                }
            }
            return None;
        },
    };
    let d0 = DefType::Str(DefStr { name: vname, size: vsize, align: valign });
    proof {
        reveal_strlit("{\"kind\":\"str\",\"name\":");
        reveal_strlit("{\"kind\":\"");
        reveal_strlit("str");
        reveal_strlit("\",\"name\":");
        assert("{\"kind\":\"str\",\"name\":"@ =~= "{\"kind\":\""@ + "str"@ + "\",\"name\":"@);
        lemma_subrange_concat(s@, pos as int, p1 as int, p2 as int);
        lemma_subrange_concat(s@, pos as int, p2 as int, p_a as int);
        lemma_subrange_concat(s@, pos as int, p_a as int, p_b as int);
        lemma_subrange_concat(s@, pos as int, p_b as int, p_c as int);
        lemma_subrange_concat(s@, pos as int, p_c as int, pz as int);
        lemma_subrange_concat(s@, pos as int, pz as int, pz2 as int);
        assert(s@.subrange(pos as int, pz2 as int) =~= jdesc(d0));
        assert forall|d: DefType, q: int| desc_run(s@, pos as int, q, d) implies (d is Str && desc_like(d0, d) && pz2 as int == q) by {
            lemma_desc_pieces(s@, pos as int, q, d);
            match d {
            DefType::Str(p) => {
                lemma_strd_pieces(s@, pos + "{\"kind\":\"str\",\"name\":"@.len() + jstr(p.name@).len(), q, p.size, p.align);
            },
            DefType::Primitive(p) => {
                reveal_strlit("{\"kind\":\"primitive\",\"name\":");
                assert(s@.subrange(pos as int, pos + "{\"kind\":\"primitive\",\"name\":"@.len())[9] == s@[pos + 9]);
                assert(s@.subrange(pos as int, p1 as int)[9] == s@[pos + 9]);
                assert(false);
            },
            DefType::String(p) => {
                reveal_strlit("{\"kind\":\"string\",\"name\":");
                assert(s@.subrange(pos as int, pos + "{\"kind\":\"string\",\"name\":"@.len())[12] == s@[pos + 12]);
                assert(s@.subrange(pos as int, p1 as int)[12] == s@[pos + 12]);
                assert(false);
            },
            DefType::StrSlice(p) => {
                reveal_strlit("{\"kind\":\"strSlice\",\"name\":");
                assert(s@.subrange(pos as int, pos + "{\"kind\":\"strSlice\",\"name\":"@.len())[12] == s@[pos + 12]);
                assert(s@.subrange(pos as int, p1 as int)[12] == s@[pos + 12]);
                assert(false);
            },
            DefType::Box(p) => {
                reveal_strlit("{\"kind\":\"box\",\"name\":");
                assert(s@.subrange(pos as int, pos + "{\"kind\":\"box\",\"name\":"@.len())[9] == s@[pos + 9]);
                assert(s@.subrange(pos as int, p1 as int)[9] == s@[pos + 9]);
                assert(false);
            },
            DefType::Vec(p) => {
                reveal_strlit("{\"kind\":\"vec\",\"name\":");
                assert(s@.subrange(pos as int, pos + "{\"kind\":\"vec\",\"name\":"@.len())[9] == s@[pos + 9]);
                assert(s@.subrange(pos as int, p1 as int)[9] == s@[pos + 9]);
                assert(false);
            },
            DefType::Option(p) => {
                reveal_strlit("{\"kind\":\"option\",\"name\":");
                assert(s@.subrange(pos as int, pos + "{\"kind\":\"option\",\"name\":"@.len())[9] == s@[pos + 9]);
                assert(s@.subrange(pos as int, p1 as int)[9] == s@[pos + 9]);
                assert(false);
            },
            DefType::PhantomData(p) => {
                reveal_strlit("{\"kind\":\"phantomData\",\"name\":");
                assert(s@.subrange(pos as int, pos + "{\"kind\":\"phantomData\",\"name\":"@.len())[9] == s@[pos + 9]);
                assert(s@.subrange(pos as int, p1 as int)[9] == s@[pos + 9]);
                assert(false);
            },
            DefType::Cell(p) => {
                reveal_strlit("{\"kind\":\"cell\",\"name\":");
                assert(s@.subrange(pos as int, pos + "{\"kind\":\"cell\",\"name\":"@.len())[9] == s@[pos + 9]);
                assert(s@.subrange(pos as int, p1 as int)[9] == s@[pos + 9]);
                assert(false);
            },
            DefType::RefCell(p) => {
                reveal_strlit("{\"kind\":\"refCell\",\"name\":");
                assert(s@.subrange(pos as int, pos + "{\"kind\":\"refCell\",\"name\":"@.len())[9] == s@[pos + 9]);
                assert(s@.subrange(pos as int, p1 as int)[9] == s@[pos + 9]);
                assert(false);
            },
            DefType::Mutex(p) => {
                reveal_strlit("{\"kind\":\"mutex\",\"name\":");
                assert(s@.subrange(pos as int, pos + "{\"kind\":\"mutex\",\"name\":"@.len())[9] == s@[pos + 9]);
                assert(s@.subrange(pos as int, p1 as int)[9] == s@[pos + 9]);
                assert(false);
            },
            DefType::RwLock(p) => {
                reveal_strlit("{\"kind\":\"rwLock\",\"name\":");
                assert(s@.subrange(pos as int, pos + "{\"kind\":\"rwLock\",\"name\":"@.len())[9] == s@[pos + 9]);
                assert(s@.subrange(pos as int, p1 as int)[9] == s@[pos + 9]);
                assert(false);
            },
            DefType::Rc(p) => {
                reveal_strlit("{\"kind\":\"rc\",\"name\":");
                assert(s@.subrange(pos as int, pos + "{\"kind\":\"rc\",\"name\":"@.len())[9] == s@[pos + 9]);
                assert(s@.subrange(pos as int, p1 as int)[9] == s@[pos + 9]);
                assert(false);
            },
            DefType::Arc(p) => {
                reveal_strlit("{\"kind\":\"arc\",\"name\":");
                assert(s@.subrange(pos as int, pos + "{\"kind\":\"arc\",\"name\":"@.len())[9] == s@[pos + 9]);
                assert(s@.subrange(pos as int, p1 as int)[9] == s@[pos + 9]);
                assert(false);
            },
            DefType::Result(p) => {
                reveal_strlit("{\"kind\":\"result\",\"name\":");
                assert(s@.subrange(pos as int, pos + "{\"kind\":\"result\",\"name\":"@.len())[9] == s@[pos + 9]);
                assert(s@.subrange(pos as int, p1 as int)[9] == s@[pos + 9]);
                assert(false);
            },
            DefType::Struct(p) => {
                reveal_strlit("{\"kind\":\"struct\",\"name\":");
                assert(s@.subrange(pos as int, pos + "{\"kind\":\"struct\",\"name\":"@.len())[12] == s@[pos + 12]);
                assert(s@.subrange(pos as int, p1 as int)[12] == s@[pos + 12]);
                assert(false);
            },
            DefType::Enum(p) => {
                reveal_strlit("{\"kind\":\"enum\",\"name\":");
                assert(s@.subrange(pos as int, pos + "{\"kind\":\"enum\",\"name\":"@.len())[9] == s@[pos + 9]);
                assert(s@.subrange(pos as int, p1 as int)[9] == s@[pos + 9]);
                assert(false);
            },
            }
        }
    }
    Some((d0, pz2))
}

#[verifier::rlimit(100)]
fn parse_desc_box(s: &Vec<char>, pos: usize) -> (r: Option<(DefType, usize)>)
    ensures
        (r matches Some((d, p)) ==> pos < p <= s@.len() && s@.subrange(pos as int, p as int) == jdesc(d)),
        (forall|d: DefType, q: int| desc_run(s@, pos as int, q, d) && d is Box ==> (r matches Some((d2, p)) && desc_like(d2, d) && p == q)),
        (forall|d: DefType, q: int| desc_run(s@, pos as int, q, d) && !(d is Box) ==> r is None),
{
    let p1 = match expect(s, pos, "{\"kind\":\"box\",\"name\":") {
        Some(p) => p,
        None => {
            proof {
                assert forall|d: DefType, q: int| !(desc_run(s@, pos as int, q, d) && d is Box) by {
                    if desc_run(s@, pos as int, q, d) && d is Box {
                        lemma_desc_pieces(s@, pos as int, q, d);
                        assert(false);
                    }
                }
            }
            return None;
        },
    };
    let (vname, p2) = match parse_jstring(s, p1) {
        Some(t) => t,
        None => {
            proof {
                reveal_strlit("{\"kind\":\"box\",\"name\":");
                assert forall|d: DefType, q: int| !desc_run(s@, pos as int, q, d) by {
                    if desc_run(s@, pos as int, q, d) {
                        lemma_desc_pieces(s@, pos as int, q, d);
                        match d {
                        DefType::Box(p) => {
                            assert(false);
                        },
                        DefType::Primitive(p) => {
                            reveal_strlit("{\"kind\":\"primitive\",\"name\":");
                            assert(s@.subrange(pos as int, pos + "{\"kind\":\"primitive\",\"name\":"@.len())[9] == s@[pos + 9]);
                            assert(s@.subrange(pos as int, p1 as int)[9] == s@[pos + 9]);
                            assert(false);
                        },
                        DefType::String(p) => {
                            reveal_strlit("{\"kind\":\"string\",\"name\":");
                            assert(s@.subrange(pos as int, pos + "{\"kind\":\"string\",\"name\":"@.len())[9] == s@[pos + 9]);
                            assert(s@.subrange(pos as int, p1 as int)[9] == s@[pos + 9]);
                            assert(false);
                        },
                        DefType::StrSlice(p) => {
                            reveal_strlit("{\"kind\":\"strSlice\",\"name\":");
                            assert(s@.subrange(pos as int, pos + "{\"kind\":\"strSlice\",\"name\":"@.len())[9] == s@[pos + 9]);
                            assert(s@.subrange(pos as int, p1 as int)[9] == s@[pos + 9]);
                            assert(false);
                        },
                        DefType::Str(p) => {
                            reveal_strlit("{\"kind\":\"str\",\"name\":");
                            assert(s@.subrange(pos as int, pos + "{\"kind\":\"str\",\"name\":"@.len())[9] == s@[pos + 9]);
                            assert(s@.subrange(pos as int, p1 as int)[9] == s@[pos + 9]);
                            assert(false);
                        },
                        DefType::Vec(p) => {
                            reveal_strlit("{\"kind\":\"vec\",\"name\":");
                            assert(s@.subrange(pos as int, pos + "{\"kind\":\"vec\",\"name\":"@.len())[9] == s@[pos + 9]);
                            assert(s@.subrange(pos as int, p1 as int)[9] == s@[pos + 9]);
                            assert(false);
                        },
                        DefType::Option(p) => {
                            reveal_strlit("{\"kind\":\"option\",\"name\":");
                            assert(s@.subrange(pos as int, pos + "{\"kind\":\"option\",\"name\":"@.len())[9] == s@[pos + 9]);
                            assert(s@.subrange(pos as int, p1 as int)[9] == s@[pos + 9]);
                            assert(false);
                        },
                        DefType::PhantomData(p) => {
                            reveal_strlit("{\"kind\":\"phantomData\",\"name\":");
                            assert(s@.subrange(pos as int, pos + "{\"kind\":\"phantomData\",\"name\":"@.len())[9] == s@[pos + 9]);
                            assert(s@.subrange(pos as int, p1 as int)[9] == s@[pos + 9]);
                            assert(false);
                        },
                        DefType::Cell(p) => {
                            reveal_strlit("{\"kind\":\"cell\",\"name\":");
                            assert(s@.subrange(pos as int, pos + "{\"kind\":\"cell\",\"name\":"@.len())[9] == s@[pos + 9]);
                            assert(s@.subrange(pos as int, p1 as int)[9] == s@[pos + 9]);
                            assert(false);
                        },
                        DefType::RefCell(p) => {
                            reveal_strlit("{\"kind\":\"refCell\",\"name\":");
                            assert(s@.subrange(pos as int, pos + "{\"kind\":\"refCell\",\"name\":"@.len())[9] == s@[pos + 9]);
                            assert(s@.subrange(pos as int, p1 as int)[9] == s@[pos + 9]);
                            assert(false);
                        },
                        DefType::Mutex(p) => {
                            reveal_strlit("{\"kind\":\"mutex\",\"name\":");
                            assert(s@.subrange(pos as int, pos + "{\"kind\":\"mutex\",\"name\":"@.len())[9] == s@[pos + 9]);
                            assert(s@.subrange(pos as int, p1 as int)[9] == s@[pos + 9]);
                            assert(false);
                        },
                        DefType::RwLock(p) => {
                            reveal_strlit("{\"kind\":\"rwLock\",\"name\":");
                            assert(s@.subrange(pos as int, pos + "{\"kind\":\"rwLock\",\"name\":"@.len())[9] == s@[pos + 9]);
                            assert(s@.subrange(pos as int, p1 as int)[9] == s@[pos + 9]);
                            assert(false);
                        },
                        DefType::Rc(p) => {
                            reveal_strlit("{\"kind\":\"rc\",\"name\":");
                            assert(s@.subrange(pos as int, pos + "{\"kind\":\"rc\",\"name\":"@.len())[9] == s@[pos + 9]);
                            assert(s@.subrange(pos as int, p1 as int)[9] == s@[pos + 9]);
                            assert(false);
                        },
                        DefType::Arc(p) => {
                            reveal_strlit("{\"kind\":\"arc\",\"name\":");
                            assert(s@.subrange(pos as int, pos + "{\"kind\":\"arc\",\"name\":"@.len())[9] == s@[pos + 9]);
                            assert(s@.subrange(pos as int, p1 as int)[9] == s@[pos + 9]);
                            assert(false);
                        },
                        DefType::Result(p) => {
                            reveal_strlit("{\"kind\":\"result\",\"name\":");
                            assert(s@.subrange(pos as int, pos + "{\"kind\":\"result\",\"name\":"@.len())[9] == s@[pos + 9]);
                            assert(s@.subrange(pos as int, p1 as int)[9] == s@[pos + 9]);
                            assert(false);
                        },
                        DefType::Struct(p) => {
                            reveal_strlit("{\"kind\":\"struct\",\"name\":");
                            assert(s@.subrange(pos as int, pos + "{\"kind\":\"struct\",\"name\":"@.len())[9] == s@[pos + 9]);
                            assert(s@.subrange(pos as int, p1 as int)[9] == s@[pos + 9]);
                            assert(false);
                        },
                        DefType::Enum(p) => {
                            reveal_strlit("{\"kind\":\"enum\",\"name\":");
                            assert(s@.subrange(pos as int, pos + "{\"kind\":\"enum\",\"name\":"@.len())[9] == s@[pos + 9]);
                            assert(s@.subrange(pos as int, p1 as int)[9] == s@[pos + 9]);
                            assert(false);
                        },
                        }
                    }
                }
            }
            return None;
        },
    };
    let (vsize, valign, vid, pz) = match parse_wrap_rest(s, p2) {
        Some(t) => t,
        None => {
            proof {
                reveal_strlit("{\"kind\":\"box\",\"name\":");
                assert forall|d: DefType, q: int| !desc_run(s@, pos as int, q, d) by {
                    if desc_run(s@, pos as int, q, d) {
                        lemma_desc_pieces(s@, pos as int, q, d);
                        match d {
                        DefType::Box(p) => {
                            assert(false);
                        },
                        DefType::Primitive(p) => {
                            reveal_strlit("{\"kind\":\"primitive\",\"name\":");
                            assert(s@.subrange(pos as int, pos + "{\"kind\":\"primitive\",\"name\":"@.len())[9] == s@[pos + 9]);
                            assert(s@.subrange(pos as int, p1 as int)[9] == s@[pos + 9]);
                            assert(false);
                        },
                        DefType::String(p) => {
                            reveal_strlit("{\"kind\":\"string\",\"name\":");
                            assert(s@.subrange(pos as int, pos + "{\"kind\":\"string\",\"name\":"@.len())[9] == s@[pos + 9]);
                            assert(s@.subrange(pos as int, p1 as int)[9] == s@[pos + 9]);
                            assert(false);
                        },
                        DefType::StrSlice(p) => {
                            reveal_strlit("{\"kind\":\"strSlice\",\"name\":");
                            assert(s@.subrange(pos as int, pos + "{\"kind\":\"strSlice\",\"name\":"@.len())[9] == s@[pos + 9]);
                            assert(s@.subrange(pos as int, p1 as int)[9] == s@[pos + 9]);
                            assert(false);
                        },
                        DefType::Str(p) => {
                            reveal_strlit("{\"kind\":\"str\",\"name\":");
                            assert(s@.subrange(pos as int, pos + "{\"kind\":\"str\",\"name\":"@.len())[9] == s@[pos + 9]);
                            assert(s@.subrange(pos as int, p1 as int)[9] == s@[pos + 9]);
                            assert(false);
                        },
                        DefType::Vec(p) => {
                            reveal_strlit("{\"kind\":\"vec\",\"name\":");
                            assert(s@.subrange(pos as int, pos + "{\"kind\":\"vec\",\"name\":"@.len())[9] == s@[pos + 9]);
                            assert(s@.subrange(pos as int, p1 as int)[9] == s@[pos + 9]);
                            assert(false);
                        },
                        DefType::Option(p) => {
                            reveal_strlit("{\"kind\":\"option\",\"name\":");
                            assert(s@.subrange(pos as int, pos + "{\"kind\":\"option\",\"name\":"@.len())[9] == s@[pos + 9]);
                            assert(s@.subrange(pos as int, p1 as int)[9] == s@[pos + 9]);
                            assert(false);
                        },
                        DefType::PhantomData(p) => {
                            reveal_strlit("{\"kind\":\"phantomData\",\"name\":");
                            assert(s@.subrange(pos as int, pos + "{\"kind\":\"phantomData\",\"name\":"@.len())[9] == s@[pos + 9]);
                            assert(s@.subrange(pos as int, p1 as int)[9] == s@[pos + 9]);
                            assert(false);
                        },
                        DefType::Cell(p) => {
                            reveal_strlit("{\"kind\":\"cell\",\"name\":");
                            assert(s@.subrange(pos as int, pos + "{\"kind\":\"cell\",\"name\":"@.len())[9] == s@[pos + 9]);
                            assert(s@.subrange(pos as int, p1 as int)[9] == s@[pos + 9]);
                            assert(false);
                        },
                        DefType::RefCell(p) => {
                            reveal_strlit("{\"kind\":\"refCell\",\"name\":");
                            assert(s@.subrange(pos as int, pos + "{\"kind\":\"refCell\",\"name\":"@.len())[9] == s@[pos + 9]);
                            assert(s@.subrange(pos as int, p1 as int)[9] == s@[pos + 9]);
                            assert(false);
                        },
                        DefType::Mutex(p) => {
                            reveal_strlit("{\"kind\":\"mutex\",\"name\":");
                            assert(s@.subrange(pos as int, pos + "{\"kind\":\"mutex\",\"name\":"@.len())[9] == s@[pos + 9]);
                            assert(s@.subrange(pos as int, p1 as int)[9] == s@[pos + 9]);
                            assert(false);
                        },
                        DefType::RwLock(p) => {
                            reveal_strlit("{\"kind\":\"rwLock\",\"name\":");
                            assert(s@.subrange(pos as int, pos + "{\"kind\":\"rwLock\",\"name\":"@.len())[9] == s@[pos + 9]);
                            assert(s@.subrange(pos as int, p1 as int)[9] == s@[pos + 9]);
                            assert(false);
                        },
                        DefType::Rc(p) => {
                            reveal_strlit("{\"kind\":\"rc\",\"name\":");
                            assert(s@.subrange(pos as int, pos + "{\"kind\":\"rc\",\"name\":"@.len())[9] == s@[pos + 9]);
                            assert(s@.subrange(pos as int, p1 as int)[9] == s@[pos + 9]);
                            assert(false);
                        },
                        DefType::Arc(p) => {
                            reveal_strlit("{\"kind\":\"arc\",\"name\":");
                            assert(s@.subrange(pos as int, pos + "{\"kind\":\"arc\",\"name\":"@.len())[9] == s@[pos + 9]);
                            assert(s@.subrange(pos as int, p1 as int)[9] == s@[pos + 9]);
                            assert(false);
                        },
                        DefType::Result(p) => {
                            reveal_strlit("{\"kind\":\"result\",\"name\":");
                            assert(s@.subrange(pos as int, pos + "{\"kind\":\"result\",\"name\":"@.len())[9] == s@[pos + 9]);
                            assert(s@.subrange(pos as int, p1 as int)[9] == s@[pos + 9]);
                            assert(false);
                        },
                        DefType::Struct(p) => {
                            reveal_strlit("{\"kind\":\"struct\",\"name\":");
                            assert(s@.subrange(pos as int, pos + "{\"kind\":\"struct\",\"name\":"@.len())[9] == s@[pos + 9]);
                            assert(s@.subrange(pos as int, p1 as int)[9] == s@[pos + 9]);
                            assert(false);
                        },
                        DefType::Enum(p) => {
                            reveal_strlit("{\"kind\":\"enum\",\"name\":");
                            assert(s@.subrange(pos as int, pos + "{\"kind\":\"enum\",\"name\":"@.len())[9] == s@[pos + 9]);
                            assert(s@.subrange(pos as int, p1 as int)[9] == s@[pos + 9]);
                            assert(false);
                        },
                        }
                    }
                }
            }
            return None;
        },
    };
    let d0 = DefType::Box(DefBox { name: vname, size: vsize, align: valign, value_type_id: vid });
    proof {
        reveal_strlit("{\"kind\":\"box\",\"name\":");
        reveal_strlit("{\"kind\":\"");
        reveal_strlit("box");
        reveal_strlit("\",\"name\":");
        assert("{\"kind\":\"box\",\"name\":"@ =~= "{\"kind\":\""@ + "box"@ + "\",\"name\":"@);
        lemma_subrange_concat(s@, pos as int, p1 as int, p2 as int);
        lemma_subrange_concat(s@, pos as int, p2 as int, pz as int);
        assert(s@.subrange(pos as int, pz as int) =~= jdesc(d0));
        assert forall|d: DefType, q: int| desc_run(s@, pos as int, q, d) implies (d is Box && desc_like(d0, d) && pz as int == q) by {
            lemma_desc_pieces(s@, pos as int, q, d);
            match d {
            DefType::Box(p) => {
            },
            DefType::Primitive(p) => {
                reveal_strlit("{\"kind\":\"primitive\",\"name\":");
                assert(s@.subrange(pos as int, pos + "{\"kind\":\"primitive\",\"name\":"@.len())[9] == s@[pos + 9]);
                assert(s@.subrange(pos as int, p1 as int)[9] == s@[pos + 9]);
                assert(false);
            },
            DefType::String(p) => {
                reveal_strlit("{\"kind\":\"string\",\"name\":");
                assert(s@.subrange(pos as int, pos + "{\"kind\":\"string\",\"name\":"@.len())[9] == s@[pos + 9]);
                assert(s@.subrange(pos as int, p1 as int)[9] == s@[pos + 9]);
                assert(false);
            },
            DefType::StrSlice(p) => {
                reveal_strlit("{\"kind\":\"strSlice\",\"name\":");
                assert(s@.subrange(pos as int, pos + "{\"kind\":\"strSlice\",\"name\":"@.len())[9] == s@[pos + 9]);
                assert(s@.subrange(pos as int, p1 as int)[9] == s@[pos + 9]);
                assert(false);
            },
            DefType::Str(p) => {
                reveal_strlit("{\"kind\":\"str\",\"name\":");
                assert(s@.subrange(pos as int, pos + "{\"kind\":\"str\",\"name\":"@.len())[9] == s@[pos + 9]);
                assert(s@.subrange(pos as int, p1 as int)[9] == s@[pos + 9]);
                assert(false);
            },
            DefType::Vec(p) => {
                reveal_strlit("{\"kind\":\"vec\",\"name\":");
                assert(s@.subrange(pos as int, pos + "{\"kind\":\"vec\",\"name\":"@.len())[9] == s@[pos + 9]);
                assert(s@.subrange(pos as int, p1 as int)[9] == s@[pos + 9]);
                assert(false);
            },
            DefType::Option(p) => {
                reveal_strlit("{\"kind\":\"option\",\"name\":");
                assert(s@.subrange(pos as int, pos + "{\"kind\":\"option\",\"name\":"@.len())[9] == s@[pos + 9]);
                assert(s@.subrange(pos as int, p1 as int)[9] == s@[pos + 9]);
                assert(false);
            },
            DefType::PhantomData(p) => {
                reveal_strlit("{\"kind\":\"phantomData\",\"name\":");
                assert(s@.subrange(pos as int, pos + "{\"kind\":\"phantomData\",\"name\":"@.len())[9] == s@[pos + 9]);
                assert(s@.subrange(pos as int, p1 as int)[9] == s@[pos + 9]);
                assert(false);
            },
            DefType::Cell(p) => {
                reveal_strlit("{\"kind\":\"cell\",\"name\":");
                assert(s@.subrange(pos as int, pos + "{\"kind\":\"cell\",\"name\":"@.len())[9] == s@[pos + 9]);
                assert(s@.subrange(pos as int, p1 as int)[9] == s@[pos + 9]);
                assert(false);
            },
            DefType::RefCell(p) => {
                reveal_strlit("{\"kind\":\"refCell\",\"name\":");
                assert(s@.subrange(pos as int, pos + "{\"kind\":\"refCell\",\"name\":"@.len())[9] == s@[pos + 9]);
                assert(s@.subrange(pos as int, p1 as int)[9] == s@[pos + 9]);
                assert(false);
            },
            DefType::Mutex(p) => {
                reveal_strlit("{\"kind\":\"mutex\",\"name\":");
                assert(s@.subrange(pos as int, pos + "{\"kind\":\"mutex\",\"name\":"@.len())[9] == s@[pos + 9]);
                assert(s@.subrange(pos as int, p1 as int)[9] == s@[pos + 9]);
                assert(false);
            },
            DefType::RwLock(p) => {
                reveal_strlit("{\"kind\":\"rwLock\",\"name\":");
                assert(s@.subrange(pos as int, pos + "{\"kind\":\"rwLock\",\"name\":"@.len())[9] == s@[pos + 9]);
                assert(s@.subrange(pos as int, p1 as int)[9] == s@[pos + 9]);
                assert(false);
            },
            DefType::Rc(p) => {
                reveal_strlit("{\"kind\":\"rc\",\"name\":");
                assert(s@.subrange(pos as int, pos + "{\"kind\":\"rc\",\"name\":"@.len())[9] == s@[pos + 9]);
                assert(s@.subrange(pos as int, p1 as int)[9] == s@[pos + 9]);
                assert(false);
            },
            DefType::Arc(p) => {
                reveal_strlit("{\"kind\":\"arc\",\"name\":");
                assert(s@.subrange(pos as int, pos + "{\"kind\":\"arc\",\"name\":"@.len())[9] == s@[pos + 9]);
                assert(s@.subrange(pos as int, p1 as int)[9] == s@[pos + 9]);
                assert(false);
            },
            DefType::Result(p) => {
                reveal_strlit("{\"kind\":\"result\",\"name\":");
                assert(s@.subrange(pos as int, pos + "{\"kind\":\"result\",\"name\":"@.len())[9] == s@[pos + 9]);
                assert(s@.subrange(pos as int, p1 as int)[9] == s@[pos + 9]);
                assert(false);
            },
            DefType::Struct(p) => {
                reveal_strlit("{\"kind\":\"struct\",\"name\":");
                assert(s@.subrange(pos as int, pos + "{\"kind\":\"struct\",\"name\":"@.len())[9] == s@[pos + 9]);
                assert(s@.subrange(pos as int, p1 as int)[9] == s@[pos + 9]);
                assert(false);
            },
            DefType::Enum(p) => {
                reveal_strlit("{\"kind\":\"enum\",\"name\":");
                assert(s@.subrange(pos as int, pos + "{\"kind\":\"enum\",\"name\":"@.len())[9] == s@[pos + 9]);
                assert(s@.subrange(pos as int, p1 as int)[9] == s@[pos + 9]);
                assert(false);
            },
            }
        }
    }
    Some((d0, pz))
}

#[verifier::rlimit(100)]
fn parse_desc_vec(s: &Vec<char>, pos: usize) -> (r: Option<(DefType, usize)>)
    ensures
        (r matches Some((d, p)) ==> pos < p <= s@.len() && s@.subrange(pos as int, p as int) == jdesc(d)),
        (forall|d: DefType, q: int| desc_run(s@, pos as int, q, d) && d is Vec ==> (r matches Some((d2, p)) && desc_like(d2, d) && p == q)),
        (forall|d: DefType, q: int| desc_run(s@, pos as int, q, d) && !(d is Vec) ==> r is None),
{
    let p1 = match expect(s, pos, "{\"kind\":\"vec\",\"name\":") {
        Some(p) => p,
        None => {
            proof {
                assert forall|d: DefType, q: int| !(desc_run(s@, pos as int, q, d) && d is Vec) by {
                    if desc_run(s@, pos as int, q, d) && d is Vec {
                        lemma_desc_pieces(s@, pos as int, q, d);
                        assert(false);
                    }
                }
            }
            return None;
        },
    };
    let (vname, p2) = match parse_jstring(s, p1) {
        Some(t) => t,
        None => {
            proof {
                reveal_strlit("{\"kind\":\"vec\",\"name\":");
                assert forall|d: DefType, q: int| !desc_run(s@, pos as int, q, d) by {
                    if desc_run(s@, pos as int, q, d) {
                        lemma_desc_pieces(s@, pos as int, q, d);
                        match d {
                        DefType::Vec(p) => {
                            assert(false);
                        },
                        DefType::Primitive(p) => {
                            reveal_strlit("{\"kind\":\"primitive\",\"name\":");
                            assert(s@.subrange(pos as int, pos + "{\"kind\":\"primitive\",\"name\":"@.len())[9] == s@[pos + 9]);
                            assert(s@.subrange(pos as int, p1 as int)[9] == s@[pos + 9]);
                            assert(false);
                        },
                        DefType::String(p) => {
                            reveal_strlit("{\"kind\":\"string\",\"name\":");
                            assert(s@.subrange(pos as int, pos + "{\"kind\":\"string\",\"name\":"@.len())[9] == s@[pos + 9]);
                            assert(s@.subrange(pos as int, p1 as int)[9] == s@[pos + 9]);
                            assert(false);
                        },
                        DefType::StrSlice(p) => {
                            reveal_strlit("{\"kind\":\"strSlice\",\"name\":");
                            assert(s@.subrange(pos as int, pos + "{\"kind\":\"strSlice\",\"name\":"@.len())[9] == s@[pos + 9]);
                            assert(s@.subrange(pos as int, p1 as int)[9] == s@[pos + 9]);
                            assert(false);
                        },
                        DefType::Str(p) => {
                            reveal_strlit("{\"kind\":\"str\",\"name\":");
                            assert(s@.subrange(pos as int, pos + "{\"kind\":\"str\",\"name\":"@.len())[9] == s@[pos + 9]);
                            assert(s@.subrange(pos as int, p1 as int)[9] == s@[pos + 9]);
                            assert(false);
                        },
                        DefType::Box(p) => {
                            reveal_strlit("{\"kind\":\"box\",\"name\":");
                            assert(s@.subrange(pos as int, pos + "{\"kind\":\"box\",\"name\":"@.len())[9] == s@[pos + 9]);
                            assert(s@.subrange(pos as int, p1 as int)[9] == s@[pos + 9]);
                            assert(false);
                        },
                        DefType::Option(p) => {
                            reveal_strlit("{\"kind\":\"option\",\"name\":");
                            assert(s@.subrange(pos as int, pos + "{\"kind\":\"option\",\"name\":"@.len())[9] == s@[pos + 9]);
                            assert(s@.subrange(pos as int, p1 as int)[9] == s@[pos + 9]);
                            assert(false);
                        },
                        DefType::PhantomData(p) => {
                            reveal_strlit("{\"kind\":\"phantomData\",\"name\":");
                            assert(s@.subrange(pos as int, pos + "{\"kind\":\"phantomData\",\"name\":"@.len())[9] == s@[pos + 9]);
                            assert(s@.subrange(pos as int, p1 as int)[9] == s@[pos + 9]);
                            assert(false);
                        },
                        DefType::Cell(p) => {
                            reveal_strlit("{\"kind\":\"cell\",\"name\":");
                            assert(s@.subrange(pos as int, pos + "{\"kind\":\"cell\",\"name\":"@.len())[9] == s@[pos + 9]);
                            assert(s@.subrange(pos as int, p1 as int)[9] == s@[pos + 9]);
                            assert(false);
                        },
                        DefType::RefCell(p) => {
                            reveal_strlit("{\"kind\":\"refCell\",\"name\":");
                            assert(s@.subrange(pos as int, pos + "{\"kind\":\"refCell\",\"name\":"@.len())[9] == s@[pos + 9]);
                            assert(s@.subrange(pos as int, p1 as int)[9] == s@[pos + 9]);
                            assert(false);
                        },
                        DefType::Mutex(p) => {
                            reveal_strlit("{\"kind\":\"mutex\",\"name\":");
                            assert(s@.subrange(pos as int, pos + "{\"kind\":\"mutex\",\"name\":"@.len())[9] == s@[pos + 9]);
                            assert(s@.subrange(pos as int, p1 as int)[9] == s@[pos + 9]);
                            assert(false);
                        },
                        DefType::RwLock(p) => {
                            reveal_strlit("{\"kind\":\"rwLock\",\"name\":");
                            assert(s@.subrange(pos as int, pos + "{\"kind\":\"rwLock\",\"name\":"@.len())[9] == s@[pos + 9]);
                            assert(s@.subrange(pos as int, p1 as int)[9] == s@[pos + 9]);
                            assert(false);
                        },
                        DefType::Rc(p) => {
                            reveal_strlit("{\"kind\":\"rc\",\"name\":");
                            assert(s@.subrange(pos as int, pos + "{\"kind\":\"rc\",\"name\":"@.len())[9] == s@[pos + 9]);
                            assert(s@.subrange(pos as int, p1 as int)[9] == s@[pos + 9]);
                            assert(false);
                        },
                        DefType::Arc(p) => {
                            reveal_strlit("{\"kind\":\"arc\",\"name\":");
                            assert(s@.subrange(pos as int, pos + "{\"kind\":\"arc\",\"name\":"@.len())[9] == s@[pos + 9]);
                            assert(s@.subrange(pos as int, p1 as int)[9] == s@[pos + 9]);
                            assert(false);
                        },
                        DefType::Result(p) => {
                            reveal_strlit("{\"kind\":\"result\",\"name\":");
                            assert(s@.subrange(pos as int, pos + "{\"kind\":\"result\",\"name\":"@.len())[9] == s@[pos + 9]);
                            assert(s@.subrange(pos as int, p1 as int)[9] == s@[pos + 9]);
                            assert(false);
                        },
                        DefType::Struct(p) => {
                            reveal_strlit("{\"kind\":\"struct\",\"name\":");
                            assert(s@.subrange(pos as int, pos + "{\"kind\":\"struct\",\"name\":"@.len())[9] == s@[pos + 9]);
                            assert(s@.subrange(pos as int, p1 as int)[9] == s@[pos + 9]);
                            assert(false);
                        },
                        DefType::Enum(p) => {
                            reveal_strlit("{\"kind\":\"enum\",\"name\":");
                            assert(s@.subrange(pos as int, pos + "{\"kind\":\"enum\",\"name\":"@.len())[9] == s@[pos + 9]);
                            assert(s@.subrange(pos as int, p1 as int)[9] == s@[pos + 9]);
                            assert(false);
                        },
                        }
                    }
                }
            }
            return None;
        },
    };
    let (vsize, valign, vid, pz) = match parse_wrap_rest(s, p2) {
        Some(t) => t,
        None => {
            proof {
                reveal_strlit("{\"kind\":\"vec\",\"name\":");
                assert forall|d: DefType, q: int| !desc_run(s@, pos as int, q, d) by {
                    if desc_run(s@, pos as int, q, d) {
                        lemma_desc_pieces(s@, pos as int, q, d);
                        match d {
                        DefType::Vec(p) => {
                            assert(false);
                        },
                        DefType::Primitive(p) => {
                            reveal_strlit("{\"kind\":\"primitive\",\"name\":");
                            assert(s@.subrange(pos as int, pos + "{\"kind\":\"primitive\",\"name\":"@.len())[9] == s@[pos + 9]);
                            assert(s@.subrange(pos as int, p1 as int)[9] == s@[pos + 9]);
                            assert(false);
                        },
                        DefType::String(p) => {
                            reveal_strlit("{\"kind\":\"string\",\"name\":");
                            assert(s@.subrange(pos as int, pos + "{\"kind\":\"string\",\"name\":"@.len())[9] == s@[pos + 9]);
                            assert(s@.subrange(pos as int, p1 as int)[9] == s@[pos + 9]);
                            assert(false);
                        },
                        DefType::StrSlice(p) => {
                            reveal_strlit("{\"kind\":\"strSlice\",\"name\":");
                            assert(s@.subrange(pos as int, pos + "{\"kind\":\"strSlice\",\"name\":"@.len())[9] == s@[pos + 9]);
                            assert(s@.subrange(pos as int, p1 as int)[9] == s@[pos + 9]);
                            assert(false);
                        },
                        DefType::Str(p) => {
                            reveal_strlit("{\"kind\":\"str\",\"name\":");
                            assert(s@.subrange(pos as int, pos + "{\"kind\":\"str\",\"name\":"@.len())[9] == s@[pos + 9]);
                            assert(s@.subrange(pos as int, p1 as int)[9] == s@[pos + 9]);
                            assert(false);
                        },
                        DefType::Box(p) => {
                            reveal_strlit("{\"kind\":\"box\",\"name\":");
                            assert(s@.subrange(pos as int, pos + "{\"kind\":\"box\",\"name\":"@.len())[9] == s@[pos + 9]);
                            assert(s@.subrange(pos as int, p1 as int)[9] == s@[pos + 9]);
                            assert(false);
                        },
                        DefType::Option(p) => {
                            reveal_strlit("{\"kind\":\"option\",\"name\":");
                            assert(s@.subrange(pos as int, pos + "{\"kind\":\"option\",\"name\":"@.len())[9] == s@[pos + 9]);
                            assert(s@.subrange(pos as int, p1 as int)[9] == s@[pos + 9]);
                            assert(false);
                        },
                        DefType::PhantomData(p) => {
                            reveal_strlit("{\"kind\":\"phantomData\",\"name\":");
                            assert(s@.subrange(pos as int, pos + "{\"kind\":\"phantomData\",\"name\":"@.len())[9] == s@[pos + 9]);
                            assert(s@.subrange(pos as int, p1 as int)[9] == s@[pos + 9]);
                            assert(false);
                        },
                        DefType::Cell(p) => {
                            reveal_strlit("{\"kind\":\"cell\",\"name\":");
                            assert(s@.subrange(pos as int, pos + "{\"kind\":\"cell\",\"name\":"@.len())[9] == s@[pos + 9]);
                            assert(s@.subrange(pos as int, p1 as int)[9] == s@[pos + 9]);
                            assert(false);
                        },
                        DefType::RefCell(p) => {
                            reveal_strlit("{\"kind\":\"refCell\",\"name\":");
                            assert(s@.subrange(pos as int, pos + "{\"kind\":\"refCell\",\"name\":"@.len())[9] == s@[pos + 9]);
                            assert(s@.subrange(pos as int, p1 as int)[9] == s@[pos + 9]);
                            assert(false);
                        },
                        DefType::Mutex(p) => {
                            reveal_strlit("{\"kind\":\"mutex\",\"name\":");
                            assert(s@.subrange(pos as int, pos + "{\"kind\":\"mutex\",\"name\":"@.len())[9] == s@[pos + 9]);
                            assert(s@.subrange(pos as int, p1 as int)[9] == s@[pos + 9]);
                            assert(false);
                        },
                        DefType::RwLock(p) => {
                            reveal_strlit("{\"kind\":\"rwLock\",\"name\":");
                            assert(s@.subrange(pos as int, pos + "{\"kind\":\"rwLock\",\"name\":"@.len())[9] == s@[pos + 9]);
                            assert(s@.subrange(pos as int, p1 as int)[9] == s@[pos + 9]);
                            assert(false);
                        },
                        DefType::Rc(p) => {
                            reveal_strlit("{\"kind\":\"rc\",\"name\":");
                            assert(s@.subrange(pos as int, pos + "{\"kind\":\"rc\",\"name\":"@.len())[9] == s@[pos + 9]);
                            assert(s@.subrange(pos as int, p1 as int)[9] == s@[pos + 9]);
                            assert(false);
                        },
                        DefType::Arc(p) => {
                            reveal_strlit("{\"kind\":\"arc\",\"name\":");
                            assert(s@.subrange(pos as int, pos + "{\"kind\":\"arc\",\"name\":"@.len())[9] == s@[pos + 9]);
                            assert(s@.subrange(pos as int, p1 as int)[9] == s@[pos + 9]);
                            assert(false);
                        },
                        DefType::Result(p) => {
                            reveal_strlit("{\"kind\":\"result\",\"name\":");
                            assert(s@.subrange(pos as int, pos + "{\"kind\":\"result\",\"name\":"@.len())[9] == s@[pos + 9]);
                            assert(s@.subrange(pos as int, p1 as int)[9] == s@[pos + 9]);
                            assert(false);
                        },
                        DefType::Struct(p) => {
                            reveal_strlit("{\"kind\":\"struct\",\"name\":");
                            assert(s@.subrange(pos as int, pos + "{\"kind\":\"struct\",\"name\":"@.len())[9] == s@[pos + 9]);
                            assert(s@.subrange(pos as int, p1 as int)[9] == s@[pos + 9]);
                            assert(false);
                        },
                        DefType::Enum(p) => {
                            reveal_strlit("{\"kind\":\"enum\",\"name\":");
                            assert(s@.subrange(pos as int, pos + "{\"kind\":\"enum\",\"name\":"@.len())[9] == s@[pos + 9]);
                            assert(s@.subrange(pos as int, p1 as int)[9] == s@[pos + 9]);
                            assert(false);
                        },
                        }
                    }
                }
            }
            return None;
        },
    };
    let d0 = DefType::Vec(DefVec { name: vname, size: vsize, align: valign, value_type_id: vid });
    proof {
        reveal_strlit("{\"kind\":\"vec\",\"name\":");
        reveal_strlit("{\"kind\":\"");
        reveal_strlit("vec");
        reveal_strlit("\",\"name\":");
        assert("{\"kind\":\"vec\",\"name\":"@ =~= "{\"kind\":\""@ + "vec"@ + "\",\"name\":"@);
        lemma_subrange_concat(s@, pos as int, p1 as int, p2 as int);
        lemma_subrange_concat(s@, pos as int, p2 as int, pz as int);
        assert(s@.subrange(pos as int, pz as int) =~= jdesc(d0));
        assert forall|d: DefType, q: int| desc_run(s@, pos as int, q, d) implies (d is Vec && desc_like(d0, d) && pz as int == q) by {
            lemma_desc_pieces(s@, pos as int, q, d);
            match d {
            DefType::Vec(p) => {
            },
            DefType::Primitive(p) => {
                reveal_strlit("{\"kind\":\"primitive\",\"name\":");
                assert(s@.subrange(pos as int, pos + "{\"kind\":\"primitive\",\"name\":"@.len())[9] == s@[pos + 9]);
                assert(s@.subrange(pos as int, p1 as int)[9] == s@[pos + 9]);
                assert(false);
            },
            DefType::String(p) => {
                reveal_strlit("{\"kind\":\"string\",\"name\":");
                assert(s@.subrange(pos as int, pos + "{\"kind\":\"string\",\"name\":"@.len())[9] == s@[pos + 9]);
                assert(s@.subrange(pos as int, p1 as int)[9] == s@[pos + 9]);
                assert(false);
            },
            DefType::StrSlice(p) => {
                reveal_strlit("{\"kind\":\"strSlice\",\"name\":");
                assert(s@.subrange(pos as int, pos + "{\"kind\":\"strSlice\",\"name\":"@.len())[9] == s@[pos + 9]);
                assert(s@.subrange(pos as int, p1 as int)[9] == s@[pos + 9]);
                assert(false);
            },
            DefType::Str(p) => {
                reveal_strlit("{\"kind\":\"str\",\"name\":");
                assert(s@.subrange(pos as int, pos + "{\"kind\":\"str\",\"name\":"@.len())[9] == s@[pos + 9]);
                assert(s@.subrange(pos as int, p1 as int)[9] == s@[pos + 9]);
                assert(false);
            },
            DefType::Box(p) => {
                reveal_strlit("{\"kind\":\"box\",\"name\":");
                assert(s@.subrange(pos as int, pos + "{\"kind\":\"box\",\"name\":"@.len())[9] == s@[pos + 9]);
                assert(s@.subrange(pos as int, p1 as int)[9] == s@[pos + 9]);
                assert(false);
            },
            DefType::Option(p) => {
                reveal_strlit("{\"kind\":\"option\",\"name\":");
                assert(s@.subrange(pos as int, pos + "{\"kind\":\"option\",\"name\":"@.len())[9] == s@[pos + 9]);
                assert(s@.subrange(pos as int, p1 as int)[9] == s@[pos + 9]);
                assert(false);
            },
            DefType::PhantomData(p) => {
                reveal_strlit("{\"kind\":\"phantomData\",\"name\":");
                assert(s@.subrange(pos as int, pos + "{\"kind\":\"phantomData\",\"name\":"@.len())[9] == s@[pos + 9]);
                assert(s@.subrange(pos as int, p1 as int)[9] == s@[pos + 9]);
                assert(false);
            },
            DefType::Cell(p) => {
                reveal_strlit("{\"kind\":\"cell\",\"name\":");
                assert(s@.subrange(pos as int, pos + "{\"kind\":\"cell\",\"name\":"@.len())[9] == s@[pos + 9]);
                assert(s@.subrange(pos as int, p1 as int)[9] == s@[pos + 9]);
                assert(false);
            },
            DefType::RefCell(p) => {
                reveal_strlit("{\"kind\":\"refCell\",\"name\":");
                assert(s@.subrange(pos as int, pos + "{\"kind\":\"refCell\",\"name\":"@.len())[9] == s@[pos + 9]);
                assert(s@.subrange(pos as int, p1 as int)[9] == s@[pos + 9]);
                assert(false);
            },
            DefType::Mutex(p) => {
                reveal_strlit("{\"kind\":\"mutex\",\"name\":");
                assert(s@.subrange(pos as int, pos + "{\"kind\":\"mutex\",\"name\":"@.len())[9] == s@[pos + 9]);
                assert(s@.subrange(pos as int, p1 as int)[9] == s@[pos + 9]);
                assert(false);
            },
            DefType::RwLock(p) => {
                reveal_strlit("{\"kind\":\"rwLock\",\"name\":");
                assert(s@.subrange(pos as int, pos + "{\"kind\":\"rwLock\",\"name\":"@.len())[9] == s@[pos + 9]);
                assert(s@.subrange(pos as int, p1 as int)[9] == s@[pos + 9]);
                assert(false);
            },
            DefType::Rc(p) => {
                reveal_strlit("{\"kind\":\"rc\",\"name\":");
                assert(s@.subrange(pos as int, pos + "{\"kind\":\"rc\",\"name\":"@.len())[9] == s@[pos + 9]);
                assert(s@.subrange(pos as int, p1 as int)[9] == s@[pos + 9]);
                assert(false);
            },
            DefType::Arc(p) => {
                reveal_strlit("{\"kind\":\"arc\",\"name\":");
                assert(s@.subrange(pos as int, pos + "{\"kind\":\"arc\",\"name\":"@.len())[9] == s@[pos + 9]);
                assert(s@.subrange(pos as int, p1 as int)[9] == s@[pos + 9]);
                assert(false);
            },
            DefType::Result(p) => {
                reveal_strlit("{\"kind\":\"result\",\"name\":");
                assert(s@.subrange(pos as int, pos + "{\"kind\":\"result\",\"name\":"@.len())[9] == s@[pos + 9]);
                assert(s@.subrange(pos as int, p1 as int)[9] == s@[pos + 9]);
                assert(false);
            },
            DefType::Struct(p) => {
                reveal_strlit("{\"kind\":\"struct\",\"name\":");
                assert(s@.subrange(pos as int, pos + "{\"kind\":\"struct\",\"name\":"@.len())[9] == s@[pos + 9]);
                assert(s@.subrange(pos as int, p1 as int)[9] == s@[pos + 9]);
                assert(false);
            },
            DefType::Enum(p) => {
                reveal_strlit("{\"kind\":\"enum\",\"name\":");
                assert(s@.subrange(pos as int, pos + "{\"kind\":\"enum\",\"name\":"@.len())[9] == s@[pos + 9]);
                assert(s@.subrange(pos as int, p1 as int)[9] == s@[pos + 9]);
                assert(false);
            },
            }
        }
    }
    Some((d0, pz))
}

#[verifier::rlimit(100)]
fn parse_desc_option(s: &Vec<char>, pos: usize) -> (r: Option<(DefType, usize)>)
    ensures
        (r matches Some((d, p)) ==> pos < p <= s@.len() && s@.subrange(pos as int, p as int) == jdesc(d)),
        (forall|d: DefType, q: int| desc_run(s@, pos as int, q, d) && d is Option ==> (r matches Some((d2, p)) && desc_like(d2, d) && p == q)),
        (forall|d: DefType, q: int| desc_run(s@, pos as int, q, d) && !(d is Option) ==> r is None),
{
    let p1 = match expect(s, pos, "{\"kind\":\"option\",\"name\":") {
        Some(p) => p,
        None => {
            proof {
                assert forall|d: DefType, q: int| !(desc_run(s@, pos as int, q, d) && d is Option) by {
                    if desc_run(s@, pos as int, q, d) && d is Option {
                        lemma_desc_pieces(s@, pos as int, q, d);
                        assert(false);
                    }
                }
            }
            return None;
        },
    };
    let (vname, p2) = match parse_jstring(s, p1) {
        Some(t) => t,
        None => {
            proof {
                reveal_strlit("{\"kind\":\"option\",\"name\":");
                assert forall|d: DefType, q: int| !desc_run(s@, pos as int, q, d) by {
                    if desc_run(s@, pos as int, q, d) {
                        lemma_desc_pieces(s@, pos as int, q, d);
                        match d {
                        DefType::Option(p) => {
                            assert(false);
                        },
                        DefType::Primitive(p) => {
                            reveal_strlit("{\"kind\":\"primitive\",\"name\":");
                            assert(s@.subrange(pos as int, pos + "{\"kind\":\"primitive\",\"name\":"@.len())[9] == s@[pos + 9]);
                            assert(s@.subrange(pos as int, p1 as int)[9] == s@[pos + 9]);
                            assert(false);
                        },
                        DefType::String(p) => {
                            reveal_strlit("{\"kind\":\"string\",\"name\":");
                            assert(s@.subrange(pos as int, pos + "{\"kind\":\"string\",\"name\":"@.len())[9] == s@[pos + 9]);
                            assert(s@.subrange(pos as int, p1 as int)[9] == s@[pos + 9]);
                            assert(false);
                        },
                        DefType::StrSlice(p) => {
                            reveal_strlit("{\"kind\":\"strSlice\",\"name\":");
                            assert(s@.subrange(pos as int, pos + "{\"kind\":\"strSlice\",\"name\":"@.len())[9] == s@[pos + 9]);
                            assert(s@.subrange(pos as int, p1 as int)[9] == s@[pos + 9]);
                            assert(false);
                        },
                        DefType::Str(p) => {
                            reveal_strlit("{\"kind\":\"str\",\"name\":");
                            assert(s@.subrange(pos as int, pos + "{\"kind\":\"str\",\"name\":"@.len())[9] == s@[pos + 9]);
                            assert(s@.subrange(pos as int, p1 as int)[9] == s@[pos + 9]);
                            assert(false);
                        },
                        DefType::Box(p) => {
                            reveal_strlit("{\"kind\":\"box\",\"name\":");
                            assert(s@.subrange(pos as int, pos + "{\"kind\":\"box\",\"name\":"@.len())[9] == s@[pos + 9]);
                            assert(s@.subrange(pos as int, p1 as int)[9] == s@[pos + 9]);
                            assert(false);
                        },
                        DefType::Vec(p) => {
                            reveal_strlit("{\"kind\":\"vec\",\"name\":");
                            assert(s@.subrange(pos as int, pos + "{\"kind\":\"vec\",\"name\":"@.len())[9] == s@[pos + 9]);
                            assert(s@.subrange(pos as int, p1 as int)[9] == s@[pos + 9]);
                            assert(false);
                        },
                        DefType::PhantomData(p) => {
                            reveal_strlit("{\"kind\":\"phantomData\",\"name\":");
                            assert(s@.subrange(pos as int, pos + "{\"kind\":\"phantomData\",\"name\":"@.len())[9] == s@[pos + 9]);
                            assert(s@.subrange(pos as int, p1 as int)[9] == s@[pos + 9]);
                            assert(false);
                        },
                        DefType::Cell(p) => {
                            reveal_strlit("{\"kind\":\"cell\",\"name\":");
                            assert(s@.subrange(pos as int, pos + "{\"kind\":\"cell\",\"name\":"@.len())[9] == s@[pos + 9]);
                            assert(s@.subrange(pos as int, p1 as int)[9] == s@[pos + 9]);
                            assert(false);
                        },
                        DefType::RefCell(p) => {
                            reveal_strlit("{\"kind\":\"refCell\",\"name\":");
                            assert(s@.subrange(pos as int, pos + "{\"kind\":\"refCell\",\"name\":"@.len())[9] == s@[pos + 9]);
                            assert(s@.subrange(pos as int, p1 as int)[9] == s@[pos + 9]);
                            assert(false);
                        },
                        DefType::Mutex(p) => {
                            reveal_strlit("{\"kind\":\"mutex\",\"name\":");
                            assert(s@.subrange(pos as int, pos + "{\"kind\":\"mutex\",\"name\":"@.len())[9] == s@[pos + 9]);
                            assert(s@.subrange(pos as int, p1 as int)[9] == s@[pos + 9]);
                            assert(false);
                        },
                        DefType::RwLock(p) => {
                            reveal_strlit("{\"kind\":\"rwLock\",\"name\":");
                            assert(s@.subrange(pos as int, pos + "{\"kind\":\"rwLock\",\"name\":"@.len())[9] == s@[pos + 9]);
                            assert(s@.subrange(pos as int, p1 as int)[9] == s@[pos + 9]);
                            assert(false);
                        },
                        DefType::Rc(p) => {
                            reveal_strlit("{\"kind\":\"rc\",\"name\":");
                            assert(s@.subrange(pos as int, pos + "{\"kind\":\"rc\",\"name\":"@.len())[9] == s@[pos + 9]);
                            assert(s@.subrange(pos as int, p1 as int)[9] == s@[pos + 9]);
                            assert(false);
                        },
                        DefType::Arc(p) => {
                            reveal_strlit("{\"kind\":\"arc\",\"name\":");
                            assert(s@.subrange(pos as int, pos + "{\"kind\":\"arc\",\"name\":"@.len())[9] == s@[pos + 9]);
                            assert(s@.subrange(pos as int, p1 as int)[9] == s@[pos + 9]);
                            assert(false);
                        },
                        DefType::Result(p) => {
                            reveal_strlit("{\"kind\":\"result\",\"name\":");
                            assert(s@.subrange(pos as int, pos + "{\"kind\":\"result\",\"name\":"@.len())[9] == s@[pos + 9]);
                            assert(s@.subrange(pos as int, p1 as int)[9] == s@[pos + 9]);
                            assert(false);
                        },
                        DefType::Struct(p) => {
                            reveal_strlit("{\"kind\":\"struct\",\"name\":");
                            assert(s@.subrange(pos as int, pos + "{\"kind\":\"struct\",\"name\":"@.len())[9] == s@[pos + 9]);
                            assert(s@.subrange(pos as int, p1 as int)[9] == s@[pos + 9]);
                            assert(false);
                        },
                        DefType::Enum(p) => {
                            reveal_strlit("{\"kind\":\"enum\",\"name\":");
                            assert(s@.subrange(pos as int, pos + "{\"kind\":\"enum\",\"name\":"@.len())[9] == s@[pos + 9]);
                            assert(s@.subrange(pos as int, p1 as int)[9] == s@[pos + 9]);
                            assert(false);
                        },
                        }
                    }
                }
            }
            return None;
        },
    };
    let (vsize, valign, vid, pz) = match parse_wrap_rest(s, p2) {
        Some(t) => t,
        None => {
            proof {
                reveal_strlit("{\"kind\":\"option\",\"name\":");
                assert forall|d: DefType, q: int| !desc_run(s@, pos as int, q, d) by {
                    if desc_run(s@, pos as int, q, d) {
                        lemma_desc_pieces(s@, pos as int, q, d);
                        match d {
                        DefType::Option(p) => {
                            assert(false);
                        },
                        DefType::Primitive(p) => {
                            reveal_strlit("{\"kind\":\"primitive\",\"name\":");
                            assert(s@.subrange(pos as int, pos + "{\"kind\":\"primitive\",\"name\":"@.len())[9] == s@[pos + 9]);
                            assert(s@.subrange(pos as int, p1 as int)[9] == s@[pos + 9]);
                            assert(false);
                        },
                        DefType::String(p) => {
                            reveal_strlit("{\"kind\":\"string\",\"name\":");
                            assert(s@.subrange(pos as int, pos + "{\"kind\":\"string\",\"name\":"@.len())[9] == s@[pos + 9]);
                            assert(s@.subrange(pos as int, p1 as int)[9] == s@[pos + 9]);
                            assert(false);
                        },
                        DefType::StrSlice(p) => {
                            reveal_strlit("{\"kind\":\"strSlice\",\"name\":");
                            assert(s@.subrange(pos as int, pos + "{\"kind\":\"strSlice\",\"name\":"@.len())[9] == s@[pos + 9]);
                            assert(s@.subrange(pos as int, p1 as int)[9] == s@[pos + 9]);
                            assert(false);
                        },
                        DefType::Str(p) => {
                            reveal_strlit("{\"kind\":\"str\",\"name\":");
                            assert(s@.subrange(pos as int, pos + "{\"kind\":\"str\",\"name\":"@.len())[9] == s@[pos + 9]);
                            assert(s@.subrange(pos as int, p1 as int)[9] == s@[pos + 9]);
                            assert(false);
                        },
                        DefType::Box(p) => {
                            reveal_strlit("{\"kind\":\"box\",\"name\":");
                            assert(s@.subrange(pos as int, pos + "{\"kind\":\"box\",\"name\":"@.len())[9] == s@[pos + 9]);
                            assert(s@.subrange(pos as int, p1 as int)[9] == s@[pos + 9]);
                            assert(false);
                        },
                        DefType::Vec(p) => {
                            reveal_strlit("{\"kind\":\"vec\",\"name\":");
                            assert(s@.subrange(pos as int, pos + "{\"kind\":\"vec\",\"name\":"@.len())[9] == s@[pos + 9]);
                            assert(s@.subrange(pos as int, p1 as int)[9] == s@[pos + 9]);
                            assert(false);
                        },
                        DefType::PhantomData(p) => {
                            reveal_strlit("{\"kind\":\"phantomData\",\"name\":");
                            assert(s@.subrange(pos as int, pos + "{\"kind\":\"phantomData\",\"name\":"@.len())[9] == s@[pos + 9]);
                            assert(s@.subrange(pos as int, p1 as int)[9] == s@[pos + 9]);
                            assert(false);
                        },
                        DefType::Cell(p) => {
                            reveal_strlit("{\"kind\":\"cell\",\"name\":");
                            assert(s@.subrange(pos as int, pos + "{\"kind\":\"cell\",\"name\":"@.len())[9] == s@[pos + 9]);
                            assert(s@.subrange(pos as int, p1 as int)[9] == s@[pos + 9]);
                            assert(false);
                        },
                        DefType::RefCell(p) => {
                            reveal_strlit("{\"kind\":\"refCell\",\"name\":");
                            assert(s@.subrange(pos as int, pos + "{\"kind\":\"refCell\",\"name\":"@.len())[9] == s@[pos + 9]);
                            assert(s@.subrange(pos as int, p1 as int)[9] == s@[pos + 9]);
                            assert(false);
                        },
                        DefType::Mutex(p) => {
                            reveal_strlit("{\"kind\":\"mutex\",\"name\":");
                            assert(s@.subrange(pos as int, pos + "{\"kind\":\"mutex\",\"name\":"@.len())[9] == s@[pos + 9]);
                            assert(s@.subrange(pos as int, p1 as int)[9] == s@[pos + 9]);
                            assert(false);
                        },
                        DefType::RwLock(p) => {
                            reveal_strlit("{\"kind\":\"rwLock\",\"name\":");
                            assert(s@.subrange(pos as int, pos + "{\"kind\":\"rwLock\",\"name\":"@.len())[9] == s@[pos + 9]);
                            assert(s@.subrange(pos as int, p1 as int)[9] == s@[pos + 9]);
                            assert(false);
                        },
                        DefType::Rc(p) => {
                            reveal_strlit("{\"kind\":\"rc\",\"name\":");
                            assert(s@.subrange(pos as int, pos + "{\"kind\":\"rc\",\"name\":"@.len())[9] == s@[pos + 9]);
                            assert(s@.subrange(pos as int, p1 as int)[9] == s@[pos + 9]);
                            assert(false);
                        },
                        DefType::Arc(p) => {
                            reveal_strlit("{\"kind\":\"arc\",\"name\":");
                            assert(s@.subrange(pos as int, pos + "{\"kind\":\"arc\",\"name\":"@.len())[9] == s@[pos + 9]);
                            assert(s@.subrange(pos as int, p1 as int)[9] == s@[pos + 9]);
                            assert(false);
                        },
                        DefType::Result(p) => {
                            reveal_strlit("{\"kind\":\"result\",\"name\":");
                            assert(s@.subrange(pos as int, pos + "{\"kind\":\"result\",\"name\":"@.len())[9] == s@[pos + 9]);
                            assert(s@.subrange(pos as int, p1 as int)[9] == s@[pos + 9]);
                            assert(false);
                        },
                        DefType::Struct(p) => {
                            reveal_strlit("{\"kind\":\"struct\",\"name\":");
                            assert(s@.subrange(pos as int, pos + "{\"kind\":\"struct\",\"name\":"@.len())[9] == s@[pos + 9]);
                            assert(s@.subrange(pos as int, p1 as int)[9] == s@[pos + 9]);
                            assert(false);
                        },
                        DefType::Enum(p) => {
                            reveal_strlit("{\"kind\":\"enum\",\"name\":");
                            assert(s@.subrange(pos as int, pos + "{\"kind\":\"enum\",\"name\":"@.len())[9] == s@[pos + 9]);
                            assert(s@.subrange(pos as int, p1 as int)[9] == s@[pos + 9]);
                            assert(false);
                        },
                        }
                    }
                }
            }
            return None;
        },
    };
    let d0 = DefType::Option(DefOption { name: vname, size: vsize, align: valign, value_type_id: vid });
    proof {
        reveal_strlit("{\"kind\":\"option\",\"name\":");
        reveal_strlit("{\"kind\":\"");
        reveal_strlit("option");
        reveal_strlit("\",\"name\":");
        assert("{\"kind\":\"option\",\"name\":"@ =~= "{\"kind\":\""@ + "option"@ + "\",\"name\":"@);
        lemma_subrange_concat(s@, pos as int, p1 as int, p2 as int);
        lemma_subrange_concat(s@, pos as int, p2 as int, pz as int);
        assert(s@.subrange(pos as int, pz as int) =~= jdesc(d0));
        assert forall|d: DefType, q: int| desc_run(s@, pos as int, q, d) implies (d is Option && desc_like(d0, d) && pz as int == q) by {
            lemma_desc_pieces(s@, pos as int, q, d);
            match d {
            DefType::Option(p) => {
            },
            DefType::Primitive(p) => {
                reveal_strlit("{\"kind\":\"primitive\",\"name\":");
                assert(s@.subrange(pos as int, pos + "{\"kind\":\"primitive\",\"name\":"@.len())[9] == s@[pos + 9]);
                assert(s@.subrange(pos as int, p1 as int)[9] == s@[pos + 9]);
                assert(false);
            },
            DefType::String(p) => {
                reveal_strlit("{\"kind\":\"string\",\"name\":");
                assert(s@.subrange(pos as int, pos + "{\"kind\":\"string\",\"name\":"@.len())[9] == s@[pos + 9]);
                assert(s@.subrange(pos as int, p1 as int)[9] == s@[pos + 9]);
                assert(false);
            },
            DefType::StrSlice(p) => {
                reveal_strlit("{\"kind\":\"strSlice\",\"name\":");
                assert(s@.subrange(pos as int, pos + "{\"kind\":\"strSlice\",\"name\":"@.len())[9] == s@[pos + 9]);
                assert(s@.subrange(pos as int, p1 as int)[9] == s@[pos + 9]);
                assert(false);
            },
            DefType::Str(p) => {
                reveal_strlit("{\"kind\":\"str\",\"name\":");
                assert(s@.subrange(pos as int, pos + "{\"kind\":\"str\",\"name\":"@.len())[9] == s@[pos + 9]);
                assert(s@.subrange(pos as int, p1 as int)[9] == s@[pos + 9]);
                assert(false);
            },
            DefType::Box(p) => {
                reveal_strlit("{\"kind\":\"box\",\"name\":");
                assert(s@.subrange(pos as int, pos + "{\"kind\":\"box\",\"name\":"@.len())[9] == s@[pos + 9]);
                assert(s@.subrange(pos as int, p1 as int)[9] == s@[pos + 9]);
                assert(false);
            },
            DefType::Vec(p) => {
                reveal_strlit("{\"kind\":\"vec\",\"name\":");
                assert(s@.subrange(pos as int, pos + "{\"kind\":\"vec\",\"name\":"@.len())[9] == s@[pos + 9]);
                assert(s@.subrange(pos as int, p1 as int)[9] == s@[pos + 9]);
                assert(false);
            },
            DefType::PhantomData(p) => {
                reveal_strlit("{\"kind\":\"phantomData\",\"name\":");
                assert(s@.subrange(pos as int, pos + "{\"kind\":\"phantomData\",\"name\":"@.len())[9] == s@[pos + 9]);
                assert(s@.subrange(pos as int, p1 as int)[9] == s@[pos + 9]);
                assert(false);
            },
            DefType::Cell(p) => {
                reveal_strlit("{\"kind\":\"cell\",\"name\":");
                assert(s@.subrange(pos as int, pos + "{\"kind\":\"cell\",\"name\":"@.len())[9] == s@[pos + 9]);
                assert(s@.subrange(pos as int, p1 as int)[9] == s@[pos + 9]);
                assert(false);
            },
            DefType::RefCell(p) => {
                reveal_strlit("{\"kind\":\"refCell\",\"name\":");
                assert(s@.subrange(pos as int, pos + "{\"kind\":\"refCell\",\"name\":"@.len())[9] == s@[pos + 9]);
                assert(s@.subrange(pos as int, p1 as int)[9] == s@[pos + 9]);
                assert(false);
            },
            DefType::Mutex(p) => {
                reveal_strlit("{\"kind\":\"mutex\",\"name\":");
                assert(s@.subrange(pos as int, pos + "{\"kind\":\"mutex\",\"name\":"@.len())[9] == s@[pos + 9]);
                assert(s@.subrange(pos as int, p1 as int)[9] == s@[pos + 9]);
                assert(false);
            },
            DefType::RwLock(p) => {
                reveal_strlit("{\"kind\":\"rwLock\",\"name\":");
                assert(s@.subrange(pos as int, pos + "{\"kind\":\"rwLock\",\"name\":"@.len())[9] == s@[pos + 9]);
                assert(s@.subrange(pos as int, p1 as int)[9] == s@[pos + 9]);
                assert(false);
            },
            DefType::Rc(p) => {
                reveal_strlit("{\"kind\":\"rc\",\"name\":");
                assert(s@.subrange(pos as int, pos + "{\"kind\":\"rc\",\"name\":"@.len())[9] == s@[pos + 9]);
                assert(s@.subrange(pos as int, p1 as int)[9] == s@[pos + 9]);
                assert(false);
            },
            DefType::Arc(p) => {
                reveal_strlit("{\"kind\":\"arc\",\"name\":");
                assert(s@.subrange(pos as int, pos + "{\"kind\":\"arc\",\"name\":"@.len())[9] == s@[pos + 9]);
                assert(s@.subrange(pos as int, p1 as int)[9] == s@[pos + 9]);
                assert(false);
            },
            DefType::Result(p) => {
                reveal_strlit("{\"kind\":\"result\",\"name\":");
                assert(s@.subrange(pos as int, pos + "{\"kind\":\"result\",\"name\":"@.len())[9] == s@[pos + 9]);
                assert(s@.subrange(pos as int, p1 as int)[9] == s@[pos + 9]);
                assert(false);
            },
            DefType::Struct(p) => {
                reveal_strlit("{\"kind\":\"struct\",\"name\":");
                assert(s@.subrange(pos as int, pos + "{\"kind\":\"struct\",\"name\":"@.len())[9] == s@[pos + 9]);
                assert(s@.subrange(pos as int, p1 as int)[9] == s@[pos + 9]);
                assert(false);
            },
            DefType::Enum(p) => {
                reveal_strlit("{\"kind\":\"enum\",\"name\":");
                assert(s@.subrange(pos as int, pos + "{\"kind\":\"enum\",\"name\":"@.len())[9] == s@[pos + 9]);
                assert(s@.subrange(pos as int, p1 as int)[9] == s@[pos + 9]);
                assert(false);
            },
            }
        }
    }
    Some((d0, pz))
}

#[verifier::rlimit(100)]
fn parse_desc_phantomdata(s: &Vec<char>, pos: usize) -> (r: Option<(DefType, usize)>)
    ensures
        (r matches Some((d, p)) ==> pos < p <= s@.len() && s@.subrange(pos as int, p as int) == jdesc(d)),
        (forall|d: DefType, q: int| desc_run(s@, pos as int, q, d) && d is PhantomData ==> (r matches Some((d2, p)) && desc_like(d2, d) && p == q)),
        (forall|d: DefType, q: int| desc_run(s@, pos as int, q, d) && !(d is PhantomData) ==> r is None),
{
    let p1 = match expect(s, pos, "{\"kind\":\"phantomData\",\"name\":") {
        Some(p) => p,
        None => {
            proof {
                assert forall|d: DefType, q: int| !(desc_run(s@, pos as int, q, d) && d is PhantomData) by {
                    if desc_run(s@, pos as int, q, d) && d is PhantomData {
                        lemma_desc_pieces(s@, pos as int, q, d);
                        assert(false);
                    }
                }
            }
            return None;
        },
    };
    let (vname, p2) = match parse_jstring(s, p1) {
        Some(t) => t,
        None => {
            proof {
                reveal_strlit("{\"kind\":\"phantomData\",\"name\":");
                assert forall|d: DefType, q: int| !desc_run(s@, pos as int, q, d) by {
                    if desc_run(s@, pos as int, q, d) {
                        lemma_desc_pieces(s@, pos as int, q, d);
                        match d {
                        DefType::PhantomData(p) => {
                            assert(false);
                        },
                        DefType::Primitive(p) => {
                            reveal_strlit("{\"kind\":\"primitive\",\"name\":");
                            assert(s@.subrange(pos as int, pos + "{\"kind\":\"primitive\",\"name\":"@.len())[10] == s@[pos + 10]);
                            assert(s@.subrange(pos as int, p1 as int)[10] == s@[pos + 10]);
                            assert(false);
                        },
                        DefType::String(p) => {
                            reveal_strlit("{\"kind\":\"string\",\"name\":");
                            assert(s@.subrange(pos as int, pos + "{\"kind\":\"string\",\"name\":"@.len())[9] == s@[pos + 9]);
                            assert(s@.subrange(pos as int, p1 as int)[9] == s@[pos + 9]);
                            assert(false);
                        },
                        DefType::StrSlice(p) => {
                            reveal_strlit("{\"kind\":\"strSlice\",\"name\":");
                            assert(s@.subrange(pos as int, pos + "{\"kind\":\"strSlice\",\"name\":"@.len())[9] == s@[pos + 9]);
                            assert(s@.subrange(pos as int, p1 as int)[9] == s@[pos + 9]);
                            assert(false);
                        },
                        DefType::Str(p) => {
                            reveal_strlit("{\"kind\":\"str\",\"name\":");
                            assert(s@.subrange(pos as int, pos + "{\"kind\":\"str\",\"name\":"@.len())[9] == s@[pos + 9]);
                            assert(s@.subrange(pos as int, p1 as int)[9] == s@[pos + 9]);
                            assert(false);
                        },
                        DefType::Box(p) => {
                            reveal_strlit("{\"kind\":\"box\",\"name\":");
                            assert(s@.subrange(pos as int, pos + "{\"kind\":\"box\",\"name\":"@.len())[9] == s@[pos + 9]);
                            assert(s@.subrange(pos as int, p1 as int)[9] == s@[pos + 9]);
                            assert(false);
                        },
                        DefType::Vec(p) => {
                            reveal_strlit("{\"kind\":\"vec\",\"name\":");
                            assert(s@.subrange(pos as int, pos + "{\"kind\":\"vec\",\"name\":"@.len())[9] == s@[pos + 9]);
                            assert(s@.subrange(pos as int, p1 as int)[9] == s@[pos + 9]);
                            assert(false);
                        },
                        DefType::Option(p) => {
                            reveal_strlit("{\"kind\":\"option\",\"name\":");
                            assert(s@.subrange(pos as int, pos + "{\"kind\":\"option\",\"name\":"@.len())[9] == s@[pos + 9]);
                            assert(s@.subrange(pos as int, p1 as int)[9] == s@[pos + 9]);
                            assert(false);
                        },
                        DefType::Cell(p) => {
                            reveal_strlit("{\"kind\":\"cell\",\"name\":");
                            assert(s@.subrange(pos as int, pos + "{\"kind\":\"cell\",\"name\":"@.len())[9] == s@[pos + 9]);
                            assert(s@.subrange(pos as int, p1 as int)[9] == s@[pos + 9]);
                            assert(false);
                        },
                        DefType::RefCell(p) => {
                            reveal_strlit("{\"kind\":\"refCell\",\"name\":");
                            assert(s@.subrange(pos as int, pos + "{\"kind\":\"refCell\",\"name\":"@.len())[9] == s@[pos + 9]);
                            assert(s@.subrange(pos as int, p1 as int)[9] == s@[pos + 9]);
                            assert(false);
                        },
                        DefType::Mutex(p) => {
                            reveal_strlit("{\"kind\":\"mutex\",\"name\":");
                            assert(s@.subrange(pos as int, pos + "{\"kind\":\"mutex\",\"name\":"@.len())[9] == s@[pos + 9]);
                            assert(s@.subrange(pos as int, p1 as int)[9] == s@[pos + 9]);
                            assert(false);
                        },
                        DefType::RwLock(p) => {
                            reveal_strlit("{\"kind\":\"rwLock\",\"name\":");
                            assert(s@.subrange(pos as int, pos + "{\"kind\":\"rwLock\",\"name\":"@.len())[9] == s@[pos + 9]);
                            assert(s@.subrange(pos as int, p1 as int)[9] == s@[pos + 9]);
                            assert(false);
                        },
                        DefType::Rc(p) => {
                            reveal_strlit("{\"kind\":\"rc\",\"name\":");
                            assert(s@.subrange(pos as int, pos + "{\"kind\":\"rc\",\"name\":"@.len())[9] == s@[pos + 9]);
                            assert(s@.subrange(pos as int, p1 as int)[9] == s@[pos + 9]);
                            assert(false);
                        },
                        DefType::Arc(p) => {
                            reveal_strlit("{\"kind\":\"arc\",\"name\":");
                            assert(s@.subrange(pos as int, pos + "{\"kind\":\"arc\",\"name\":"@.len())[9] == s@[pos + 9]);
                            assert(s@.subrange(pos as int, p1 as int)[9] == s@[pos + 9]);
                            assert(false);
                        },
                        DefType::Result(p) => {
                            reveal_strlit("{\"kind\":\"result\",\"name\":");
                            assert(s@.subrange(pos as int, pos + "{\"kind\":\"result\",\"name\":"@.len())[9] == s@[pos + 9]);
                            assert(s@.subrange(pos as int, p1 as int)[9] == s@[pos + 9]);
                            assert(false);
                        },
                        DefType::Struct(p) => {
                            reveal_strlit("{\"kind\":\"struct\",\"name\":");
                            assert(s@.subrange(pos as int, pos + "{\"kind\":\"struct\",\"name\":"@.len())[9] == s@[pos + 9]);
                            assert(s@.subrange(pos as int, p1 as int)[9] == s@[pos + 9]);
                            assert(false);
                        },
                        DefType::Enum(p) => {
                            reveal_strlit("{\"kind\":\"enum\",\"name\":");
                            assert(s@.subrange(pos as int, pos + "{\"kind\":\"enum\",\"name\":"@.len())[9] == s@[pos + 9]);
                            assert(s@.subrange(pos as int, p1 as int)[9] == s@[pos + 9]);
                            assert(false);
                        },
                        }
                    }
                }
            }
            return None;
        },
    };
    let (vsize, valign, vid, pz) = match parse_wrap_rest(s, p2) {
        Some(t) => t,
        None => {
            proof {
                reveal_strlit("{\"kind\":\"phantomData\",\"name\":");
                assert forall|d: DefType, q: int| !desc_run(s@, pos as int, q, d) by {
                    if desc_run(s@, pos as int, q, d) {
                        lemma_desc_pieces(s@, pos as int, q, d);
                        match d {
                        DefType::PhantomData(p) => {
                            assert(false);
                        },
                        DefType::Primitive(p) => {
                            reveal_strlit("{\"kind\":\"primitive\",\"name\":");
                            assert(s@.subrange(pos as int, pos + "{\"kind\":\"primitive\",\"name\":"@.len())[10] == s@[pos + 10]);
                            assert(s@.subrange(pos as int, p1 as int)[10] == s@[pos + 10]);
                            assert(false);
                        },
                        DefType::String(p) => {
                            reveal_strlit("{\"kind\":\"string\",\"name\":");
                            assert(s@.subrange(pos as int, pos + "{\"kind\":\"string\",\"name\":"@.len())[9] == s@[pos + 9]);
                            assert(s@.subrange(pos as int, p1 as int)[9] == s@[pos + 9]);
                            assert(false);
                        },
                        DefType::StrSlice(p) => {
                            reveal_strlit("{\"kind\":\"strSlice\",\"name\":");
                            assert(s@.subrange(pos as int, pos + "{\"kind\":\"strSlice\",\"name\":"@.len())[9] == s@[pos + 9]);
                            assert(s@.subrange(pos as int, p1 as int)[9] == s@[pos + 9]);
                            assert(false);
                        },
                        DefType::Str(p) => {
                            reveal_strlit("{\"kind\":\"str\",\"name\":");
                            assert(s@.subrange(pos as int, pos + "{\"kind\":\"str\",\"name\":"@.len())[9] == s@[pos + 9]);
                            assert(s@.subrange(pos as int, p1 as int)[9] == s@[pos + 9]);
                            assert(false);
                        },
                        DefType::Box(p) => {
                            reveal_strlit("{\"kind\":\"box\",\"name\":");
                            assert(s@.subrange(pos as int, pos + "{\"kind\":\"box\",\"name\":"@.len())[9] == s@[pos + 9]);
                            assert(s@.subrange(pos as int, p1 as int)[9] == s@[pos + 9]);
                            assert(false);
                        },
                        DefType::Vec(p) => {
                            reveal_strlit("{\"kind\":\"vec\",\"name\":");
                            assert(s@.subrange(pos as int, pos + "{\"kind\":\"vec\",\"name\":"@.len())[9] == s@[pos + 9]);
                            assert(s@.subrange(pos as int, p1 as int)[9] == s@[pos + 9]);
                            assert(false);
                        },
                        DefType::Option(p) => {
                            reveal_strlit("{\"kind\":\"option\",\"name\":");
                            assert(s@.subrange(pos as int, pos + "{\"kind\":\"option\",\"name\":"@.len())[9] == s@[pos + 9]);
                            assert(s@.subrange(pos as int, p1 as int)[9] == s@[pos + 9]);
                            assert(false);
                        },
                        DefType::Cell(p) => {
                            reveal_strlit("{\"kind\":\"cell\",\"name\":");
                            assert(s@.subrange(pos as int, pos + "{\"kind\":\"cell\",\"name\":"@.len())[9] == s@[pos + 9]);
                            assert(s@.subrange(pos as int, p1 as int)[9] == s@[pos + 9]);
                            assert(false);
                        },
                        DefType::RefCell(p) => {
                            reveal_strlit("{\"kind\":\"refCell\",\"name\":");
                            assert(s@.subrange(pos as int, pos + "{\"kind\":\"refCell\",\"name\":"@.len())[9] == s@[pos + 9]);
                            assert(s@.subrange(pos as int, p1 as int)[9] == s@[pos + 9]);
                            assert(false);
                        },
                        DefType::Mutex(p) => {
                            reveal_strlit("{\"kind\":\"mutex\",\"name\":");
                            assert(s@.subrange(pos as int, pos + "{\"kind\":\"mutex\",\"name\":"@.len())[9] == s@[pos + 9]);
                            assert(s@.subrange(pos as int, p1 as int)[9] == s@[pos + 9]);
                            assert(false);
                        },
                        DefType::RwLock(p) => {
                            reveal_strlit("{\"kind\":\"rwLock\",\"name\":");
                            assert(s@.subrange(pos as int, pos + "{\"kind\":\"rwLock\",\"name\":"@.len())[9] == s@[pos + 9]);
                            assert(s@.subrange(pos as int, p1 as int)[9] == s@[pos + 9]);
                            assert(false);
                        },
                        DefType::Rc(p) => {
                            reveal_strlit("{\"kind\":\"rc\",\"name\":");
                            assert(s@.subrange(pos as int, pos + "{\"kind\":\"rc\",\"name\":"@.len())[9] == s@[pos + 9]);
                            assert(s@.subrange(pos as int, p1 as int)[9] == s@[pos + 9]);
                            assert(false);
                        },
                        DefType::Arc(p) => {
                            reveal_strlit("{\"kind\":\"arc\",\"name\":");
                            assert(s@.subrange(pos as int, pos + "{\"kind\":\"arc\",\"name\":"@.len())[9] == s@[pos + 9]);
                            assert(s@.subrange(pos as int, p1 as int)[9] == s@[pos + 9]);
                            assert(false);
                        },
                        DefType::Result(p) => {
                            reveal_strlit("{\"kind\":\"result\",\"name\":");
                            assert(s@.subrange(pos as int, pos + "{\"kind\":\"result\",\"name\":"@.len())[9] == s@[pos + 9]);
                            assert(s@.subrange(pos as int, p1 as int)[9] == s@[pos + 9]);
                            assert(false);
                        },
                        DefType::Struct(p) => {
                            reveal_strlit("{\"kind\":\"struct\",\"name\":");
                            assert(s@.subrange(pos as int, pos + "{\"kind\":\"struct\",\"name\":"@.len())[9] == s@[pos + 9]);
                            assert(s@.subrange(pos as int, p1 as int)[9] == s@[pos + 9]);
                            assert(false);
                        },
                        DefType::Enum(p) => {
                            reveal_strlit("{\"kind\":\"enum\",\"name\":");
                            assert(s@.subrange(pos as int, pos + "{\"kind\":\"enum\",\"name\":"@.len())[9] == s@[pos + 9]);
                            assert(s@.subrange(pos as int, p1 as int)[9] == s@[pos + 9]);
                            assert(false);
                        },
                        }
                    }
                }
            }
            return None;
        },
    };
    let d0 = DefType::PhantomData(DefPhantomData { name: vname, size: vsize, align: valign, value_type_id: vid });
    proof {
        reveal_strlit("{\"kind\":\"phantomData\",\"name\":");
        reveal_strlit("{\"kind\":\"");
        reveal_strlit("phantomData");
        reveal_strlit("\",\"name\":");
        assert("{\"kind\":\"phantomData\",\"name\":"@ =~= "{\"kind\":\""@ + "phantomData"@ + "\",\"name\":"@);
        lemma_subrange_concat(s@, pos as int, p1 as int, p2 as int);
        lemma_subrange_concat(s@, pos as int, p2 as int, pz as int);
        assert(s@.subrange(pos as int, pz as int) =~= jdesc(d0));
        assert forall|d: DefType, q: int| desc_run(s@, pos as int, q, d) implies (d is PhantomData && desc_like(d0, d) && pz as int == q) by {
            lemma_desc_pieces(s@, pos as int, q, d);
            match d {
            DefType::PhantomData(p) => {
            },
            DefType::Primitive(p) => {
                reveal_strlit("{\"kind\":\"primitive\",\"name\":");
                assert(s@.subrange(pos as int, pos + "{\"kind\":\"primitive\",\"name\":"@.len())[10] == s@[pos + 10]);
                assert(s@.subrange(pos as int, p1 as int)[10] == s@[pos + 10]);
                assert(false);
            },
            DefType::String(p) => {
                reveal_strlit("{\"kind\":\"string\",\"name\":");
                assert(s@.subrange(pos as int, pos + "{\"kind\":\"string\",\"name\":"@.len())[9] == s@[pos + 9]);
                assert(s@.subrange(pos as int, p1 as int)[9] == s@[pos + 9]);
                assert(false);
            },
            DefType::StrSlice(p) => {
                reveal_strlit("{\"kind\":\"strSlice\",\"name\":");
                assert(s@.subrange(pos as int, pos + "{\"kind\":\"strSlice\",\"name\":"@.len())[9] == s@[pos + 9]);
                assert(s@.subrange(pos as int, p1 as int)[9] == s@[pos + 9]);
                assert(false);
            },
            DefType::Str(p) => {
                reveal_strlit("{\"kind\":\"str\",\"name\":");
                assert(s@.subrange(pos as int, pos + "{\"kind\":\"str\",\"name\":"@.len())[9] == s@[pos + 9]);
                assert(s@.subrange(pos as int, p1 as int)[9] == s@[pos + 9]);
                assert(false);
            },
            DefType::Box(p) => {
                reveal_strlit("{\"kind\":\"box\",\"name\":");
                assert(s@.subrange(pos as int, pos + "{\"kind\":\"box\",\"name\":"@.len())[9] == s@[pos + 9]);
                assert(s@.subrange(pos as int, p1 as int)[9] == s@[pos + 9]);
                assert(false);
            },
            DefType::Vec(p) => {
                reveal_strlit("{\"kind\":\"vec\",\"name\":");
                assert(s@.subrange(pos as int, pos + "{\"kind\":\"vec\",\"name\":"@.len())[9] == s@[pos + 9]);
                assert(s@.subrange(pos as int, p1 as int)[9] == s@[pos + 9]);
                assert(false);
            },
            DefType::Option(p) => {
                reveal_strlit("{\"kind\":\"option\",\"name\":");
                assert(s@.subrange(pos as int, pos + "{\"kind\":\"option\",\"name\":"@.len())[9] == s@[pos + 9]);
                assert(s@.subrange(pos as int, p1 as int)[9] == s@[pos + 9]);
                assert(false);
            },
            DefType::Cell(p) => {
                reveal_strlit("{\"kind\":\"cell\",\"name\":");
                assert(s@.subrange(pos as int, pos + "{\"kind\":\"cell\",\"name\":"@.len())[9] == s@[pos + 9]);
                assert(s@.subrange(pos as int, p1 as int)[9] == s@[pos + 9]);
                assert(false);
            },
            DefType::RefCell(p) => {
                reveal_strlit("{\"kind\":\"refCell\",\"name\":");
                assert(s@.subrange(pos as int, pos + "{\"kind\":\"refCell\",\"name\":"@.len())[9] == s@[pos + 9]);
                assert(s@.subrange(pos as int, p1 as int)[9] == s@[pos + 9]);
                assert(false);
            },
            DefType::Mutex(p) => {
                reveal_strlit("{\"kind\":\"mutex\",\"name\":");
                assert(s@.subrange(pos as int, pos + "{\"kind\":\"mutex\",\"name\":"@.len())[9] == s@[pos + 9]);
                assert(s@.subrange(pos as int, p1 as int)[9] == s@[pos + 9]);
                assert(false);
            },
            DefType::RwLock(p) => {
                reveal_strlit("{\"kind\":\"rwLock\",\"name\":");
                assert(s@.subrange(pos as int, pos + "{\"kind\":\"rwLock\",\"name\":"@.len())[9] == s@[pos + 9]);
                assert(s@.subrange(pos as int, p1 as int)[9] == s@[pos + 9]);
                assert(false);
            },
            DefType::Rc(p) => {
                reveal_strlit("{\"kind\":\"rc\",\"name\":");
                assert(s@.subrange(pos as int, pos + "{\"kind\":\"rc\",\"name\":"@.len())[9] == s@[pos + 9]);
                assert(s@.subrange(pos as int, p1 as int)[9] == s@[pos + 9]);
                assert(false);
            },
            DefType::Arc(p) => {
                reveal_strlit("{\"kind\":\"arc\",\"name\":");
                assert(s@.subrange(pos as int, pos + "{\"kind\":\"arc\",\"name\":"@.len())[9] == s@[pos + 9]);
                assert(s@.subrange(pos as int, p1 as int)[9] == s@[pos + 9]);
                assert(false);
            },
            DefType::Result(p) => {
                reveal_strlit("{\"kind\":\"result\",\"name\":");
                assert(s@.subrange(pos as int, pos + "{\"kind\":\"result\",\"name\":"@.len())[9] == s@[pos + 9]);
                assert(s@.subrange(pos as int, p1 as int)[9] == s@[pos + 9]);
                assert(false);
            },
            DefType::Struct(p) => {
                reveal_strlit("{\"kind\":\"struct\",\"name\":");
                assert(s@.subrange(pos as int, pos + "{\"kind\":\"struct\",\"name\":"@.len())[9] == s@[pos + 9]);
                assert(s@.subrange(pos as int, p1 as int)[9] == s@[pos + 9]);
                assert(false);
            },
            DefType::Enum(p) => {
                reveal_strlit("{\"kind\":\"enum\",\"name\":");
                assert(s@.subrange(pos as int, pos + "{\"kind\":\"enum\",\"name\":"@.len())[9] == s@[pos + 9]);
                assert(s@.subrange(pos as int, p1 as int)[9] == s@[pos + 9]);
                assert(false);
            },
            }
        }
    }
    Some((d0, pz))
}

#[verifier::rlimit(100)]
fn parse_desc_cell(s: &Vec<char>, pos: usize) -> (r: Option<(DefType, usize)>)
    ensures
        (r matches Some((d, p)) ==> pos < p <= s@.len() && s@.subrange(pos as int, p as int) == jdesc(d)),
        (forall|d: DefType, q: int| desc_run(s@, pos as int, q, d) && d is Cell ==> (r matches Some((d2, p)) && desc_like(d2, d) && p == q)),
        (forall|d: DefType, q: int| desc_run(s@, pos as int, q, d) && !(d is Cell) ==> r is None),
{
    let p1 = match expect(s, pos, "{\"kind\":\"cell\",\"name\":") {
        Some(p) => p,
        None => {
            proof {
                assert forall|d: DefType, q: int| !(desc_run(s@, pos as int, q, d) && d is Cell) by {
                    if desc_run(s@, pos as int, q, d) && d is Cell {
                        lemma_desc_pieces(s@, pos as int, q, d);
                        assert(false);
                    }
                }
            }
            return None;
        },
    };
    let (vname, p2) = match parse_jstring(s, p1) {
        Some(t) => t,
        None => {
            proof {
                reveal_strlit("{\"kind\":\"cell\",\"name\":");
                assert forall|d: DefType, q: int| !desc_run(s@, pos as int, q, d) by {
                    if desc_run(s@, pos as int, q, d) {
                        lemma_desc_pieces(s@, pos as int, q, d);
                        match d {
                        DefType::Cell(p) => {
                            assert(false);
                        },
                        DefType::Primitive(p) => {
                            reveal_strlit("{\"kind\":\"primitive\",\"name\":");
                            assert(s@.subrange(pos as int, pos + "{\"kind\":\"primitive\",\"name\":"@.len())[9] == s@[pos + 9]);
                            assert(s@.subrange(pos as int, p1 as int)[9] == s@[pos + 9]);
                            assert(false);
                        },
                        DefType::String(p) => {
                            reveal_strlit("{\"kind\":\"string\",\"name\":");
                            assert(s@.subrange(pos as int, pos + "{\"kind\":\"string\",\"name\":"@.len())[9] == s@[pos + 9]);
                            assert(s@.subrange(pos as int, p1 as int)[9] == s@[pos + 9]);
                            assert(false);
                        },
                        DefType::StrSlice(p) => {
                            reveal_strlit("{\"kind\":\"strSlice\",\"name\":");
                            assert(s@.subrange(pos as int, pos + "{\"kind\":\"strSlice\",\"name\":"@.len())[9] == s@[pos + 9]);
                            assert(s@.subrange(pos as int, p1 as int)[9] == s@[pos + 9]);
                            assert(false);
                        },
                        DefType::Str(p) => {
                            reveal_strlit("{\"kind\":\"str\",\"name\":");
                            assert(s@.subrange(pos as int, pos + "{\"kind\":\"str\",\"name\":"@.len())[9] == s@[pos + 9]);
                            assert(s@.subrange(pos as int, p1 as int)[9] == s@[pos + 9]);
                            assert(false);
                        },
                        DefType::Box(p) => {
                            reveal_strlit("{\"kind\":\"box\",\"name\":");
                            assert(s@.subrange(pos as int, pos + "{\"kind\":\"box\",\"name\":"@.len())[9] == s@[pos + 9]);
                            assert(s@.subrange(pos as int, p1 as int)[9] == s@[pos + 9]);
                            assert(false);
                        },
                        DefType::Vec(p) => {
                            reveal_strlit("{\"kind\":\"vec\",\"name\":");
                            assert(s@.subrange(pos as int, pos + "{\"kind\":\"vec\",\"name\":"@.len())[9] == s@[pos + 9]);
                            assert(s@.subrange(pos as int, p1 as int)[9] == s@[pos + 9]);
                            assert(false);
                        },
                        DefType::Option(p) => {
                            reveal_strlit("{\"kind\":\"option\",\"name\":");
                            assert(s@.subrange(pos as int, pos + "{\"kind\":\"option\",\"name\":"@.len())[9] == s@[pos + 9]);
                            assert(s@.subrange(pos as int, p1 as int)[9] == s@[pos + 9]);
                            assert(false);
                        },
                        DefType::PhantomData(p) => {
                            reveal_strlit("{\"kind\":\"phantomData\",\"name\":");
                            assert(s@.subrange(pos as int, pos + "{\"kind\":\"phantomData\",\"name\":"@.len())[9] == s@[pos + 9]);
                            assert(s@.subrange(pos as int, p1 as int)[9] == s@[pos + 9]);
                            assert(false);
                        },
                        DefType::RefCell(p) => {
                            reveal_strlit("{\"kind\":\"refCell\",\"name\":");
                            assert(s@.subrange(pos as int, pos + "{\"kind\":\"refCell\",\"name\":"@.len())[9] == s@[pos + 9]);
                            assert(s@.subrange(pos as int, p1 as int)[9] == s@[pos + 9]);
                            assert(false);
                        },
                        DefType::Mutex(p) => {
                            reveal_strlit("{\"kind\":\"mutex\",\"name\":");
                            assert(s@.subrange(pos as int, pos + "{\"kind\":\"mutex\",\"name\":"@.len())[9] == s@[pos + 9]);
                            assert(s@.subrange(pos as int, p1 as int)[9] == s@[pos + 9]);
                            assert(false);
                        },
                        DefType::RwLock(p) => {
                            reveal_strlit("{\"kind\":\"rwLock\",\"name\":");
                            assert(s@.subrange(pos as int, pos + "{\"kind\":\"rwLock\",\"name\":"@.len())[9] == s@[pos + 9]);
                            assert(s@.subrange(pos as int, p1 as int)[9] == s@[pos + 9]);
                            assert(false);
                        },
                        DefType::Rc(p) => {
                            reveal_strlit("{\"kind\":\"rc\",\"name\":");
                            assert(s@.subrange(pos as int, pos + "{\"kind\":\"rc\",\"name\":"@.len())[9] == s@[pos + 9]);
                            assert(s@.subrange(pos as int, p1 as int)[9] == s@[pos + 9]);
                            assert(false);
                        },
                        DefType::Arc(p) => {
                            reveal_strlit("{\"kind\":\"arc\",\"name\":");
                            assert(s@.subrange(pos as int, pos + "{\"kind\":\"arc\",\"name\":"@.len())[9] == s@[pos + 9]);
                            assert(s@.subrange(pos as int, p1 as int)[9] == s@[pos + 9]);
                            assert(false);
                        },
                        DefType::Result(p) => {
                            reveal_strlit("{\"kind\":\"result\",\"name\":");
                            assert(s@.subrange(pos as int, pos + "{\"kind\":\"result\",\"name\":"@.len())[9] == s@[pos + 9]);
                            assert(s@.subrange(pos as int, p1 as int)[9] == s@[pos + 9]);
                            assert(false);
                        },
                        DefType::Struct(p) => {
                            reveal_strlit("{\"kind\":\"struct\",\"name\":");
                            assert(s@.subrange(pos as int, pos + "{\"kind\":\"struct\",\"name\":"@.len())[9] == s@[pos + 9]);
                            assert(s@.subrange(pos as int, p1 as int)[9] == s@[pos + 9]);
                            assert(false);
                        },
                        DefType::Enum(p) => {
                            reveal_strlit("{\"kind\":\"enum\",\"name\":");
                            assert(s@.subrange(pos as int, pos + "{\"kind\":\"enum\",\"name\":"@.len())[9] == s@[pos + 9]);
                            assert(s@.subrange(pos as int, p1 as int)[9] == s@[pos + 9]);
                            assert(false);
                        },
                        }
                    }
                }
            }
            return None;
        },
    };
    let (vsize, valign, vid, pz) = match parse_wrap_rest(s, p2) {
        Some(t) => t,
        None => {
            proof {
                reveal_strlit("{\"kind\":\"cell\",\"name\":");
                assert forall|d: DefType, q: int| !desc_run(s@, pos as int, q, d) by {
                    if desc_run(s@, pos as int, q, d) {
                        lemma_desc_pieces(s@, pos as int, q, d);
                        match d {
                        DefType::Cell(p) => {
                            assert(false);
                        },
                        DefType::Primitive(p) => {
                            reveal_strlit("{\"kind\":\"primitive\",\"name\":");
                            assert(s@.subrange(pos as int, pos + "{\"kind\":\"primitive\",\"name\":"@.len())[9] == s@[pos + 9]);
                            assert(s@.subrange(pos as int, p1 as int)[9] == s@[pos + 9]);
                            assert(false);
                        },
                        DefType::String(p) => {
                            reveal_strlit("{\"kind\":\"string\",\"name\":");
                            assert(s@.subrange(pos as int, pos + "{\"kind\":\"string\",\"name\":"@.len())[9] == s@[pos + 9]);
                            assert(s@.subrange(pos as int, p1 as int)[9] == s@[pos + 9]);
                            assert(false);
                        },
                        DefType::StrSlice(p) => {
                            reveal_strlit("{\"kind\":\"strSlice\",\"name\":");
                            assert(s@.subrange(pos as int, pos + "{\"kind\":\"strSlice\",\"name\":"@.len())[9] == s@[pos + 9]);
                            assert(s@.subrange(pos as int, p1 as int)[9] == s@[pos + 9]);
                            assert(false);
                        },
                        DefType::Str(p) => {
                            reveal_strlit("{\"kind\":\"str\",\"name\":");
                            assert(s@.subrange(pos as int, pos + "{\"kind\":\"str\",\"name\":"@.len())[9] == s@[pos + 9]);
                            assert(s@.subrange(pos as int, p1 as int)[9] == s@[pos + 9]);
                            assert(false);
                        },
                        DefType::Box(p) => {
                            reveal_strlit("{\"kind\":\"box\",\"name\":");
                            assert(s@.subrange(pos as int, pos + "{\"kind\":\"box\",\"name\":"@.len())[9] == s@[pos + 9]);
                            assert(s@.subrange(pos as int, p1 as int)[9] == s@[pos + 9]);
                            assert(false);
                        },
                        DefType::Vec(p) => {
                            reveal_strlit("{\"kind\":\"vec\",\"name\":");
                            assert(s@.subrange(pos as int, pos + "{\"kind\":\"vec\",\"name\":"@.len())[9] == s@[pos + 9]);
                            assert(s@.subrange(pos as int, p1 as int)[9] == s@[pos + 9]);
                            assert(false);
                        },
                        DefType::Option(p) => {
                            reveal_strlit("{\"kind\":\"option\",\"name\":");
                            assert(s@.subrange(pos as int, pos + "{\"kind\":\"option\",\"name\":"@.len())[9] == s@[pos + 9]);
                            assert(s@.subrange(pos as int, p1 as int)[9] == s@[pos + 9]);
                            assert(false);
                        },
                        DefType::PhantomData(p) => {
                            reveal_strlit("{\"kind\":\"phantomData\",\"name\":");
                            assert(s@.subrange(pos as int, pos + "{\"kind\":\"phantomData\",\"name\":"@.len())[9] == s@[pos + 9]);
                            assert(s@.subrange(pos as int, p1 as int)[9] == s@[pos + 9]);
                            assert(false);
                        },
                        DefType::RefCell(p) => {
                            reveal_strlit("{\"kind\":\"refCell\",\"name\":");
                            assert(s@.subrange(pos as int, pos + "{\"kind\":\"refCell\",\"name\":"@.len())[9] == s@[pos + 9]);
                            assert(s@.subrange(pos as int, p1 as int)[9] == s@[pos + 9]);
                            assert(false);
                        },
                        DefType::Mutex(p) => {
                            reveal_strlit("{\"kind\":\"mutex\",\"name\":");
                            assert(s@.subrange(pos as int, pos + "{\"kind\":\"mutex\",\"name\":"@.len())[9] == s@[pos + 9]);
                            assert(s@.subrange(pos as int, p1 as int)[9] == s@[pos + 9]);
                            assert(false);
                        },
                        DefType::RwLock(p) => {
                            reveal_strlit("{\"kind\":\"rwLock\",\"name\":");
                            assert(s@.subrange(pos as int, pos + "{\"kind\":\"rwLock\",\"name\":"@.len())[9] == s@[pos + 9]);
                            assert(s@.subrange(pos as int, p1 as int)[9] == s@[pos + 9]);
                            assert(false);
                        },
                        DefType::Rc(p) => {
                            reveal_strlit("{\"kind\":\"rc\",\"name\":");
                            assert(s@.subrange(pos as int, pos + "{\"kind\":\"rc\",\"name\":"@.len())[9] == s@[pos + 9]);
                            assert(s@.subrange(pos as int, p1 as int)[9] == s@[pos + 9]);
                            assert(false);
                        },
                        DefType::Arc(p) => {
                            reveal_strlit("{\"kind\":\"arc\",\"name\":");
                            assert(s@.subrange(pos as int, pos + "{\"kind\":\"arc\",\"name\":"@.len())[9] == s@[pos + 9]);
                            assert(s@.subrange(pos as int, p1 as int)[9] == s@[pos + 9]);
                            assert(false);
                        },
                        DefType::Result(p) => {
                            reveal_strlit("{\"kind\":\"result\",\"name\":");
                            assert(s@.subrange(pos as int, pos + "{\"kind\":\"result\",\"name\":"@.len())[9] == s@[pos + 9]);
                            assert(s@.subrange(pos as int, p1 as int)[9] == s@[pos + 9]);
                            assert(false);
                        },
                        DefType::Struct(p) => {
                            reveal_strlit("{\"kind\":\"struct\",\"name\":");
                            assert(s@.subrange(pos as int, pos + "{\"kind\":\"struct\",\"name\":"@.len())[9] == s@[pos + 9]);
                            assert(s@.subrange(pos as int, p1 as int)[9] == s@[pos + 9]);
                            assert(false);
                        },
                        DefType::Enum(p) => {
                            reveal_strlit("{\"kind\":\"enum\",\"name\":");
                            assert(s@.subrange(pos as int, pos + "{\"kind\":\"enum\",\"name\":"@.len())[9] == s@[pos + 9]);
                            assert(s@.subrange(pos as int, p1 as int)[9] == s@[pos + 9]);
                            assert(false);
                        },
                        }
                    }
                }
            }
            return None;
        },
    };
    let d0 = DefType::Cell(DefCell { name: vname, size: vsize, align: valign, value_type_id: vid });
    proof {
        reveal_strlit("{\"kind\":\"cell\",\"name\":");
        reveal_strlit("{\"kind\":\"");
        reveal_strlit("cell");
        reveal_strlit("\",\"name\":");
        assert("{\"kind\":\"cell\",\"name\":"@ =~= "{\"kind\":\""@ + "cell"@ + "\",\"name\":"@);
        lemma_subrange_concat(s@, pos as int, p1 as int, p2 as int);
        lemma_subrange_concat(s@, pos as int, p2 as int, pz as int);
        assert(s@.subrange(pos as int, pz as int) =~= jdesc(d0));
        assert forall|d: DefType, q: int| desc_run(s@, pos as int, q, d) implies (d is Cell && desc_like(d0, d) && pz as int == q) by {
            lemma_desc_pieces(s@, pos as int, q, d);
            match d {
            DefType::Cell(p) => {
            },
            DefType::Primitive(p) => {
                reveal_strlit("{\"kind\":\"primitive\",\"name\":");
                assert(s@.subrange(pos as int, pos + "{\"kind\":\"primitive\",\"name\":"@.len())[9] == s@[pos + 9]);
                assert(s@.subrange(pos as int, p1 as int)[9] == s@[pos + 9]);
                assert(false);
            },
            DefType::String(p) => {
                reveal_strlit("{\"kind\":\"string\",\"name\":");
                assert(s@.subrange(pos as int, pos + "{\"kind\":\"string\",\"name\":"@.len())[9] == s@[pos + 9]);
                assert(s@.subrange(pos as int, p1 as int)[9] == s@[pos + 9]);
                assert(false);
            },
            DefType::StrSlice(p) => {
                reveal_strlit("{\"kind\":\"strSlice\",\"name\":");
                assert(s@.subrange(pos as int, pos + "{\"kind\":\"strSlice\",\"name\":"@.len())[9] == s@[pos + 9]);
                assert(s@.subrange(pos as int, p1 as int)[9] == s@[pos + 9]);
                assert(false);
            },
            DefType::Str(p) => {
                reveal_strlit("{\"kind\":\"str\",\"name\":");
                assert(s@.subrange(pos as int, pos + "{\"kind\":\"str\",\"name\":"@.len())[9] == s@[pos + 9]);
                assert(s@.subrange(pos as int, p1 as int)[9] == s@[pos + 9]);
                assert(false);
            },
            DefType::Box(p) => {
                reveal_strlit("{\"kind\":\"box\",\"name\":");
                assert(s@.subrange(pos as int, pos + "{\"kind\":\"box\",\"name\":"@.len())[9] == s@[pos + 9]);
                assert(s@.subrange(pos as int, p1 as int)[9] == s@[pos + 9]);
                assert(false);
            },
            DefType::Vec(p) => {
                reveal_strlit("{\"kind\":\"vec\",\"name\":");
                assert(s@.subrange(pos as int, pos + "{\"kind\":\"vec\",\"name\":"@.len())[9] == s@[pos + 9]);
                assert(s@.subrange(pos as int, p1 as int)[9] == s@[pos + 9]);
                assert(false);
            },
            DefType::Option(p) => {
                reveal_strlit("{\"kind\":\"option\",\"name\":");
                assert(s@.subrange(pos as int, pos + "{\"kind\":\"option\",\"name\":"@.len())[9] == s@[pos + 9]);
                assert(s@.subrange(pos as int, p1 as int)[9] == s@[pos + 9]);
                assert(false);
            },
            DefType::PhantomData(p) => {
                reveal_strlit("{\"kind\":\"phantomData\",\"name\":");
                assert(s@.subrange(pos as int, pos + "{\"kind\":\"phantomData\",\"name\":"@.len())[9] == s@[pos + 9]);
                assert(s@.subrange(pos as int, p1 as int)[9] == s@[pos + 9]);
                assert(false);
            },
            DefType::RefCell(p) => {
                reveal_strlit("{\"kind\":\"refCell\",\"name\":");
                assert(s@.subrange(pos as int, pos + "{\"kind\":\"refCell\",\"name\":"@.len())[9] == s@[pos + 9]);
                assert(s@.subrange(pos as int, p1 as int)[9] == s@[pos + 9]);
                assert(false);
            },
            DefType::Mutex(p) => {
                reveal_strlit("{\"kind\":\"mutex\",\"name\":");
                assert(s@.subrange(pos as int, pos + "{\"kind\":\"mutex\",\"name\":"@.len())[9] == s@[pos + 9]);
                assert(s@.subrange(pos as int, p1 as int)[9] == s@[pos + 9]);
                assert(false);
            },
            DefType::RwLock(p) => {
                reveal_strlit("{\"kind\":\"rwLock\",\"name\":");
                assert(s@.subrange(pos as int, pos + "{\"kind\":\"rwLock\",\"name\":"@.len())[9] == s@[pos + 9]);
                assert(s@.subrange(pos as int, p1 as int)[9] == s@[pos + 9]);
                assert(false);
            },
            DefType::Rc(p) => {
                reveal_strlit("{\"kind\":\"rc\",\"name\":");
                assert(s@.subrange(pos as int, pos + "{\"kind\":\"rc\",\"name\":"@.len())[9] == s@[pos + 9]);
                assert(s@.subrange(pos as int, p1 as int)[9] == s@[pos + 9]);
                assert(false);
            },
            DefType::Arc(p) => {
                reveal_strlit("{\"kind\":\"arc\",\"name\":");
                assert(s@.subrange(pos as int, pos + "{\"kind\":\"arc\",\"name\":"@.len())[9] == s@[pos + 9]);
                assert(s@.subrange(pos as int, p1 as int)[9] == s@[pos + 9]);
                assert(false);
            },
            DefType::Result(p) => {
                reveal_strlit("{\"kind\":\"result\",\"name\":");
                assert(s@.subrange(pos as int, pos + "{\"kind\":\"result\",\"name\":"@.len())[9] == s@[pos + 9]);
                assert(s@.subrange(pos as int, p1 as int)[9] == s@[pos + 9]);
                assert(false);
            },
            DefType::Struct(p) => {
                reveal_strlit("{\"kind\":\"struct\",\"name\":");
                assert(s@.subrange(pos as int, pos + "{\"kind\":\"struct\",\"name\":"@.len())[9] == s@[pos + 9]);
                assert(s@.subrange(pos as int, p1 as int)[9] == s@[pos + 9]);
                assert(false);
            },
            DefType::Enum(p) => {
                reveal_strlit("{\"kind\":\"enum\",\"name\":");
                assert(s@.subrange(pos as int, pos + "{\"kind\":\"enum\",\"name\":"@.len())[9] == s@[pos + 9]);
                assert(s@.subrange(pos as int, p1 as int)[9] == s@[pos + 9]);
                assert(false);
            },
            }
        }
    }
    Some((d0, pz))
}

#[verifier::rlimit(100)]
fn parse_desc_refcell(s: &Vec<char>, pos: usize) -> (r: Option<(DefType, usize)>)
    ensures
        (r matches Some((d, p)) ==> pos < p <= s@.len() && s@.subrange(pos as int, p as int) == jdesc(d)),
        (forall|d: DefType, q: int| desc_run(s@, pos as int, q, d) && d is RefCell ==> (r matches Some((d2, p)) && desc_like(d2, d) && p == q)),
        (forall|d: DefType, q: int| desc_run(s@, pos as int, q, d) && !(d is RefCell) ==> r is None),
{
    let p1 = match expect(s, pos, "{\"kind\":\"refCell\",\"name\":") {
        Some(p) => p,
        None => {
            proof {
                assert forall|d: DefType, q: int| !(desc_run(s@, pos as int, q, d) && d is RefCell) by {
                    if desc_run(s@, pos as int, q, d) && d is RefCell {
                        lemma_desc_pieces(s@, pos as int, q, d);
                        assert(false);
                    }
                }
            }
            return None;
        },
    };
    let (vname, p2) = match parse_jstring(s, p1) {
        Some(t) => t,
        None => {
            proof {
                reveal_strlit("{\"kind\":\"refCell\",\"name\":");
                assert forall|d: DefType, q: int| !desc_run(s@, pos as int, q, d) by {
                    if desc_run(s@, pos as int, q, d) {
                        lemma_desc_pieces(s@, pos as int, q, d);
                        match d {
                        DefType::RefCell(p) => {
                            assert(false);
                        },
                        DefType::Primitive(p) => {
                            reveal_strlit("{\"kind\":\"primitive\",\"name\":");
                            assert(s@.subrange(pos as int, pos + "{\"kind\":\"primitive\",\"name\":"@.len())[9] == s@[pos + 9]);
                            assert(s@.subrange(pos as int, p1 as int)[9] == s@[pos + 9]);
                            assert(false);
                        },
                        DefType::String(p) => {
                            reveal_strlit("{\"kind\":\"string\",\"name\":");
                            assert(s@.subrange(pos as int, pos + "{\"kind\":\"string\",\"name\":"@.len())[9] == s@[pos + 9]);
                            assert(s@.subrange(pos as int, p1 as int)[9] == s@[pos + 9]);
                            assert(false);
                        },
                        DefType::StrSlice(p) => {
                            reveal_strlit("{\"kind\":\"strSlice\",\"name\":");
                            assert(s@.subrange(pos as int, pos + "{\"kind\":\"strSlice\",\"name\":"@.len())[9] == s@[pos + 9]);
                            assert(s@.subrange(pos as int, p1 as int)[9] == s@[pos + 9]);
                            assert(false);
                        },
                        DefType::Str(p) => {
                            reveal_strlit("{\"kind\":\"str\",\"name\":");
                            assert(s@.subrange(pos as int, pos + "{\"kind\":\"str\",\"name\":"@.len())[9] == s@[pos + 9]);
                            assert(s@.subrange(pos as int, p1 as int)[9] == s@[pos + 9]);
                            assert(false);
                        },
                        DefType::Box(p) => {
                            reveal_strlit("{\"kind\":\"box\",\"name\":");
                            assert(s@.subrange(pos as int, pos + "{\"kind\":\"box\",\"name\":"@.len())[9] == s@[pos + 9]);
                            assert(s@.subrange(pos as int, p1 as int)[9] == s@[pos + 9]);
                            assert(false);
                        },
                        DefType::Vec(p) => {
                            reveal_strlit("{\"kind\":\"vec\",\"name\":");
                            assert(s@.subrange(pos as int, pos + "{\"kind\":\"vec\",\"name\":"@.len())[9] == s@[pos + 9]);
                            assert(s@.subrange(pos as int, p1 as int)[9] == s@[pos + 9]);
                            assert(false);
                        },
                        DefType::Option(p) => {
                            reveal_strlit("{\"kind\":\"option\",\"name\":");
                            assert(s@.subrange(pos as int, pos + "{\"kind\":\"option\",\"name\":"@.len())[9] == s@[pos + 9]);
                            assert(s@.subrange(pos as int, p1 as int)[9] == s@[pos + 9]);
                            assert(false);
                        },
                        DefType::PhantomData(p) => {
                            reveal_strlit("{\"kind\":\"phantomData\",\"name\":");
                            assert(s@.subrange(pos as int, pos + "{\"kind\":\"phantomData\",\"name\":"@.len())[9] == s@[pos + 9]);
                            assert(s@.subrange(pos as int, p1 as int)[9] == s@[pos + 9]);
                            assert(false);
                        },
                        DefType::Cell(p) => {
                            reveal_strlit("{\"kind\":\"cell\",\"name\":");
                            assert(s@.subrange(pos as int, pos + "{\"kind\":\"cell\",\"name\":"@.len())[9] == s@[pos + 9]);
                            assert(s@.subrange(pos as int, p1 as int)[9] == s@[pos + 9]);
                            assert(false);
                        },
                        DefType::Mutex(p) => {
                            reveal_strlit("{\"kind\":\"mutex\",\"name\":");
                            assert(s@.subrange(pos as int, pos + "{\"kind\":\"mutex\",\"name\":"@.len())[9] == s@[pos + 9]);
                            assert(s@.subrange(pos as int, p1 as int)[9] == s@[pos + 9]);
                            assert(false);
                        },
                        DefType::RwLock(p) => {
                            reveal_strlit("{\"kind\":\"rwLock\",\"name\":");
                            assert(s@.subrange(pos as int, pos + "{\"kind\":\"rwLock\",\"name\":"@.len())[10] == s@[pos + 10]);
                            assert(s@.subrange(pos as int, p1 as int)[10] == s@[pos + 10]);
                            assert(false);
                        },
                        DefType::Rc(p) => {
                            reveal_strlit("{\"kind\":\"rc\",\"name\":");
                            assert(s@.subrange(pos as int, pos + "{\"kind\":\"rc\",\"name\":"@.len())[10] == s@[pos + 10]);
                            assert(s@.subrange(pos as int, p1 as int)[10] == s@[pos + 10]);
                            assert(false);
                        },
                        DefType::Arc(p) => {
                            reveal_strlit("{\"kind\":\"arc\",\"name\":");
                            assert(s@.subrange(pos as int, pos + "{\"kind\":\"arc\",\"name\":"@.len())[9] == s@[pos + 9]);
                            assert(s@.subrange(pos as int, p1 as int)[9] == s@[pos + 9]);
                            assert(false);
                        },
                        DefType::Result(p) => {
                            reveal_strlit("{\"kind\":\"result\",\"name\":");
                            assert(s@.subrange(pos as int, pos + "{\"kind\":\"result\",\"name\":"@.len())[11] == s@[pos + 11]);
                            assert(s@.subrange(pos as int, p1 as int)[11] == s@[pos + 11]);
                            assert(false);
                        },
                        DefType::Struct(p) => {
                            reveal_strlit("{\"kind\":\"struct\",\"name\":");
                            assert(s@.subrange(pos as int, pos + "{\"kind\":\"struct\",\"name\":"@.len())[9] == s@[pos + 9]);
                            assert(s@.subrange(pos as int, p1 as int)[9] == s@[pos + 9]);
                            assert(false);
                        },
                        DefType::Enum(p) => {
                            reveal_strlit("{\"kind\":\"enum\",\"name\":");
                            assert(s@.subrange(pos as int, pos + "{\"kind\":\"enum\",\"name\":"@.len())[9] == s@[pos + 9]);
                            assert(s@.subrange(pos as int, p1 as int)[9] == s@[pos + 9]);
                            assert(false);
                        },
                        }
                    }
                }
            }
            return None;
        },
    };
    let (vsize, valign, vid, pz) = match parse_wrap_rest(s, p2) {
        Some(t) => t,
        None => {
            proof {
                reveal_strlit("{\"kind\":\"refCell\",\"name\":");
                assert forall|d: DefType, q: int| !desc_run(s@, pos as int, q, d) by {
                    if desc_run(s@, pos as int, q, d) {
                        lemma_desc_pieces(s@, pos as int, q, d);
                        match d {
                        DefType::RefCell(p) => {
                            assert(false);
                        },
                        DefType::Primitive(p) => {
                            reveal_strlit("{\"kind\":\"primitive\",\"name\":");
                            assert(s@.subrange(pos as int, pos + "{\"kind\":\"primitive\",\"name\":"@.len())[9] == s@[pos + 9]);
                            assert(s@.subrange(pos as int, p1 as int)[9] == s@[pos + 9]);
                            assert(false);
                        },
                        DefType::String(p) => {
                            reveal_strlit("{\"kind\":\"string\",\"name\":");
                            assert(s@.subrange(pos as int, pos + "{\"kind\":\"string\",\"name\":"@.len())[9] == s@[pos + 9]);
                            assert(s@.subrange(pos as int, p1 as int)[9] == s@[pos + 9]);
                            assert(false);
                        },
                        DefType::StrSlice(p) => {
                            reveal_strlit("{\"kind\":\"strSlice\",\"name\":");
                            assert(s@.subrange(pos as int, pos + "{\"kind\":\"strSlice\",\"name\":"@.len())[9] == s@[pos + 9]);
                            assert(s@.subrange(pos as int, p1 as int)[9] == s@[pos + 9]);
                            assert(false);
                        },
                        DefType::Str(p) => {
                            reveal_strlit("{\"kind\":\"str\",\"name\":");
                            assert(s@.subrange(pos as int, pos + "{\"kind\":\"str\",\"name\":"@.len())[9] == s@[pos + 9]);
                            assert(s@.subrange(pos as int, p1 as int)[9] == s@[pos + 9]);
                            assert(false);
                        },
                        DefType::Box(p) => {
                            reveal_strlit("{\"kind\":\"box\",\"name\":");
                            assert(s@.subrange(pos as int, pos + "{\"kind\":\"box\",\"name\":"@.len())[9] == s@[pos + 9]);
                            assert(s@.subrange(pos as int, p1 as int)[9] == s@[pos + 9]);
                            assert(false);
                        },
                        DefType::Vec(p) => {
                            reveal_strlit("{\"kind\":\"vec\",\"name\":");
                            assert(s@.subrange(pos as int, pos + "{\"kind\":\"vec\",\"name\":"@.len())[9] == s@[pos + 9]);
                            assert(s@.subrange(pos as int, p1 as int)[9] == s@[pos + 9]);
                            assert(false);
                        },
                        DefType::Option(p) => {
                            reveal_strlit("{\"kind\":\"option\",\"name\":");
                            assert(s@.subrange(pos as int, pos + "{\"kind\":\"option\",\"name\":"@.len())[9] == s@[pos + 9]);
                            assert(s@.subrange(pos as int, p1 as int)[9] == s@[pos + 9]);
                            assert(false);
                        },
                        DefType::PhantomData(p) => {
                            reveal_strlit("{\"kind\":\"phantomData\",\"name\":");
                            assert(s@.subrange(pos as int, pos + "{\"kind\":\"phantomData\",\"name\":"@.len())[9] == s@[pos + 9]);
                            assert(s@.subrange(pos as int, p1 as int)[9] == s@[pos + 9]);
                            assert(false);
                        },
                        DefType::Cell(p) => {
                            reveal_strlit("{\"kind\":\"cell\",\"name\":");
                            assert(s@.subrange(pos as int, pos + "{\"kind\":\"cell\",\"name\":"@.len())[9] == s@[pos + 9]);
                            assert(s@.subrange(pos as int, p1 as int)[9] == s@[pos + 9]);
                            assert(false);
                        },
                        DefType::Mutex(p) => {
                            reveal_strlit("{\"kind\":\"mutex\",\"name\":");
                            assert(s@.subrange(pos as int, pos + "{\"kind\":\"mutex\",\"name\":"@.len())[9] == s@[pos + 9]);
                            assert(s@.subrange(pos as int, p1 as int)[9] == s@[pos + 9]);
                            assert(false);
                        },
                        DefType::RwLock(p) => {
                            reveal_strlit("{\"kind\":\"rwLock\",\"name\":");
                            assert(s@.subrange(pos as int, pos + "{\"kind\":\"rwLock\",\"name\":"@.len())[10] == s@[pos + 10]);
                            assert(s@.subrange(pos as int, p1 as int)[10] == s@[pos + 10]);
                            assert(false);
                        },
                        DefType::Rc(p) => {
                            reveal_strlit("{\"kind\":\"rc\",\"name\":");
                            assert(s@.subrange(pos as int, pos + "{\"kind\":\"rc\",\"name\":"@.len())[10] == s@[pos + 10]);
                            assert(s@.subrange(pos as int, p1 as int)[10] == s@[pos + 10]);
                            assert(false);
                        },
                        DefType::Arc(p) => {
                            reveal_strlit("{\"kind\":\"arc\",\"name\":");
                            assert(s@.subrange(pos as int, pos + "{\"kind\":\"arc\",\"name\":"@.len())[9] == s@[pos + 9]);
                            assert(s@.subrange(pos as int, p1 as int)[9] == s@[pos + 9]);
                            assert(false);
                        },
                        DefType::Result(p) => {
                            reveal_strlit("{\"kind\":\"result\",\"name\":");
                            assert(s@.subrange(pos as int, pos + "{\"kind\":\"result\",\"name\":"@.len())[11] == s@[pos + 11]);
                            assert(s@.subrange(pos as int, p1 as int)[11] == s@[pos + 11]);
                            assert(false);
                        },
                        DefType::Struct(p) => {
                            reveal_strlit("{\"kind\":\"struct\",\"name\":");
                            assert(s@.subrange(pos as int, pos + "{\"kind\":\"struct\",\"name\":"@.len())[9] == s@[pos + 9]);
                            assert(s@.subrange(pos as int, p1 as int)[9] == s@[pos + 9]);
                            assert(false);
                        },
                        DefType::Enum(p) => {
                            reveal_strlit("{\"kind\":\"enum\",\"name\":");
                            assert(s@.subrange(pos as int, pos + "{\"kind\":\"enum\",\"name\":"@.len())[9] == s@[pos + 9]);
                            assert(s@.subrange(pos as int, p1 as int)[9] == s@[pos + 9]);
                            assert(false);
                        },
                        }
                    }
                }
            }
            return None;
        },
    };
    let d0 = DefType::RefCell(DefRefCell { name: vname, size: vsize, align: valign, value_type_id: vid });
    proof {
        reveal_strlit("{\"kind\":\"refCell\",\"name\":");
        reveal_strlit("{\"kind\":\"");
        reveal_strlit("refCell");
        reveal_strlit("\",\"name\":");
        assert("{\"kind\":\"refCell\",\"name\":"@ =~= "{\"kind\":\""@ + "refCell"@ + "\",\"name\":"@);
        lemma_subrange_concat(s@, pos as int, p1 as int, p2 as int);
        lemma_subrange_concat(s@, pos as int, p2 as int, pz as int);
        assert(s@.subrange(pos as int, pz as int) =~= jdesc(d0));
        assert forall|d: DefType, q: int| desc_run(s@, pos as int, q, d) implies (d is RefCell && desc_like(d0, d) && pz as int == q) by {
            lemma_desc_pieces(s@, pos as int, q, d);
            match d {
            DefType::RefCell(p) => {
            },
            DefType::Primitive(p) => {
                reveal_strlit("{\"kind\":\"primitive\",\"name\":");
                assert(s@.subrange(pos as int, pos + "{\"kind\":\"primitive\",\"name\":"@.len())[9] == s@[pos + 9]);
                assert(s@.subrange(pos as int, p1 as int)[9] == s@[pos + 9]);
                assert(false);
            },
            DefType::String(p) => {
                reveal_strlit("{\"kind\":\"string\",\"name\":");
                assert(s@.subrange(pos as int, pos + "{\"kind\":\"string\",\"name\":"@.len())[9] == s@[pos + 9]);
                assert(s@.subrange(pos as int, p1 as int)[9] == s@[pos + 9]);
                assert(false);
            },
            DefType::StrSlice(p) => {
                reveal_strlit("{\"kind\":\"strSlice\",\"name\":");
                assert(s@.subrange(pos as int, pos + "{\"kind\":\"strSlice\",\"name\":"@.len())[9] == s@[pos + 9]);
                assert(s@.subrange(pos as int, p1 as int)[9] == s@[pos + 9]);
                assert(false);
            },
            DefType::Str(p) => {
                reveal_strlit("{\"kind\":\"str\",\"name\":");
                assert(s@.subrange(pos as int, pos + "{\"kind\":\"str\",\"name\":"@.len())[9] == s@[pos + 9]);
                assert(s@.subrange(pos as int, p1 as int)[9] == s@[pos + 9]);
                assert(false);
            },
            DefType::Box(p) => {
                reveal_strlit("{\"kind\":\"box\",\"name\":");
                assert(s@.subrange(pos as int, pos + "{\"kind\":\"box\",\"name\":"@.len())[9] == s@[pos + 9]);
                assert(s@.subrange(pos as int, p1 as int)[9] == s@[pos + 9]);
                assert(false);
            },
            DefType::Vec(p) => {
                reveal_strlit("{\"kind\":\"vec\",\"name\":");
                assert(s@.subrange(pos as int, pos + "{\"kind\":\"vec\",\"name\":"@.len())[9] == s@[pos + 9]);
                assert(s@.subrange(pos as int, p1 as int)[9] == s@[pos + 9]);
                assert(false);
            },
            DefType::Option(p) => {
                reveal_strlit("{\"kind\":\"option\",\"name\":");
                assert(s@.subrange(pos as int, pos + "{\"kind\":\"option\",\"name\":"@.len())[9] == s@[pos + 9]);
                assert(s@.subrange(pos as int, p1 as int)[9] == s@[pos + 9]);
                assert(false);
            },
            DefType::PhantomData(p) => {
                reveal_strlit("{\"kind\":\"phantomData\",\"name\":");
                assert(s@.subrange(pos as int, pos + "{\"kind\":\"phantomData\",\"name\":"@.len())[9] == s@[pos + 9]);
                assert(s@.subrange(pos as int, p1 as int)[9] == s@[pos + 9]);
                assert(false);
            },
            DefType::Cell(p) => {
                reveal_strlit("{\"kind\":\"cell\",\"name\":");
                assert(s@.subrange(pos as int, pos + "{\"kind\":\"cell\",\"name\":"@.len())[9] == s@[pos + 9]);
                assert(s@.subrange(pos as int, p1 as int)[9] == s@[pos + 9]);
                assert(false);
            },
            DefType::Mutex(p) => {
                reveal_strlit("{\"kind\":\"mutex\",\"name\":");
                assert(s@.subrange(pos as int, pos + "{\"kind\":\"mutex\",\"name\":"@.len())[9] == s@[pos + 9]);
                assert(s@.subrange(pos as int, p1 as int)[9] == s@[pos + 9]);
                assert(false);
            },
            DefType::RwLock(p) => {
                reveal_strlit("{\"kind\":\"rwLock\",\"name\":");
                assert(s@.subrange(pos as int, pos + "{\"kind\":\"rwLock\",\"name\":"@.len())[10] == s@[pos + 10]);
                assert(s@.subrange(pos as int, p1 as int)[10] == s@[pos + 10]);
                assert(false);
            },
            DefType::Rc(p) => {
                reveal_strlit("{\"kind\":\"rc\",\"name\":");
                assert(s@.subrange(pos as int, pos + "{\"kind\":\"rc\",\"name\":"@.len())[10] == s@[pos + 10]);
                assert(s@.subrange(pos as int, p1 as int)[10] == s@[pos + 10]);
                assert(false);
            },
            DefType::Arc(p) => {
                reveal_strlit("{\"kind\":\"arc\",\"name\":");
                assert(s@.subrange(pos as int, pos + "{\"kind\":\"arc\",\"name\":"@.len())[9] == s@[pos + 9]);
                assert(s@.subrange(pos as int, p1 as int)[9] == s@[pos + 9]);
                assert(false);
            },
            DefType::Result(p) => {
                reveal_strlit("{\"kind\":\"result\",\"name\":");
                assert(s@.subrange(pos as int, pos + "{\"kind\":\"result\",\"name\":"@.len())[11] == s@[pos + 11]);
                assert(s@.subrange(pos as int, p1 as int)[11] == s@[pos + 11]);
                assert(false);
            },
            DefType::Struct(p) => {
                reveal_strlit("{\"kind\":\"struct\",\"name\":");
                assert(s@.subrange(pos as int, pos + "{\"kind\":\"struct\",\"name\":"@.len())[9] == s@[pos + 9]);
                assert(s@.subrange(pos as int, p1 as int)[9] == s@[pos + 9]);
                assert(false);
            },
            DefType::Enum(p) => {
                reveal_strlit("{\"kind\":\"enum\",\"name\":");
                assert(s@.subrange(pos as int, pos + "{\"kind\":\"enum\",\"name\":"@.len())[9] == s@[pos + 9]);
                assert(s@.subrange(pos as int, p1 as int)[9] == s@[pos + 9]);
                assert(false);
            },
            }
        }
    }
    Some((d0, pz))
}

#[verifier::rlimit(100)]
fn parse_desc_mutex(s: &Vec<char>, pos: usize) -> (r: Option<(DefType, usize)>)
    ensures
        (r matches Some((d, p)) ==> pos < p <= s@.len() && s@.subrange(pos as int, p as int) == jdesc(d)),
        (forall|d: DefType, q: int| desc_run(s@, pos as int, q, d) && d is Mutex ==> (r matches Some((d2, p)) && desc_like(d2, d) && p == q)),
        (forall|d: DefType, q: int| desc_run(s@, pos as int, q, d) && !(d is Mutex) ==> r is None),
{
    let p1 = match expect(s, pos, "{\"kind\":\"mutex\",\"name\":") {
        Some(p) => p,
        None => {
            proof {
                assert forall|d: DefType, q: int| !(desc_run(s@, pos as int, q, d) && d is Mutex) by {
                    if desc_run(s@, pos as int, q, d) && d is Mutex {
                        lemma_desc_pieces(s@, pos as int, q, d);
                        assert(false);
                    }
                }
            }
            return None;
        },
    };
    let (vname, p2) = match parse_jstring(s, p1) {
        Some(t) => t,
        None => {
            proof {
                reveal_strlit("{\"kind\":\"mutex\",\"name\":");
                assert forall|d: DefType, q: int| !desc_run(s@, pos as int, q, d) by {
                    if desc_run(s@, pos as int, q, d) {
                        lemma_desc_pieces(s@, pos as int, q, d);
                        match d {
                        DefType::Mutex(p) => {
                            assert(false);
                        },
                        DefType::Primitive(p) => {
                            reveal_strlit("{\"kind\":\"primitive\",\"name\":");
                            assert(s@.subrange(pos as int, pos + "{\"kind\":\"primitive\",\"name\":"@.len())[9] == s@[pos + 9]);
                            assert(s@.subrange(pos as int, p1 as int)[9] == s@[pos + 9]);
                            assert(false);
                        },
                        DefType::String(p) => {
                            reveal_strlit("{\"kind\":\"string\",\"name\":");
                            assert(s@.subrange(pos as int, pos + "{\"kind\":\"string\",\"name\":"@.len())[9] == s@[pos + 9]);
                            assert(s@.subrange(pos as int, p1 as int)[9] == s@[pos + 9]);
                            assert(false);
                        },
                        DefType::StrSlice(p) => {
                            reveal_strlit("{\"kind\":\"strSlice\",\"name\":");
                            assert(s@.subrange(pos as int, pos + "{\"kind\":\"strSlice\",\"name\":"@.len())[9] == s@[pos + 9]);
                            assert(s@.subrange(pos as int, p1 as int)[9] == s@[pos + 9]);
                            assert(false);
                        },
                        DefType::Str(p) => {
                            reveal_strlit("{\"kind\":\"str\",\"name\":");
                            assert(s@.subrange(pos as int, pos + "{\"kind\":\"str\",\"name\":"@.len())[9] == s@[pos + 9]);
                            assert(s@.subrange(pos as int, p1 as int)[9] == s@[pos + 9]);
                            assert(false);
                        },
                        DefType::Box(p) => {
                            reveal_strlit("{\"kind\":\"box\",\"name\":");
                            assert(s@.subrange(pos as int, pos + "{\"kind\":\"box\",\"name\":"@.len())[9] == s@[pos + 9]);
                            assert(s@.subrange(pos as int, p1 as int)[9] == s@[pos + 9]);
                            assert(false);
                        },
                        DefType::Vec(p) => {
                            reveal_strlit("{\"kind\":\"vec\",\"name\":");
                            assert(s@.subrange(pos as int, pos + "{\"kind\":\"vec\",\"name\":"@.len())[9] == s@[pos + 9]);
                            assert(s@.subrange(pos as int, p1 as int)[9] == s@[pos + 9]);
                            assert(false);
                        },
                        DefType::Option(p) => {
                            reveal_strlit("{\"kind\":\"option\",\"name\":");
                            assert(s@.subrange(pos as int, pos + "{\"kind\":\"option\",\"name\":"@.len())[9] == s@[pos + 9]);
                            assert(s@.subrange(pos as int, p1 as int)[9] == s@[pos + 9]);
                            assert(false);
                        },
                        DefType::PhantomData(p) => {
                            reveal_strlit("{\"kind\":\"phantomData\",\"name\":");
                            assert(s@.subrange(pos as int, pos + "{\"kind\":\"phantomData\",\"name\":"@.len())[9] == s@[pos + 9]);
                            assert(s@.subrange(pos as int, p1 as int)[9] == s@[pos + 9]);
                            assert(false);
                        },
                        DefType::Cell(p) => {
                            reveal_strlit("{\"kind\":\"cell\",\"name\":");
                            assert(s@.subrange(pos as int, pos + "{\"kind\":\"cell\",\"name\":"@.len())[9] == s@[pos + 9]);
                            assert(s@.subrange(pos as int, p1 as int)[9] == s@[pos + 9]);
                            assert(false);
                        },
                        DefType::RefCell(p) => {
                            reveal_strlit("{\"kind\":\"refCell\",\"name\":");
                            assert(s@.subrange(pos as int, pos + "{\"kind\":\"refCell\",\"name\":"@.len())[9] == s@[pos + 9]);
                            assert(s@.subrange(pos as int, p1 as int)[9] == s@[pos + 9]);
                            assert(false);
                        },
                        DefType::RwLock(p) => {
                            reveal_strlit("{\"kind\":\"rwLock\",\"name\":");
                            assert(s@.subrange(pos as int, pos + "{\"kind\":\"rwLock\",\"name\":"@.len())[9] == s@[pos + 9]);
                            assert(s@.subrange(pos as int, p1 as int)[9] == s@[pos + 9]);
                            assert(false);
                        },
                        DefType::Rc(p) => {
                            reveal_strlit("{\"kind\":\"rc\",\"name\":");
                            assert(s@.subrange(pos as int, pos + "{\"kind\":\"rc\",\"name\":"@.len())[9] == s@[pos + 9]);
                            assert(s@.subrange(pos as int, p1 as int)[9] == s@[pos + 9]);
                            assert(false);
                        },
                        DefType::Arc(p) => {
                            reveal_strlit("{\"kind\":\"arc\",\"name\":");
                            assert(s@.subrange(pos as int, pos + "{\"kind\":\"arc\",\"name\":"@.len())[9] == s@[pos + 9]);
                            assert(s@.subrange(pos as int, p1 as int)[9] == s@[pos + 9]);
                            assert(false);
                        },
                        DefType::Result(p) => {
                            reveal_strlit("{\"kind\":\"result\",\"name\":");
                            assert(s@.subrange(pos as int, pos + "{\"kind\":\"result\",\"name\":"@.len())[9] == s@[pos + 9]);
                            assert(s@.subrange(pos as int, p1 as int)[9] == s@[pos + 9]);
                            assert(false);
                        },
                        DefType::Struct(p) => {
                            reveal_strlit("{\"kind\":\"struct\",\"name\":");
                            assert(s@.subrange(pos as int, pos + "{\"kind\":\"struct\",\"name\":"@.len())[9] == s@[pos + 9]);
                            assert(s@.subrange(pos as int, p1 as int)[9] == s@[pos + 9]);
                            assert(false);
                        },
                        DefType::Enum(p) => {
                            reveal_strlit("{\"kind\":\"enum\",\"name\":");
                            assert(s@.subrange(pos as int, pos + "{\"kind\":\"enum\",\"name\":"@.len())[9] == s@[pos + 9]);
                            assert(s@.subrange(pos as int, p1 as int)[9] == s@[pos + 9]);
                            assert(false);
                        },
                        }
                    }
                }
            }
            return None;
        },
    };
    let (vsize, valign, vid, pz) = match parse_wrap_rest(s, p2) {
        Some(t) => t,
        None => {
            proof {
                reveal_strlit("{\"kind\":\"mutex\",\"name\":");
                assert forall|d: DefType, q: int| !desc_run(s@, pos as int, q, d) by {
                    if desc_run(s@, pos as int, q, d) {
                        lemma_desc_pieces(s@, pos as int, q, d);
                        match d {
                        DefType::Mutex(p) => {
                            assert(false);
                        },
                        DefType::Primitive(p) => {
                            reveal_strlit("{\"kind\":\"primitive\",\"name\":");
                            assert(s@.subrange(pos as int, pos + "{\"kind\":\"primitive\",\"name\":"@.len())[9] == s@[pos + 9]);
                            assert(s@.subrange(pos as int, p1 as int)[9] == s@[pos + 9]);
                            assert(false);
                        },
                        DefType::String(p) => {
                            reveal_strlit("{\"kind\":\"string\",\"name\":");
                            assert(s@.subrange(pos as int, pos + "{\"kind\":\"string\",\"name\":"@.len())[9] == s@[pos + 9]);
                            assert(s@.subrange(pos as int, p1 as int)[9] == s@[pos + 9]);
                            assert(false);
                        },
                        DefType::StrSlice(p) => {
                            reveal_strlit("{\"kind\":\"strSlice\",\"name\":");
                            assert(s@.subrange(pos as int, pos + "{\"kind\":\"strSlice\",\"name\":"@.len())[9] == s@[pos + 9]);
                            assert(s@.subrange(pos as int, p1 as int)[9] == s@[pos + 9]);
                            assert(false);
                        },
                        DefType::Str(p) => {
                            reveal_strlit("{\"kind\":\"str\",\"name\":");
                            assert(s@.subrange(pos as int, pos + "{\"kind\":\"str\",\"name\":"@.len())[9] == s@[pos + 9]);
                            assert(s@.subrange(pos as int, p1 as int)[9] == s@[pos + 9]);
                            assert(false);
                        },
                        DefType::Box(p) => {
                            reveal_strlit("{\"kind\":\"box\",\"name\":");
                            assert(s@.subrange(pos as int, pos + "{\"kind\":\"box\",\"name\":"@.len())[9] == s@[pos + 9]);
                            assert(s@.subrange(pos as int, p1 as int)[9] == s@[pos + 9]);
                            assert(false);
                        },
                        DefType::Vec(p) => {
                            reveal_strlit("{\"kind\":\"vec\",\"name\":");
                            assert(s@.subrange(pos as int, pos + "{\"kind\":\"vec\",\"name\":"@.len())[9] == s@[pos + 9]);
                            assert(s@.subrange(pos as int, p1 as int)[9] == s@[pos + 9]);
                            assert(false);
                        },
                        DefType::Option(p) => {
                            reveal_strlit("{\"kind\":\"option\",\"name\":");
                            assert(s@.subrange(pos as int, pos + "{\"kind\":\"option\",\"name\":"@.len())[9] == s@[pos + 9]);
                            assert(s@.subrange(pos as int, p1 as int)[9] == s@[pos + 9]);
                            assert(false);
                        },
                        DefType::PhantomData(p) => {
                            reveal_strlit("{\"kind\":\"phantomData\",\"name\":");
                            assert(s@.subrange(pos as int, pos + "{\"kind\":\"phantomData\",\"name\":"@.len())[9] == s@[pos + 9]);
                            assert(s@.subrange(pos as int, p1 as int)[9] == s@[pos + 9]);
                            assert(false);
                        },
                        DefType::Cell(p) => {
                            reveal_strlit("{\"kind\":\"cell\",\"name\":");
                            assert(s@.subrange(pos as int, pos + "{\"kind\":\"cell\",\"name\":"@.len())[9] == s@[pos + 9]);
                            assert(s@.subrange(pos as int, p1 as int)[9] == s@[pos + 9]);
                            assert(false);
                        },
                        DefType::RefCell(p) => {
                            reveal_strlit("{\"kind\":\"refCell\",\"name\":");
                            assert(s@.subrange(pos as int, pos + "{\"kind\":\"refCell\",\"name\":"@.len())[9] == s@[pos + 9]);
                            assert(s@.subrange(pos as int, p1 as int)[9] == s@[pos + 9]);
                            assert(false);
                        },
                        DefType::RwLock(p) => {
                            reveal_strlit("{\"kind\":\"rwLock\",\"name\":");
                            assert(s@.subrange(pos as int, pos + "{\"kind\":\"rwLock\",\"name\":"@.len())[9] == s@[pos + 9]);
                            assert(s@.subrange(pos as int, p1 as int)[9] == s@[pos + 9]);
                            assert(false);
                        },
                        DefType::Rc(p) => {
                            reveal_strlit("{\"kind\":\"rc\",\"name\":");
                            assert(s@.subrange(pos as int, pos + "{\"kind\":\"rc\",\"name\":"@.len())[9] == s@[pos + 9]);
                            assert(s@.subrange(pos as int, p1 as int)[9] == s@[pos + 9]);
                            assert(false);
                        },
                        DefType::Arc(p) => {
                            reveal_strlit("{\"kind\":\"arc\",\"name\":");
                            assert(s@.subrange(pos as int, pos + "{\"kind\":\"arc\",\"name\":"@.len())[9] == s@[pos + 9]);
                            assert(s@.subrange(pos as int, p1 as int)[9] == s@[pos + 9]);
                            assert(false);
                        },
                        DefType::Result(p) => {
                            reveal_strlit("{\"kind\":\"result\",\"name\":");
                            assert(s@.subrange(pos as int, pos + "{\"kind\":\"result\",\"name\":"@.len())[9] == s@[pos + 9]);
                            assert(s@.subrange(pos as int, p1 as int)[9] == s@[pos + 9]);
                            assert(false);
                        },
                        DefType::Struct(p) => {
                            reveal_strlit("{\"kind\":\"struct\",\"name\":");
                            assert(s@.subrange(pos as int, pos + "{\"kind\":\"struct\",\"name\":"@.len())[9] == s@[pos + 9]);
                            assert(s@.subrange(pos as int, p1 as int)[9] == s@[pos + 9]);
                            assert(false);
                        },
                        DefType::Enum(p) => {
                            reveal_strlit("{\"kind\":\"enum\",\"name\":");
                            assert(s@.subrange(pos as int, pos + "{\"kind\":\"enum\",\"name\":"@.len())[9] == s@[pos + 9]);
                            assert(s@.subrange(pos as int, p1 as int)[9] == s@[pos + 9]);
                            assert(false);
                        },
                        }
                    }
                }
            }
            return None;
        },
    };
    let d0 = DefType::Mutex(DefMutex { name: vname, size: vsize, align: valign, value_type_id: vid });
    proof {
        reveal_strlit("{\"kind\":\"mutex\",\"name\":");
        reveal_strlit("{\"kind\":\"");
        reveal_strlit("mutex");
        reveal_strlit("\",\"name\":");
        assert("{\"kind\":\"mutex\",\"name\":"@ =~= "{\"kind\":\""@ + "mutex"@ + "\",\"name\":"@);
        lemma_subrange_concat(s@, pos as int, p1 as int, p2 as int);
        lemma_subrange_concat(s@, pos as int, p2 as int, pz as int);
        assert(s@.subrange(pos as int, pz as int) =~= jdesc(d0));
        assert forall|d: DefType, q: int| desc_run(s@, pos as int, q, d) implies (d is Mutex && desc_like(d0, d) && pz as int == q) by {
            lemma_desc_pieces(s@, pos as int, q, d);
            match d {
            DefType::Mutex(p) => {
            },
            DefType::Primitive(p) => {
                reveal_strlit("{\"kind\":\"primitive\",\"name\":");
                assert(s@.subrange(pos as int, pos + "{\"kind\":\"primitive\",\"name\":"@.len())[9] == s@[pos + 9]);
                assert(s@.subrange(pos as int, p1 as int)[9] == s@[pos + 9]);
                assert(false);
            },
            DefType::String(p) => {
                reveal_strlit("{\"kind\":\"string\",\"name\":");
                assert(s@.subrange(pos as int, pos + "{\"kind\":\"string\",\"name\":"@.len())[9] == s@[pos + 9]);
                assert(s@.subrange(pos as int, p1 as int)[9] == s@[pos + 9]);
                assert(false);
            },
            DefType::StrSlice(p) => {
                reveal_strlit("{\"kind\":\"strSlice\",\"name\":");
                assert(s@.subrange(pos as int, pos + "{\"kind\":\"strSlice\",\"name\":"@.len())[9] == s@[pos + 9]);
                assert(s@.subrange(pos as int, p1 as int)[9] == s@[pos + 9]);
                assert(false);
            },
            DefType::Str(p) => {
                reveal_strlit("{\"kind\":\"str\",\"name\":");
                assert(s@.subrange(pos as int, pos + "{\"kind\":\"str\",\"name\":"@.len())[9] == s@[pos + 9]);
                assert(s@.subrange(pos as int, p1 as int)[9] == s@[pos + 9]);
                assert(false);
            },
            DefType::Box(p) => {
                reveal_strlit("{\"kind\":\"box\",\"name\":");
                assert(s@.subrange(pos as int, pos + "{\"kind\":\"box\",\"name\":"@.len())[9] == s@[pos + 9]);
                assert(s@.subrange(pos as int, p1 as int)[9] == s@[pos + 9]);
                assert(false);
            },
            DefType::Vec(p) => {
                reveal_strlit("{\"kind\":\"vec\",\"name\":");
                assert(s@.subrange(pos as int, pos + "{\"kind\":\"vec\",\"name\":"@.len())[9] == s@[pos + 9]);
                assert(s@.subrange(pos as int, p1 as int)[9] == s@[pos + 9]);
                assert(false);
            },
            DefType::Option(p) => {
                reveal_strlit("{\"kind\":\"option\",\"name\":");
                assert(s@.subrange(pos as int, pos + "{\"kind\":\"option\",\"name\":"@.len())[9] == s@[pos + 9]);
                assert(s@.subrange(pos as int, p1 as int)[9] == s@[pos + 9]);
                assert(false);
            },
            DefType::PhantomData(p) => {
                reveal_strlit("{\"kind\":\"phantomData\",\"name\":");
                assert(s@.subrange(pos as int, pos + "{\"kind\":\"phantomData\",\"name\":"@.len())[9] == s@[pos + 9]);
                assert(s@.subrange(pos as int, p1 as int)[9] == s@[pos + 9]);
                assert(false);
            },
            DefType::Cell(p) => {
                reveal_strlit("{\"kind\":\"cell\",\"name\":");
                assert(s@.subrange(pos as int, pos + "{\"kind\":\"cell\",\"name\":"@.len())[9] == s@[pos + 9]);
                assert(s@.subrange(pos as int, p1 as int)[9] == s@[pos + 9]);
                assert(false);
            },
            DefType::RefCell(p) => {
                reveal_strlit("{\"kind\":\"refCell\",\"name\":");
                assert(s@.subrange(pos as int, pos + "{\"kind\":\"refCell\",\"name\":"@.len())[9] == s@[pos + 9]);
                assert(s@.subrange(pos as int, p1 as int)[9] == s@[pos + 9]);
                assert(false);
            },
            DefType::RwLock(p) => {
                reveal_strlit("{\"kind\":\"rwLock\",\"name\":");
                assert(s@.subrange(pos as int, pos + "{\"kind\":\"rwLock\",\"name\":"@.len())[9] == s@[pos + 9]);
                assert(s@.subrange(pos as int, p1 as int)[9] == s@[pos + 9]);
                assert(false);
            },
            DefType::Rc(p) => {
                reveal_strlit("{\"kind\":\"rc\",\"name\":");
                assert(s@.subrange(pos as int, pos + "{\"kind\":\"rc\",\"name\":"@.len())[9] == s@[pos + 9]);
                assert(s@.subrange(pos as int, p1 as int)[9] == s@[pos + 9]);
                assert(false);
            },
            DefType::Arc(p) => {
                reveal_strlit("{\"kind\":\"arc\",\"name\":");
                assert(s@.subrange(pos as int, pos + "{\"kind\":\"arc\",\"name\":"@.len())[9] == s@[pos + 9]);
                assert(s@.subrange(pos as int, p1 as int)[9] == s@[pos + 9]);
                assert(false);
            },
            DefType::Result(p) => {
                reveal_strlit("{\"kind\":\"result\",\"name\":");
                assert(s@.subrange(pos as int, pos + "{\"kind\":\"result\",\"name\":"@.len())[9] == s@[pos + 9]);
                assert(s@.subrange(pos as int, p1 as int)[9] == s@[pos + 9]);
                assert(false);
            },
            DefType::Struct(p) => {
                reveal_strlit("{\"kind\":\"struct\",\"name\":");
                assert(s@.subrange(pos as int, pos + "{\"kind\":\"struct\",\"name\":"@.len())[9] == s@[pos + 9]);
                assert(s@.subrange(pos as int, p1 as int)[9] == s@[pos + 9]);
                assert(false);
            },
            DefType::Enum(p) => {
                reveal_strlit("{\"kind\":\"enum\",\"name\":");
                assert(s@.subrange(pos as int, pos + "{\"kind\":\"enum\",\"name\":"@.len())[9] == s@[pos + 9]);
                assert(s@.subrange(pos as int, p1 as int)[9] == s@[pos + 9]);
                assert(false);
            },
            }
        }
    }
    Some((d0, pz))
}

#[verifier::rlimit(100)]
fn parse_desc_rwlock(s: &Vec<char>, pos: usize) -> (r: Option<(DefType, usize)>)
    ensures
        (r matches Some((d, p)) ==> pos < p <= s@.len() && s@.subrange(pos as int, p as int) == jdesc(d)),
        (forall|d: DefType, q: int| desc_run(s@, pos as int, q, d) && d is RwLock ==> (r matches Some((d2, p)) && desc_like(d2, d) && p == q)),
        (forall|d: DefType, q: int| desc_run(s@, pos as int, q, d) && !(d is RwLock) ==> r is None),
{
    let p1 = match expect(s, pos, "{\"kind\":\"rwLock\",\"name\":") {
        Some(p) => p,
        None => {
            proof {
                assert forall|d: DefType, q: int| !(desc_run(s@, pos as int, q, d) && d is RwLock) by {
                    if desc_run(s@, pos as int, q, d) && d is RwLock {
                        lemma_desc_pieces(s@, pos as int, q, d);
                        assert(false);
                    }
                }
            }
            return None;
        },
    };
    let (vname, p2) = match parse_jstring(s, p1) {
        Some(t) => t,
        None => {
            proof {
                reveal_strlit("{\"kind\":\"rwLock\",\"name\":");
                assert forall|d: DefType, q: int| !desc_run(s@, pos as int, q, d) by {
                    if desc_run(s@, pos as int, q, d) {
                        lemma_desc_pieces(s@, pos as int, q, d);
                        match d {
                        DefType::RwLock(p) => {
                            assert(false);
                        },
                        DefType::Primitive(p) => {
                            reveal_strlit("{\"kind\":\"primitive\",\"name\":");
                            assert(s@.subrange(pos as int, pos + "{\"kind\":\"primitive\",\"name\":"@.len())[9] == s@[pos + 9]);
                            assert(s@.subrange(pos as int, p1 as int)[9] == s@[pos + 9]);
                            assert(false);
                        },
                        DefType::String(p) => {
                            reveal_strlit("{\"kind\":\"string\",\"name\":");
                            assert(s@.subrange(pos as int, pos + "{\"kind\":\"string\",\"name\":"@.len())[9] == s@[pos + 9]);
                            assert(s@.subrange(pos as int, p1 as int)[9] == s@[pos + 9]);
                            assert(false);
                        },
                        DefType::StrSlice(p) => {
                            reveal_strlit("{\"kind\":\"strSlice\",\"name\":");
                            assert(s@.subrange(pos as int, pos + "{\"kind\":\"strSlice\",\"name\":"@.len())[9] == s@[pos + 9]);
                            assert(s@.subrange(pos as int, p1 as int)[9] == s@[pos + 9]);
                            assert(false);
                        },
                        DefType::Str(p) => {
                            reveal_strlit("{\"kind\":\"str\",\"name\":");
                            assert(s@.subrange(pos as int, pos + "{\"kind\":\"str\",\"name\":"@.len())[9] == s@[pos + 9]);
                            assert(s@.subrange(pos as int, p1 as int)[9] == s@[pos + 9]);
                            assert(false);
                        },
                        DefType::Box(p) => {
                            reveal_strlit("{\"kind\":\"box\",\"name\":");
                            assert(s@.subrange(pos as int, pos + "{\"kind\":\"box\",\"name\":"@.len())[9] == s@[pos + 9]);
                            assert(s@.subrange(pos as int, p1 as int)[9] == s@[pos + 9]);
                            assert(false);
                        },
                        DefType::Vec(p) => {
                            reveal_strlit("{\"kind\":\"vec\",\"name\":");
                            assert(s@.subrange(pos as int, pos + "{\"kind\":\"vec\",\"name\":"@.len())[9] == s@[pos + 9]);
                            assert(s@.subrange(pos as int, p1 as int)[9] == s@[pos + 9]);
                            assert(false);
                        },
                        DefType::Option(p) => {
                            reveal_strlit("{\"kind\":\"option\",\"name\":");
                            assert(s@.subrange(pos as int, pos + "{\"kind\":\"option\",\"name\":"@.len())[9] == s@[pos + 9]);
                            assert(s@.subrange(pos as int, p1 as int)[9] == s@[pos + 9]);
                            assert(false);
                        },
                        DefType::PhantomData(p) => {
                            reveal_strlit("{\"kind\":\"phantomData\",\"name\":");
                            assert(s@.subrange(pos as int, pos + "{\"kind\":\"phantomData\",\"name\":"@.len())[9] == s@[pos + 9]);
                            assert(s@.subrange(pos as int, p1 as int)[9] == s@[pos + 9]);
                            assert(false);
                        },
                        DefType::Cell(p) => {
                            reveal_strlit("{\"kind\":\"cell\",\"name\":");
                            assert(s@.subrange(pos as int, pos + "{\"kind\":\"cell\",\"name\":"@.len())[9] == s@[pos + 9]);
                            assert(s@.subrange(pos as int, p1 as int)[9] == s@[pos + 9]);
                            assert(false);
                        },
                        DefType::RefCell(p) => {
                            reveal_strlit("{\"kind\":\"refCell\",\"name\":");
                            assert(s@.subrange(pos as int, pos + "{\"kind\":\"refCell\",\"name\":"@.len())[10] == s@[pos + 10]);
                            assert(s@.subrange(pos as int, p1 as int)[10] == s@[pos + 10]);
                            assert(false);
                        },
                        DefType::Mutex(p) => {
                            reveal_strlit("{\"kind\":\"mutex\",\"name\":");
                            assert(s@.subrange(pos as int, pos + "{\"kind\":\"mutex\",\"name\":"@.len())[9] == s@[pos + 9]);
                            assert(s@.subrange(pos as int, p1 as int)[9] == s@[pos + 9]);
                            assert(false);
                        },
                        DefType::Rc(p) => {
                            reveal_strlit("{\"kind\":\"rc\",\"name\":");
                            assert(s@.subrange(pos as int, pos + "{\"kind\":\"rc\",\"name\":"@.len())[10] == s@[pos + 10]);
                            assert(s@.subrange(pos as int, p1 as int)[10] == s@[pos + 10]);
                            assert(false);
                        },
                        DefType::Arc(p) => {
                            reveal_strlit("{\"kind\":\"arc\",\"name\":");
                            assert(s@.subrange(pos as int, pos + "{\"kind\":\"arc\",\"name\":"@.len())[9] == s@[pos + 9]);
                            assert(s@.subrange(pos as int, p1 as int)[9] == s@[pos + 9]);
                            assert(false);
                        },
                        DefType::Result(p) => {
                            reveal_strlit("{\"kind\":\"result\",\"name\":");
                            assert(s@.subrange(pos as int, pos + "{\"kind\":\"result\",\"name\":"@.len())[10] == s@[pos + 10]);
                            assert(s@.subrange(pos as int, p1 as int)[10] == s@[pos + 10]);
                            assert(false);
                        },
                        DefType::Struct(p) => {
                            reveal_strlit("{\"kind\":\"struct\",\"name\":");
                            assert(s@.subrange(pos as int, pos + "{\"kind\":\"struct\",\"name\":"@.len())[9] == s@[pos + 9]);
                            assert(s@.subrange(pos as int, p1 as int)[9] == s@[pos + 9]);
                            assert(false);
                        },
                        DefType::Enum(p) => {
                            reveal_strlit("{\"kind\":\"enum\",\"name\":");
                            assert(s@.subrange(pos as int, pos + "{\"kind\":\"enum\",\"name\":"@.len())[9] == s@[pos + 9]);
                            assert(s@.subrange(pos as int, p1 as int)[9] == s@[pos + 9]);
                            assert(false);
                        },
                        }
                    }
                }
            }
            return None;
        },
    };
    let (vsize, valign, vid, pz) = match parse_wrap_rest(s, p2) {
        Some(t) => t,
        None => {
            proof {
                reveal_strlit("{\"kind\":\"rwLock\",\"name\":");
                assert forall|d: DefType, q: int| !desc_run(s@, pos as int, q, d) by {
                    if desc_run(s@, pos as int, q, d) {
                        lemma_desc_pieces(s@, pos as int, q, d);
                        match d {
                        DefType::RwLock(p) => {
                            assert(false);
                        },
                        DefType::Primitive(p) => {
                            reveal_strlit("{\"kind\":\"primitive\",\"name\":");
                            assert(s@.subrange(pos as int, pos + "{\"kind\":\"primitive\",\"name\":"@.len())[9] == s@[pos + 9]);
                            assert(s@.subrange(pos as int, p1 as int)[9] == s@[pos + 9]);
                            assert(false);
                        },
                        DefType::String(p) => {
                            reveal_strlit("{\"kind\":\"string\",\"name\":");
                            assert(s@.subrange(pos as int, pos + "{\"kind\":\"string\",\"name\":"@.len())[9] == s@[pos + 9]);
                            assert(s@.subrange(pos as int, p1 as int)[9] == s@[pos + 9]);
                            assert(false);
                        },
                        DefType::StrSlice(p) => {
                            reveal_strlit("{\"kind\":\"strSlice\",\"name\":");
                            assert(s@.subrange(pos as int, pos + "{\"kind\":\"strSlice\",\"name\":"@.len())[9] == s@[pos + 9]);
                            assert(s@.subrange(pos as int, p1 as int)[9] == s@[pos + 9]);
                            assert(false);
                        },
                        DefType::Str(p) => {
                            reveal_strlit("{\"kind\":\"str\",\"name\":");
                            assert(s@.subrange(pos as int, pos + "{\"kind\":\"str\",\"name\":"@.len())[9] == s@[pos + 9]);
                            assert(s@.subrange(pos as int, p1 as int)[9] == s@[pos + 9]);
                            assert(false);
                        },
                        DefType::Box(p) => {
                            reveal_strlit("{\"kind\":\"box\",\"name\":");
                            assert(s@.subrange(pos as int, pos + "{\"kind\":\"box\",\"name\":"@.len())[9] == s@[pos + 9]);
                            assert(s@.subrange(pos as int, p1 as int)[9] == s@[pos + 9]);
                            assert(false);
                        },
                        DefType::Vec(p) => {
                            reveal_strlit("{\"kind\":\"vec\",\"name\":");
                            assert(s@.subrange(pos as int, pos + "{\"kind\":\"vec\",\"name\":"@.len())[9] == s@[pos + 9]);
                            assert(s@.subrange(pos as int, p1 as int)[9] == s@[pos + 9]);
                            assert(false);
                        },
                        DefType::Option(p) => {
                            reveal_strlit("{\"kind\":\"option\",\"name\":");
                            assert(s@.subrange(pos as int, pos + "{\"kind\":\"option\",\"name\":"@.len())[9] == s@[pos + 9]);
                            assert(s@.subrange(pos as int, p1 as int)[9] == s@[pos + 9]);
                            assert(false);
                        },
                        DefType::PhantomData(p) => {
                            reveal_strlit("{\"kind\":\"phantomData\",\"name\":");
                            assert(s@.subrange(pos as int, pos + "{\"kind\":\"phantomData\",\"name\":"@.len())[9] == s@[pos + 9]);
                            assert(s@.subrange(pos as int, p1 as int)[9] == s@[pos + 9]);
                            assert(false);
                        },
                        DefType::Cell(p) => {
                            reveal_strlit("{\"kind\":\"cell\",\"name\":");
                            assert(s@.subrange(pos as int, pos + "{\"kind\":\"cell\",\"name\":"@.len())[9] == s@[pos + 9]);
                            assert(s@.subrange(pos as int, p1 as int)[9] == s@[pos + 9]);
                            assert(false);
                        },
                        DefType::RefCell(p) => {
                            reveal_strlit("{\"kind\":\"refCell\",\"name\":");
                            assert(s@.subrange(pos as int, pos + "{\"kind\":\"refCell\",\"name\":"@.len())[10] == s@[pos + 10]);
                            assert(s@.subrange(pos as int, p1 as int)[10] == s@[pos + 10]);
                            assert(false);
                        },
                        DefType::Mutex(p) => {
                            reveal_strlit("{\"kind\":\"mutex\",\"name\":");
                            assert(s@.subrange(pos as int, pos + "{\"kind\":\"mutex\",\"name\":"@.len())[9] == s@[pos + 9]);
                            assert(s@.subrange(pos as int, p1 as int)[9] == s@[pos + 9]);
                            assert(false);
                        },
                        DefType::Rc(p) => {
                            reveal_strlit("{\"kind\":\"rc\",\"name\":");
                            assert(s@.subrange(pos as int, pos + "{\"kind\":\"rc\",\"name\":"@.len())[10] == s@[pos + 10]);
                            assert(s@.subrange(pos as int, p1 as int)[10] == s@[pos + 10]);
                            assert(false);
                        },
                        DefType::Arc(p) => {
                            reveal_strlit("{\"kind\":\"arc\",\"name\":");
                            assert(s@.subrange(pos as int, pos + "{\"kind\":\"arc\",\"name\":"@.len())[9] == s@[pos + 9]);
                            assert(s@.subrange(pos as int, p1 as int)[9] == s@[pos + 9]);
                            assert(false);
                        },
                        DefType::Result(p) => {
                            reveal_strlit("{\"kind\":\"result\",\"name\":");
                            assert(s@.subrange(pos as int, pos + "{\"kind\":\"result\",\"name\":"@.len())[10] == s@[pos + 10]);
                            assert(s@.subrange(pos as int, p1 as int)[10] == s@[pos + 10]);
                            assert(false);
                        },
                        DefType::Struct(p) => {
                            reveal_strlit("{\"kind\":\"struct\",\"name\":");
                            assert(s@.subrange(pos as int, pos + "{\"kind\":\"struct\",\"name\":"@.len())[9] == s@[pos + 9]);
                            assert(s@.subrange(pos as int, p1 as int)[9] == s@[pos + 9]);
                            assert(false);
                        },
                        DefType::Enum(p) => {
                            reveal_strlit("{\"kind\":\"enum\",\"name\":");
                            assert(s@.subrange(pos as int, pos + "{\"kind\":\"enum\",\"name\":"@.len())[9] == s@[pos + 9]);
                            assert(s@.subrange(pos as int, p1 as int)[9] == s@[pos + 9]);
                            assert(false);
                        },
                        }
                    }
                }
            }
            return None;
        },
    };
    let d0 = DefType::RwLock(DefRwLock { name: vname, size: vsize, align: valign, value_type_id: vid });
    proof {
        reveal_strlit("{\"kind\":\"rwLock\",\"name\":");
        reveal_strlit("{\"kind\":\"");
        reveal_strlit("rwLock");
        reveal_strlit("\",\"name\":");
        assert("{\"kind\":\"rwLock\",\"name\":"@ =~= "{\"kind\":\""@ + "rwLock"@ + "\",\"name\":"@);
        lemma_subrange_concat(s@, pos as int, p1 as int, p2 as int);
        lemma_subrange_concat(s@, pos as int, p2 as int, pz as int);
        assert(s@.subrange(pos as int, pz as int) =~= jdesc(d0));
        assert forall|d: DefType, q: int| desc_run(s@, pos as int, q, d) implies (d is RwLock && desc_like(d0, d) && pz as int == q) by {
            lemma_desc_pieces(s@, pos as int, q, d);
            match d {
            DefType::RwLock(p) => {
            },
            DefType::Primitive(p) => {
                reveal_strlit("{\"kind\":\"primitive\",\"name\":");
                assert(s@.subrange(pos as int, pos + "{\"kind\":\"primitive\",\"name\":"@.len())[9] == s@[pos + 9]);
                assert(s@.subrange(pos as int, p1 as int)[9] == s@[pos + 9]);
                assert(false);
            },
            DefType::String(p) => {
                reveal_strlit("{\"kind\":\"string\",\"name\":");
                assert(s@.subrange(pos as int, pos + "{\"kind\":\"string\",\"name\":"@.len())[9] == s@[pos + 9]);
                assert(s@.subrange(pos as int, p1 as int)[9] == s@[pos + 9]);
                assert(false);
            },
            DefType::StrSlice(p) => {
                reveal_strlit("{\"kind\":\"strSlice\",\"name\":");
                assert(s@.subrange(pos as int, pos + "{\"kind\":\"strSlice\",\"name\":"@.len())[9] == s@[pos + 9]);
                assert(s@.subrange(pos as int, p1 as int)[9] == s@[pos + 9]);
                assert(false);
            },
            DefType::Str(p) => {
                reveal_strlit("{\"kind\":\"str\",\"name\":");
                assert(s@.subrange(pos as int, pos + "{\"kind\":\"str\",\"name\":"@.len())[9] == s@[pos + 9]);
                assert(s@.subrange(pos as int, p1 as int)[9] == s@[pos + 9]);
                assert(false);
            },
            DefType::Box(p) => {
                reveal_strlit("{\"kind\":\"box\",\"name\":");
                assert(s@.subrange(pos as int, pos + "{\"kind\":\"box\",\"name\":"@.len())[9] == s@[pos + 9]);
                assert(s@.subrange(pos as int, p1 as int)[9] == s@[pos + 9]);
                assert(false);
            },
            DefType::Vec(p) => {
                reveal_strlit("{\"kind\":\"vec\",\"name\":");
                assert(s@.subrange(pos as int, pos + "{\"kind\":\"vec\",\"name\":"@.len())[9] == s@[pos + 9]);
                assert(s@.subrange(pos as int, p1 as int)[9] == s@[pos + 9]);
                assert(false);
            },
            DefType::Option(p) => {
                reveal_strlit("{\"kind\":\"option\",\"name\":");
                assert(s@.subrange(pos as int, pos + "{\"kind\":\"option\",\"name\":"@.len())[9] == s@[pos + 9]);
                assert(s@.subrange(pos as int, p1 as int)[9] == s@[pos + 9]);
                assert(false);
            },
            DefType::PhantomData(p) => {
                reveal_strlit("{\"kind\":\"phantomData\",\"name\":");
                assert(s@.subrange(pos as int, pos + "{\"kind\":\"phantomData\",\"name\":"@.len())[9] == s@[pos + 9]);
                assert(s@.subrange(pos as int, p1 as int)[9] == s@[pos + 9]);
                assert(false);
            },
            DefType::Cell(p) => {
                reveal_strlit("{\"kind\":\"cell\",\"name\":");
                assert(s@.subrange(pos as int, pos + "{\"kind\":\"cell\",\"name\":"@.len())[9] == s@[pos + 9]);
                assert(s@.subrange(pos as int, p1 as int)[9] == s@[pos + 9]);
                assert(false);
            },
            DefType::RefCell(p) => {
                reveal_strlit("{\"kind\":\"refCell\",\"name\":");
                assert(s@.subrange(pos as int, pos + "{\"kind\":\"refCell\",\"name\":"@.len())[10] == s@[pos + 10]);
                assert(s@.subrange(pos as int, p1 as int)[10] == s@[pos + 10]);
                assert(false);
            },
            DefType::Mutex(p) => {
                reveal_strlit("{\"kind\":\"mutex\",\"name\":");
                assert(s@.subrange(pos as int, pos + "{\"kind\":\"mutex\",\"name\":"@.len())[9] == s@[pos + 9]);
                assert(s@.subrange(pos as int, p1 as int)[9] == s@[pos + 9]);
                assert(false);
            },
            DefType::Rc(p) => {
                reveal_strlit("{\"kind\":\"rc\",\"name\":");
                assert(s@.subrange(pos as int, pos + "{\"kind\":\"rc\",\"name\":"@.len())[10] == s@[pos + 10]);
                assert(s@.subrange(pos as int, p1 as int)[10] == s@[pos + 10]);
                assert(false);
            },
            DefType::Arc(p) => {
                reveal_strlit("{\"kind\":\"arc\",\"name\":");
                assert(s@.subrange(pos as int, pos + "{\"kind\":\"arc\",\"name\":"@.len())[9] == s@[pos + 9]);
                assert(s@.subrange(pos as int, p1 as int)[9] == s@[pos + 9]);
                assert(false);
            },
            DefType::Result(p) => {
                reveal_strlit("{\"kind\":\"result\",\"name\":");
                assert(s@.subrange(pos as int, pos + "{\"kind\":\"result\",\"name\":"@.len())[10] == s@[pos + 10]);
                assert(s@.subrange(pos as int, p1 as int)[10] == s@[pos + 10]);
                assert(false);
            },
            DefType::Struct(p) => {
                reveal_strlit("{\"kind\":\"struct\",\"name\":");
                assert(s@.subrange(pos as int, pos + "{\"kind\":\"struct\",\"name\":"@.len())[9] == s@[pos + 9]);
                assert(s@.subrange(pos as int, p1 as int)[9] == s@[pos + 9]);
                assert(false);
            },
            DefType::Enum(p) => {
                reveal_strlit("{\"kind\":\"enum\",\"name\":");
                assert(s@.subrange(pos as int, pos + "{\"kind\":\"enum\",\"name\":"@.len())[9] == s@[pos + 9]);
                assert(s@.subrange(pos as int, p1 as int)[9] == s@[pos + 9]);
                assert(false);
            },
            }
        }
    }
    Some((d0, pz))
}

#[verifier::rlimit(100)]
fn parse_desc_rc(s: &Vec<char>, pos: usize) -> (r: Option<(DefType, usize)>)
    ensures
        (r matches Some((d, p)) ==> pos < p <= s@.len() && s@.subrange(pos as int, p as int) == jdesc(d)),
        (forall|d: DefType, q: int| desc_run(s@, pos as int, q, d) && d is Rc ==> (r matches Some((d2, p)) && desc_like(d2, d) && p == q)),
        (forall|d: DefType, q: int| desc_run(s@, pos as int, q, d) && !(d is Rc) ==> r is None),
{
    let p1 = match expect(s, pos, "{\"kind\":\"rc\",\"name\":") {
        Some(p) => p,
        None => {
            proof {
                assert forall|d: DefType, q: int| !(desc_run(s@, pos as int, q, d) && d is Rc) by {
                    if desc_run(s@, pos as int, q, d) && d is Rc {
                        lemma_desc_pieces(s@, pos as int, q, d);
                        assert(false);
                    }
                }
            }
            return None;
        },
    };
    let (vname, p2) = match parse_jstring(s, p1) {
        Some(t) => t,
        None => {
            proof {
                reveal_strlit("{\"kind\":\"rc\",\"name\":");
                assert forall|d: DefType, q: int| !desc_run(s@, pos as int, q, d) by {
                    if desc_run(s@, pos as int, q, d) {
                        lemma_desc_pieces(s@, pos as int, q, d);
                        match d {
                        DefType::Rc(p) => {
                            assert(false);
                        },
                        DefType::Primitive(p) => {
                            reveal_strlit("{\"kind\":\"primitive\",\"name\":");
                            assert(s@.subrange(pos as int, pos + "{\"kind\":\"primitive\",\"name\":"@.len())[9] == s@[pos + 9]);
                            assert(s@.subrange(pos as int, p1 as int)[9] == s@[pos + 9]);
                            assert(false);
                        },
                        DefType::String(p) => {
                            reveal_strlit("{\"kind\":\"string\",\"name\":");
                            assert(s@.subrange(pos as int, pos + "{\"kind\":\"string\",\"name\":"@.len())[9] == s@[pos + 9]);
                            assert(s@.subrange(pos as int, p1 as int)[9] == s@[pos + 9]);
                            assert(false);
                        },
                        DefType::StrSlice(p) => {
                            reveal_strlit("{\"kind\":\"strSlice\",\"name\":");
                            assert(s@.subrange(pos as int, pos + "{\"kind\":\"strSlice\",\"name\":"@.len())[9] == s@[pos + 9]);
                            assert(s@.subrange(pos as int, p1 as int)[9] == s@[pos + 9]);
                            assert(false);
                        },
                        DefType::Str(p) => {
                            reveal_strlit("{\"kind\":\"str\",\"name\":");
                            assert(s@.subrange(pos as int, pos + "{\"kind\":\"str\",\"name\":"@.len())[9] == s@[pos + 9]);
                            assert(s@.subrange(pos as int, p1 as int)[9] == s@[pos + 9]);
                            assert(false);
                        },
                        DefType::Box(p) => {
                            reveal_strlit("{\"kind\":\"box\",\"name\":");
                            assert(s@.subrange(pos as int, pos + "{\"kind\":\"box\",\"name\":"@.len())[9] == s@[pos + 9]);
                            assert(s@.subrange(pos as int, p1 as int)[9] == s@[pos + 9]);
                            assert(false);
                        },
                        DefType::Vec(p) => {
                            reveal_strlit("{\"kind\":\"vec\",\"name\":");
                            assert(s@.subrange(pos as int, pos + "{\"kind\":\"vec\",\"name\":"@.len())[9] == s@[pos + 9]);
                            assert(s@.subrange(pos as int, p1 as int)[9] == s@[pos + 9]);
                            assert(false);
                        },
                        DefType::Option(p) => {
                            reveal_strlit("{\"kind\":\"option\",\"name\":");
                            assert(s@.subrange(pos as int, pos + "{\"kind\":\"option\",\"name\":"@.len())[9] == s@[pos + 9]);
                            assert(s@.subrange(pos as int, p1 as int)[9] == s@[pos + 9]);
                            assert(false);
                        },
                        DefType::PhantomData(p) => {
                            reveal_strlit("{\"kind\":\"phantomData\",\"name\":");
                            assert(s@.subrange(pos as int, pos + "{\"kind\":\"phantomData\",\"name\":"@.len())[9] == s@[pos + 9]);
                            assert(s@.subrange(pos as int, p1 as int)[9] == s@[pos + 9]);
                            assert(false);
                        },
                        DefType::Cell(p) => {
                            reveal_strlit("{\"kind\":\"cell\",\"name\":");
                            assert(s@.subrange(pos as int, pos + "{\"kind\":\"cell\",\"name\":"@.len())[9] == s@[pos + 9]);
                            assert(s@.subrange(pos as int, p1 as int)[9] == s@[pos + 9]);
                            assert(false);
                        },
                        DefType::RefCell(p) => {
                            reveal_strlit("{\"kind\":\"refCell\",\"name\":");
                            assert(s@.subrange(pos as int, pos + "{\"kind\":\"refCell\",\"name\":"@.len())[10] == s@[pos + 10]);
                            assert(s@.subrange(pos as int, p1 as int)[10] == s@[pos + 10]);
                            assert(false);
                        },
                        DefType::Mutex(p) => {
                            reveal_strlit("{\"kind\":\"mutex\",\"name\":");
                            assert(s@.subrange(pos as int, pos + "{\"kind\":\"mutex\",\"name\":"@.len())[9] == s@[pos + 9]);
                            assert(s@.subrange(pos as int, p1 as int)[9] == s@[pos + 9]);
                            assert(false);
                        },
                        DefType::RwLock(p) => {
                            reveal_strlit("{\"kind\":\"rwLock\",\"name\":");
                            assert(s@.subrange(pos as int, pos + "{\"kind\":\"rwLock\",\"name\":"@.len())[10] == s@[pos + 10]);
                            assert(s@.subrange(pos as int, p1 as int)[10] == s@[pos + 10]);
                            assert(false);
                        },
                        DefType::Arc(p) => {
                            reveal_strlit("{\"kind\":\"arc\",\"name\":");
                            assert(s@.subrange(pos as int, pos + "{\"kind\":\"arc\",\"name\":"@.len())[9] == s@[pos + 9]);
                            assert(s@.subrange(pos as int, p1 as int)[9] == s@[pos + 9]);
                            assert(false);
                        },
                        DefType::Result(p) => {
                            reveal_strlit("{\"kind\":\"result\",\"name\":");
                            assert(s@.subrange(pos as int, pos + "{\"kind\":\"result\",\"name\":"@.len())[10] == s@[pos + 10]);
                            assert(s@.subrange(pos as int, p1 as int)[10] == s@[pos + 10]);
                            assert(false);
                        },
                        DefType::Struct(p) => {
                            reveal_strlit("{\"kind\":\"struct\",\"name\":");
                            assert(s@.subrange(pos as int, pos + "{\"kind\":\"struct\",\"name\":"@.len())[9] == s@[pos + 9]);
                            assert(s@.subrange(pos as int, p1 as int)[9] == s@[pos + 9]);
                            assert(false);
                        },
                        DefType::Enum(p) => {
                            reveal_strlit("{\"kind\":\"enum\",\"name\":");
                            assert(s@.subrange(pos as int, pos + "{\"kind\":\"enum\",\"name\":"@.len())[9] == s@[pos + 9]);
                            assert(s@.subrange(pos as int, p1 as int)[9] == s@[pos + 9]);
                            assert(false);
                        },
                        }
                    }
                }
            }
            return None;
        },
    };
    let (vsize, valign, vid, pz) = match parse_wrap_rest(s, p2) {
        Some(t) => t,
        None => {
            proof {
                reveal_strlit("{\"kind\":\"rc\",\"name\":");
                assert forall|d: DefType, q: int| !desc_run(s@, pos as int, q, d) by {
                    if desc_run(s@, pos as int, q, d) {
                        lemma_desc_pieces(s@, pos as int, q, d);
                        match d {
                        DefType::Rc(p) => {
                            assert(false);
                        },
                        DefType::Primitive(p) => {
                            reveal_strlit("{\"kind\":\"primitive\",\"name\":");
                            assert(s@.subrange(pos as int, pos + "{\"kind\":\"primitive\",\"name\":"@.len())[9] == s@[pos + 9]);
                            assert(s@.subrange(pos as int, p1 as int)[9] == s@[pos + 9]);
                            assert(false);
                        },
                        DefType::String(p) => {
                            reveal_strlit("{\"kind\":\"string\",\"name\":");
                            assert(s@.subrange(pos as int, pos + "{\"kind\":\"string\",\"name\":"@.len())[9] == s@[pos + 9]);
                            assert(s@.subrange(pos as int, p1 as int)[9] == s@[pos + 9]);
                            assert(false);
                        },
                        DefType::StrSlice(p) => {
                            reveal_strlit("{\"kind\":\"strSlice\",\"name\":");
                            assert(s@.subrange(pos as int, pos + "{\"kind\":\"strSlice\",\"name\":"@.len())[9] == s@[pos + 9]);
                            assert(s@.subrange(pos as int, p1 as int)[9] == s@[pos + 9]);
                            assert(false);
                        },
                        DefType::Str(p) => {
                            reveal_strlit("{\"kind\":\"str\",\"name\":");
                            assert(s@.subrange(pos as int, pos + "{\"kind\":\"str\",\"name\":"@.len())[9] == s@[pos + 9]);
                            assert(s@.subrange(pos as int, p1 as int)[9] == s@[pos + 9]);
                            assert(false);
                        },
                        DefType::Box(p) => {
                            reveal_strlit("{\"kind\":\"box\",\"name\":");
                            assert(s@.subrange(pos as int, pos + "{\"kind\":\"box\",\"name\":"@.len())[9] == s@[pos + 9]);
                            assert(s@.subrange(pos as int, p1 as int)[9] == s@[pos + 9]);
                            assert(false);
                        },
                        DefType::Vec(p) => {
                            reveal_strlit("{\"kind\":\"vec\",\"name\":");
                            assert(s@.subrange(pos as int, pos + "{\"kind\":\"vec\",\"name\":"@.len())[9] == s@[pos + 9]);
                            assert(s@.subrange(pos as int, p1 as int)[9] == s@[pos + 9]);
                            assert(false);
                        },
                        DefType::Option(p) => {
                            reveal_strlit("{\"kind\":\"option\",\"name\":");
                            assert(s@.subrange(pos as int, pos + "{\"kind\":\"option\",\"name\":"@.len())[9] == s@[pos + 9]);
                            assert(s@.subrange(pos as int, p1 as int)[9] == s@[pos + 9]);
                            assert(false);
                        },
                        DefType::PhantomData(p) => {
                            reveal_strlit("{\"kind\":\"phantomData\",\"name\":");
                            assert(s@.subrange(pos as int, pos + "{\"kind\":\"phantomData\",\"name\":"@.len())[9] == s@[pos + 9]);
                            assert(s@.subrange(pos as int, p1 as int)[9] == s@[pos + 9]);
                            assert(false);
                        },
                        DefType::Cell(p) => {
                            reveal_strlit("{\"kind\":\"cell\",\"name\":");
                            assert(s@.subrange(pos as int, pos + "{\"kind\":\"cell\",\"name\":"@.len())[9] == s@[pos + 9]);
                            assert(s@.subrange(pos as int, p1 as int)[9] == s@[pos + 9]);
                            assert(false);
                        },
                        DefType::RefCell(p) => {
                            reveal_strlit("{\"kind\":\"refCell\",\"name\":");
                            assert(s@.subrange(pos as int, pos + "{\"kind\":\"refCell\",\"name\":"@.len())[10] == s@[pos + 10]);
                            assert(s@.subrange(pos as int, p1 as int)[10] == s@[pos + 10]);
                            assert(false);
                        },
                        DefType::Mutex(p) => {
                            reveal_strlit("{\"kind\":\"mutex\",\"name\":");
                            assert(s@.subrange(pos as int, pos + "{\"kind\":\"mutex\",\"name\":"@.len())[9] == s@[pos + 9]);
                            assert(s@.subrange(pos as int, p1 as int)[9] == s@[pos + 9]);
                            assert(false);
                        },
                        DefType::RwLock(p) => {
                            reveal_strlit("{\"kind\":\"rwLock\",\"name\":");
                            assert(s@.subrange(pos as int, pos + "{\"kind\":\"rwLock\",\"name\":"@.len())[10] == s@[pos + 10]);
                            assert(s@.subrange(pos as int, p1 as int)[10] == s@[pos + 10]);
                            assert(false);
                        },
                        DefType::Arc(p) => {
                            reveal_strlit("{\"kind\":\"arc\",\"name\":");
                            assert(s@.subrange(pos as int, pos + "{\"kind\":\"arc\",\"name\":"@.len())[9] == s@[pos + 9]);
                            assert(s@.subrange(pos as int, p1 as int)[9] == s@[pos + 9]);
                            assert(false);
                        },
                        DefType::Result(p) => {
                            reveal_strlit("{\"kind\":\"result\",\"name\":");
                            assert(s@.subrange(pos as int, pos + "{\"kind\":\"result\",\"name\":"@.len())[10] == s@[pos + 10]);
                            assert(s@.subrange(pos as int, p1 as int)[10] == s@[pos + 10]);
                            assert(false);
                        },
                        DefType::Struct(p) => {
                            reveal_strlit("{\"kind\":\"struct\",\"name\":");
                            assert(s@.subrange(pos as int, pos + "{\"kind\":\"struct\",\"name\":"@.len())[9] == s@[pos + 9]);
                            assert(s@.subrange(pos as int, p1 as int)[9] == s@[pos + 9]);
                            assert(false);
                        },
                        DefType::Enum(p) => {
                            reveal_strlit("{\"kind\":\"enum\",\"name\":");
                            assert(s@.subrange(pos as int, pos + "{\"kind\":\"enum\",\"name\":"@.len())[9] == s@[pos + 9]);
                            assert(s@.subrange(pos as int, p1 as int)[9] == s@[pos + 9]);
                            assert(false);
                        },
                        }
                    }
                }
            }
            return None;
        },
    };
    let d0 = DefType::Rc(DefRc { name: vname, size: vsize, align: valign, value_type_id: vid });
    proof {
        reveal_strlit("{\"kind\":\"rc\",\"name\":");
        reveal_strlit("{\"kind\":\"");
        reveal_strlit("rc");
        reveal_strlit("\",\"name\":");
        assert("{\"kind\":\"rc\",\"name\":"@ =~= "{\"kind\":\""@ + "rc"@ + "\",\"name\":"@);
        lemma_subrange_concat(s@, pos as int, p1 as int, p2 as int);
        lemma_subrange_concat(s@, pos as int, p2 as int, pz as int);
        assert(s@.subrange(pos as int, pz as int) =~= jdesc(d0));
        assert forall|d: DefType, q: int| desc_run(s@, pos as int, q, d) implies (d is Rc && desc_like(d0, d) && pz as int == q) by {
            lemma_desc_pieces(s@, pos as int, q, d);
            match d {
            DefType::Rc(p) => {
            },
            DefType::Primitive(p) => {
                reveal_strlit("{\"kind\":\"primitive\",\"name\":");
                assert(s@.subrange(pos as int, pos + "{\"kind\":\"primitive\",\"name\":"@.len())[9] == s@[pos + 9]);
                assert(s@.subrange(pos as int, p1 as int)[9] == s@[pos + 9]);
                assert(false);
            },
            DefType::String(p) => {
                reveal_strlit("{\"kind\":\"string\",\"name\":");
                assert(s@.subrange(pos as int, pos + "{\"kind\":\"string\",\"name\":"@.len())[9] == s@[pos + 9]);
                assert(s@.subrange(pos as int, p1 as int)[9] == s@[pos + 9]);
                assert(false);
            },
            DefType::StrSlice(p) => {
                reveal_strlit("{\"kind\":\"strSlice\",\"name\":");
                assert(s@.subrange(pos as int, pos + "{\"kind\":\"strSlice\",\"name\":"@.len())[9] == s@[pos + 9]);
                assert(s@.subrange(pos as int, p1 as int)[9] == s@[pos + 9]);
                assert(false);
            },
            DefType::Str(p) => {
                reveal_strlit("{\"kind\":\"str\",\"name\":");
                assert(s@.subrange(pos as int, pos + "{\"kind\":\"str\",\"name\":"@.len())[9] == s@[pos + 9]);
                assert(s@.subrange(pos as int, p1 as int)[9] == s@[pos + 9]);
                assert(false);
            },
            DefType::Box(p) => {
                reveal_strlit("{\"kind\":\"box\",\"name\":");
                assert(s@.subrange(pos as int, pos + "{\"kind\":\"box\",\"name\":"@.len())[9] == s@[pos + 9]);
                assert(s@.subrange(pos as int, p1 as int)[9] == s@[pos + 9]);
                assert(false);
            },
            DefType::Vec(p) => {
                reveal_strlit("{\"kind\":\"vec\",\"name\":");
                assert(s@.subrange(pos as int, pos + "{\"kind\":\"vec\",\"name\":"@.len())[9] == s@[pos + 9]);
                assert(s@.subrange(pos as int, p1 as int)[9] == s@[pos + 9]);
                assert(false);
            },
            DefType::Option(p) => {
                reveal_strlit("{\"kind\":\"option\",\"name\":");
                assert(s@.subrange(pos as int, pos + "{\"kind\":\"option\",\"name\":"@.len())[9] == s@[pos + 9]);
                assert(s@.subrange(pos as int, p1 as int)[9] == s@[pos + 9]);
                assert(false);
            },
            DefType::PhantomData(p) => {
                reveal_strlit("{\"kind\":\"phantomData\",\"name\":");
                assert(s@.subrange(pos as int, pos + "{\"kind\":\"phantomData\",\"name\":"@.len())[9] == s@[pos + 9]);
                assert(s@.subrange(pos as int, p1 as int)[9] == s@[pos + 9]);
                assert(false);
            },
            DefType::Cell(p) => {
                reveal_strlit("{\"kind\":\"cell\",\"name\":");
                assert(s@.subrange(pos as int, pos + "{\"kind\":\"cell\",\"name\":"@.len())[9] == s@[pos + 9]);
                assert(s@.subrange(pos as int, p1 as int)[9] == s@[pos + 9]);
                assert(false);
            },
            DefType::RefCell(p) => {
                reveal_strlit("{\"kind\":\"refCell\",\"name\":");
                assert(s@.subrange(pos as int, pos + "{\"kind\":\"refCell\",\"name\":"@.len())[10] == s@[pos + 10]);
                assert(s@.subrange(pos as int, p1 as int)[10] == s@[pos + 10]);
                assert(false);
            },
            DefType::Mutex(p) => {
                reveal_strlit("{\"kind\":\"mutex\",\"name\":");
                assert(s@.subrange(pos as int, pos + "{\"kind\":\"mutex\",\"name\":"@.len())[9] == s@[pos + 9]);
                assert(s@.subrange(pos as int, p1 as int)[9] == s@[pos + 9]);
                assert(false);
            },
            DefType::RwLock(p) => {
                reveal_strlit("{\"kind\":\"rwLock\",\"name\":");
                assert(s@.subrange(pos as int, pos + "{\"kind\":\"rwLock\",\"name\":"@.len())[10] == s@[pos + 10]);
                assert(s@.subrange(pos as int, p1 as int)[10] == s@[pos + 10]);
                assert(false);
            },
            DefType::Arc(p) => {
                reveal_strlit("{\"kind\":\"arc\",\"name\":");
                assert(s@.subrange(pos as int, pos + "{\"kind\":\"arc\",\"name\":"@.len())[9] == s@[pos + 9]);
                assert(s@.subrange(pos as int, p1 as int)[9] == s@[pos + 9]);
                assert(false);
            },
            DefType::Result(p) => {
                reveal_strlit("{\"kind\":\"result\",\"name\":");
                assert(s@.subrange(pos as int, pos + "{\"kind\":\"result\",\"name\":"@.len())[10] == s@[pos + 10]);
                assert(s@.subrange(pos as int, p1 as int)[10] == s@[pos + 10]);
                assert(false);
            },
            DefType::Struct(p) => {
                reveal_strlit("{\"kind\":\"struct\",\"name\":");
                assert(s@.subrange(pos as int, pos + "{\"kind\":\"struct\",\"name\":"@.len())[9] == s@[pos + 9]);
                assert(s@.subrange(pos as int, p1 as int)[9] == s@[pos + 9]);
                assert(false);
            },
            DefType::Enum(p) => {
                reveal_strlit("{\"kind\":\"enum\",\"name\":");
                assert(s@.subrange(pos as int, pos + "{\"kind\":\"enum\",\"name\":"@.len())[9] == s@[pos + 9]);
                assert(s@.subrange(pos as int, p1 as int)[9] == s@[pos + 9]);
                assert(false);
            },
            }
        }
    }
    Some((d0, pz))
}

#[verifier::rlimit(100)]
fn parse_desc_arc(s: &Vec<char>, pos: usize) -> (r: Option<(DefType, usize)>)
    ensures
        (r matches Some((d, p)) ==> pos < p <= s@.len() && s@.subrange(pos as int, p as int) == jdesc(d)),
        (forall|d: DefType, q: int| desc_run(s@, pos as int, q, d) && d is Arc ==> (r matches Some((d2, p)) && desc_like(d2, d) && p == q)),
        (forall|d: DefType, q: int| desc_run(s@, pos as int, q, d) && !(d is Arc) ==> r is None),
{
    let p1 = match expect(s, pos, "{\"kind\":\"arc\",\"name\":") {
        Some(p) => p,
        None => {
            proof {
                assert forall|d: DefType, q: int| !(desc_run(s@, pos as int, q, d) && d is Arc) by {
                    if desc_run(s@, pos as int, q, d) && d is Arc {
                        lemma_desc_pieces(s@, pos as int, q, d);
                        assert(false);
                    }
                }
            }
            return None;
        },
    };
    let (vname, p2) = match parse_jstring(s, p1) {
        Some(t) => t,
        None => {
            proof {
                reveal_strlit("{\"kind\":\"arc\",\"name\":");
                assert forall|d: DefType, q: int| !desc_run(s@, pos as int, q, d) by {
                    if desc_run(s@, pos as int, q, d) {
                        lemma_desc_pieces(s@, pos as int, q, d);
                        match d {
                        DefType::Arc(p) => {
                            assert(false);
                        },
                        DefType::Primitive(p) => {
                            reveal_strlit("{\"kind\":\"primitive\",\"name\":");
                            assert(s@.subrange(pos as int, pos + "{\"kind\":\"primitive\",\"name\":"@.len())[9] == s@[pos + 9]);
                            assert(s@.subrange(pos as int, p1 as int)[9] == s@[pos + 9]);
                            assert(false);
                        },
                        DefType::String(p) => {
                            reveal_strlit("{\"kind\":\"string\",\"name\":");
                            assert(s@.subrange(pos as int, pos + "{\"kind\":\"string\",\"name\":"@.len())[9] == s@[pos + 9]);
                            assert(s@.subrange(pos as int, p1 as int)[9] == s@[pos + 9]);
                            assert(false);
                        },
                        DefType::StrSlice(p) => {
                            reveal_strlit("{\"kind\":\"strSlice\",\"name\":");
                            assert(s@.subrange(pos as int, pos + "{\"kind\":\"strSlice\",\"name\":"@.len())[9] == s@[pos + 9]);
                            assert(s@.subrange(pos as int, p1 as int)[9] == s@[pos + 9]);
                            assert(false);
                        },
                        DefType::Str(p) => {
                            reveal_strlit("{\"kind\":\"str\",\"name\":");
                            assert(s@.subrange(pos as int, pos + "{\"kind\":\"str\",\"name\":"@.len())[9] == s@[pos + 9]);
                            assert(s@.subrange(pos as int, p1 as int)[9] == s@[pos + 9]);
                            assert(false);
                        },
                        DefType::Box(p) => {
                            reveal_strlit("{\"kind\":\"box\",\"name\":");
                            assert(s@.subrange(pos as int, pos + "{\"kind\":\"box\",\"name\":"@.len())[9] == s@[pos + 9]);
                            assert(s@.subrange(pos as int, p1 as int)[9] == s@[pos + 9]);
                            assert(false);
                        },
                        DefType::Vec(p) => {
                            reveal_strlit("{\"kind\":\"vec\",\"name\":");
                            assert(s@.subrange(pos as int, pos + "{\"kind\":\"vec\",\"name\":"@.len())[9] == s@[pos + 9]);
                            assert(s@.subrange(pos as int, p1 as int)[9] == s@[pos + 9]);
                            assert(false);
                        },
                        DefType::Option(p) => {
                            reveal_strlit("{\"kind\":\"option\",\"name\":");
                            assert(s@.subrange(pos as int, pos + "{\"kind\":\"option\",\"name\":"@.len())[9] == s@[pos + 9]);
                            assert(s@.subrange(pos as int, p1 as int)[9] == s@[pos + 9]);
                            assert(false);
                        },
                        DefType::PhantomData(p) => {
                            reveal_strlit("{\"kind\":\"phantomData\",\"name\":");
                            assert(s@.subrange(pos as int, pos + "{\"kind\":\"phantomData\",\"name\":"@.len())[9] == s@[pos + 9]);
                            assert(s@.subrange(pos as int, p1 as int)[9] == s@[pos + 9]);
                            assert(false);
                        },
                        DefType::Cell(p) => {
                            reveal_strlit("{\"kind\":\"cell\",\"name\":");
                            assert(s@.subrange(pos as int, pos + "{\"kind\":\"cell\",\"name\":"@.len())[9] == s@[pos + 9]);
                            assert(s@.subrange(pos as int, p1 as int)[9] == s@[pos + 9]);
                            assert(false);
                        },
                        DefType::RefCell(p) => {
                            reveal_strlit("{\"kind\":\"refCell\",\"name\":");
                            assert(s@.subrange(pos as int, pos + "{\"kind\":\"refCell\",\"name\":"@.len())[9] == s@[pos + 9]);
                            assert(s@.subrange(pos as int, p1 as int)[9] == s@[pos + 9]);
                            assert(false);
                        },
                        DefType::Mutex(p) => {
                            reveal_strlit("{\"kind\":\"mutex\",\"name\":");
                            assert(s@.subrange(pos as int, pos + "{\"kind\":\"mutex\",\"name\":"@.len())[9] == s@[pos + 9]);
                            assert(s@.subrange(pos as int, p1 as int)[9] == s@[pos + 9]);
                            assert(false);
                        },
                        DefType::RwLock(p) => {
                            reveal_strlit("{\"kind\":\"rwLock\",\"name\":");
                            assert(s@.subrange(pos as int, pos + "{\"kind\":\"rwLock\",\"name\":"@.len())[9] == s@[pos + 9]);
                            assert(s@.subrange(pos as int, p1 as int)[9] == s@[pos + 9]);
                            assert(false);
                        },
                        DefType::Rc(p) => {
                            reveal_strlit("{\"kind\":\"rc\",\"name\":");
                            assert(s@.subrange(pos as int, pos + "{\"kind\":\"rc\",\"name\":"@.len())[9] == s@[pos + 9]);
                            assert(s@.subrange(pos as int, p1 as int)[9] == s@[pos + 9]);
                            assert(false);
                        },
                        DefType::Result(p) => {
                            reveal_strlit("{\"kind\":\"result\",\"name\":");
                            assert(s@.subrange(pos as int, pos + "{\"kind\":\"result\",\"name\":"@.len())[9] == s@[pos + 9]);
                            assert(s@.subrange(pos as int, p1 as int)[9] == s@[pos + 9]);
                            assert(false);
                        },
                        DefType::Struct(p) => {
                            reveal_strlit("{\"kind\":\"struct\",\"name\":");
                            assert(s@.subrange(pos as int, pos + "{\"kind\":\"struct\",\"name\":"@.len())[9] == s@[pos + 9]);
                            assert(s@.subrange(pos as int, p1 as int)[9] == s@[pos + 9]);
                            assert(false);
                        },
                        DefType::Enum(p) => {
                            reveal_strlit("{\"kind\":\"enum\",\"name\":");
                            assert(s@.subrange(pos as int, pos + "{\"kind\":\"enum\",\"name\":"@.len())[9] == s@[pos + 9]);
                            assert(s@.subrange(pos as int, p1 as int)[9] == s@[pos + 9]);
                            assert(false);
                        },
                        }
                    }
                }
            }
            return None;
        },
    };
    let (vsize, valign, vid, pz) = match parse_wrap_rest(s, p2) {
        Some(t) => t,
        None => {
            proof {
                reveal_strlit("{\"kind\":\"arc\",\"name\":");
                assert forall|d: DefType, q: int| !desc_run(s@, pos as int, q, d) by {
                    if desc_run(s@, pos as int, q, d) {
                        lemma_desc_pieces(s@, pos as int, q, d);
                        match d {
                        DefType::Arc(p) => {
                            assert(false);
                        },
                        DefType::Primitive(p) => {
                            reveal_strlit("{\"kind\":\"primitive\",\"name\":");
                            assert(s@.subrange(pos as int, pos + "{\"kind\":\"primitive\",\"name\":"@.len())[9] == s@[pos + 9]);
                            assert(s@.subrange(pos as int, p1 as int)[9] == s@[pos + 9]);
                            assert(false);
                        },
                        DefType::String(p) => {
                            reveal_strlit("{\"kind\":\"string\",\"name\":");
                            assert(s@.subrange(pos as int, pos + "{\"kind\":\"string\",\"name\":"@.len())[9] == s@[pos + 9]);
                            assert(s@.subrange(pos as int, p1 as int)[9] == s@[pos + 9]);
                            assert(false);
                        },
                        DefType::StrSlice(p) => {
                            reveal_strlit("{\"kind\":\"strSlice\",\"name\":");
                            assert(s@.subrange(pos as int, pos + "{\"kind\":\"strSlice\",\"name\":"@.len())[9] == s@[pos + 9]);
                            assert(s@.subrange(pos as int, p1 as int)[9] == s@[pos + 9]);
                            assert(false);
                        },
                        DefType::Str(p) => {
                            reveal_strlit("{\"kind\":\"str\",\"name\":");
                            assert(s@.subrange(pos as int, pos + "{\"kind\":\"str\",\"name\":"@.len())[9] == s@[pos + 9]);
                            assert(s@.subrange(pos as int, p1 as int)[9] == s@[pos + 9]);
                            assert(false);
                        },
                        DefType::Box(p) => {
                            reveal_strlit("{\"kind\":\"box\",\"name\":");
                            assert(s@.subrange(pos as int, pos + "{\"kind\":\"box\",\"name\":"@.len())[9] == s@[pos + 9]);
                            assert(s@.subrange(pos as int, p1 as int)[9] == s@[pos + 9]);
                            assert(false);
                        },
                        DefType::Vec(p) => {
                            reveal_strlit("{\"kind\":\"vec\",\"name\":");
                            assert(s@.subrange(pos as int, pos + "{\"kind\":\"vec\",\"name\":"@.len())[9] == s@[pos + 9]);
                            assert(s@.subrange(pos as int, p1 as int)[9] == s@[pos + 9]);
                            assert(false);
                        },
                        DefType::Option(p) => {
                            reveal_strlit("{\"kind\":\"option\",\"name\":");
                            assert(s@.subrange(pos as int, pos + "{\"kind\":\"option\",\"name\":"@.len())[9] == s@[pos + 9]);
                            assert(s@.subrange(pos as int, p1 as int)[9] == s@[pos + 9]);
                            assert(false);
                        },
                        DefType::PhantomData(p) => {
                            reveal_strlit("{\"kind\":\"phantomData\",\"name\":");
                            assert(s@.subrange(pos as int, pos + "{\"kind\":\"phantomData\",\"name\":"@.len())[9] == s@[pos + 9]);
                            assert(s@.subrange(pos as int, p1 as int)[9] == s@[pos + 9]);
                            assert(false);
                        },
                        DefType::Cell(p) => {
                            reveal_strlit("{\"kind\":\"cell\",\"name\":");
                            assert(s@.subrange(pos as int, pos + "{\"kind\":\"cell\",\"name\":"@.len())[9] == s@[pos + 9]);
                            assert(s@.subrange(pos as int, p1 as int)[9] == s@[pos + 9]);
                            assert(false);
                        },
                        DefType::RefCell(p) => {
                            reveal_strlit("{\"kind\":\"refCell\",\"name\":");
                            assert(s@.subrange(pos as int, pos + "{\"kind\":\"refCell\",\"name\":"@.len())[9] == s@[pos + 9]);
                            assert(s@.subrange(pos as int, p1 as int)[9] == s@[pos + 9]);
                            assert(false);
                        },
                        DefType::Mutex(p) => {
                            reveal_strlit("{\"kind\":\"mutex\",\"name\":");
                            assert(s@.subrange(pos as int, pos + "{\"kind\":\"mutex\",\"name\":"@.len())[9] == s@[pos + 9]);
                            assert(s@.subrange(pos as int, p1 as int)[9] == s@[pos + 9]);
                            assert(false);
                        },
                        DefType::RwLock(p) => {
                            reveal_strlit("{\"kind\":\"rwLock\",\"name\":");
                            assert(s@.subrange(pos as int, pos + "{\"kind\":\"rwLock\",\"name\":"@.len())[9] == s@[pos + 9]);
                            assert(s@.subrange(pos as int, p1 as int)[9] == s@[pos + 9]);
                            assert(false);
                        },
                        DefType::Rc(p) => {
                            reveal_strlit("{\"kind\":\"rc\",\"name\":");
                            assert(s@.subrange(pos as int, pos + "{\"kind\":\"rc\",\"name\":"@.len())[9] == s@[pos + 9]);
                            assert(s@.subrange(pos as int, p1 as int)[9] == s@[pos + 9]);
                            assert(false);
                        },
                        DefType::Result(p) => {
                            reveal_strlit("{\"kind\":\"result\",\"name\":");
                            assert(s@.subrange(pos as int, pos + "{\"kind\":\"result\",\"name\":"@.len())[9] == s@[pos + 9]);
                            assert(s@.subrange(pos as int, p1 as int)[9] == s@[pos + 9]);
                            assert(false);
                        },
                        DefType::Struct(p) => {
                            reveal_strlit("{\"kind\":\"struct\",\"name\":");
                            assert(s@.subrange(pos as int, pos + "{\"kind\":\"struct\",\"name\":"@.len())[9] == s@[pos + 9]);
                            assert(s@.subrange(pos as int, p1 as int)[9] == s@[pos + 9]);
                            assert(false);
                        },
                        DefType::Enum(p) => {
                            reveal_strlit("{\"kind\":\"enum\",\"name\":");
                            assert(s@.subrange(pos as int, pos + "{\"kind\":\"enum\",\"name\":"@.len())[9] == s@[pos + 9]);
                            assert(s@.subrange(pos as int, p1 as int)[9] == s@[pos + 9]);
                            assert(false);
                        },
                        }
                    }
                }
            }
            return None;
        },
    };
    let d0 = DefType::Arc(DefArc { name: vname, size: vsize, align: valign, value_type_id: vid });
    proof {
        reveal_strlit("{\"kind\":\"arc\",\"name\":");
        reveal_strlit("{\"kind\":\"");
        reveal_strlit("arc");
        reveal_strlit("\",\"name\":");
        assert("{\"kind\":\"arc\",\"name\":"@ =~= "{\"kind\":\""@ + "arc"@ + "\",\"name\":"@);
        lemma_subrange_concat(s@, pos as int, p1 as int, p2 as int);
        lemma_subrange_concat(s@, pos as int, p2 as int, pz as int);
        assert(s@.subrange(pos as int, pz as int) =~= jdesc(d0));
        assert forall|d: DefType, q: int| desc_run(s@, pos as int, q, d) implies (d is Arc && desc_like(d0, d) && pz as int == q) by {
            lemma_desc_pieces(s@, pos as int, q, d);
            match d {
            DefType::Arc(p) => {
            },
            DefType::Primitive(p) => {
                reveal_strlit("{\"kind\":\"primitive\",\"name\":");
                assert(s@.subrange(pos as int, pos + "{\"kind\":\"primitive\",\"name\":"@.len())[9] == s@[pos + 9]);
                assert(s@.subrange(pos as int, p1 as int)[9] == s@[pos + 9]);
                assert(false);
            },
            DefType::String(p) => {
                reveal_strlit("{\"kind\":\"string\",\"name\":");
                assert(s@.subrange(pos as int, pos + "{\"kind\":\"string\",\"name\":"@.len())[9] == s@[pos + 9]);
                assert(s@.subrange(pos as int, p1 as int)[9] == s@[pos + 9]);
                assert(false);
            },
            DefType::StrSlice(p) => {
                reveal_strlit("{\"kind\":\"strSlice\",\"name\":");
                assert(s@.subrange(pos as int, pos + "{\"kind\":\"strSlice\",\"name\":"@.len())[9] == s@[pos + 9]);
                assert(s@.subrange(pos as int, p1 as int)[9] == s@[pos + 9]);
                assert(false);
            },
            DefType::Str(p) => {
                reveal_strlit("{\"kind\":\"str\",\"name\":");
                assert(s@.subrange(pos as int, pos + "{\"kind\":\"str\",\"name\":"@.len())[9] == s@[pos + 9]);
                assert(s@.subrange(pos as int, p1 as int)[9] == s@[pos + 9]);
                assert(false);
            },
            DefType::Box(p) => {
                reveal_strlit("{\"kind\":\"box\",\"name\":");
                assert(s@.subrange(pos as int, pos + "{\"kind\":\"box\",\"name\":"@.len())[9] == s@[pos + 9]);
                assert(s@.subrange(pos as int, p1 as int)[9] == s@[pos + 9]);
                assert(false);
            },
            DefType::Vec(p) => {
                reveal_strlit("{\"kind\":\"vec\",\"name\":");
                assert(s@.subrange(pos as int, pos + "{\"kind\":\"vec\",\"name\":"@.len())[9] == s@[pos + 9]);
                assert(s@.subrange(pos as int, p1 as int)[9] == s@[pos + 9]);
                assert(false);
            },
            DefType::Option(p) => {
                reveal_strlit("{\"kind\":\"option\",\"name\":");
                assert(s@.subrange(pos as int, pos + "{\"kind\":\"option\",\"name\":"@.len())[9] == s@[pos + 9]);
                assert(s@.subrange(pos as int, p1 as int)[9] == s@[pos + 9]);
                assert(false);
            },
            DefType::PhantomData(p) => {
                reveal_strlit("{\"kind\":\"phantomData\",\"name\":");
                assert(s@.subrange(pos as int, pos + "{\"kind\":\"phantomData\",\"name\":"@.len())[9] == s@[pos + 9]);
                assert(s@.subrange(pos as int, p1 as int)[9] == s@[pos + 9]);
                assert(false);
            },
            DefType::Cell(p) => {
                reveal_strlit("{\"kind\":\"cell\",\"name\":");
                assert(s@.subrange(pos as int, pos + "{\"kind\":\"cell\",\"name\":"@.len())[9] == s@[pos + 9]);
                assert(s@.subrange(pos as int, p1 as int)[9] == s@[pos + 9]);
                assert(false);
            },
            DefType::RefCell(p) => {
                reveal_strlit("{\"kind\":\"refCell\",\"name\":");
                assert(s@.subrange(pos as int, pos + "{\"kind\":\"refCell\",\"name\":"@.len())[9] == s@[pos + 9]);
                assert(s@.subrange(pos as int, p1 as int)[9] == s@[pos + 9]);
                assert(false);
            },
            DefType::Mutex(p) => {
                reveal_strlit("{\"kind\":\"mutex\",\"name\":");
                assert(s@.subrange(pos as int, pos + "{\"kind\":\"mutex\",\"name\":"@.len())[9] == s@[pos + 9]);
                assert(s@.subrange(pos as int, p1 as int)[9] == s@[pos + 9]);
                assert(false);
            },
            DefType::RwLock(p) => {
                reveal_strlit("{\"kind\":\"rwLock\",\"name\":");
                assert(s@.subrange(pos as int, pos + "{\"kind\":\"rwLock\",\"name\":"@.len())[9] == s@[pos + 9]);
                assert(s@.subrange(pos as int, p1 as int)[9] == s@[pos + 9]);
                assert(false);
            },
            DefType::Rc(p) => {
                reveal_strlit("{\"kind\":\"rc\",\"name\":");
                assert(s@.subrange(pos as int, pos + "{\"kind\":\"rc\",\"name\":"@.len())[9] == s@[pos + 9]);
                assert(s@.subrange(pos as int, p1 as int)[9] == s@[pos + 9]);
                assert(false);
            },
            DefType::Result(p) => {
                reveal_strlit("{\"kind\":\"result\",\"name\":");
                assert(s@.subrange(pos as int, pos + "{\"kind\":\"result\",\"name\":"@.len())[9] == s@[pos + 9]);
                assert(s@.subrange(pos as int, p1 as int)[9] == s@[pos + 9]);
                assert(false);
            },
            DefType::Struct(p) => {
                reveal_strlit("{\"kind\":\"struct\",\"name\":");
                assert(s@.subrange(pos as int, pos + "{\"kind\":\"struct\",\"name\":"@.len())[9] == s@[pos + 9]);
                assert(s@.subrange(pos as int, p1 as int)[9] == s@[pos + 9]);
                assert(false);
            },
            DefType::Enum(p) => {
                reveal_strlit("{\"kind\":\"enum\",\"name\":");
                assert(s@.subrange(pos as int, pos + "{\"kind\":\"enum\",\"name\":"@.len())[9] == s@[pos + 9]);
                assert(s@.subrange(pos as int, p1 as int)[9] == s@[pos + 9]);
                assert(false);
            },
            }
        }
    }
    Some((d0, pz))
}

#[verifier::rlimit(100)]
fn parse_desc_result(s: &Vec<char>, pos: usize) -> (r: Option<(DefType, usize)>)
    ensures
        (r matches Some((d, p)) ==> pos < p <= s@.len() && s@.subrange(pos as int, p as int) == jdesc(d)),
        (forall|d: DefType, q: int| desc_run(s@, pos as int, q, d) && d is Result ==> (r matches Some((d2, p)) && desc_like(d2, d) && p == q)),
        (forall|d: DefType, q: int| desc_run(s@, pos as int, q, d) && !(d is Result) ==> r is None),
{
    let p1 = match expect(s, pos, "{\"kind\":\"result\",\"name\":") {
        Some(p) => p,
        None => {
            proof {
                assert forall|d: DefType, q: int| !(desc_run(s@, pos as int, q, d) && d is Result) by {
                    if desc_run(s@, pos as int, q, d) && d is Result {
                        lemma_desc_pieces(s@, pos as int, q, d);
                        assert(false);
                    }
                }
            }
            return None;
        },
    };
    let (vname, p2) = match parse_jstring(s, p1) {
        Some(t) => t,
        None => {
            proof {
                reveal_strlit("{\"kind\":\"result\",\"name\":");
                assert forall|d: DefType, q: int| !desc_run(s@, pos as int, q, d) by {
                    if desc_run(s@, pos as int, q, d) {
                        lemma_desc_pieces(s@, pos as int, q, d);
                        match d {
                        DefType::Result(p) => {
                            lemma_resrest_pieces(s@, pos + "{\"kind\":\"result\",\"name\":"@.len() + jstr(p.name@).len(), q, p.size, p.align, p.ok_type_id, p.err_type_id);
                            assert(false);
                        },
                        DefType::Primitive(p) => {
                            reveal_strlit("{\"kind\":\"primitive\",\"name\":");
                            assert(s@.subrange(pos as int, pos + "{\"kind\":\"primitive\",\"name\":"@.len())[9] == s@[pos + 9]);
                            assert(s@.subrange(pos as int, p1 as int)[9] == s@[pos + 9]);
                            assert(false);
                        },
                        DefType::String(p) => {
                            reveal_strlit("{\"kind\":\"string\",\"name\":");
                            assert(s@.subrange(pos as int, pos + "{\"kind\":\"string\",\"name\":"@.len())[9] == s@[pos + 9]);
                            assert(s@.subrange(pos as int, p1 as int)[9] == s@[pos + 9]);
                            assert(false);
                        },
                        DefType::StrSlice(p) => {
                            reveal_strlit("{\"kind\":\"strSlice\",\"name\":");
                            assert(s@.subrange(pos as int, pos + "{\"kind\":\"strSlice\",\"name\":"@.len())[9] == s@[pos + 9]);
                            assert(s@.subrange(pos as int, p1 as int)[9] == s@[pos + 9]);
                            assert(false);
                        },
                        DefType::Str(p) => {
                            reveal_strlit("{\"kind\":\"str\",\"name\":");
                            assert(s@.subrange(pos as int, pos + "{\"kind\":\"str\",\"name\":"@.len())[9] == s@[pos + 9]);
                            assert(s@.subrange(pos as int, p1 as int)[9] == s@[pos + 9]);
                            assert(false);
                        },
                        DefType::Box(p) => {
                            reveal_strlit("{\"kind\":\"box\",\"name\":");
                            assert(s@.subrange(pos as int, pos + "{\"kind\":\"box\",\"name\":"@.len())[9] == s@[pos + 9]);
                            assert(s@.subrange(pos as int, p1 as int)[9] == s@[pos + 9]);
                            assert(false);
                        },
                        DefType::Vec(p) => {
                            reveal_strlit("{\"kind\":\"vec\",\"name\":");
                            assert(s@.subrange(pos as int, pos + "{\"kind\":\"vec\",\"name\":"@.len())[9] == s@[pos + 9]);
                            assert(s@.subrange(pos as int, p1 as int)[9] == s@[pos + 9]);
                            assert(false);
                        },
                        DefType::Option(p) => {
                            reveal_strlit("{\"kind\":\"option\",\"name\":");
                            assert(s@.subrange(pos as int, pos + "{\"kind\":\"option\",\"name\":"@.len())[9] == s@[pos + 9]);
                            assert(s@.subrange(pos as int, p1 as int)[9] == s@[pos + 9]);
                            assert(false);
                        },
                        DefType::PhantomData(p) => {
                            reveal_strlit("{\"kind\":\"phantomData\",\"name\":");
                            assert(s@.subrange(pos as int, pos + "{\"kind\":\"phantomData\",\"name\":"@.len())[9] == s@[pos + 9]);
                            assert(s@.subrange(pos as int, p1 as int)[9] == s@[pos + 9]);
                            assert(false);
                        },
                        DefType::Cell(p) => {
                            reveal_strlit("{\"kind\":\"cell\",\"name\":");
                            assert(s@.subrange(pos as int, pos + "{\"kind\":\"cell\",\"name\":"@.len())[9] == s@[pos + 9]);
                            assert(s@.subrange(pos as int, p1 as int)[9] == s@[pos + 9]);
                            assert(false);
                        },
                        DefType::RefCell(p) => {
                            reveal_strlit("{\"kind\":\"refCell\",\"name\":");
                            assert(s@.subrange(pos as int, pos + "{\"kind\":\"refCell\",\"name\":"@.len())[11] == s@[pos + 11]);
                            assert(s@.subrange(pos as int, p1 as int)[11] == s@[pos + 11]);
                            assert(false);
                        },
                        DefType::Mutex(p) => {
                            reveal_strlit("{\"kind\":\"mutex\",\"name\":");
                            assert(s@.subrange(pos as int, pos + "{\"kind\":\"mutex\",\"name\":"@.len())[9] == s@[pos + 9]);
                            assert(s@.subrange(pos as int, p1 as int)[9] == s@[pos + 9]);
                            assert(false);
                        },
                        DefType::RwLock(p) => {
                            reveal_strlit("{\"kind\":\"rwLock\",\"name\":");
                            assert(s@.subrange(pos as int, pos + "{\"kind\":\"rwLock\",\"name\":"@.len())[10] == s@[pos + 10]);
                            assert(s@.subrange(pos as int, p1 as int)[10] == s@[pos + 10]);
                            assert(false);
                        },
                        DefType::Rc(p) => {
                            reveal_strlit("{\"kind\":\"rc\",\"name\":");
                            assert(s@.subrange(pos as int, pos + "{\"kind\":\"rc\",\"name\":"@.len())[10] == s@[pos + 10]);
                            assert(s@.subrange(pos as int, p1 as int)[10] == s@[pos + 10]);
                            assert(false);
                        },
                        DefType::Arc(p) => {
                            reveal_strlit("{\"kind\":\"arc\",\"name\":");
                            assert(s@.subrange(pos as int, pos + "{\"kind\":\"arc\",\"name\":"@.len())[9] == s@[pos + 9]);
                            assert(s@.subrange(pos as int, p1 as int)[9] == s@[pos + 9]);
                            assert(false);
                        },
                        DefType::Struct(p) => {
                            reveal_strlit("{\"kind\":\"struct\",\"name\":");
                            assert(s@.subrange(pos as int, pos + "{\"kind\":\"struct\",\"name\":"@.len())[9] == s@[pos + 9]);
                            assert(s@.subrange(pos as int, p1 as int)[9] == s@[pos + 9]);
                            assert(false);
                        },
                        DefType::Enum(p) => {
                            reveal_strlit("{\"kind\":\"enum\",\"name\":");
                            assert(s@.subrange(pos as int, pos + "{\"kind\":\"enum\",\"name\":"@.len())[9] == s@[pos + 9]);
                            assert(s@.subrange(pos as int, p1 as int)[9] == s@[pos + 9]);
                            assert(false);
                        },
                        }
                    }
                }
            }
            return None;
        },
    };
    let (vsize, valign, p_a) = match parse_sa(s, p2) {
        Some(t) => t,
        None => {
            proof {
                reveal_strlit("{\"kind\":\"result\",\"name\":");
                assert forall|d: DefType, q: int| !desc_run(s@, pos as int, q, d) by {
                    if desc_run(s@, pos as int, q, d) {
                        lemma_desc_pieces(s@, pos as int, q, d);
                        match d {
                        DefType::Result(p) => {
                            lemma_resrest_pieces(s@, pos + "{\"kind\":\"result\",\"name\":"@.len() + jstr(p.name@).len(), q, p.size, p.align, p.ok_type_id, p.err_type_id);
                            assert(false);
                        },
                        DefType::Primitive(p) => {
                            reveal_strlit("{\"kind\":\"primitive\",\"name\":");
                            assert(s@.subrange(pos as int, pos + "{\"kind\":\"primitive\",\"name\":"@.len())[9] == s@[pos + 9]);
                            assert(s@.subrange(pos as int, p1 as int)[9] == s@[pos + 9]);
                            assert(false);
                        },
                        DefType::String(p) => {
                            reveal_strlit("{\"kind\":\"string\",\"name\":");
                            assert(s@.subrange(pos as int, pos + "{\"kind\":\"string\",\"name\":"@.len())[9] == s@[pos + 9]);
                            assert(s@.subrange(pos as int, p1 as int)[9] == s@[pos + 9]);
                            assert(false);
                        },
                        DefType::StrSlice(p) => {
                            reveal_strlit("{\"kind\":\"strSlice\",\"name\":");
                            assert(s@.subrange(pos as int, pos + "{\"kind\":\"strSlice\",\"name\":"@.len())[9] == s@[pos + 9]);
                            assert(s@.subrange(pos as int, p1 as int)[9] == s@[pos + 9]);
                            assert(false);
                        },
                        DefType::Str(p) => {
                            reveal_strlit("{\"kind\":\"str\",\"name\":");
                            assert(s@.subrange(pos as int, pos + "{\"kind\":\"str\",\"name\":"@.len())[9] == s@[pos + 9]);
                            assert(s@.subrange(pos as int, p1 as int)[9] == s@[pos + 9]);
                            assert(false);
                        },
                        DefType::Box(p) => {
                            reveal_strlit("{\"kind\":\"box\",\"name\":");
                            assert(s@.subrange(pos as int, pos + "{\"kind\":\"box\",\"name\":"@.len())[9] == s@[pos + 9]);
                            assert(s@.subrange(pos as int, p1 as int)[9] == s@[pos + 9]);
                            assert(false);
                        },
                        DefType::Vec(p) => {
                            reveal_strlit("{\"kind\":\"vec\",\"name\":");
                            assert(s@.subrange(pos as int, pos + "{\"kind\":\"vec\",\"name\":"@.len())[9] == s@[pos + 9]);
                            assert(s@.subrange(pos as int, p1 as int)[9] == s@[pos + 9]);
                            assert(false);
                        },
                        DefType::Option(p) => {
                            reveal_strlit("{\"kind\":\"option\",\"name\":");
                            assert(s@.subrange(pos as int, pos + "{\"kind\":\"option\",\"name\":"@.len())[9] == s@[pos + 9]);
                            assert(s@.subrange(pos as int, p1 as int)[9] == s@[pos + 9]);
                            assert(false);
                        },
                        DefType::PhantomData(p) => {
                            reveal_strlit("{\"kind\":\"phantomData\",\"name\":");
                            assert(s@.subrange(pos as int, pos + "{\"kind\":\"phantomData\",\"name\":"@.len())[9] == s@[pos + 9]);
                            assert(s@.subrange(pos as int, p1 as int)[9] == s@[pos + 9]);
                            assert(false);
                        },
                        DefType::Cell(p) => {
                            reveal_strlit("{\"kind\":\"cell\",\"name\":");
                            assert(s@.subrange(pos as int, pos + "{\"kind\":\"cell\",\"name\":"@.len())[9] == s@[pos + 9]);
                            assert(s@.subrange(pos as int, p1 as int)[9] == s@[pos + 9]);
                            assert(false);
                        },
                        DefType::RefCell(p) => {
                            reveal_strlit("{\"kind\":\"refCell\",\"name\":");
                            assert(s@.subrange(pos as int, pos + "{\"kind\":\"refCell\",\"name\":"@.len())[11] == s@[pos + 11]);
                            assert(s@.subrange(pos as int, p1 as int)[11] == s@[pos + 11]);
                            assert(false);
                        },
                        DefType::Mutex(p) => {
                            reveal_strlit("{\"kind\":\"mutex\",\"name\":");
                            assert(s@.subrange(pos as int, pos + "{\"kind\":\"mutex\",\"name\":"@.len())[9] == s@[pos + 9]);
                            assert(s@.subrange(pos as int, p1 as int)[9] == s@[pos + 9]);
                            assert(false);
                        },
                        DefType::RwLock(p) => {
                            reveal_strlit("{\"kind\":\"rwLock\",\"name\":");
                            assert(s@.subrange(pos as int, pos + "{\"kind\":\"rwLock\",\"name\":"@.len())[10] == s@[pos + 10]);
                            assert(s@.subrange(pos as int, p1 as int)[10] == s@[pos + 10]);
                            assert(false);
                        },
                        DefType::Rc(p) => {
                            reveal_strlit("{\"kind\":\"rc\",\"name\":");
                            assert(s@.subrange(pos as int, pos + "{\"kind\":\"rc\",\"name\":"@.len())[10] == s@[pos + 10]);
                            assert(s@.subrange(pos as int, p1 as int)[10] == s@[pos + 10]);
                            assert(false);
                        },
                        DefType::Arc(p) => {
                            reveal_strlit("{\"kind\":\"arc\",\"name\":");
                            assert(s@.subrange(pos as int, pos + "{\"kind\":\"arc\",\"name\":"@.len())[9] == s@[pos + 9]);
                            assert(s@.subrange(pos as int, p1 as int)[9] == s@[pos + 9]);
                            assert(false);
                        },
                        DefType::Struct(p) => {
                            reveal_strlit("{\"kind\":\"struct\",\"name\":");
                            assert(s@.subrange(pos as int, pos + "{\"kind\":\"struct\",\"name\":"@.len())[9] == s@[pos + 9]);
                            assert(s@.subrange(pos as int, p1 as int)[9] == s@[pos + 9]);
                            assert(false);
                        },
                        DefType::Enum(p) => {
                            reveal_strlit("{\"kind\":\"enum\",\"name\":");
                            assert(s@.subrange(pos as int, pos + "{\"kind\":\"enum\",\"name\":"@.len())[9] == s@[pos + 9]);
                            assert(s@.subrange(pos as int, p1 as int)[9] == s@[pos + 9]);
                            assert(false);
                        },
                        }
                    }
                }
            }
            return None;
        },
    };
    let p_b = match expect(s, p_a, ",\"okTypeId\":") {
        Some(t) => t,
        None => {
            proof {
                reveal_strlit("{\"kind\":\"result\",\"name\":");
                assert forall|d: DefType, q: int| !desc_run(s@, pos as int, q, d) by {
                    if desc_run(s@, pos as int, q, d) {
                        lemma_desc_pieces(s@, pos as int, q, d);
                        match d {
                        DefType::Result(p) => {
                            lemma_resrest_pieces(s@, pos + "{\"kind\":\"result\",\"name\":"@.len() + jstr(p.name@).len(), q, p.size, p.align, p.ok_type_id, p.err_type_id);
                            assert(false);
                        },
                        DefType::Primitive(p) => {
                            reveal_strlit("{\"kind\":\"primitive\",\"name\":");
                            assert(s@.subrange(pos as int, pos + "{\"kind\":\"primitive\",\"name\":"@.len())[9] == s@[pos + 9]);
                            assert(s@.subrange(pos as int, p1 as int)[9] == s@[pos + 9]);
                            assert(false);
                        },
                        DefType::String(p) => {
                            reveal_strlit("{\"kind\":\"string\",\"name\":");
                            assert(s@.subrange(pos as int, pos + "{\"kind\":\"string\",\"name\":"@.len())[9] == s@[pos + 9]);
                            assert(s@.subrange(pos as int, p1 as int)[9] == s@[pos + 9]);
                            assert(false);
                        },
                        DefType::StrSlice(p) => {
                            reveal_strlit("{\"kind\":\"strSlice\",\"name\":");
                            assert(s@.subrange(pos as int, pos + "{\"kind\":\"strSlice\",\"name\":"@.len())[9] == s@[pos + 9]);
                            assert(s@.subrange(pos as int, p1 as int)[9] == s@[pos + 9]);
                            assert(false);
                        },
                        DefType::Str(p) => {
                            reveal_strlit("{\"kind\":\"str\",\"name\":");
                            assert(s@.subrange(pos as int, pos + "{\"kind\":\"str\",\"name\":"@.len())[9] == s@[pos + 9]);
                            assert(s@.subrange(pos as int, p1 as int)[9] == s@[pos + 9]);
                            assert(false);
                        },
                        DefType::Box(p) => {
                            reveal_strlit("{\"kind\":\"box\",\"name\":");
                            assert(s@.subrange(pos as int, pos + "{\"kind\":\"box\",\"name\":"@.len())[9] == s@[pos + 9]);
                            assert(s@.subrange(pos as int, p1 as int)[9] == s@[pos + 9]);
                            assert(false);
                        },
                        DefType::Vec(p) => {
                            reveal_strlit("{\"kind\":\"vec\",\"name\":");
                            assert(s@.subrange(pos as int, pos + "{\"kind\":\"vec\",\"name\":"@.len())[9] == s@[pos + 9]);
                            assert(s@.subrange(pos as int, p1 as int)[9] == s@[pos + 9]);
                            assert(false);
                        },
                        DefType::Option(p) => {
                            reveal_strlit("{\"kind\":\"option\",\"name\":");
                            assert(s@.subrange(pos as int, pos + "{\"kind\":\"option\",\"name\":"@.len())[9] == s@[pos + 9]);
                            assert(s@.subrange(pos as int, p1 as int)[9] == s@[pos + 9]);
                            assert(false);
                        },
                        DefType::PhantomData(p) => {
                            reveal_strlit("{\"kind\":\"phantomData\",\"name\":");
                            assert(s@.subrange(pos as int, pos + "{\"kind\":\"phantomData\",\"name\":"@.len())[9] == s@[pos + 9]);
                            assert(s@.subrange(pos as int, p1 as int)[9] == s@[pos + 9]);
                            assert(false);
                        },
                        DefType::Cell(p) => {
                            reveal_strlit("{\"kind\":\"cell\",\"name\":");
                            assert(s@.subrange(pos as int, pos + "{\"kind\":\"cell\",\"name\":"@.len())[9] == s@[pos + 9]);
                            assert(s@.subrange(pos as int, p1 as int)[9] == s@[pos + 9]);
                            assert(false);
                        },
                        DefType::RefCell(p) => {
                            reveal_strlit("{\"kind\":\"refCell\",\"name\":");
                            assert(s@.subrange(pos as int, pos + "{\"kind\":\"refCell\",\"name\":"@.len())[11] == s@[pos + 11]);
                            assert(s@.subrange(pos as int, p1 as int)[11] == s@[pos + 11]);
                            assert(false);
                        },
                        DefType::Mutex(p) => {
                            reveal_strlit("{\"kind\":\"mutex\",\"name\":");
                            assert(s@.subrange(pos as int, pos + "{\"kind\":\"mutex\",\"name\":"@.len())[9] == s@[pos + 9]);
                            assert(s@.subrange(pos as int, p1 as int)[9] == s@[pos + 9]);
                            assert(false);
                        },
                        DefType::RwLock(p) => {
                            reveal_strlit("{\"kind\":\"rwLock\",\"name\":");
                            assert(s@.subrange(pos as int, pos + "{\"kind\":\"rwLock\",\"name\":"@.len())[10] == s@[pos + 10]);
                            assert(s@.subrange(pos as int, p1 as int)[10] == s@[pos + 10]);
                            assert(false);
                        },
                        DefType::Rc(p) => {
                            reveal_strlit("{\"kind\":\"rc\",\"name\":");
                            assert(s@.subrange(pos as int, pos + "{\"kind\":\"rc\",\"name\":"@.len())[10] == s@[pos + 10]);
                            assert(s@.subrange(pos as int, p1 as int)[10] == s@[pos + 10]);
                            assert(false);
                        },
                        DefType::Arc(p) => {
                            reveal_strlit("{\"kind\":\"arc\",\"name\":");
                            assert(s@.subrange(pos as int, pos + "{\"kind\":\"arc\",\"name\":"@.len())[9] == s@[pos + 9]);
                            assert(s@.subrange(pos as int, p1 as int)[9] == s@[pos + 9]);
                            assert(false);
                        },
                        DefType::Struct(p) => {
                            reveal_strlit("{\"kind\":\"struct\",\"name\":");
                            assert(s@.subrange(pos as int, pos + "{\"kind\":\"struct\",\"name\":"@.len())[9] == s@[pos + 9]);
                            assert(s@.subrange(pos as int, p1 as int)[9] == s@[pos + 9]);
                            assert(false);
                        },
                        DefType::Enum(p) => {
                            reveal_strlit("{\"kind\":\"enum\",\"name\":");
                            assert(s@.subrange(pos as int, pos + "{\"kind\":\"enum\",\"name\":"@.len())[9] == s@[pos + 9]);
                            assert(s@.subrange(pos as int, p1 as int)[9] == s@[pos + 9]);
                            assert(false);
                        },
                        }
                    }
                }
            }
            return None;
        },
    };
    let (vok, p_c) = match parse_usize(s, p_b) {
        Some(t) => t,
        None => {
            proof {
                reveal_strlit("{\"kind\":\"result\",\"name\":");
                assert forall|d: DefType, q: int| !desc_run(s@, pos as int, q, d) by {
                    if desc_run(s@, pos as int, q, d) {
                        lemma_desc_pieces(s@, pos as int, q, d);
                        match d {
                        DefType::Result(p) => {
                            lemma_resrest_pieces(s@, pos + "{\"kind\":\"result\",\"name\":"@.len() + jstr(p.name@).len(), q, p.size, p.align, p.ok_type_id, p.err_type_id);
                            assert(false);
                        },
                        DefType::Primitive(p) => {
                            reveal_strlit("{\"kind\":\"primitive\",\"name\":");
                            assert(s@.subrange(pos as int, pos + "{\"kind\":\"primitive\",\"name\":"@.len())[9] == s@[pos + 9]);
                            assert(s@.subrange(pos as int, p1 as int)[9] == s@[pos + 9]);
                            assert(false);
                        },
                        DefType::String(p) => {
                            reveal_strlit("{\"kind\":\"string\",\"name\":");
                            assert(s@.subrange(pos as int, pos + "{\"kind\":\"string\",\"name\":"@.len())[9] == s@[pos + 9]);
                            assert(s@.subrange(pos as int, p1 as int)[9] == s@[pos + 9]);
                            assert(false);
                        },
                        DefType::StrSlice(p) => {
                            reveal_strlit("{\"kind\":\"strSlice\",\"name\":");
                            assert(s@.subrange(pos as int, pos + "{\"kind\":\"strSlice\",\"name\":"@.len())[9] == s@[pos + 9]);
                            assert(s@.subrange(pos as int, p1 as int)[9] == s@[pos + 9]);
                            assert(false);
                        },
                        DefType::Str(p) => {
                            reveal_strlit("{\"kind\":\"str\",\"name\":");
                            assert(s@.subrange(pos as int, pos + "{\"kind\":\"str\",\"name\":"@.len())[9] == s@[pos + 9]);
                            assert(s@.subrange(pos as int, p1 as int)[9] == s@[pos + 9]);
                            assert(false);
                        },
                        DefType::Box(p) => {
                            reveal_strlit("{\"kind\":\"box\",\"name\":");
                            assert(s@.subrange(pos as int, pos + "{\"kind\":\"box\",\"name\":"@.len())[9] == s@[pos + 9]);
                            assert(s@.subrange(pos as int, p1 as int)[9] == s@[pos + 9]);
                            assert(false);
                        },
                        DefType::Vec(p) => {
                            reveal_strlit("{\"kind\":\"vec\",\"name\":");
                            assert(s@.subrange(pos as int, pos + "{\"kind\":\"vec\",\"name\":"@.len())[9] == s@[pos + 9]);
                            assert(s@.subrange(pos as int, p1 as int)[9] == s@[pos + 9]);
                            assert(false);
                        },
                        DefType::Option(p) => {
                            reveal_strlit("{\"kind\":\"option\",\"name\":");
                            assert(s@.subrange(pos as int, pos + "{\"kind\":\"option\",\"name\":"@.len())[9] == s@[pos + 9]);
                            assert(s@.subrange(pos as int, p1 as int)[9] == s@[pos + 9]);
                            assert(false);
                        },
                        DefType::PhantomData(p) => {
                            reveal_strlit("{\"kind\":\"phantomData\",\"name\":");
                            assert(s@.subrange(pos as int, pos + "{\"kind\":\"phantomData\",\"name\":"@.len())[9] == s@[pos + 9]);
                            assert(s@.subrange(pos as int, p1 as int)[9] == s@[pos + 9]);
                            assert(false);
                        },
                        DefType::Cell(p) => {
                            reveal_strlit("{\"kind\":\"cell\",\"name\":");
                            assert(s@.subrange(pos as int, pos + "{\"kind\":\"cell\",\"name\":"@.len())[9] == s@[pos + 9]);
                            assert(s@.subrange(pos as int, p1 as int)[9] == s@[pos + 9]);
                            assert(false);
                        },
                        DefType::RefCell(p) => {
                            reveal_strlit("{\"kind\":\"refCell\",\"name\":");
                            assert(s@.subrange(pos as int, pos + "{\"kind\":\"refCell\",\"name\":"@.len())[11] == s@[pos + 11]);
                            assert(s@.subrange(pos as int, p1 as int)[11] == s@[pos + 11]);
                            assert(false);
                        },
                        DefType::Mutex(p) => {
                            reveal_strlit("{\"kind\":\"mutex\",\"name\":");
                            assert(s@.subrange(pos as int, pos + "{\"kind\":\"mutex\",\"name\":"@.len())[9] == s@[pos + 9]);
                            assert(s@.subrange(pos as int, p1 as int)[9] == s@[pos + 9]);
                            assert(false);
                        },
                        DefType::RwLock(p) => {
                            reveal_strlit("{\"kind\":\"rwLock\",\"name\":");
                            assert(s@.subrange(pos as int, pos + "{\"kind\":\"rwLock\",\"name\":"@.len())[10] == s@[pos + 10]);
                            assert(s@.subrange(pos as int, p1 as int)[10] == s@[pos + 10]);
                            assert(false);
                        },
                        DefType::Rc(p) => {
                            reveal_strlit("{\"kind\":\"rc\",\"name\":");
                            assert(s@.subrange(pos as int, pos + "{\"kind\":\"rc\",\"name\":"@.len())[10] == s@[pos + 10]);
                            assert(s@.subrange(pos as int, p1 as int)[10] == s@[pos + 10]);
                            assert(false);
                        },
                        DefType::Arc(p) => {
                            reveal_strlit("{\"kind\":\"arc\",\"name\":");
                            assert(s@.subrange(pos as int, pos + "{\"kind\":\"arc\",\"name\":"@.len())[9] == s@[pos + 9]);
                            assert(s@.subrange(pos as int, p1 as int)[9] == s@[pos + 9]);
                            assert(false);
                        },
                        DefType::Struct(p) => {
                            reveal_strlit("{\"kind\":\"struct\",\"name\":");
                            assert(s@.subrange(pos as int, pos + "{\"kind\":\"struct\",\"name\":"@.len())[9] == s@[pos + 9]);
                            assert(s@.subrange(pos as int, p1 as int)[9] == s@[pos + 9]);
                            assert(false);
                        },
                        DefType::Enum(p) => {
                            reveal_strlit("{\"kind\":\"enum\",\"name\":");
                            assert(s@.subrange(pos as int, pos + "{\"kind\":\"enum\",\"name\":"@.len())[9] == s@[pos + 9]);
                            assert(s@.subrange(pos as int, p1 as int)[9] == s@[pos + 9]);
                            assert(false);
                        },
                        }
                    }
                }
            }
            return None;
        },
    };
    let p_d = match expect(s, p_c, ",\"errTypeId\":") {
        Some(t) => t,
        None => {
            proof {
                reveal_strlit("{\"kind\":\"result\",\"name\":");
                assert forall|d: DefType, q: int| !desc_run(s@, pos as int, q, d) by {
                    if desc_run(s@, pos as int, q, d) {
                        lemma_desc_pieces(s@, pos as int, q, d);
                        match d {
                        DefType::Result(p) => {
                            lemma_resrest_pieces(s@, pos + "{\"kind\":\"result\",\"name\":"@.len() + jstr(p.name@).len(), q, p.size, p.align, p.ok_type_id, p.err_type_id);
                            assert(false);
                        },
                        DefType::Primitive(p) => {
                            reveal_strlit("{\"kind\":\"primitive\",\"name\":");
                            assert(s@.subrange(pos as int, pos + "{\"kind\":\"primitive\",\"name\":"@.len())[9] == s@[pos + 9]);
                            assert(s@.subrange(pos as int, p1 as int)[9] == s@[pos + 9]);
                            assert(false);
                        },
                        DefType::String(p) => {
                            reveal_strlit("{\"kind\":\"string\",\"name\":");
                            assert(s@.subrange(pos as int, pos + "{\"kind\":\"string\",\"name\":"@.len())[9] == s@[pos + 9]);
                            assert(s@.subrange(pos as int, p1 as int)[9] == s@[pos + 9]);
                            assert(false);
                        },
                        DefType::StrSlice(p) => {
                            reveal_strlit("{\"kind\":\"strSlice\",\"name\":");
                            assert(s@.subrange(pos as int, pos + "{\"kind\":\"strSlice\",\"name\":"@.len())[9] == s@[pos + 9]);
                            assert(s@.subrange(pos as int, p1 as int)[9] == s@[pos + 9]);
                            assert(false);
                        },
                        DefType::Str(p) => {
                            reveal_strlit("{\"kind\":\"str\",\"name\":");
                            assert(s@.subrange(pos as int, pos + "{\"kind\":\"str\",\"name\":"@.len())[9] == s@[pos + 9]);
                            assert(s@.subrange(pos as int, p1 as int)[9] == s@[pos + 9]);
                            assert(false);
                        },
                        DefType::Box(p) => {
                            reveal_strlit("{\"kind\":\"box\",\"name\":");
                            assert(s@.subrange(pos as int, pos + "{\"kind\":\"box\",\"name\":"@.len())[9] == s@[pos + 9]);
                            assert(s@.subrange(pos as int, p1 as int)[9] == s@[pos + 9]);
                            assert(false);
                        },
                        DefType::Vec(p) => {
                            reveal_strlit("{\"kind\":\"vec\",\"name\":");
                            assert(s@.subrange(pos as int, pos + "{\"kind\":\"vec\",\"name\":"@.len())[9] == s@[pos + 9]);
                            assert(s@.subrange(pos as int, p1 as int)[9] == s@[pos + 9]);
                            assert(false);
                        },
                        DefType::Option(p) => {
                            reveal_strlit("{\"kind\":\"option\",\"name\":");
                            assert(s@.subrange(pos as int, pos + "{\"kind\":\"option\",\"name\":"@.len())[9] == s@[pos + 9]);
                            assert(s@.subrange(pos as int, p1 as int)[9] == s@[pos + 9]);
                            assert(false);
                        },
                        DefType::PhantomData(p) => {
                            reveal_strlit("{\"kind\":\"phantomData\",\"name\":");
                            assert(s@.subrange(pos as int, pos + "{\"kind\":\"phantomData\",\"name\":"@.len())[9] == s@[pos + 9]);
                            assert(s@.subrange(pos as int, p1 as int)[9] == s@[pos + 9]);
                            assert(false);
                        },
                        DefType::Cell(p) => {
                            reveal_strlit("{\"kind\":\"cell\",\"name\":");
                            assert(s@.subrange(pos as int, pos + "{\"kind\":\"cell\",\"name\":"@.len())[9] == s@[pos + 9]);
                            assert(s@.subrange(pos as int, p1 as int)[9] == s@[pos + 9]);
                            assert(false);
                        },
                        DefType::RefCell(p) => {
                            reveal_strlit("{\"kind\":\"refCell\",\"name\":");
                            assert(s@.subrange(pos as int, pos + "{\"kind\":\"refCell\",\"name\":"@.len())[11] == s@[pos + 11]);
                            assert(s@.subrange(pos as int, p1 as int)[11] == s@[pos + 11]);
                            assert(false);
                        },
                        DefType::Mutex(p) => {
                            reveal_strlit("{\"kind\":\"mutex\",\"name\":");
                            assert(s@.subrange(pos as int, pos + "{\"kind\":\"mutex\",\"name\":"@.len())[9] == s@[pos + 9]);
                            assert(s@.subrange(pos as int, p1 as int)[9] == s@[pos + 9]);
                            assert(false);
                        },
                        DefType::RwLock(p) => {
                            reveal_strlit("{\"kind\":\"rwLock\",\"name\":");
                            assert(s@.subrange(pos as int, pos + "{\"kind\":\"rwLock\",\"name\":"@.len())[10] == s@[pos + 10]);
                            assert(s@.subrange(pos as int, p1 as int)[10] == s@[pos + 10]);
                            assert(false);
                        },
                        DefType::Rc(p) => {
                            reveal_strlit("{\"kind\":\"rc\",\"name\":");
                            assert(s@.subrange(pos as int, pos + "{\"kind\":\"rc\",\"name\":"@.len())[10] == s@[pos + 10]);
                            assert(s@.subrange(pos as int, p1 as int)[10] == s@[pos + 10]);
                            assert(false);
                        },
                        DefType::Arc(p) => {
                            reveal_strlit("{\"kind\":\"arc\",\"name\":");
                            assert(s@.subrange(pos as int, pos + "{\"kind\":\"arc\",\"name\":"@.len())[9] == s@[pos + 9]);
                            assert(s@.subrange(pos as int, p1 as int)[9] == s@[pos + 9]);
                            assert(false);
                        },
                        DefType::Struct(p) => {
                            reveal_strlit("{\"kind\":\"struct\",\"name\":");
                            assert(s@.subrange(pos as int, pos + "{\"kind\":\"struct\",\"name\":"@.len())[9] == s@[pos + 9]);
                            assert(s@.subrange(pos as int, p1 as int)[9] == s@[pos + 9]);
                            assert(false);
                        },
                        DefType::Enum(p) => {
                            reveal_strlit("{\"kind\":\"enum\",\"name\":");
                            assert(s@.subrange(pos as int, pos + "{\"kind\":\"enum\",\"name\":"@.len())[9] == s@[pos + 9]);
                            assert(s@.subrange(pos as int, p1 as int)[9] == s@[pos + 9]);
                            assert(false);
                        },
                        }
                    }
                }
            }
            return None;
        },
    };
    let (verr, p_e) = match parse_usize(s, p_d) {
        Some(t) => t,
        None => {
            proof {
                reveal_strlit("{\"kind\":\"result\",\"name\":");
                assert forall|d: DefType, q: int| !desc_run(s@, pos as int, q, d) by {
                    if desc_run(s@, pos as int, q, d) {
                        lemma_desc_pieces(s@, pos as int, q, d);
                        match d {
                        DefType::Result(p) => {
                            lemma_resrest_pieces(s@, pos + "{\"kind\":\"result\",\"name\":"@.len() + jstr(p.name@).len(), q, p.size, p.align, p.ok_type_id, p.err_type_id);
                            assert(false);
                        },
                        DefType::Primitive(p) => {
                            reveal_strlit("{\"kind\":\"primitive\",\"name\":");
                            assert(s@.subrange(pos as int, pos + "{\"kind\":\"primitive\",\"name\":"@.len())[9] == s@[pos + 9]);
                            assert(s@.subrange(pos as int, p1 as int)[9] == s@[pos + 9]);
                            assert(false);
                        },
                        DefType::String(p) => {
                            reveal_strlit("{\"kind\":\"string\",\"name\":");
                            assert(s@.subrange(pos as int, pos + "{\"kind\":\"string\",\"name\":"@.len())[9] == s@[pos + 9]);
                            assert(s@.subrange(pos as int, p1 as int)[9] == s@[pos + 9]);
                            assert(false);
                        },
                        DefType::StrSlice(p) => {
                            reveal_strlit("{\"kind\":\"strSlice\",\"name\":");
                            assert(s@.subrange(pos as int, pos + "{\"kind\":\"strSlice\",\"name\":"@.len())[9] == s@[pos + 9]);
                            assert(s@.subrange(pos as int, p1 as int)[9] == s@[pos + 9]);
                            assert(false);
                        },
                        DefType::Str(p) => {
                            reveal_strlit("{\"kind\":\"str\",\"name\":");
                            assert(s@.subrange(pos as int, pos + "{\"kind\":\"str\",\"name\":"@.len())[9] == s@[pos + 9]);
                            assert(s@.subrange(pos as int, p1 as int)[9] == s@[pos + 9]);
                            assert(false);
                        },
                        DefType::Box(p) => {
                            reveal_strlit("{\"kind\":\"box\",\"name\":");
                            assert(s@.subrange(pos as int, pos + "{\"kind\":\"box\",\"name\":"@.len())[9] == s@[pos + 9]);
                            assert(s@.subrange(pos as int, p1 as int)[9] == s@[pos + 9]);
                            assert(false);
                        },
                        DefType::Vec(p) => {
                            reveal_strlit("{\"kind\":\"vec\",\"name\":");
                            assert(s@.subrange(pos as int, pos + "{\"kind\":\"vec\",\"name\":"@.len())[9] == s@[pos + 9]);
                            assert(s@.subrange(pos as int, p1 as int)[9] == s@[pos + 9]);
                            assert(false);
                        },
                        DefType::Option(p) => {
                            reveal_strlit("{\"kind\":\"option\",\"name\":");
                            assert(s@.subrange(pos as int, pos + "{\"kind\":\"option\",\"name\":"@.len())[9] == s@[pos + 9]);
                            assert(s@.subrange(pos as int, p1 as int)[9] == s@[pos + 9]);
                            assert(false);
                        },
                        DefType::PhantomData(p) => {
                            reveal_strlit("{\"kind\":\"phantomData\",\"name\":");
                            assert(s@.subrange(pos as int, pos + "{\"kind\":\"phantomData\",\"name\":"@.len())[9] == s@[pos + 9]);
                            assert(s@.subrange(pos as int, p1 as int)[9] == s@[pos + 9]);
                            assert(false);
                        },
                        DefType::Cell(p) => {
                            reveal_strlit("{\"kind\":\"cell\",\"name\":");
                            assert(s@.subrange(pos as int, pos + "{\"kind\":\"cell\",\"name\":"@.len())[9] == s@[pos + 9]);
                            assert(s@.subrange(pos as int, p1 as int)[9] == s@[pos + 9]);
                            assert(false);
                        },
                        DefType::RefCell(p) => {
                            reveal_strlit("{\"kind\":\"refCell\",\"name\":");
                            assert(s@.subrange(pos as int, pos + "{\"kind\":\"refCell\",\"name\":"@.len())[11] == s@[pos + 11]);
                            assert(s@.subrange(pos as int, p1 as int)[11] == s@[pos + 11]);
                            assert(false);
                        },
                        DefType::Mutex(p) => {
                            reveal_strlit("{\"kind\":\"mutex\",\"name\":");
                            assert(s@.subrange(pos as int, pos + "{\"kind\":\"mutex\",\"name\":"@.len())[9] == s@[pos + 9]);
                            assert(s@.subrange(pos as int, p1 as int)[9] == s@[pos + 9]);
                            assert(false);
                        },
                        DefType::RwLock(p) => {
                            reveal_strlit("{\"kind\":\"rwLock\",\"name\":");
                            assert(s@.subrange(pos as int, pos + "{\"kind\":\"rwLock\",\"name\":"@.len())[10] == s@[pos + 10]);
                            assert(s@.subrange(pos as int, p1 as int)[10] == s@[pos + 10]);
                            assert(false);
                        },
                        DefType::Rc(p) => {
                            reveal_strlit("{\"kind\":\"rc\",\"name\":");
                            assert(s@.subrange(pos as int, pos + "{\"kind\":\"rc\",\"name\":"@.len())[10] == s@[pos + 10]);
                            assert(s@.subrange(pos as int, p1 as int)[10] == s@[pos + 10]);
                            assert(false);
                        },
                        DefType::Arc(p) => {
                            reveal_strlit("{\"kind\":\"arc\",\"name\":");
                            assert(s@.subrange(pos as int, pos + "{\"kind\":\"arc\",\"name\":"@.len())[9] == s@[pos + 9]);
                            assert(s@.subrange(pos as int, p1 as int)[9] == s@[pos + 9]);
                            assert(false);
                        },
                        DefType::Struct(p) => {
                            reveal_strlit("{\"kind\":\"struct\",\"name\":");
                            assert(s@.subrange(pos as int, pos + "{\"kind\":\"struct\",\"name\":"@.len())[9] == s@[pos + 9]);
                            assert(s@.subrange(pos as int, p1 as int)[9] == s@[pos + 9]);
                            assert(false);
                        },
                        DefType::Enum(p) => {
                            reveal_strlit("{\"kind\":\"enum\",\"name\":");
                            assert(s@.subrange(pos as int, pos + "{\"kind\":\"enum\",\"name\":"@.len())[9] == s@[pos + 9]);
                            assert(s@.subrange(pos as int, p1 as int)[9] == s@[pos + 9]);
                            assert(false);
                        },
                        }
                    }
                }
            }
            return None;
        },
    };
    let pz = match expect(s, p_e, "}") {
        Some(t) => t,
        None => {
            proof {
                reveal_strlit("{\"kind\":\"result\",\"name\":");
                assert forall|d: DefType, q: int| !desc_run(s@, pos as int, q, d) by {
                    if desc_run(s@, pos as int, q, d) {
                        lemma_desc_pieces(s@, pos as int, q, d);
                        match d {
                        DefType::Result(p) => {
                            lemma_resrest_pieces(s@, pos + "{\"kind\":\"result\",\"name\":"@.len() + jstr(p.name@).len(), q, p.size, p.align, p.ok_type_id, p.err_type_id);
                            assert(false);
                        },
                        DefType::Primitive(p) => {
                            reveal_strlit("{\"kind\":\"primitive\",\"name\":");
                            assert(s@.subrange(pos as int, pos + "{\"kind\":\"primitive\",\"name\":"@.len())[9] == s@[pos + 9]);
                            assert(s@.subrange(pos as int, p1 as int)[9] == s@[pos + 9]);
                            assert(false);
                        },
                        DefType::String(p) => {
                            reveal_strlit("{\"kind\":\"string\",\"name\":");
                            assert(s@.subrange(pos as int, pos + "{\"kind\":\"string\",\"name\":"@.len())[9] == s@[pos + 9]);
                            assert(s@.subrange(pos as int, p1 as int)[9] == s@[pos + 9]);
                            assert(false);
                        },
                        DefType::StrSlice(p) => {
                            reveal_strlit("{\"kind\":\"strSlice\",\"name\":");
                            assert(s@.subrange(pos as int, pos + "{\"kind\":\"strSlice\",\"name\":"@.len())[9] == s@[pos + 9]);
                            assert(s@.subrange(pos as int, p1 as int)[9] == s@[pos + 9]);
                            assert(false);
                        },
                        DefType::Str(p) => {
                            reveal_strlit("{\"kind\":\"str\",\"name\":");
                            assert(s@.subrange(pos as int, pos + "{\"kind\":\"str\",\"name\":"@.len())[9] == s@[pos + 9]);
                            assert(s@.subrange(pos as int, p1 as int)[9] == s@[pos + 9]);
                            assert(false);
                        },
                        DefType::Box(p) => {
                            reveal_strlit("{\"kind\":\"box\",\"name\":");
                            assert(s@.subrange(pos as int, pos + "{\"kind\":\"box\",\"name\":"@.len())[9] == s@[pos + 9]);
                            assert(s@.subrange(pos as int, p1 as int)[9] == s@[pos + 9]);
                            assert(false);
                        },
                        DefType::Vec(p) => {
                            reveal_strlit("{\"kind\":\"vec\",\"name\":");
                            assert(s@.subrange(pos as int, pos + "{\"kind\":\"vec\",\"name\":"@.len())[9] == s@[pos + 9]);
                            assert(s@.subrange(pos as int, p1 as int)[9] == s@[pos + 9]);
                            assert(false);
                        },
                        DefType::Option(p) => {
                            reveal_strlit("{\"kind\":\"option\",\"name\":");
                            assert(s@.subrange(pos as int, pos + "{\"kind\":\"option\",\"name\":"@.len())[9] == s@[pos + 9]);
                            assert(s@.subrange(pos as int, p1 as int)[9] == s@[pos + 9]);
                            assert(false);
                        },
                        DefType::PhantomData(p) => {
                            reveal_strlit("{\"kind\":\"phantomData\",\"name\":");
                            assert(s@.subrange(pos as int, pos + "{\"kind\":\"phantomData\",\"name\":"@.len())[9] == s@[pos + 9]);
                            assert(s@.subrange(pos as int, p1 as int)[9] == s@[pos + 9]);
                            assert(false);
                        },
                        DefType::Cell(p) => {
                            reveal_strlit("{\"kind\":\"cell\",\"name\":");
                            assert(s@.subrange(pos as int, pos + "{\"kind\":\"cell\",\"name\":"@.len())[9] == s@[pos + 9]);
                            assert(s@.subrange(pos as int, p1 as int)[9] == s@[pos + 9]);
                            assert(false);
                        },
                        DefType::RefCell(p) => {
                            reveal_strlit("{\"kind\":\"refCell\",\"name\":");
                            assert(s@.subrange(pos as int, pos + "{\"kind\":\"refCell\",\"name\":"@.len())[11] == s@[pos + 11]);
                            assert(s@.subrange(pos as int, p1 as int)[11] == s@[pos + 11]);
                            assert(false);
                        },
                        DefType::Mutex(p) => {
                            reveal_strlit("{\"kind\":\"mutex\",\"name\":");
                            assert(s@.subrange(pos as int, pos + "{\"kind\":\"mutex\",\"name\":"@.len())[9] == s@[pos + 9]);
                            assert(s@.subrange(pos as int, p1 as int)[9] == s@[pos + 9]);
                            assert(false);
                        },
                        DefType::RwLock(p) => {
                            reveal_strlit("{\"kind\":\"rwLock\",\"name\":");
                            assert(s@.subrange(pos as int, pos + "{\"kind\":\"rwLock\",\"name\":"@.len())[10] == s@[pos + 10]);
                            assert(s@.subrange(pos as int, p1 as int)[10] == s@[pos + 10]);
                            assert(false);
                        },
                        DefType::Rc(p) => {
                            reveal_strlit("{\"kind\":\"rc\",\"name\":");
                            assert(s@.subrange(pos as int, pos + "{\"kind\":\"rc\",\"name\":"@.len())[10] == s@[pos + 10]);
                            assert(s@.subrange(pos as int, p1 as int)[10] == s@[pos + 10]);
                            assert(false);
                        },
                        DefType::Arc(p) => {
                            reveal_strlit("{\"kind\":\"arc\",\"name\":");
                            assert(s@.subrange(pos as int, pos + "{\"kind\":\"arc\",\"name\":"@.len())[9] == s@[pos + 9]);
                            assert(s@.subrange(pos as int, p1 as int)[9] == s@[pos + 9]);
                            assert(false);
                        },
                        DefType::Struct(p) => {
                            reveal_strlit("{\"kind\":\"struct\",\"name\":");
                            assert(s@.subrange(pos as int, pos + "{\"kind\":\"struct\",\"name\":"@.len())[9] == s@[pos + 9]);
                            assert(s@.subrange(pos as int, p1 as int)[9] == s@[pos + 9]);
                            assert(false);
                        },
                        DefType::Enum(p) => {
                            reveal_strlit("{\"kind\":\"enum\",\"name\":");
                            assert(s@.subrange(pos as int, pos + "{\"kind\":\"enum\",\"name\":"@.len())[9] == s@[pos + 9]);
                            assert(s@.subrange(pos as int, p1 as int)[9] == s@[pos + 9]);
                            assert(false);
                        },
                        }
                    }
                }
            }
            return None;
        },
    };
    let d0 = DefType::Result(DefResult { name: vname, size: vsize, align: valign, ok_type_id: vok, err_type_id: verr });
    proof {
        reveal_strlit("{\"kind\":\"result\",\"name\":");
        reveal_strlit("{\"kind\":\"");
        reveal_strlit("result");
        reveal_strlit("\",\"name\":");
        assert("{\"kind\":\"result\",\"name\":"@ =~= "{\"kind\":\""@ + "result"@ + "\",\"name\":"@);
        lemma_subrange_concat(s@, pos as int, p1 as int, p2 as int);
        lemma_subrange_concat(s@, pos as int, p2 as int, p_a as int);
        lemma_subrange_concat(s@, pos as int, p_a as int, p_b as int);
        lemma_subrange_concat(s@, pos as int, p_b as int, p_c as int);
        lemma_subrange_concat(s@, pos as int, p_c as int, p_d as int);
        lemma_subrange_concat(s@, pos as int, p_d as int, p_e as int);
        lemma_subrange_concat(s@, pos as int, p_e as int, pz as int);
        assert(s@.subrange(pos as int, pz as int) =~= jdesc(d0));
        assert forall|d: DefType, q: int| desc_run(s@, pos as int, q, d) implies (d is Result && desc_like(d0, d) && pz as int == q) by {
            lemma_desc_pieces(s@, pos as int, q, d);
            match d {
            DefType::Result(p) => {
                lemma_resrest_pieces(s@, pos + "{\"kind\":\"result\",\"name\":"@.len() + jstr(p.name@).len(), q, p.size, p.align, p.ok_type_id, p.err_type_id);
            },
            DefType::Primitive(p) => {
                reveal_strlit("{\"kind\":\"primitive\",\"name\":");
                assert(s@.subrange(pos as int, pos + "{\"kind\":\"primitive\",\"name\":"@.len())[9] == s@[pos + 9]);
                assert(s@.subrange(pos as int, p1 as int)[9] == s@[pos + 9]);
                assert(false);
            },
            DefType::String(p) => {
                reveal_strlit("{\"kind\":\"string\",\"name\":");
                assert(s@.subrange(pos as int, pos + "{\"kind\":\"string\",\"name\":"@.len())[9] == s@[pos + 9]);
                assert(s@.subrange(pos as int, p1 as int)[9] == s@[pos + 9]);
                assert(false);
            },
            DefType::StrSlice(p) => {
                reveal_strlit("{\"kind\":\"strSlice\",\"name\":");
                assert(s@.subrange(pos as int, pos + "{\"kind\":\"strSlice\",\"name\":"@.len())[9] == s@[pos + 9]);
                assert(s@.subrange(pos as int, p1 as int)[9] == s@[pos + 9]);
                assert(false);
            },
            DefType::Str(p) => {
                reveal_strlit("{\"kind\":\"str\",\"name\":");
                assert(s@.subrange(pos as int, pos + "{\"kind\":\"str\",\"name\":"@.len())[9] == s@[pos + 9]);
                assert(s@.subrange(pos as int, p1 as int)[9] == s@[pos + 9]);
                assert(false);
            },
            DefType::Box(p) => {
                reveal_strlit("{\"kind\":\"box\",\"name\":");
                assert(s@.subrange(pos as int, pos + "{\"kind\":\"box\",\"name\":"@.len())[9] == s@[pos + 9]);
                assert(s@.subrange(pos as int, p1 as int)[9] == s@[pos + 9]);
                assert(false);
            },
            DefType::Vec(p) => {
                reveal_strlit("{\"kind\":\"vec\",\"name\":");
                assert(s@.subrange(pos as int, pos + "{\"kind\":\"vec\",\"name\":"@.len())[9] == s@[pos + 9]);
                assert(s@.subrange(pos as int, p1 as int)[9] == s@[pos + 9]);
                assert(false);
            },
            DefType::Option(p) => {
                reveal_strlit("{\"kind\":\"option\",\"name\":");
                assert(s@.subrange(pos as int, pos + "{\"kind\":\"option\",\"name\":"@.len())[9] == s@[pos + 9]);
                assert(s@.subrange(pos as int, p1 as int)[9] == s@[pos + 9]);
                assert(false);
            },
            DefType::PhantomData(p) => {
                reveal_strlit("{\"kind\":\"phantomData\",\"name\":");
                assert(s@.subrange(pos as int, pos + "{\"kind\":\"phantomData\",\"name\":"@.len())[9] == s@[pos + 9]);
                assert(s@.subrange(pos as int, p1 as int)[9] == s@[pos + 9]);
                assert(false);
            },
            DefType::Cell(p) => {
                reveal_strlit("{\"kind\":\"cell\",\"name\":");
                assert(s@.subrange(pos as int, pos + "{\"kind\":\"cell\",\"name\":"@.len())[9] == s@[pos + 9]);
                assert(s@.subrange(pos as int, p1 as int)[9] == s@[pos + 9]);
                assert(false);
            },
            DefType::RefCell(p) => {
                reveal_strlit("{\"kind\":\"refCell\",\"name\":");
                assert(s@.subrange(pos as int, pos + "{\"kind\":\"refCell\",\"name\":"@.len())[11] == s@[pos + 11]);
                assert(s@.subrange(pos as int, p1 as int)[11] == s@[pos + 11]);
                assert(false);
            },
            DefType::Mutex(p) => {
                reveal_strlit("{\"kind\":\"mutex\",\"name\":");
                assert(s@.subrange(pos as int, pos + "{\"kind\":\"mutex\",\"name\":"@.len())[9] == s@[pos + 9]);
                assert(s@.subrange(pos as int, p1 as int)[9] == s@[pos + 9]);
                assert(false);
            },
            DefType::RwLock(p) => {
                reveal_strlit("{\"kind\":\"rwLock\",\"name\":");
                assert(s@.subrange(pos as int, pos + "{\"kind\":\"rwLock\",\"name\":"@.len())[10] == s@[pos + 10]);
                assert(s@.subrange(pos as int, p1 as int)[10] == s@[pos + 10]);
                assert(false);
            },
            DefType::Rc(p) => {
                reveal_strlit("{\"kind\":\"rc\",\"name\":");
                assert(s@.subrange(pos as int, pos + "{\"kind\":\"rc\",\"name\":"@.len())[10] == s@[pos + 10]);
                assert(s@.subrange(pos as int, p1 as int)[10] == s@[pos + 10]);
                assert(false);
            },
            DefType::Arc(p) => {
                reveal_strlit("{\"kind\":\"arc\",\"name\":");
                assert(s@.subrange(pos as int, pos + "{\"kind\":\"arc\",\"name\":"@.len())[9] == s@[pos + 9]);
                assert(s@.subrange(pos as int, p1 as int)[9] == s@[pos + 9]);
                assert(false);
            },
            DefType::Struct(p) => {
                reveal_strlit("{\"kind\":\"struct\",\"name\":");
                assert(s@.subrange(pos as int, pos + "{\"kind\":\"struct\",\"name\":"@.len())[9] == s@[pos + 9]);
                assert(s@.subrange(pos as int, p1 as int)[9] == s@[pos + 9]);
                assert(false);
            },
            DefType::Enum(p) => {
                reveal_strlit("{\"kind\":\"enum\",\"name\":");
                assert(s@.subrange(pos as int, pos + "{\"kind\":\"enum\",\"name\":"@.len())[9] == s@[pos + 9]);
                assert(s@.subrange(pos as int, p1 as int)[9] == s@[pos + 9]);
                assert(false);
            },
            }
        }
    }
    Some((d0, pz))
}

/// Once the record arm's opening matched, only a record's rendering fits.
#[verifier::rlimit(100)]
proof fn lemma_desc_struct_committed(s: Seq<char>, pos: int, q: int, d: DefType, p1: int)
    requires
        desc_run(s, pos, q, d),
        0 <= pos <= p1 <= s.len(),
        s.subrange(pos, p1) == "{\"kind\":\"struct\",\"name\":"@,
        p1 == pos + "{\"kind\":\"struct\",\"name\":"@.len(),
    ensures
        d is Struct,
{
    reveal_strlit("{\"kind\":\"struct\",\"name\":");
    lemma_desc_pieces(s, pos, q, d);
    match d {
        DefType::Primitive(p) => {
            reveal_strlit("{\"kind\":\"primitive\",\"name\":");
            assert(s.subrange(pos, pos + "{\"kind\":\"primitive\",\"name\":"@.len())[9] == s[pos + 9]);
            assert(s.subrange(pos, p1)[9] == s[pos + 9]);
            assert(false);
        },
        DefType::String(p) => {
            reveal_strlit("{\"kind\":\"string\",\"name\":");
            assert(s.subrange(pos, pos + "{\"kind\":\"string\",\"name\":"@.len())[12] == s[pos + 12]);
            assert(s.subrange(pos, p1)[12] == s[pos + 12]);
            assert(false);
        },
        DefType::StrSlice(p) => {
            reveal_strlit("{\"kind\":\"strSlice\",\"name\":");
            assert(s.subrange(pos, pos + "{\"kind\":\"strSlice\",\"name\":"@.len())[12] == s[pos + 12]);
            assert(s.subrange(pos, p1)[12] == s[pos + 12]);
            assert(false);
        },
        DefType::Str(p) => {
            reveal_strlit("{\"kind\":\"str\",\"name\":");
            assert(s.subrange(pos, pos + "{\"kind\":\"str\",\"name\":"@.len())[12] == s[pos + 12]);
            assert(s.subrange(pos, p1)[12] == s[pos + 12]);
            assert(false);
        },
        DefType::Box(p) => {
            reveal_strlit("{\"kind\":\"box\",\"name\":");
            assert(s.subrange(pos, pos + "{\"kind\":\"box\",\"name\":"@.len())[9] == s[pos + 9]);
            assert(s.subrange(pos, p1)[9] == s[pos + 9]);
            assert(false);
        },
        DefType::Vec(p) => {
            reveal_strlit("{\"kind\":\"vec\",\"name\":");
            assert(s.subrange(pos, pos + "{\"kind\":\"vec\",\"name\":"@.len())[9] == s[pos + 9]);
            assert(s.subrange(pos, p1)[9] == s[pos + 9]);
            assert(false);
        },
        DefType::Option(p) => {
            reveal_strlit("{\"kind\":\"option\",\"name\":");
            assert(s.subrange(pos, pos + "{\"kind\":\"option\",\"name\":"@.len())[9] == s[pos + 9]);
            assert(s.subrange(pos, p1)[9] == s[pos + 9]);
            assert(false);
        },
        DefType::PhantomData(p) => {
            reveal_strlit("{\"kind\":\"phantomData\",\"name\":");
            assert(s.subrange(pos, pos + "{\"kind\":\"phantomData\",\"name\":"@.len())[9] == s[pos + 9]);
            assert(s.subrange(pos, p1)[9] == s[pos + 9]);
            assert(false);
        },
        DefType::Cell(p) => {
            reveal_strlit("{\"kind\":\"cell\",\"name\":");
            assert(s.subrange(pos, pos + "{\"kind\":\"cell\",\"name\":"@.len())[9] == s[pos + 9]);
            assert(s.subrange(pos, p1)[9] == s[pos + 9]);
            assert(false);
        },
        DefType::RefCell(p) => {
            reveal_strlit("{\"kind\":\"refCell\",\"name\":");
            assert(s.subrange(pos, pos + "{\"kind\":\"refCell\",\"name\":"@.len())[9] == s[pos + 9]);
            assert(s.subrange(pos, p1)[9] == s[pos + 9]);
            assert(false);
        },
        DefType::Mutex(p) => {
            reveal_strlit("{\"kind\":\"mutex\",\"name\":");
            assert(s.subrange(pos, pos + "{\"kind\":\"mutex\",\"name\":"@.len())[9] == s[pos + 9]);
            assert(s.subrange(pos, p1)[9] == s[pos + 9]);
            assert(false);
        },
        DefType::RwLock(p) => {
            reveal_strlit("{\"kind\":\"rwLock\",\"name\":");
            assert(s.subrange(pos, pos + "{\"kind\":\"rwLock\",\"name\":"@.len())[9] == s[pos + 9]);
            assert(s.subrange(pos, p1)[9] == s[pos + 9]);
            assert(false);
        },
        DefType::Rc(p) => {
            reveal_strlit("{\"kind\":\"rc\",\"name\":");
            assert(s.subrange(pos, pos + "{\"kind\":\"rc\",\"name\":"@.len())[9] == s[pos + 9]);
            assert(s.subrange(pos, p1)[9] == s[pos + 9]);
            assert(false);
        },
        DefType::Arc(p) => {
            reveal_strlit("{\"kind\":\"arc\",\"name\":");
            assert(s.subrange(pos, pos + "{\"kind\":\"arc\",\"name\":"@.len())[9] == s[pos + 9]);
            assert(s.subrange(pos, p1)[9] == s[pos + 9]);
            assert(false);
        },
        DefType::Result(p) => {
            reveal_strlit("{\"kind\":\"result\",\"name\":");
            assert(s.subrange(pos, pos + "{\"kind\":\"result\",\"name\":"@.len())[9] == s[pos + 9]);
            assert(s.subrange(pos, p1)[9] == s[pos + 9]);
            assert(false);
        },
        DefType::Enum(p) => {
            reveal_strlit("{\"kind\":\"enum\",\"name\":");
            assert(s.subrange(pos, pos + "{\"kind\":\"enum\",\"name\":"@.len())[9] == s[pos + 9]);
            assert(s.subrange(pos, p1)[9] == s[pos + 9]);
            assert(false);
        },
        DefType::Struct(p) => {},
    }
}

/// The piece layout of a record descriptor's rendering.
#[verifier::rlimit(100)]
proof fn lemma_desc_struct_own(s: Seq<char>, pos: int, q: int, p: DefStruct)
    requires
        desc_run(s, pos, q, DefType::Struct(p)),
    ensures
        pos + "{\"kind\":\"struct\",\"name\":"@.len() <= q,
        s.subrange(pos, pos + "{\"kind\":\"struct\",\"name\":"@.len()) == "{\"kind\":\"struct\",\"name\":"@,
        jstr_run(s, pos + "{\"kind\":\"struct\",\"name\":"@.len(), pos + "{\"kind\":\"struct\",\"name\":"@.len() + jstr(p.name@).len(), p.name@),
        structrest_run(
            s,
            pos + "{\"kind\":\"struct\",\"name\":"@.len() + jstr(p.name@).len(),
            q,
            p.ser_name@,
            p.size,
            p.align,
            p.fields@,
            opt_view(p.tag),
            p.transparent,
        ),
{
    lemma_desc_pieces_g4(s, pos, q, DefType::Struct(p));
}

spec fn structrest_a_run(s: Seq<char>, pos: int, q: int, ser_name: Seq<char>, size: Option<usize>, align: Option<usize>) -> bool {
    &&& 0 <= pos <= q <= s.len()
    &&& s.subrange(pos, q) == ",\"serName\":"@ + jstr(ser_name) + ",\"size\":"@ + jopt_num(size)
        + ",\"align\":"@ + jopt_num(align)
    &&& (q == s.len() || !is_digit_char(s[q]))
}

spec fn structrest_b_run(s: Seq<char>, pos: int, q: int, fields: Seq<DefStructField>, tag: Option<Seq<char>>, transparent: bool) -> bool {
    &&& 0 <= pos <= q <= s.len()
    &&& s.subrange(pos, q) == ",\"fields\":["@ + jfields(fields) + "],\"tag\":"@ + jopt_str(tag)
        + ",\"transparent\":"@ + jbool(transparent) + "}"@
}

#[verifier::rlimit(60)]
proof fn lemma_structrest_a_pieces(s: Seq<char>, pos: int, q: int, ser_name: Seq<char>, size: Option<usize>, align: Option<usize>)
    requires
        structrest_a_run(s, pos, q, ser_name, size, align),
    ensures
        pos + ",\"serName\":"@.len() <= q && s.subrange(pos, pos + ",\"serName\":"@.len()) == ",\"serName\":"@,
        jstr_run(s, pos + ",\"serName\":"@.len(), pos + ",\"serName\":"@.len() + jstr(ser_name).len(), ser_name),
        ({
            let a2 = pos + ",\"serName\":"@.len() + jstr(ser_name).len();
            a2 + ",\"size\":"@.len() <= q && s.subrange(a2, a2 + ",\"size\":"@.len()) == ",\"size\":"@
        }),
        ({
            let a3 = pos + ",\"serName\":"@.len() + jstr(ser_name).len() + ",\"size\":"@.len();
            0 <= a3 <= a3 + jopt_num(size).len() <= s.len() && s.subrange(a3, a3 + jopt_num(size).len()) == jopt_num(size) && (a3 + jopt_num(size).len() == s.len() || !is_digit_char(s[a3 + jopt_num(size).len()]))
        }),
        ({
            let a4 = pos + ",\"serName\":"@.len() + jstr(ser_name).len() + ",\"size\":"@.len() + jopt_num(size).len();
            a4 + ",\"align\":"@.len() <= q && s.subrange(a4, a4 + ",\"align\":"@.len()) == ",\"align\":"@
        }),
        ({
            let a5 = pos + ",\"serName\":"@.len() + jstr(ser_name).len() + ",\"size\":"@.len() + jopt_num(size).len() + ",\"align\":"@.len();
            0 <= a5 <= a5 + jopt_num(align).len() <= s.len() && s.subrange(a5, a5 + jopt_num(align).len()) == jopt_num(align) && (a5 + jopt_num(align).len() == s.len() || !is_digit_char(s[a5 + jopt_num(align).len()]))
        }),
        q == pos + ",\"serName\":"@.len() + jstr(ser_name).len() + ",\"size\":"@.len() + jopt_num(size).len() + ",\"align\":"@.len() + jopt_num(align).len(),
{
    reveal_strlit(",\"serName\":");
    reveal_strlit(",\"size\":");
    reveal_strlit(",\"align\":");
    lemma_digit_chars();
    assert(s.subrange(pos, q).len() == q - pos);
    assert(s.subrange(pos, q) =~= ",\"serName\":"@ + (jstr(ser_name) + (",\"size\":"@ + (jopt_num(size) + (",\"align\":"@ + (jopt_num(align)))))));
    lemma_take_lit(s, pos, q, ",\"serName\":"@, jstr(ser_name) + (",\"size\":"@ + (jopt_num(size) + (",\"align\":"@ + (jopt_num(align))))));
    lemma_take_lit(s, pos + ",\"serName\":"@.len(), q, jstr(ser_name), ",\"size\":"@ + (jopt_num(size) + (",\"align\":"@ + (jopt_num(align)))));
    let a2 = pos + ",\"serName\":"@.len() + jstr(ser_name).len();
    lemma_take_lit(s, a2, q, ",\"size\":"@, jopt_num(size) + (",\"align\":"@ + (jopt_num(align))));
    let a3 = a2 + ",\"size\":"@.len();
    lemma_take_lit(s, a3, q, jopt_num(size), ",\"align\":"@ + (jopt_num(align)));
    let a4 = a3 + jopt_num(size).len();
    assert(s.subrange(a4, q)[0] == s[a4]);
    assert(s[a4] == ",\"align\":"@[0]);
    lemma_take_lit(s, a4, q, ",\"align\":"@, jopt_num(align));
    let a5 = a4 + ",\"align\":"@.len();
    lemma_take_lit(s, a5, q, jopt_num(align), Seq::<char>::empty());
    assert(s.subrange(a5 + jopt_num(align).len(), q) =~= Seq::<char>::empty());
}

#[verifier::rlimit(60)]
proof fn lemma_structrest_b_pieces(s: Seq<char>, pos: int, q: int, fields: Seq<DefStructField>, tag: Option<Seq<char>>, transparent: bool)
    requires
        structrest_b_run(s, pos, q, fields, tag, transparent),
    ensures
        pos + ",\"fields\":["@.len() <= q && s.subrange(pos, pos + ",\"fields\":["@.len()) == ",\"fields\":["@,
        fields_run(s, pos + ",\"fields\":["@.len(), pos + ",\"fields\":["@.len() + (jfields(fields) + "],\"tag\":"@).len(), fields),
        ({
            let b2 = pos + ",\"fields\":["@.len() + (jfields(fields) + "],\"tag\":"@).len();
            0 <= b2 <= b2 + jopt_str(tag).len() <= s.len() && s.subrange(b2, b2 + jopt_str(tag).len()) == jopt_str(tag)
        }),
        ({
            let b3 = pos + ",\"fields\":["@.len() + (jfields(fields) + "],\"tag\":"@).len() + jopt_str(tag).len();
            b3 + ",\"transparent\":"@.len() <= q && s.subrange(b3, b3 + ",\"transparent\":"@.len()) == ",\"transparent\":"@
        }),
        ({
            let b4 = pos + ",\"fields\":["@.len() + (jfields(fields) + "],\"tag\":"@).len() + jopt_str(tag).len() + ",\"transparent\":"@.len();
            0 <= b4 <= b4 + jbool(transparent).len() <= s.len() && s.subrange(b4, b4 + jbool(transparent).len()) == jbool(transparent)
        }),
        ({
            let b5 = pos + ",\"fields\":["@.len() + (jfields(fields) + "],\"tag\":"@).len() + jopt_str(tag).len() + ",\"transparent\":"@.len() + jbool(transparent).len();
            b5 + "}"@.len() <= q && s.subrange(b5, b5 + "}"@.len()) == "}"@
        }),
        q == pos + ",\"fields\":["@.len() + (jfields(fields) + "],\"tag\":"@).len() + jopt_str(tag).len() + ",\"transparent\":"@.len() + jbool(transparent).len() + "}"@.len(),
{
    reveal_strlit(",\"fields\":[");
    reveal_strlit(",\"transparent\":");
    reveal_strlit("}");
    assert(s.subrange(pos, q).len() == q - pos);
    assert(s.subrange(pos, q) =~= ",\"fields\":["@ + ((jfields(fields) + "],\"tag\":"@) + (jopt_str(tag) + (",\"transparent\":"@ + (jbool(transparent) + ("}"@))))));
    lemma_take_lit(s, pos, q, ",\"fields\":["@, (jfields(fields) + "],\"tag\":"@) + (jopt_str(tag) + (",\"transparent\":"@ + (jbool(transparent) + ("}"@)))));
    let b1 = pos + ",\"fields\":["@.len();
    lemma_take_lit(s, b1, q, (jfields(fields) + "],\"tag\":"@), jopt_str(tag) + (",\"transparent\":"@ + (jbool(transparent) + ("}"@))));
    let b2 = b1 + (jfields(fields) + "],\"tag\":"@).len();
    lemma_take_lit(s, b2, q, jopt_str(tag), ",\"transparent\":"@ + (jbool(transparent) + ("}"@)));
    let b3 = b2 + jopt_str(tag).len();
    lemma_take_lit(s, b3, q, ",\"transparent\":"@, jbool(transparent) + ("}"@));
    let b4 = b3 + ",\"transparent\":"@.len();
    lemma_take_lit(s, b4, q, jbool(transparent), "}"@);
    let b5 = b4 + jbool(transparent).len();
    lemma_take_lit(s, b5, q, "}"@, Seq::<char>::empty());
    assert(s.subrange(b5 + "}"@.len(), q) =~= Seq::<char>::empty());
}

/// A record's remainder text splits into its naming-and-sizes half and its
/// fields-and-flags half.
#[verifier::rlimit(60)]
proof fn lemma_structrest_split(s: Seq<char>, pos: int, q: int, ser_name: Seq<char>, size: Option<usize>, align: Option<usize>, fields: Seq<DefStructField>, tag: Option<Seq<char>>, transparent: bool)
    requires
        structrest_run(s, pos, q, ser_name, size, align, fields, tag, transparent),
    ensures
        structrest_a_run(s, pos, pos + ",\"serName\":"@.len() + jstr(ser_name).len() + ",\"size\":"@.len() + jopt_num(size).len() + ",\"align\":"@.len() + jopt_num(align).len(), ser_name, size, align),
        structrest_b_run(s, pos + ",\"serName\":"@.len() + jstr(ser_name).len() + ",\"size\":"@.len() + jopt_num(size).len() + ",\"align\":"@.len() + jopt_num(align).len(), q, fields, tag, transparent),
{
    reveal_strlit(",\"fields\":[");
    lemma_digit_chars();
    assert(s.subrange(pos, q).len() == q - pos);
    assert(s.subrange(pos, q) =~= (",\"serName\":"@ + jstr(ser_name) + ",\"size\":"@ + jopt_num(size) + ",\"align\":"@ + jopt_num(align)) + (",\"fields\":["@ + jfields(fields) + "],\"tag\":"@ + jopt_str(tag) + ",\"transparent\":"@ + jbool(transparent) + "}"@));
    lemma_take_lit(s, pos, q, ",\"serName\":"@ + jstr(ser_name) + ",\"size\":"@ + jopt_num(size) + ",\"align\":"@ + jopt_num(align), ",\"fields\":["@ + jfields(fields) + "],\"tag\":"@ + jopt_str(tag) + ",\"transparent\":"@ + jbool(transparent) + "}"@);
    assert(s.subrange(pos + ",\"serName\":"@.len() + jstr(ser_name).len() + ",\"size\":"@.len() + jopt_num(size).len() + ",\"align\":"@.len() + jopt_num(align).len(), q)[0] == s[pos + ",\"serName\":"@.len() + jstr(ser_name).len() + ",\"size\":"@.len() + jopt_num(size).len() + ",\"align\":"@.len() + jopt_num(align).len()]);
    assert((",\"fields\":["@ + jfields(fields) + "],\"tag\":"@ + jopt_str(tag) + ",\"transparent\":"@ + jbool(transparent) + "}"@)[0] == ",\"fields\":["@[0]);
    assert(s[pos + ",\"serName\":"@.len() + jstr(ser_name).len() + ",\"size\":"@.len() + jopt_num(size).len() + ",\"align\":"@.len() + jopt_num(align).len()] == ",\"fields\":["@[0]);
}

#[verifier::rlimit(60)]
fn parse_struct_rest_a(s: &Vec<char>, pos: usize) -> (r: Option<
    (String, Option<usize>, Option<usize>, usize),
>)
    ensures
        (r matches Some((ser, size, align, p)) ==> pos <= p <= s@.len() && s@.subrange(
            pos as int,
            p as int,
        ) == ",\"serName\":"@ + jstr(ser@) + ",\"size\":"@ + jopt_num(size) + ",\"align\":"@
            + jopt_num(align)),
        (forall|ser0: Seq<char>, size0: Option<usize>, align0: Option<usize>, q: int|
            structrest_a_run(s@, pos as int, q, ser0, size0, align0) ==> (r matches Some(
                (ser, size, align, p),
            ) && ser@ == ser0 && size == size0 && align == align0 && p == q)),
{
    let p1 = match expect(s, pos, ",\"serName\":") {
        Some(p) => p,
        None => {
            proof {
                assert forall|ser0: Seq<char>, size0: Option<usize>, align0: Option<usize>, q: int| !structrest_a_run(s@, pos as int, q, ser0, size0, align0) by {
                    if structrest_a_run(s@, pos as int, q, ser0, size0, align0) {
                        lemma_structrest_a_pieces(s@, pos as int, q, ser0, size0, align0);
                        assert(false);
                    }
                }
            }
            return None;
        },
    };
    let (vser, p2) = match parse_jstring(s, p1) {
        Some(t) => t,
        None => {
            proof {
                assert forall|ser0: Seq<char>, size0: Option<usize>, align0: Option<usize>, q: int| !structrest_a_run(s@, pos as int, q, ser0, size0, align0) by {
                    if structrest_a_run(s@, pos as int, q, ser0, size0, align0) {
                        lemma_structrest_a_pieces(s@, pos as int, q, ser0, size0, align0);
                        assert(false);
                    }
                }
            }
            return None;
        },
    };
    let p3 = match expect(s, p2, ",\"size\":") {
        Some(p) => p,
        None => {
            proof {
                assert forall|ser0: Seq<char>, size0: Option<usize>, align0: Option<usize>, q: int| !structrest_a_run(s@, pos as int, q, ser0, size0, align0) by {
                    if structrest_a_run(s@, pos as int, q, ser0, size0, align0) {
                        lemma_structrest_a_pieces(s@, pos as int, q, ser0, size0, align0);
                        assert(false);
                    }
                }
            }
            return None;
        },
    };
    let (vsize, p4) = match parse_opt_usize(s, p3) {
        Some(t) => t,
        None => {
            proof {
                assert forall|ser0: Seq<char>, size0: Option<usize>, align0: Option<usize>, q: int| !structrest_a_run(s@, pos as int, q, ser0, size0, align0) by {
                    if structrest_a_run(s@, pos as int, q, ser0, size0, align0) {
                        lemma_structrest_a_pieces(s@, pos as int, q, ser0, size0, align0);
                        assert(false);
                    }
                }
            }
            return None;
        },
    };
    let p5 = match expect(s, p4, ",\"align\":") {
        Some(p) => p,
        None => {
            proof {
                assert forall|ser0: Seq<char>, size0: Option<usize>, align0: Option<usize>, q: int| !structrest_a_run(s@, pos as int, q, ser0, size0, align0) by {
                    if structrest_a_run(s@, pos as int, q, ser0, size0, align0) {
                        lemma_structrest_a_pieces(s@, pos as int, q, ser0, size0, align0);
                        assert(false);
                    }
                }
            }
            return None;
        },
    };
    let (valign, p6) = match parse_opt_usize(s, p5) {
        Some(t) => t,
        None => {
            proof {
                assert forall|ser0: Seq<char>, size0: Option<usize>, align0: Option<usize>, q: int| !structrest_a_run(s@, pos as int, q, ser0, size0, align0) by {
                    if structrest_a_run(s@, pos as int, q, ser0, size0, align0) {
                        lemma_structrest_a_pieces(s@, pos as int, q, ser0, size0, align0);
                        assert(false);
                    }
                }
            }
            return None;
        },
    };
    proof {
        lemma_subrange_concat(s@, pos as int, p1 as int, p2 as int);
        lemma_subrange_concat(s@, pos as int, p2 as int, p3 as int);
        lemma_subrange_concat(s@, pos as int, p3 as int, p4 as int);
        lemma_subrange_concat(s@, pos as int, p4 as int, p5 as int);
        lemma_subrange_concat(s@, pos as int, p5 as int, p6 as int);
        assert(s@.subrange(pos as int, p6 as int) =~= ",\"serName\":"@ + jstr(vser@)
            + ",\"size\":"@ + jopt_num(vsize) + ",\"align\":"@ + jopt_num(valign));
        assert forall|ser0: Seq<char>, size0: Option<usize>, align0: Option<usize>, q: int| structrest_a_run(s@, pos as int, q, ser0, size0, align0) implies (vser@ == ser0 && vsize == size0 && valign == align0 && p6 as int == q) by {
            lemma_structrest_a_pieces(s@, pos as int, q, ser0, size0, align0);
        }
    }
    Some((vser, vsize, valign, p6))
}

#[verifier::rlimit(60)]
fn parse_struct_rest_b(s: &Vec<char>, pos: usize) -> (r: Option<
    (Vec<DefStructField>, Option<String>, bool, usize),
>)
    ensures
        (r matches Some((fields, tag, transp, p)) ==> pos <= p <= s@.len() && s@.subrange(
            pos as int,
            p as int,
        ) == ",\"fields\":["@ + jfields(fields@) + "],\"tag\":"@ + jopt_str(opt_view(tag))
            + ",\"transparent\":"@ + jbool(transp) + "}"@),
        (forall|fields0: Seq<DefStructField>, tag0: Option<Seq<char>>, transp0: bool, q: int|
            structrest_b_run(s@, pos as int, q, fields0, tag0, transp0) ==> (r matches Some(
                (fields, tag, transp, p),
            ) && fields@.len() == fields0.len() && (forall|i: int|
                0 <= i < fields0.len() ==> field_like(#[trigger] fields@[i], fields0[i]))
                && opt_view(tag) == tag0 && transp == transp0 && p == q)),
{
    let p1 = match expect(s, pos, ",\"fields\":[") {
        Some(p) => p,
        None => {
            proof {
                assert forall|fields0: Seq<DefStructField>, tag0: Option<Seq<char>>, transp0: bool, q: int| !structrest_b_run(s@, pos as int, q, fields0, tag0, transp0) by {
                    if structrest_b_run(s@, pos as int, q, fields0, tag0, transp0) {
                        lemma_structrest_b_pieces(s@, pos as int, q, fields0, tag0, transp0);
                        assert(false);
                    }
                }
            }
            return None;
        },
    };
    let (vfields, p2) = match parse_fields(s, p1) {
        Some(t) => t,
        None => {
            proof {
                assert forall|fields0: Seq<DefStructField>, tag0: Option<Seq<char>>, transp0: bool, q: int| !structrest_b_run(s@, pos as int, q, fields0, tag0, transp0) by {
                    if structrest_b_run(s@, pos as int, q, fields0, tag0, transp0) {
                        lemma_structrest_b_pieces(s@, pos as int, q, fields0, tag0, transp0);
                        assert(false);
                    }
                }
            }
            return None;
        },
    };
    let (vtag, p3) = match parse_opt_string(s, p2) {
        Some(t) => t,
        None => {
            proof {
                assert forall|fields0: Seq<DefStructField>, tag0: Option<Seq<char>>, transp0: bool, q: int| !structrest_b_run(s@, pos as int, q, fields0, tag0, transp0) by {
                    if structrest_b_run(s@, pos as int, q, fields0, tag0, transp0) {
                        lemma_structrest_b_pieces(s@, pos as int, q, fields0, tag0, transp0);
                        assert(false);
                    }
                }
            }
            return None;
        },
    };
    let p4 = match expect(s, p3, ",\"transparent\":") {
        Some(p) => p,
        None => {
            proof {
                assert forall|fields0: Seq<DefStructField>, tag0: Option<Seq<char>>, transp0: bool, q: int| !structrest_b_run(s@, pos as int, q, fields0, tag0, transp0) by {
                    if structrest_b_run(s@, pos as int, q, fields0, tag0, transp0) {
                        lemma_structrest_b_pieces(s@, pos as int, q, fields0, tag0, transp0);
                        assert(false);
                    }
                }
            }
            return None;
        },
    };
    let (vtransp, p5) = match parse_bool(s, p4) {
        Some(t) => t,
        None => {
            proof {
                assert forall|fields0: Seq<DefStructField>, tag0: Option<Seq<char>>, transp0: bool, q: int| !structrest_b_run(s@, pos as int, q, fields0, tag0, transp0) by {
                    if structrest_b_run(s@, pos as int, q, fields0, tag0, transp0) {
                        lemma_structrest_b_pieces(s@, pos as int, q, fields0, tag0, transp0);
                        assert(false);
                    }
                }
            }
            return None;
        },
    };
    let p6 = match expect(s, p5, "}") {
        Some(p) => p,
        None => {
            proof {
                assert forall|fields0: Seq<DefStructField>, tag0: Option<Seq<char>>, transp0: bool, q: int| !structrest_b_run(s@, pos as int, q, fields0, tag0, transp0) by {
                    if structrest_b_run(s@, pos as int, q, fields0, tag0, transp0) {
                        lemma_structrest_b_pieces(s@, pos as int, q, fields0, tag0, transp0);
                        assert(false);
                    }
                }
            }
            return None;
        },
    };
    proof {
        lemma_subrange_concat(s@, pos as int, p1 as int, p2 as int);
        lemma_subrange_concat(s@, pos as int, p2 as int, p3 as int);
        lemma_subrange_concat(s@, pos as int, p3 as int, p4 as int);
        lemma_subrange_concat(s@, pos as int, p4 as int, p5 as int);
        lemma_subrange_concat(s@, pos as int, p5 as int, p6 as int);
        assert(s@.subrange(pos as int, p6 as int) =~= ",\"fields\":["@ + jfields(vfields@)
            + "],\"tag\":"@ + jopt_str(opt_view(vtag)) + ",\"transparent\":"@ + jbool(vtransp)
            + "}"@);
        assert forall|fields0: Seq<DefStructField>, tag0: Option<Seq<char>>, transp0: bool, q: int| structrest_b_run(s@, pos as int, q, fields0, tag0, transp0) implies (vfields@.len() == fields0.len() && (forall|i: int| 0 <= i < fields0.len() ==> field_like(#[trigger] vfields@[i], fields0[i])) && opt_view(vtag) == tag0 && vtransp == transp0 && p6 as int == q) by {
            lemma_structrest_b_pieces(s@, pos as int, q, fields0, tag0, transp0);
        }
    }
    Some((vfields, vtag, vtransp, p6))
}

#[verifier::rlimit(60)]
fn parse_struct_rest(s: &Vec<char>, pos: usize) -> (r: Option<
    (String, Option<usize>, Option<usize>, Vec<DefStructField>, Option<String>, bool, usize),
>)
    ensures
        (r matches Some((ser, size, align, fields, tag, transp, p)) ==> pos <= p <= s@.len()
            && s@.subrange(pos as int, p as int) == ",\"serName\":"@ + jstr(ser@) + ",\"size\":"@
            + jopt_num(size) + ",\"align\":"@ + jopt_num(align) + ",\"fields\":["@ + jfields(
            fields@,
        ) + "],\"tag\":"@ + jopt_str(opt_view(tag)) + ",\"transparent\":"@ + jbool(transp)
            + "}"@),
        (forall|
            ser0: Seq<char>,
            size0: Option<usize>,
            align0: Option<usize>,
            fields0: Seq<DefStructField>,
            tag0: Option<Seq<char>>,
            transp0: bool,
            q: int,
        |
            structrest_run(s@, pos as int, q, ser0, size0, align0, fields0, tag0, transp0) ==> (
            r matches Some((ser, size, align, fields, tag, transp, p)) && ser@ == ser0 && size
                == size0 && align == align0 && fields@.len() == fields0.len() && (forall|i: int|
                0 <= i < fields0.len() ==> field_like(#[trigger] fields@[i], fields0[i]))
                && opt_view(tag) == tag0 && transp == transp0 && p == q)),
{
    let (vser, vsize, valign, pa) = match parse_struct_rest_a(s, pos) {
        Some(t) => t,
        None => {
            proof {
                assert forall|ser0: Seq<char>, size0: Option<usize>, align0: Option<usize>, fields0: Seq<DefStructField>, tag0: Option<Seq<char>>, transp0: bool, q: int| !structrest_run(s@, pos as int, q, ser0, size0, align0, fields0, tag0, transp0) by {
                    if structrest_run(s@, pos as int, q, ser0, size0, align0, fields0, tag0, transp0) {
                        lemma_structrest_split(s@, pos as int, q, ser0, size0, align0, fields0, tag0, transp0);
                        assert(false);
                    }
                }
            }
            return None;
        },
    };
    let (vfields, vtag, vtransp, pb) = match parse_struct_rest_b(s, pa) {
        Some(t) => t,
        None => {
            proof {
                assert forall|ser0: Seq<char>, size0: Option<usize>, align0: Option<usize>, fields0: Seq<DefStructField>, tag0: Option<Seq<char>>, transp0: bool, q: int| !structrest_run(s@, pos as int, q, ser0, size0, align0, fields0, tag0, transp0) by {
                    if structrest_run(s@, pos as int, q, ser0, size0, align0, fields0, tag0, transp0) {
                        lemma_structrest_split(s@, pos as int, q, ser0, size0, align0, fields0, tag0, transp0);
                        assert(false);
                    }
                }
            }
            return None;
        },
    };
    proof {
        lemma_subrange_concat(s@, pos as int, pa as int, pb as int);
        assert(s@.subrange(pos as int, pb as int) =~= ",\"serName\":"@ + jstr(vser@)
            + ",\"size\":"@ + jopt_num(vsize) + ",\"align\":"@ + jopt_num(valign)
            + ",\"fields\":["@ + jfields(vfields@) + "],\"tag\":"@ + jopt_str(opt_view(vtag))
            + ",\"transparent\":"@ + jbool(vtransp) + "}"@);
        assert forall|ser0: Seq<char>, size0: Option<usize>, align0: Option<usize>, fields0: Seq<DefStructField>, tag0: Option<Seq<char>>, transp0: bool, q: int| structrest_run(s@, pos as int, q, ser0, size0, align0, fields0, tag0, transp0) implies (vser@ == ser0 && vsize == size0 && valign == align0 && vfields@.len() == fields0.len() && (forall|i: int| 0 <= i < fields0.len() ==> field_like(#[trigger] vfields@[i], fields0[i])) && opt_view(vtag) == tag0 && vtransp == transp0 && pb as int == q) by {
            lemma_structrest_split(s@, pos as int, q, ser0, size0, align0, fields0, tag0, transp0);
        }
    }
    Some((vser, vsize, valign, vfields, vtag, vtransp, pb))
}

#[verifier::rlimit(100)]
#[verifier::spinoff_prover]
fn parse_desc_struct(s: &Vec<char>, pos: usize) -> (r: Option<(DefType, usize)>)
    ensures
        (r matches Some((d, p)) ==> pos < p <= s@.len() && s@.subrange(pos as int, p as int) == jdesc(d)),
        (forall|d: DefType, q: int| desc_run(s@, pos as int, q, d) && d is Struct ==> (r matches Some((d2, p)) && desc_like(d2, d) && p == q)),
        (forall|d: DefType, q: int| desc_run(s@, pos as int, q, d) && !(d is Struct) ==> r is None),
{
    let p1 = match expect(s, pos, "{\"kind\":\"struct\",\"name\":") {
        Some(p) => p,
        None => {
            proof {
                assert forall|d: DefType, q: int| !(desc_run(s@, pos as int, q, d) && d is Struct) by {
                    if desc_run(s@, pos as int, q, d) && d is Struct {
                        let p = d->Struct_0;
                        lemma_desc_struct_own(s@, pos as int, q, p);
                        assert(false);
                    }
                }
            }
            return None;
        },
    };
    let (vname, p2) = match parse_jstring(s, p1) {
        Some(t) => t,
        None => {
            proof {
                assert forall|d: DefType, q: int| !desc_run(s@, pos as int, q, d) by {
                    if desc_run(s@, pos as int, q, d) {
                        lemma_desc_struct_committed(s@, pos as int, q, d, p1 as int);
                        let p = d->Struct_0;
                        lemma_desc_struct_own(s@, pos as int, q, p);
                        assert(false);
                    }
                }
            }
            return None;
        },
    };
    let (vser, vsize, valign, vfields, vtag, vtransp, p3) = match parse_struct_rest(s, p2) {
        Some(t) => t,
        None => {
            proof {
                assert forall|d: DefType, q: int| !desc_run(s@, pos as int, q, d) by {
                    if desc_run(s@, pos as int, q, d) {
                        lemma_desc_struct_committed(s@, pos as int, q, d, p1 as int);
                        let p = d->Struct_0;
                        lemma_desc_struct_own(s@, pos as int, q, p);
                        assert(false);
                    }
                }
            }
            return None;
        },
    };
    let d0 = DefType::Struct(DefStruct {
        name: vname,
        ser_name: vser,
        size: vsize,
        align: valign,
        fields: vfields,
        tag: vtag,
        transparent: vtransp,
    });
    proof {
        reveal_strlit("{\"kind\":\"struct\",\"name\":");
        reveal_strlit("{\"kind\":\"");
        reveal_strlit("struct");
        reveal_strlit("\",\"name\":");
        assert("{\"kind\":\"struct\",\"name\":"@ =~= "{\"kind\":\""@ + "struct"@ + "\",\"name\":"@);
        lemma_subrange_concat(s@, pos as int, p1 as int, p2 as int);
        lemma_subrange_concat(s@, pos as int, p2 as int, p3 as int);
        assert(s@.subrange(pos as int, p3 as int) =~= jdesc(d0));
        assert forall|d: DefType, q: int| desc_run(s@, pos as int, q, d) implies (d is Struct && desc_like(d0, d) && p3 as int == q) by {
            lemma_desc_struct_committed(s@, pos as int, q, d, p1 as int);
            let p = d->Struct_0;
            lemma_desc_struct_own(s@, pos as int, q, p);
        }
    }
    Some((d0, p3))
}

#[verifier::rlimit(100)]
#[verifier::spinoff_prover]
fn parse_desc_enum(s: &Vec<char>, pos: usize) -> (r: Option<(DefType, usize)>)
    ensures
        (r matches Some((d, p)) ==> pos < p <= s@.len() && s@.subrange(pos as int, p as int) == jdesc(d)),
        (forall|d: DefType, q: int| desc_run(s@, pos as int, q, d) && d is Enum ==> (r matches Some((d2, p)) && desc_like(d2, d) && p == q)),
        (forall|d: DefType, q: int| desc_run(s@, pos as int, q, d) && !(d is Enum) ==> r is None),
{
    let p1 = match expect(s, pos, "{\"kind\":\"enum\",\"name\":") {
        Some(p) => p,
        None => {
            proof {
                assert forall|d: DefType, q: int| !(desc_run(s@, pos as int, q, d) && d is Enum) by {
                    if desc_run(s@, pos as int, q, d) && d is Enum {
                        lemma_desc_pieces(s@, pos as int, q, d);
                        assert(false);
                    }
                }
            }
            return None;
        },
    };
    let (vname, p2) = match parse_jstring(s, p1) {
        Some(t) => t,
        None => {
            proof {
                reveal_strlit("{\"kind\":\"enum\",\"name\":");
                assert forall|d: DefType, q: int| !desc_run(s@, pos as int, q, d) by {
                    if desc_run(s@, pos as int, q, d) {
                        lemma_desc_pieces(s@, pos as int, q, d);
                        match d {
                        DefType::Enum(p) => {
                            lemma_enumrest_pieces(s@, pos + "{\"kind\":\"enum\",\"name\":"@.len() + jstr(p.name@).len(), q, p.ser_name@, p.size, p.align, p.variants@, p.tag);
                            assert(false);
                        },
                        DefType::Primitive(p) => {
                            reveal_strlit("{\"kind\":\"primitive\",\"name\":");
                            assert(s@.subrange(pos as int, pos + "{\"kind\":\"primitive\",\"name\":"@.len())[9] == s@[pos + 9]);
                            assert(s@.subrange(pos as int, p1 as int)[9] == s@[pos + 9]);
                            assert(false);
                        },
                        DefType::String(p) => {
                            reveal_strlit("{\"kind\":\"string\",\"name\":");
                            assert(s@.subrange(pos as int, pos + "{\"kind\":\"string\",\"name\":"@.len())[9] == s@[pos + 9]);
                            assert(s@.subrange(pos as int, p1 as int)[9] == s@[pos + 9]);
                            assert(false);
                        },
                        DefType::StrSlice(p) => {
                            reveal_strlit("{\"kind\":\"strSlice\",\"name\":");
                            assert(s@.subrange(pos as int, pos + "{\"kind\":\"strSlice\",\"name\":"@.len())[9] == s@[pos + 9]);
                            assert(s@.subrange(pos as int, p1 as int)[9] == s@[pos + 9]);
                            assert(false);
                        },
                        DefType::Str(p) => {
                            reveal_strlit("{\"kind\":\"str\",\"name\":");
                            assert(s@.subrange(pos as int, pos + "{\"kind\":\"str\",\"name\":"@.len())[9] == s@[pos + 9]);
                            assert(s@.subrange(pos as int, p1 as int)[9] == s@[pos + 9]);
                            assert(false);
                        },
                        DefType::Box(p) => {
                            reveal_strlit("{\"kind\":\"box\",\"name\":");
                            assert(s@.subrange(pos as int, pos + "{\"kind\":\"box\",\"name\":"@.len())[9] == s@[pos + 9]);
                            assert(s@.subrange(pos as int, p1 as int)[9] == s@[pos + 9]);
                            assert(false);
                        },
                        DefType::Vec(p) => {
                            reveal_strlit("{\"kind\":\"vec\",\"name\":");
                            assert(s@.subrange(pos as int, pos + "{\"kind\":\"vec\",\"name\":"@.len())[9] == s@[pos + 9]);
                            assert(s@.subrange(pos as int, p1 as int)[9] == s@[pos + 9]);
                            assert(false);
                        },
                        DefType::Option(p) => {
                            reveal_strlit("{\"kind\":\"option\",\"name\":");
                            assert(s@.subrange(pos as int, pos + "{\"kind\":\"option\",\"name\":"@.len())[9] == s@[pos + 9]);
                            assert(s@.subrange(pos as int, p1 as int)[9] == s@[pos + 9]);
                            assert(false);
                        },
                        DefType::PhantomData(p) => {
                            reveal_strlit("{\"kind\":\"phantomData\",\"name\":");
                            assert(s@.subrange(pos as int, pos + "{\"kind\":\"phantomData\",\"name\":"@.len())[9] == s@[pos + 9]);
                            assert(s@.subrange(pos as int, p1 as int)[9] == s@[pos + 9]);
                            assert(false);
                        },
                        DefType::Cell(p) => {
                            reveal_strlit("{\"kind\":\"cell\",\"name\":");
                            assert(s@.subrange(pos as int, pos + "{\"kind\":\"cell\",\"name\":"@.len())[9] == s@[pos + 9]);
                            assert(s@.subrange(pos as int, p1 as int)[9] == s@[pos + 9]);
                            assert(false);
                        },
                        DefType::RefCell(p) => {
                            reveal_strlit("{\"kind\":\"refCell\",\"name\":");
                            assert(s@.subrange(pos as int, pos + "{\"kind\":\"refCell\",\"name\":"@.len())[9] == s@[pos + 9]);
                            assert(s@.subrange(pos as int, p1 as int)[9] == s@[pos + 9]);
                            assert(false);
                        },
                        DefType::Mutex(p) => {
                            reveal_strlit("{\"kind\":\"mutex\",\"name\":");
                            assert(s@.subrange(pos as int, pos + "{\"kind\":\"mutex\",\"name\":"@.len())[9] == s@[pos + 9]);
                            assert(s@.subrange(pos as int, p1 as int)[9] == s@[pos + 9]);
                            assert(false);
                        },
                        DefType::RwLock(p) => {
                            reveal_strlit("{\"kind\":\"rwLock\",\"name\":");
                            assert(s@.subrange(pos as int, pos + "{\"kind\":\"rwLock\",\"name\":"@.len())[9] == s@[pos + 9]);
                            assert(s@.subrange(pos as int, p1 as int)[9] == s@[pos + 9]);
                            assert(false);
                        },
                        DefType::Rc(p) => {
                            reveal_strlit("{\"kind\":\"rc\",\"name\":");
                            assert(s@.subrange(pos as int, pos + "{\"kind\":\"rc\",\"name\":"@.len())[9] == s@[pos + 9]);
                            assert(s@.subrange(pos as int, p1 as int)[9] == s@[pos + 9]);
                            assert(false);
                        },
                        DefType::Arc(p) => {
                            reveal_strlit("{\"kind\":\"arc\",\"name\":");
                            assert(s@.subrange(pos as int, pos + "{\"kind\":\"arc\",\"name\":"@.len())[9] == s@[pos + 9]);
                            assert(s@.subrange(pos as int, p1 as int)[9] == s@[pos + 9]);
                            assert(false);
                        },
                        DefType::Result(p) => {
                            reveal_strlit("{\"kind\":\"result\",\"name\":");
                            assert(s@.subrange(pos as int, pos + "{\"kind\":\"result\",\"name\":"@.len())[9] == s@[pos + 9]);
                            assert(s@.subrange(pos as int, p1 as int)[9] == s@[pos + 9]);
                            assert(false);
                        },
                        DefType::Struct(p) => {
                            reveal_strlit("{\"kind\":\"struct\",\"name\":");
                            assert(s@.subrange(pos as int, pos + "{\"kind\":\"struct\",\"name\":"@.len())[9] == s@[pos + 9]);
                            assert(s@.subrange(pos as int, p1 as int)[9] == s@[pos + 9]);
                            assert(false);
                        },
                        }
                    }
                }
            }
            return None;
        },
    };
    let p_a = match expect(s, p2, ",\"serName\":") {
        Some(t) => t,
        None => {
            proof {
                reveal_strlit("{\"kind\":\"enum\",\"name\":");
                assert forall|d: DefType, q: int| !desc_run(s@, pos as int, q, d) by {
                    if desc_run(s@, pos as int, q, d) {
                        lemma_desc_pieces(s@, pos as int, q, d);
                        match d {
                        DefType::Enum(p) => {
                            lemma_enumrest_pieces(s@, pos + "{\"kind\":\"enum\",\"name\":"@.len() + jstr(p.name@).len(), q, p.ser_name@, p.size, p.align, p.variants@, p.tag);
                            assert(false);
                        },
                        DefType::Primitive(p) => {
                            reveal_strlit("{\"kind\":\"primitive\",\"name\":");
                            assert(s@.subrange(pos as int, pos + "{\"kind\":\"primitive\",\"name\":"@.len())[9] == s@[pos + 9]);
                            assert(s@.subrange(pos as int, p1 as int)[9] == s@[pos + 9]);
                            assert(false);
                        },
                        DefType::String(p) => {
                            reveal_strlit("{\"kind\":\"string\",\"name\":");
                            assert(s@.subrange(pos as int, pos + "{\"kind\":\"string\",\"name\":"@.len())[9] == s@[pos + 9]);
                            assert(s@.subrange(pos as int, p1 as int)[9] == s@[pos + 9]);
                            assert(false);
                        },
                        DefType::StrSlice(p) => {
                            reveal_strlit("{\"kind\":\"strSlice\",\"name\":");
                            assert(s@.subrange(pos as int, pos + "{\"kind\":\"strSlice\",\"name\":"@.len())[9] == s@[pos + 9]);
                            assert(s@.subrange(pos as int, p1 as int)[9] == s@[pos + 9]);
                            assert(false);
                        },
                        DefType::Str(p) => {
                            reveal_strlit("{\"kind\":\"str\",\"name\":");
                            assert(s@.subrange(pos as int, pos + "{\"kind\":\"str\",\"name\":"@.len())[9] == s@[pos + 9]);
                            assert(s@.subrange(pos as int, p1 as int)[9] == s@[pos + 9]);
                            assert(false);
                        },
                        DefType::Box(p) => {
                            reveal_strlit("{\"kind\":\"box\",\"name\":");
                            assert(s@.subrange(pos as int, pos + "{\"kind\":\"box\",\"name\":"@.len())[9] == s@[pos + 9]);
                            assert(s@.subrange(pos as int, p1 as int)[9] == s@[pos + 9]);
                            assert(false);
                        },
                        DefType::Vec(p) => {
                            reveal_strlit("{\"kind\":\"vec\",\"name\":");
                            assert(s@.subrange(pos as int, pos + "{\"kind\":\"vec\",\"name\":"@.len())[9] == s@[pos + 9]);
                            assert(s@.subrange(pos as int, p1 as int)[9] == s@[pos + 9]);
                            assert(false);
                        },
                        DefType::Option(p) => {
                            reveal_strlit("{\"kind\":\"option\",\"name\":");
                            assert(s@.subrange(pos as int, pos + "{\"kind\":\"option\",\"name\":"@.len())[9] == s@[pos + 9]);
                            assert(s@.subrange(pos as int, p1 as int)[9] == s@[pos + 9]);
                            assert(false);
                        },
                        DefType::PhantomData(p) => {
                            reveal_strlit("{\"kind\":\"phantomData\",\"name\":");
                            assert(s@.subrange(pos as int, pos + "{\"kind\":\"phantomData\",\"name\":"@.len())[9] == s@[pos + 9]);
                            assert(s@.subrange(pos as int, p1 as int)[9] == s@[pos + 9]);
                            assert(false);
                        },
                        DefType::Cell(p) => {
                            reveal_strlit("{\"kind\":\"cell\",\"name\":");
                            assert(s@.subrange(pos as int, pos + "{\"kind\":\"cell\",\"name\":"@.len())[9] == s@[pos + 9]);
                            assert(s@.subrange(pos as int, p1 as int)[9] == s@[pos + 9]);
                            assert(false);
                        },
                        DefType::RefCell(p) => {
                            reveal_strlit("{\"kind\":\"refCell\",\"name\":");
                            assert(s@.subrange(pos as int, pos + "{\"kind\":\"refCell\",\"name\":"@.len())[9] == s@[pos + 9]);
                            assert(s@.subrange(pos as int, p1 as int)[9] == s@[pos + 9]);
                            assert(false);
                        },
                        DefType::Mutex(p) => {
                            reveal_strlit("{\"kind\":\"mutex\",\"name\":");
                            assert(s@.subrange(pos as int, pos + "{\"kind\":\"mutex\",\"name\":"@.len())[9] == s@[pos + 9]);
                            assert(s@.subrange(pos as int, p1 as int)[9] == s@[pos + 9]);
                            assert(false);
                        },
                        DefType::RwLock(p) => {
                            reveal_strlit("{\"kind\":\"rwLock\",\"name\":");
                            assert(s@.subrange(pos as int, pos + "{\"kind\":\"rwLock\",\"name\":"@.len())[9] == s@[pos + 9]);
                            assert(s@.subrange(pos as int, p1 as int)[9] == s@[pos + 9]);
                            assert(false);
                        },
                        DefType::Rc(p) => {
                            reveal_strlit("{\"kind\":\"rc\",\"name\":");
                            assert(s@.subrange(pos as int, pos + "{\"kind\":\"rc\",\"name\":"@.len())[9] == s@[pos + 9]);
                            assert(s@.subrange(pos as int, p1 as int)[9] == s@[pos + 9]);
                            assert(false);
                        },
                        DefType::Arc(p) => {
                            reveal_strlit("{\"kind\":\"arc\",\"name\":");
                            assert(s@.subrange(pos as int, pos + "{\"kind\":\"arc\",\"name\":"@.len())[9] == s@[pos + 9]);
                            assert(s@.subrange(pos as int, p1 as int)[9] == s@[pos + 9]);
                            assert(false);
                        },
                        DefType::Result(p) => {
                            reveal_strlit("{\"kind\":\"result\",\"name\":");
                            assert(s@.subrange(pos as int, pos + "{\"kind\":\"result\",\"name\":"@.len())[9] == s@[pos + 9]);
                            assert(s@.subrange(pos as int, p1 as int)[9] == s@[pos + 9]);
                            assert(false);
                        },
                        DefType::Struct(p) => {
                            reveal_strlit("{\"kind\":\"struct\",\"name\":");
                            assert(s@.subrange(pos as int, pos + "{\"kind\":\"struct\",\"name\":"@.len())[9] == s@[pos + 9]);
                            assert(s@.subrange(pos as int, p1 as int)[9] == s@[pos + 9]);
                            assert(false);
                        },
                        }
                    }
                }
            }
            return None;
        },
    };
    let (vser, p_b) = match parse_jstring(s, p_a) {
        Some(t) => t,
        None => {
            proof {
                reveal_strlit("{\"kind\":\"enum\",\"name\":");
                assert forall|d: DefType, q: int| !desc_run(s@, pos as int, q, d) by {
                    if desc_run(s@, pos as int, q, d) {
                        lemma_desc_pieces(s@, pos as int, q, d);
                        match d {
                        DefType::Enum(p) => {
                            lemma_enumrest_pieces(s@, pos + "{\"kind\":\"enum\",\"name\":"@.len() + jstr(p.name@).len(), q, p.ser_name@, p.size, p.align, p.variants@, p.tag);
                            assert(false);
                        },
                        DefType::Primitive(p) => {
                            reveal_strlit("{\"kind\":\"primitive\",\"name\":");
                            assert(s@.subrange(pos as int, pos + "{\"kind\":\"primitive\",\"name\":"@.len())[9] == s@[pos + 9]);
                            assert(s@.subrange(pos as int, p1 as int)[9] == s@[pos + 9]);
                            assert(false);
                        },
                        DefType::String(p) => {
                            reveal_strlit("{\"kind\":\"string\",\"name\":");
                            assert(s@.subrange(pos as int, pos + "{\"kind\":\"string\",\"name\":"@.len())[9] == s@[pos + 9]);
                            assert(s@.subrange(pos as int, p1 as int)[9] == s@[pos + 9]);
                            assert(false);
                        },
                        DefType::StrSlice(p) => {
                            reveal_strlit("{\"kind\":\"strSlice\",\"name\":");
                            assert(s@.subrange(pos as int, pos + "{\"kind\":\"strSlice\",\"name\":"@.len())[9] == s@[pos + 9]);
                            assert(s@.subrange(pos as int, p1 as int)[9] == s@[pos + 9]);
                            assert(false);
                        },
                        DefType::Str(p) => {
                            reveal_strlit("{\"kind\":\"str\",\"name\":");
                            assert(s@.subrange(pos as int, pos + "{\"kind\":\"str\",\"name\":"@.len())[9] == s@[pos + 9]);
                            assert(s@.subrange(pos as int, p1 as int)[9] == s@[pos + 9]);
                            assert(false);
                        },
                        DefType::Box(p) => {
                            reveal_strlit("{\"kind\":\"box\",\"name\":");
                            assert(s@.subrange(pos as int, pos + "{\"kind\":\"box\",\"name\":"@.len())[9] == s@[pos + 9]);
                            assert(s@.subrange(pos as int, p1 as int)[9] == s@[pos + 9]);
                            assert(false);
                        },
                        DefType::Vec(p) => {
                            reveal_strlit("{\"kind\":\"vec\",\"name\":");
                            assert(s@.subrange(pos as int, pos + "{\"kind\":\"vec\",\"name\":"@.len())[9] == s@[pos + 9]);
                            assert(s@.subrange(pos as int, p1 as int)[9] == s@[pos + 9]);
                            assert(false);
                        },
                        DefType::Option(p) => {
                            reveal_strlit("{\"kind\":\"option\",\"name\":");
                            assert(s@.subrange(pos as int, pos + "{\"kind\":\"option\",\"name\":"@.len())[9] == s@[pos + 9]);
                            assert(s@.subrange(pos as int, p1 as int)[9] == s@[pos + 9]);
                            assert(false);
                        },
                        DefType::PhantomData(p) => {
                            reveal_strlit("{\"kind\":\"phantomData\",\"name\":");
                            assert(s@.subrange(pos as int, pos + "{\"kind\":\"phantomData\",\"name\":"@.len())[9] == s@[pos + 9]);
                            assert(s@.subrange(pos as int, p1 as int)[9] == s@[pos + 9]);
                            assert(false);
                        },
                        DefType::Cell(p) => {
                            reveal_strlit("{\"kind\":\"cell\",\"name\":");
                            assert(s@.subrange(pos as int, pos + "{\"kind\":\"cell\",\"name\":"@.len())[9] == s@[pos + 9]);
                            assert(s@.subrange(pos as int, p1 as int)[9] == s@[pos + 9]);
                            assert(false);
                        },
                        DefType::RefCell(p) => {
                            reveal_strlit("{\"kind\":\"refCell\",\"name\":");
                            assert(s@.subrange(pos as int, pos + "{\"kind\":\"refCell\",\"name\":"@.len())[9] == s@[pos + 9]);
                            assert(s@.subrange(pos as int, p1 as int)[9] == s@[pos + 9]);
                            assert(false);
                        },
                        DefType::Mutex(p) => {
                            reveal_strlit("{\"kind\":\"mutex\",\"name\":");
                            assert(s@.subrange(pos as int, pos + "{\"kind\":\"mutex\",\"name\":"@.len())[9] == s@[pos + 9]);
                            assert(s@.subrange(pos as int, p1 as int)[9] == s@[pos + 9]);
                            assert(false);
                        },
                        DefType::RwLock(p) => {
                            reveal_strlit("{\"kind\":\"rwLock\",\"name\":");
                            assert(s@.subrange(pos as int, pos + "{\"kind\":\"rwLock\",\"name\":"@.len())[9] == s@[pos + 9]);
                            assert(s@.subrange(pos as int, p1 as int)[9] == s@[pos + 9]);
                            assert(false);
                        },
                        DefType::Rc(p) => {
                            reveal_strlit("{\"kind\":\"rc\",\"name\":");
                            assert(s@.subrange(pos as int, pos + "{\"kind\":\"rc\",\"name\":"@.len())[9] == s@[pos + 9]);
                            assert(s@.subrange(pos as int, p1 as int)[9] == s@[pos + 9]);
                            assert(false);
                        },
                        DefType::Arc(p) => {
                            reveal_strlit("{\"kind\":\"arc\",\"name\":");
                            assert(s@.subrange(pos as int, pos + "{\"kind\":\"arc\",\"name\":"@.len())[9] == s@[pos + 9]);
                            assert(s@.subrange(pos as int, p1 as int)[9] == s@[pos + 9]);
                            assert(false);
                        },
                        DefType::Result(p) => {
                            reveal_strlit("{\"kind\":\"result\",\"name\":");
                            assert(s@.subrange(pos as int, pos + "{\"kind\":\"result\",\"name\":"@.len())[9] == s@[pos + 9]);
                            assert(s@.subrange(pos as int, p1 as int)[9] == s@[pos + 9]);
                            assert(false);
                        },
                        DefType::Struct(p) => {
                            reveal_strlit("{\"kind\":\"struct\",\"name\":");
                            assert(s@.subrange(pos as int, pos + "{\"kind\":\"struct\",\"name\":"@.len())[9] == s@[pos + 9]);
                            assert(s@.subrange(pos as int, p1 as int)[9] == s@[pos + 9]);
                            assert(false);
                        },
                        }
                    }
                }
            }
            return None;
        },
    };
    let (vsize, valign, p_c) = match parse_sa(s, p_b) {
        Some(t) => t,
        None => {
            proof {
                reveal_strlit("{\"kind\":\"enum\",\"name\":");
                assert forall|d: DefType, q: int| !desc_run(s@, pos as int, q, d) by {
                    if desc_run(s@, pos as int, q, d) {
                        lemma_desc_pieces(s@, pos as int, q, d);
                        match d {
                        DefType::Enum(p) => {
                            lemma_enumrest_pieces(s@, pos + "{\"kind\":\"enum\",\"name\":"@.len() + jstr(p.name@).len(), q, p.ser_name@, p.size, p.align, p.variants@, p.tag);
                            assert(false);
                        },
                        DefType::Primitive(p) => {
                            reveal_strlit("{\"kind\":\"primitive\",\"name\":");
                            assert(s@.subrange(pos as int, pos + "{\"kind\":\"primitive\",\"name\":"@.len())[9] == s@[pos + 9]);
                            assert(s@.subrange(pos as int, p1 as int)[9] == s@[pos + 9]);
                            assert(false);
                        },
                        DefType::String(p) => {
                            reveal_strlit("{\"kind\":\"string\",\"name\":");
                            assert(s@.subrange(pos as int, pos + "{\"kind\":\"string\",\"name\":"@.len())[9] == s@[pos + 9]);
                            assert(s@.subrange(pos as int, p1 as int)[9] == s@[pos + 9]);
                            assert(false);
                        },
                        DefType::StrSlice(p) => {
                            reveal_strlit("{\"kind\":\"strSlice\",\"name\":");
                            assert(s@.subrange(pos as int, pos + "{\"kind\":\"strSlice\",\"name\":"@.len())[9] == s@[pos + 9]);
                            assert(s@.subrange(pos as int, p1 as int)[9] == s@[pos + 9]);
                            assert(false);
                        },
                        DefType::Str(p) => {
                            reveal_strlit("{\"kind\":\"str\",\"name\":");
                            assert(s@.subrange(pos as int, pos + "{\"kind\":\"str\",\"name\":"@.len())[9] == s@[pos + 9]);
                            assert(s@.subrange(pos as int, p1 as int)[9] == s@[pos + 9]);
                            assert(false);
                        },
                        DefType::Box(p) => {
                            reveal_strlit("{\"kind\":\"box\",\"name\":");
                            assert(s@.subrange(pos as int, pos + "{\"kind\":\"box\",\"name\":"@.len())[9] == s@[pos + 9]);
                            assert(s@.subrange(pos as int, p1 as int)[9] == s@[pos + 9]);
                            assert(false);
                        },
                        DefType::Vec(p) => {
                            reveal_strlit("{\"kind\":\"vec\",\"name\":");
                            assert(s@.subrange(pos as int, pos + "{\"kind\":\"vec\",\"name\":"@.len())[9] == s@[pos + 9]);
                            assert(s@.subrange(pos as int, p1 as int)[9] == s@[pos + 9]);
                            assert(false);
                        },
                        DefType::Option(p) => {
                            reveal_strlit("{\"kind\":\"option\",\"name\":");
                            assert(s@.subrange(pos as int, pos + "{\"kind\":\"option\",\"name\":"@.len())[9] == s@[pos + 9]);
                            assert(s@.subrange(pos as int, p1 as int)[9] == s@[pos + 9]);
                            assert(false);
                        },
                        DefType::PhantomData(p) => {
                            reveal_strlit("{\"kind\":\"phantomData\",\"name\":");
                            assert(s@.subrange(pos as int, pos + "{\"kind\":\"phantomData\",\"name\":"@.len())[9] == s@[pos + 9]);
                            assert(s@.subrange(pos as int, p1 as int)[9] == s@[pos + 9]);
                            assert(false);
                        },
                        DefType::Cell(p) => {
                            reveal_strlit("{\"kind\":\"cell\",\"name\":");
                            assert(s@.subrange(pos as int, pos + "{\"kind\":\"cell\",\"name\":"@.len())[9] == s@[pos + 9]);
                            assert(s@.subrange(pos as int, p1 as int)[9] == s@[pos + 9]);
                            assert(false);
                        },
                        DefType::RefCell(p) => {
                            reveal_strlit("{\"kind\":\"refCell\",\"name\":");
                            assert(s@.subrange(pos as int, pos + "{\"kind\":\"refCell\",\"name\":"@.len())[9] == s@[pos + 9]);
                            assert(s@.subrange(pos as int, p1 as int)[9] == s@[pos + 9]);
                            assert(false);
                        },
                        DefType::Mutex(p) => {
                            reveal_strlit("{\"kind\":\"mutex\",\"name\":");
                            assert(s@.subrange(pos as int, pos + "{\"kind\":\"mutex\",\"name\":"@.len())[9] == s@[pos + 9]);
                            assert(s@.subrange(pos as int, p1 as int)[9] == s@[pos + 9]);
                            assert(false);
                        },
                        DefType::RwLock(p) => {
                            reveal_strlit("{\"kind\":\"rwLock\",\"name\":");
                            assert(s@.subrange(pos as int, pos + "{\"kind\":\"rwLock\",\"name\":"@.len())[9] == s@[pos + 9]);
                            assert(s@.subrange(pos as int, p1 as int)[9] == s@[pos + 9]);
                            assert(false);
                        },
                        DefType::Rc(p) => {
                            reveal_strlit("{\"kind\":\"rc\",\"name\":");
                            assert(s@.subrange(pos as int, pos + "{\"kind\":\"rc\",\"name\":"@.len())[9] == s@[pos + 9]);
                            assert(s@.subrange(pos as int, p1 as int)[9] == s@[pos + 9]);
                            assert(false);
                        },
                        DefType::Arc(p) => {
                            reveal_strlit("{\"kind\":\"arc\",\"name\":");
                            assert(s@.subrange(pos as int, pos + "{\"kind\":\"arc\",\"name\":"@.len())[9] == s@[pos + 9]);
                            assert(s@.subrange(pos as int, p1 as int)[9] == s@[pos + 9]);
                            assert(false);
                        },
                        DefType::Result(p) => {
                            reveal_strlit("{\"kind\":\"result\",\"name\":");
                            assert(s@.subrange(pos as int, pos + "{\"kind\":\"result\",\"name\":"@.len())[9] == s@[pos + 9]);
                            assert(s@.subrange(pos as int, p1 as int)[9] == s@[pos + 9]);
                            assert(false);
                        },
                        DefType::Struct(p) => {
                            reveal_strlit("{\"kind\":\"struct\",\"name\":");
                            assert(s@.subrange(pos as int, pos + "{\"kind\":\"struct\",\"name\":"@.len())[9] == s@[pos + 9]);
                            assert(s@.subrange(pos as int, p1 as int)[9] == s@[pos + 9]);
                            assert(false);
                        },
                        }
                    }
                }
            }
            return None;
        },
    };
    let p_d = match expect(s, p_c, ",\"variants\":[") {
        Some(t) => t,
        None => {
            proof {
                reveal_strlit("{\"kind\":\"enum\",\"name\":");
                assert forall|d: DefType, q: int| !desc_run(s@, pos as int, q, d) by {
                    if desc_run(s@, pos as int, q, d) {
                        lemma_desc_pieces(s@, pos as int, q, d);
                        match d {
                        DefType::Enum(p) => {
                            lemma_enumrest_pieces(s@, pos + "{\"kind\":\"enum\",\"name\":"@.len() + jstr(p.name@).len(), q, p.ser_name@, p.size, p.align, p.variants@, p.tag);
                            assert(false);
                        },
                        DefType::Primitive(p) => {
                            reveal_strlit("{\"kind\":\"primitive\",\"name\":");
                            assert(s@.subrange(pos as int, pos + "{\"kind\":\"primitive\",\"name\":"@.len())[9] == s@[pos + 9]);
                            assert(s@.subrange(pos as int, p1 as int)[9] == s@[pos + 9]);
                            assert(false);
                        },
                        DefType::String(p) => {
                            reveal_strlit("{\"kind\":\"string\",\"name\":");
                            assert(s@.subrange(pos as int, pos + "{\"kind\":\"string\",\"name\":"@.len())[9] == s@[pos + 9]);
                            assert(s@.subrange(pos as int, p1 as int)[9] == s@[pos + 9]);
                            assert(false);
                        },
                        DefType::StrSlice(p) => {
                            reveal_strlit("{\"kind\":\"strSlice\",\"name\":");
                            assert(s@.subrange(pos as int, pos + "{\"kind\":\"strSlice\",\"name\":"@.len())[9] == s@[pos + 9]);
                            assert(s@.subrange(pos as int, p1 as int)[9] == s@[pos + 9]);
                            assert(false);
                        },
                        DefType::Str(p) => {
                            reveal_strlit("{\"kind\":\"str\",\"name\":");
                            assert(s@.subrange(pos as int, pos + "{\"kind\":\"str\",\"name\":"@.len())[9] == s@[pos + 9]);
                            assert(s@.subrange(pos as int, p1 as int)[9] == s@[pos + 9]);
                            assert(false);
                        },
                        DefType::Box(p) => {
                            reveal_strlit("{\"kind\":\"box\",\"name\":");
                            assert(s@.subrange(pos as int, pos + "{\"kind\":\"box\",\"name\":"@.len())[9] == s@[pos + 9]);
                            assert(s@.subrange(pos as int, p1 as int)[9] == s@[pos + 9]);
                            assert(false);
                        },
                        DefType::Vec(p) => {
                            reveal_strlit("{\"kind\":\"vec\",\"name\":");
                            assert(s@.subrange(pos as int, pos + "{\"kind\":\"vec\",\"name\":"@.len())[9] == s@[pos + 9]);
                            assert(s@.subrange(pos as int, p1 as int)[9] == s@[pos + 9]);
                            assert(false);
                        },
                        DefType::Option(p) => {
                            reveal_strlit("{\"kind\":\"option\",\"name\":");
                            assert(s@.subrange(pos as int, pos + "{\"kind\":\"option\",\"name\":"@.len())[9] == s@[pos + 9]);
                            assert(s@.subrange(pos as int, p1 as int)[9] == s@[pos + 9]);
                            assert(false);
                        },
                        DefType::PhantomData(p) => {
                            reveal_strlit("{\"kind\":\"phantomData\",\"name\":");
                            assert(s@.subrange(pos as int, pos + "{\"kind\":\"phantomData\",\"name\":"@.len())[9] == s@[pos + 9]);
                            assert(s@.subrange(pos as int, p1 as int)[9] == s@[pos + 9]);
                            assert(false);
                        },
                        DefType::Cell(p) => {
                            reveal_strlit("{\"kind\":\"cell\",\"name\":");
                            assert(s@.subrange(pos as int, pos + "{\"kind\":\"cell\",\"name\":"@.len())[9] == s@[pos + 9]);
                            assert(s@.subrange(pos as int, p1 as int)[9] == s@[pos + 9]);
                            assert(false);
                        },
                        DefType::RefCell(p) => {
                            reveal_strlit("{\"kind\":\"refCell\",\"name\":");
                            assert(s@.subrange(pos as int, pos + "{\"kind\":\"refCell\",\"name\":"@.len())[9] == s@[pos + 9]);
                            assert(s@.subrange(pos as int, p1 as int)[9] == s@[pos + 9]);
                            assert(false);
                        },
                        DefType::Mutex(p) => {
                            reveal_strlit("{\"kind\":\"mutex\",\"name\":");
                            assert(s@.subrange(pos as int, pos + "{\"kind\":\"mutex\",\"name\":"@.len())[9] == s@[pos + 9]);
                            assert(s@.subrange(pos as int, p1 as int)[9] == s@[pos + 9]);
                            assert(false);
                        },
                        DefType::RwLock(p) => {
                            reveal_strlit("{\"kind\":\"rwLock\",\"name\":");
                            assert(s@.subrange(pos as int, pos + "{\"kind\":\"rwLock\",\"name\":"@.len())[9] == s@[pos + 9]);
                            assert(s@.subrange(pos as int, p1 as int)[9] == s@[pos + 9]);
                            assert(false);
                        },
                        DefType::Rc(p) => {
                            reveal_strlit("{\"kind\":\"rc\",\"name\":");
                            assert(s@.subrange(pos as int, pos + "{\"kind\":\"rc\",\"name\":"@.len())[9] == s@[pos + 9]);
                            assert(s@.subrange(pos as int, p1 as int)[9] == s@[pos + 9]);
                            assert(false);
                        },
                        DefType::Arc(p) => {
                            reveal_strlit("{\"kind\":\"arc\",\"name\":");
                            assert(s@.subrange(pos as int, pos + "{\"kind\":\"arc\",\"name\":"@.len())[9] == s@[pos + 9]);
                            assert(s@.subrange(pos as int, p1 as int)[9] == s@[pos + 9]);
                            assert(false);
                        },
                        DefType::Result(p) => {
                            reveal_strlit("{\"kind\":\"result\",\"name\":");
                            assert(s@.subrange(pos as int, pos + "{\"kind\":\"result\",\"name\":"@.len())[9] == s@[pos + 9]);
                            assert(s@.subrange(pos as int, p1 as int)[9] == s@[pos + 9]);
                            assert(false);
                        },
                        DefType::Struct(p) => {
                            reveal_strlit("{\"kind\":\"struct\",\"name\":");
                            assert(s@.subrange(pos as int, pos + "{\"kind\":\"struct\",\"name\":"@.len())[9] == s@[pos + 9]);
                            assert(s@.subrange(pos as int, p1 as int)[9] == s@[pos + 9]);
                            assert(false);
                        },
                        }
                    }
                }
            }
            return None;
        },
    };
    let (vvariants, p_e) = match parse_variants(s, p_d) {
        Some(t) => t,
        None => {
            proof {
                reveal_strlit("{\"kind\":\"enum\",\"name\":");
                assert forall|d: DefType, q: int| !desc_run(s@, pos as int, q, d) by {
                    if desc_run(s@, pos as int, q, d) {
                        lemma_desc_pieces(s@, pos as int, q, d);
                        match d {
                        DefType::Enum(p) => {
                            lemma_enumrest_pieces(s@, pos + "{\"kind\":\"enum\",\"name\":"@.len() + jstr(p.name@).len(), q, p.ser_name@, p.size, p.align, p.variants@, p.tag);
                            assert(false);
                        },
                        DefType::Primitive(p) => {
                            reveal_strlit("{\"kind\":\"primitive\",\"name\":");
                            assert(s@.subrange(pos as int, pos + "{\"kind\":\"primitive\",\"name\":"@.len())[9] == s@[pos + 9]);
                            assert(s@.subrange(pos as int, p1 as int)[9] == s@[pos + 9]);
                            assert(false);
                        },
                        DefType::String(p) => {
                            reveal_strlit("{\"kind\":\"string\",\"name\":");
                            assert(s@.subrange(pos as int, pos + "{\"kind\":\"string\",\"name\":"@.len())[9] == s@[pos + 9]);
                            assert(s@.subrange(pos as int, p1 as int)[9] == s@[pos + 9]);
                            assert(false);
                        },
                        DefType::StrSlice(p) => {
                            reveal_strlit("{\"kind\":\"strSlice\",\"name\":");
                            assert(s@.subrange(pos as int, pos + "{\"kind\":\"strSlice\",\"name\":"@.len())[9] == s@[pos + 9]);
                            assert(s@.subrange(pos as int, p1 as int)[9] == s@[pos + 9]);
                            assert(false);
                        },
                        DefType::Str(p) => {
                            reveal_strlit("{\"kind\":\"str\",\"name\":");
                            assert(s@.subrange(pos as int, pos + "{\"kind\":\"str\",\"name\":"@.len())[9] == s@[pos + 9]);
                            assert(s@.subrange(pos as int, p1 as int)[9] == s@[pos + 9]);
                            assert(false);
                        },
                        DefType::Box(p) => {
                            reveal_strlit("{\"kind\":\"box\",\"name\":");
                            assert(s@.subrange(pos as int, pos + "{\"kind\":\"box\",\"name\":"@.len())[9] == s@[pos + 9]);
                            assert(s@.subrange(pos as int, p1 as int)[9] == s@[pos + 9]);
                            assert(false);
                        },
                        DefType::Vec(p) => {
                            reveal_strlit("{\"kind\":\"vec\",\"name\":");
                            assert(s@.subrange(pos as int, pos + "{\"kind\":\"vec\",\"name\":"@.len())[9] == s@[pos + 9]);
                            assert(s@.subrange(pos as int, p1 as int)[9] == s@[pos + 9]);
                            assert(false);
                        },
                        DefType::Option(p) => {
                            reveal_strlit("{\"kind\":\"option\",\"name\":");
                            assert(s@.subrange(pos as int, pos + "{\"kind\":\"option\",\"name\":"@.len())[9] == s@[pos + 9]);
                            assert(s@.subrange(pos as int, p1 as int)[9] == s@[pos + 9]);
                            assert(false);
                        },
                        DefType::PhantomData(p) => {
                            reveal_strlit("{\"kind\":\"phantomData\",\"name\":");
                            assert(s@.subrange(pos as int, pos + "{\"kind\":\"phantomData\",\"name\":"@.len())[9] == s@[pos + 9]);
                            assert(s@.subrange(pos as int, p1 as int)[9] == s@[pos + 9]);
                            assert(false);
                        },
                        DefType::Cell(p) => {
                            reveal_strlit("{\"kind\":\"cell\",\"name\":");
                            assert(s@.subrange(pos as int, pos + "{\"kind\":\"cell\",\"name\":"@.len())[9] == s@[pos + 9]);
                            assert(s@.subrange(pos as int, p1 as int)[9] == s@[pos + 9]);
                            assert(false);
                        },
                        DefType::RefCell(p) => {
                            reveal_strlit("{\"kind\":\"refCell\",\"name\":");
                            assert(s@.subrange(pos as int, pos + "{\"kind\":\"refCell\",\"name\":"@.len())[9] == s@[pos + 9]);
                            assert(s@.subrange(pos as int, p1 as int)[9] == s@[pos + 9]);
                            assert(false);
                        },
                        DefType::Mutex(p) => {
                            reveal_strlit("{\"kind\":\"mutex\",\"name\":");
                            assert(s@.subrange(pos as int, pos + "{\"kind\":\"mutex\",\"name\":"@.len())[9] == s@[pos + 9]);
                            assert(s@.subrange(pos as int, p1 as int)[9] == s@[pos + 9]);
                            assert(false);
                        },
                        DefType::RwLock(p) => {
                            reveal_strlit("{\"kind\":\"rwLock\",\"name\":");
                            assert(s@.subrange(pos as int, pos + "{\"kind\":\"rwLock\",\"name\":"@.len())[9] == s@[pos + 9]);
                            assert(s@.subrange(pos as int, p1 as int)[9] == s@[pos + 9]);
                            assert(false);
                        },
                        DefType::Rc(p) => {
                            reveal_strlit("{\"kind\":\"rc\",\"name\":");
                            assert(s@.subrange(pos as int, pos + "{\"kind\":\"rc\",\"name\":"@.len())[9] == s@[pos + 9]);
                            assert(s@.subrange(pos as int, p1 as int)[9] == s@[pos + 9]);
                            assert(false);
                        },
                        DefType::Arc(p) => {
                            reveal_strlit("{\"kind\":\"arc\",\"name\":");
                            assert(s@.subrange(pos as int, pos + "{\"kind\":\"arc\",\"name\":"@.len())[9] == s@[pos + 9]);
                            assert(s@.subrange(pos as int, p1 as int)[9] == s@[pos + 9]);
                            assert(false);
                        },
                        DefType::Result(p) => {
                            reveal_strlit("{\"kind\":\"result\",\"name\":");
                            assert(s@.subrange(pos as int, pos + "{\"kind\":\"result\",\"name\":"@.len())[9] == s@[pos + 9]);
                            assert(s@.subrange(pos as int, p1 as int)[9] == s@[pos + 9]);
                            assert(false);
                        },
                        DefType::Struct(p) => {
                            reveal_strlit("{\"kind\":\"struct\",\"name\":");
                            assert(s@.subrange(pos as int, pos + "{\"kind\":\"struct\",\"name\":"@.len())[9] == s@[pos + 9]);
                            assert(s@.subrange(pos as int, p1 as int)[9] == s@[pos + 9]);
                            assert(false);
                        },
                        }
                    }
                }
            }
            return None;
        },
    };
    let (vtag, p_f) = match parse_tag(s, p_e) {
        Some(t) => t,
        None => {
            proof {
                reveal_strlit("{\"kind\":\"enum\",\"name\":");
                assert forall|d: DefType, q: int| !desc_run(s@, pos as int, q, d) by {
                    if desc_run(s@, pos as int, q, d) {
                        lemma_desc_pieces(s@, pos as int, q, d);
                        match d {
                        DefType::Enum(p) => {
                            lemma_enumrest_pieces(s@, pos + "{\"kind\":\"enum\",\"name\":"@.len() + jstr(p.name@).len(), q, p.ser_name@, p.size, p.align, p.variants@, p.tag);
                            assert(false);
                        },
                        DefType::Primitive(p) => {
                            reveal_strlit("{\"kind\":\"primitive\",\"name\":");
                            assert(s@.subrange(pos as int, pos + "{\"kind\":\"primitive\",\"name\":"@.len())[9] == s@[pos + 9]);
                            assert(s@.subrange(pos as int, p1 as int)[9] == s@[pos + 9]);
                            assert(false);
                        },
                        DefType::String(p) => {
                            reveal_strlit("{\"kind\":\"string\",\"name\":");
                            assert(s@.subrange(pos as int, pos + "{\"kind\":\"string\",\"name\":"@.len())[9] == s@[pos + 9]);
                            assert(s@.subrange(pos as int, p1 as int)[9] == s@[pos + 9]);
                            assert(false);
                        },
                        DefType::StrSlice(p) => {
                            reveal_strlit("{\"kind\":\"strSlice\",\"name\":");
                            assert(s@.subrange(pos as int, pos + "{\"kind\":\"strSlice\",\"name\":"@.len())[9] == s@[pos + 9]);
                            assert(s@.subrange(pos as int, p1 as int)[9] == s@[pos + 9]);
                            assert(false);
                        },
                        DefType::Str(p) => {
                            reveal_strlit("{\"kind\":\"str\",\"name\":");
                            assert(s@.subrange(pos as int, pos + "{\"kind\":\"str\",\"name\":"@.len())[9] == s@[pos + 9]);
                            assert(s@.subrange(pos as int, p1 as int)[9] == s@[pos + 9]);
                            assert(false);
                        },
                        DefType::Box(p) => {
                            reveal_strlit("{\"kind\":\"box\",\"name\":");
                            assert(s@.subrange(pos as int, pos + "{\"kind\":\"box\",\"name\":"@.len())[9] == s@[pos + 9]);
                            assert(s@.subrange(pos as int, p1 as int)[9] == s@[pos + 9]);
                            assert(false);
                        },
                        DefType::Vec(p) => {
                            reveal_strlit("{\"kind\":\"vec\",\"name\":");
                            assert(s@.subrange(pos as int, pos + "{\"kind\":\"vec\",\"name\":"@.len())[9] == s@[pos + 9]);
                            assert(s@.subrange(pos as int, p1 as int)[9] == s@[pos + 9]);
                            assert(false);
                        },
                        DefType::Option(p) => {
                            reveal_strlit("{\"kind\":\"option\",\"name\":");
                            assert(s@.subrange(pos as int, pos + "{\"kind\":\"option\",\"name\":"@.len())[9] == s@[pos + 9]);
                            assert(s@.subrange(pos as int, p1 as int)[9] == s@[pos + 9]);
                            assert(false);
                        },
                        DefType::PhantomData(p) => {
                            reveal_strlit("{\"kind\":\"phantomData\",\"name\":");
                            assert(s@.subrange(pos as int, pos + "{\"kind\":\"phantomData\",\"name\":"@.len())[9] == s@[pos + 9]);
                            assert(s@.subrange(pos as int, p1 as int)[9] == s@[pos + 9]);
                            assert(false);
                        },
                        DefType::Cell(p) => {
                            reveal_strlit("{\"kind\":\"cell\",\"name\":");
                            assert(s@.subrange(pos as int, pos + "{\"kind\":\"cell\",\"name\":"@.len())[9] == s@[pos + 9]);
                            assert(s@.subrange(pos as int, p1 as int)[9] == s@[pos + 9]);
                            assert(false);
                        },
                        DefType::RefCell(p) => {
                            reveal_strlit("{\"kind\":\"refCell\",\"name\":");
                            assert(s@.subrange(pos as int, pos + "{\"kind\":\"refCell\",\"name\":"@.len())[9] == s@[pos + 9]);
                            assert(s@.subrange(pos as int, p1 as int)[9] == s@[pos + 9]);
                            assert(false);
                        },
                        DefType::Mutex(p) => {
                            reveal_strlit("{\"kind\":\"mutex\",\"name\":");
                            assert(s@.subrange(pos as int, pos + "{\"kind\":\"mutex\",\"name\":"@.len())[9] == s@[pos + 9]);
                            assert(s@.subrange(pos as int, p1 as int)[9] == s@[pos + 9]);
                            assert(false);
                        },
                        DefType::RwLock(p) => {
                            reveal_strlit("{\"kind\":\"rwLock\",\"name\":");
                            assert(s@.subrange(pos as int, pos + "{\"kind\":\"rwLock\",\"name\":"@.len())[9] == s@[pos + 9]);
                            assert(s@.subrange(pos as int, p1 as int)[9] == s@[pos + 9]);
                            assert(false);
                        },
                        DefType::Rc(p) => {
                            reveal_strlit("{\"kind\":\"rc\",\"name\":");
                            assert(s@.subrange(pos as int, pos + "{\"kind\":\"rc\",\"name\":"@.len())[9] == s@[pos + 9]);
                            assert(s@.subrange(pos as int, p1 as int)[9] == s@[pos + 9]);
                            assert(false);
                        },
                        DefType::Arc(p) => {
                            reveal_strlit("{\"kind\":\"arc\",\"name\":");
                            assert(s@.subrange(pos as int, pos + "{\"kind\":\"arc\",\"name\":"@.len())[9] == s@[pos + 9]);
                            assert(s@.subrange(pos as int, p1 as int)[9] == s@[pos + 9]);
                            assert(false);
                        },
                        DefType::Result(p) => {
                            reveal_strlit("{\"kind\":\"result\",\"name\":");
                            assert(s@.subrange(pos as int, pos + "{\"kind\":\"result\",\"name\":"@.len())[9] == s@[pos + 9]);
                            assert(s@.subrange(pos as int, p1 as int)[9] == s@[pos + 9]);
                            assert(false);
                        },
                        DefType::Struct(p) => {
                            reveal_strlit("{\"kind\":\"struct\",\"name\":");
                            assert(s@.subrange(pos as int, pos + "{\"kind\":\"struct\",\"name\":"@.len())[9] == s@[pos + 9]);
                            assert(s@.subrange(pos as int, p1 as int)[9] == s@[pos + 9]);
                            assert(false);
                        },
                        }
                    }
                }
            }
            return None;
        },
    };
    let pz = match expect(s, p_f, "}") {
        Some(t) => t,
        None => {
            proof {
                reveal_strlit("{\"kind\":\"enum\",\"name\":");
                assert forall|d: DefType, q: int| !desc_run(s@, pos as int, q, d) by {
                    if desc_run(s@, pos as int, q, d) {
                        lemma_desc_pieces(s@, pos as int, q, d);
                        match d {
                        DefType::Enum(p) => {
                            lemma_enumrest_pieces(s@, pos + "{\"kind\":\"enum\",\"name\":"@.len() + jstr(p.name@).len(), q, p.ser_name@, p.size, p.align, p.variants@, p.tag);
                            assert(false);
                        },
                        DefType::Primitive(p) => {
                            reveal_strlit("{\"kind\":\"primitive\",\"name\":");
                            assert(s@.subrange(pos as int, pos + "{\"kind\":\"primitive\",\"name\":"@.len())[9] == s@[pos + 9]);
                            assert(s@.subrange(pos as int, p1 as int)[9] == s@[pos + 9]);
                            assert(false);
                        },
                        DefType::String(p) => {
                            reveal_strlit("{\"kind\":\"string\",\"name\":");
                            assert(s@.subrange(pos as int, pos + "{\"kind\":\"string\",\"name\":"@.len())[9] == s@[pos + 9]);
                            assert(s@.subrange(pos as int, p1 as int)[9] == s@[pos + 9]);
                            assert(false);
                        },
                        DefType::StrSlice(p) => {
                            reveal_strlit("{\"kind\":\"strSlice\",\"name\":");
                            assert(s@.subrange(pos as int, pos + "{\"kind\":\"strSlice\",\"name\":"@.len())[9] == s@[pos + 9]);
                            assert(s@.subrange(pos as int, p1 as int)[9] == s@[pos + 9]);
                            assert(false);
                        },
                        DefType::Str(p) => {
                            reveal_strlit("{\"kind\":\"str\",\"name\":");
                            assert(s@.subrange(pos as int, pos + "{\"kind\":\"str\",\"name\":"@.len())[9] == s@[pos + 9]);
                            assert(s@.subrange(pos as int, p1 as int)[9] == s@[pos + 9]);
                            assert(false);
                        },
                        DefType::Box(p) => {
                            reveal_strlit("{\"kind\":\"box\",\"name\":");
                            assert(s@.subrange(pos as int, pos + "{\"kind\":\"box\",\"name\":"@.len())[9] == s@[pos + 9]);
                            assert(s@.subrange(pos as int, p1 as int)[9] == s@[pos + 9]);
                            assert(false);
                        },
                        DefType::Vec(p) => {
                            reveal_strlit("{\"kind\":\"vec\",\"name\":");
                            assert(s@.subrange(pos as int, pos + "{\"kind\":\"vec\",\"name\":"@.len())[9] == s@[pos + 9]);
                            assert(s@.subrange(pos as int, p1 as int)[9] == s@[pos + 9]);
                            assert(false);
                        },
                        DefType::Option(p) => {
                            reveal_strlit("{\"kind\":\"option\",\"name\":");
                            assert(s@.subrange(pos as int, pos + "{\"kind\":\"option\",\"name\":"@.len())[9] == s@[pos + 9]);
                            assert(s@.subrange(pos as int, p1 as int)[9] == s@[pos + 9]);
                            assert(false);
                        },
                        DefType::PhantomData(p) => {
                            reveal_strlit("{\"kind\":\"phantomData\",\"name\":");
                            assert(s@.subrange(pos as int, pos + "{\"kind\":\"phantomData\",\"name\":"@.len())[9] == s@[pos + 9]);
                            assert(s@.subrange(pos as int, p1 as int)[9] == s@[pos + 9]);
                            assert(false);
                        },
                        DefType::Cell(p) => {
                            reveal_strlit("{\"kind\":\"cell\",\"name\":");
                            assert(s@.subrange(pos as int, pos + "{\"kind\":\"cell\",\"name\":"@.len())[9] == s@[pos + 9]);
                            assert(s@.subrange(pos as int, p1 as int)[9] == s@[pos + 9]);
                            assert(false);
                        },
                        DefType::RefCell(p) => {
                            reveal_strlit("{\"kind\":\"refCell\",\"name\":");
                            assert(s@.subrange(pos as int, pos + "{\"kind\":\"refCell\",\"name\":"@.len())[9] == s@[pos + 9]);
                            assert(s@.subrange(pos as int, p1 as int)[9] == s@[pos + 9]);
                            assert(false);
                        },
                        DefType::Mutex(p) => {
                            reveal_strlit("{\"kind\":\"mutex\",\"name\":");
                            assert(s@.subrange(pos as int, pos + "{\"kind\":\"mutex\",\"name\":"@.len())[9] == s@[pos + 9]);
                            assert(s@.subrange(pos as int, p1 as int)[9] == s@[pos + 9]);
                            assert(false);
                        },
                        DefType::RwLock(p) => {
                            reveal_strlit("{\"kind\":\"rwLock\",\"name\":");
                            assert(s@.subrange(pos as int, pos + "{\"kind\":\"rwLock\",\"name\":"@.len())[9] == s@[pos + 9]);
                            assert(s@.subrange(pos as int, p1 as int)[9] == s@[pos + 9]);
                            assert(false);
                        },
                        DefType::Rc(p) => {
                            reveal_strlit("{\"kind\":\"rc\",\"name\":");
                            assert(s@.subrange(pos as int, pos + "{\"kind\":\"rc\",\"name\":"@.len())[9] == s@[pos + 9]);
                            assert(s@.subrange(pos as int, p1 as int)[9] == s@[pos + 9]);
                            assert(false);
                        },
                        DefType::Arc(p) => {
                            reveal_strlit("{\"kind\":\"arc\",\"name\":");
                            assert(s@.subrange(pos as int, pos + "{\"kind\":\"arc\",\"name\":"@.len())[9] == s@[pos + 9]);
                            assert(s@.subrange(pos as int, p1 as int)[9] == s@[pos + 9]);
                            assert(false);
                        },
                        DefType::Result(p) => {
                            reveal_strlit("{\"kind\":\"result\",\"name\":");
                            assert(s@.subrange(pos as int, pos + "{\"kind\":\"result\",\"name\":"@.len())[9] == s@[pos + 9]);
                            assert(s@.subrange(pos as int, p1 as int)[9] == s@[pos + 9]);
                            assert(false);
                        },
                        DefType::Struct(p) => {
                            reveal_strlit("{\"kind\":\"struct\",\"name\":");
                            assert(s@.subrange(pos as int, pos + "{\"kind\":\"struct\",\"name\":"@.len())[9] == s@[pos + 9]);
                            assert(s@.subrange(pos as int, p1 as int)[9] == s@[pos + 9]);
                            assert(false);
                        },
                        }
                    }
                }
            }
            return None;
        },
    };
    let d0 = DefType::Enum(DefEnum { name: vname, ser_name: vser, size: vsize, align: valign, variants: vvariants, tag: vtag });
    proof {
        reveal_strlit("{\"kind\":\"enum\",\"name\":");
        reveal_strlit("{\"kind\":\"");
        reveal_strlit("enum");
        reveal_strlit("\",\"name\":");
        assert("{\"kind\":\"enum\",\"name\":"@ =~= "{\"kind\":\""@ + "enum"@ + "\",\"name\":"@);
        lemma_subrange_concat(s@, pos as int, p1 as int, p2 as int);
        lemma_subrange_concat(s@, pos as int, p2 as int, p_a as int);
        lemma_subrange_concat(s@, pos as int, p_a as int, p_b as int);
        lemma_subrange_concat(s@, pos as int, p_b as int, p_c as int);
        lemma_subrange_concat(s@, pos as int, p_c as int, p_d as int);
        lemma_subrange_concat(s@, pos as int, p_d as int, p_e as int);
        lemma_subrange_concat(s@, pos as int, p_e as int, p_f as int);
        lemma_subrange_concat(s@, pos as int, p_f as int, pz as int);
        assert(s@.subrange(pos as int, pz as int) =~= jdesc(d0));
        assert forall|d: DefType, q: int| desc_run(s@, pos as int, q, d) implies (d is Enum && desc_like(d0, d) && pz as int == q) by {
            lemma_desc_pieces(s@, pos as int, q, d);
            match d {
            DefType::Enum(p) => {
                lemma_enumrest_pieces(s@, pos + "{\"kind\":\"enum\",\"name\":"@.len() + jstr(p.name@).len(), q, p.ser_name@, p.size, p.align, p.variants@, p.tag);
            },
            DefType::Primitive(p) => {
                reveal_strlit("{\"kind\":\"primitive\",\"name\":");
                assert(s@.subrange(pos as int, pos + "{\"kind\":\"primitive\",\"name\":"@.len())[9] == s@[pos + 9]);
                assert(s@.subrange(pos as int, p1 as int)[9] == s@[pos + 9]);
                assert(false);
            },
            DefType::String(p) => {
                reveal_strlit("{\"kind\":\"string\",\"name\":");
                assert(s@.subrange(pos as int, pos + "{\"kind\":\"string\",\"name\":"@.len())[9] == s@[pos + 9]);
                assert(s@.subrange(pos as int, p1 as int)[9] == s@[pos + 9]);
                assert(false);
            },
            DefType::StrSlice(p) => {
                reveal_strlit("{\"kind\":\"strSlice\",\"name\":");
                assert(s@.subrange(pos as int, pos + "{\"kind\":\"strSlice\",\"name\":"@.len())[9] == s@[pos + 9]);
                assert(s@.subrange(pos as int, p1 as int)[9] == s@[pos + 9]);
                assert(false);
            },
            DefType::Str(p) => {
                reveal_strlit("{\"kind\":\"str\",\"name\":");
                assert(s@.subrange(pos as int, pos + "{\"kind\":\"str\",\"name\":"@.len())[9] == s@[pos + 9]);
                assert(s@.subrange(pos as int, p1 as int)[9] == s@[pos + 9]);
                assert(false);
            },
            DefType::Box(p) => {
                reveal_strlit("{\"kind\":\"box\",\"name\":");
                assert(s@.subrange(pos as int, pos + "{\"kind\":\"box\",\"name\":"@.len())[9] == s@[pos + 9]);
                assert(s@.subrange(pos as int, p1 as int)[9] == s@[pos + 9]);
                assert(false);
            },
            DefType::Vec(p) => {
                reveal_strlit("{\"kind\":\"vec\",\"name\":");
                assert(s@.subrange(pos as int, pos + "{\"kind\":\"vec\",\"name\":"@.len())[9] == s@[pos + 9]);
                assert(s@.subrange(pos as int, p1 as int)[9] == s@[pos + 9]);
                assert(false);
            },
            DefType::Option(p) => {
                reveal_strlit("{\"kind\":\"option\",\"name\":");
                assert(s@.subrange(pos as int, pos + "{\"kind\":\"option\",\"name\":"@.len())[9] == s@[pos + 9]);
                assert(s@.subrange(pos as int, p1 as int)[9] == s@[pos + 9]);
                assert(false);
            },
            DefType::PhantomData(p) => {
                reveal_strlit("{\"kind\":\"phantomData\",\"name\":");
                assert(s@.subrange(pos as int, pos + "{\"kind\":\"phantomData\",\"name\":"@.len())[9] == s@[pos + 9]);
                assert(s@.subrange(pos as int, p1 as int)[9] == s@[pos + 9]);
                assert(false);
            },
            DefType::Cell(p) => {
                reveal_strlit("{\"kind\":\"cell\",\"name\":");
                assert(s@.subrange(pos as int, pos + "{\"kind\":\"cell\",\"name\":"@.len())[9] == s@[pos + 9]);
                assert(s@.subrange(pos as int, p1 as int)[9] == s@[pos + 9]);
                assert(false);
            },
            DefType::RefCell(p) => {
                reveal_strlit("{\"kind\":\"refCell\",\"name\":");
                assert(s@.subrange(pos as int, pos + "{\"kind\":\"refCell\",\"name\":"@.len())[9] == s@[pos + 9]);
                assert(s@.subrange(pos as int, p1 as int)[9] == s@[pos + 9]);
                assert(false);
            },
            DefType::Mutex(p) => {
                reveal_strlit("{\"kind\":\"mutex\",\"name\":");
                assert(s@.subrange(pos as int, pos + "{\"kind\":\"mutex\",\"name\":"@.len())[9] == s@[pos + 9]);
                assert(s@.subrange(pos as int, p1 as int)[9] == s@[pos + 9]);
                assert(false);
            },
            DefType::RwLock(p) => {
                reveal_strlit("{\"kind\":\"rwLock\",\"name\":");
                assert(s@.subrange(pos as int, pos + "{\"kind\":\"rwLock\",\"name\":"@.len())[9] == s@[pos + 9]);
                assert(s@.subrange(pos as int, p1 as int)[9] == s@[pos + 9]);
                assert(false);
            },
            DefType::Rc(p) => {
                reveal_strlit("{\"kind\":\"rc\",\"name\":");
                assert(s@.subrange(pos as int, pos + "{\"kind\":\"rc\",\"name\":"@.len())[9] == s@[pos + 9]);
                assert(s@.subrange(pos as int, p1 as int)[9] == s@[pos + 9]);
                assert(false);
            },
            DefType::Arc(p) => {
                reveal_strlit("{\"kind\":\"arc\",\"name\":");
                assert(s@.subrange(pos as int, pos + "{\"kind\":\"arc\",\"name\":"@.len())[9] == s@[pos + 9]);
                assert(s@.subrange(pos as int, p1 as int)[9] == s@[pos + 9]);
                assert(false);
            },
            DefType::Result(p) => {
                reveal_strlit("{\"kind\":\"result\",\"name\":");
                assert(s@.subrange(pos as int, pos + "{\"kind\":\"result\",\"name\":"@.len())[9] == s@[pos + 9]);
                assert(s@.subrange(pos as int, p1 as int)[9] == s@[pos + 9]);
                assert(false);
            },
            DefType::Struct(p) => {
                reveal_strlit("{\"kind\":\"struct\",\"name\":");
                assert(s@.subrange(pos as int, pos + "{\"kind\":\"struct\",\"name\":"@.len())[9] == s@[pos + 9]);
                assert(s@.subrange(pos as int, p1 as int)[9] == s@[pos + 9]);
                assert(false);
            },
            }
        }
    }
    Some((d0, pz))
}

fn parse_desc(s: &Vec<char>, pos: usize) -> (r: Option<(DefType, usize)>)
    ensures
        (r matches Some((d, p)) ==> pos < p <= s@.len() && s@.subrange(pos as int, p as int) == jdesc(d)),
        (forall|d: DefType, q: int| desc_run(s@, pos as int, q, d) ==> (r matches Some((d2, p)) && desc_like(d2, d) && p == q)),
{
    if let Some(t) = parse_desc_primitive(s, pos) {
        return Some(t);
    }
    if let Some(t) = parse_desc_string(s, pos) {
        return Some(t);
    }
    if let Some(t) = parse_desc_strslice(s, pos) {
        return Some(t);
    }
    if let Some(t) = parse_desc_str(s, pos) {
        return Some(t);
    }
    if let Some(t) = parse_desc_box(s, pos) {
        return Some(t);
    }
    if let Some(t) = parse_desc_vec(s, pos) {
        return Some(t);
    }
    if let Some(t) = parse_desc_option(s, pos) {
        return Some(t);
    }
    if let Some(t) = parse_desc_phantomdata(s, pos) {
        return Some(t);
    }
    if let Some(t) = parse_desc_cell(s, pos) {
        return Some(t);
    }
    if let Some(t) = parse_desc_refcell(s, pos) {
        return Some(t);
    }
    if let Some(t) = parse_desc_mutex(s, pos) {
        return Some(t);
    }
    if let Some(t) = parse_desc_rwlock(s, pos) {
        return Some(t);
    }
    if let Some(t) = parse_desc_rc(s, pos) {
        return Some(t);
    }
    if let Some(t) = parse_desc_arc(s, pos) {
        return Some(t);
    }
    if let Some(t) = parse_desc_result(s, pos) {
        return Some(t);
    }
    if let Some(t) = parse_desc_struct(s, pos) {
        return Some(t);
    }
    if let Some(t) = parse_desc_enum(s, pos) {
        return Some(t);
    }
    None
}

/// Every descriptor's rendering opens with a brace.
proof fn lemma_desc_head_char(s: Seq<char>, pos: int, q: int, d: DefType)
    requires
        desc_run(s, pos, q, d),
    ensures
        pos < s.len(),
        s[pos] == '{',
{
    lemma_desc_pieces(s, pos, q, d);
    match d {
        DefType::Primitive(p) => {
            reveal_strlit("{\"kind\":\"primitive\",\"name\":");
            assert(s.subrange(pos, pos + "{\"kind\":\"primitive\",\"name\":"@.len())[0] == s[pos]);
        },
        DefType::String(p) => {
            reveal_strlit("{\"kind\":\"string\",\"name\":");
            assert(s.subrange(pos, pos + "{\"kind\":\"string\",\"name\":"@.len())[0] == s[pos]);
        },
        DefType::StrSlice(p) => {
            reveal_strlit("{\"kind\":\"strSlice\",\"name\":");
            assert(s.subrange(pos, pos + "{\"kind\":\"strSlice\",\"name\":"@.len())[0] == s[pos]);
        },
        DefType::Str(p) => {
            reveal_strlit("{\"kind\":\"str\",\"name\":");
            assert(s.subrange(pos, pos + "{\"kind\":\"str\",\"name\":"@.len())[0] == s[pos]);
        },
        DefType::Box(p) => {
            reveal_strlit("{\"kind\":\"box\",\"name\":");
            assert(s.subrange(pos, pos + "{\"kind\":\"box\",\"name\":"@.len())[0] == s[pos]);
        },
        DefType::Vec(p) => {
            reveal_strlit("{\"kind\":\"vec\",\"name\":");
            assert(s.subrange(pos, pos + "{\"kind\":\"vec\",\"name\":"@.len())[0] == s[pos]);
        },
        DefType::Option(p) => {
            reveal_strlit("{\"kind\":\"option\",\"name\":");
            assert(s.subrange(pos, pos + "{\"kind\":\"option\",\"name\":"@.len())[0] == s[pos]);
        },
        DefType::PhantomData(p) => {
            reveal_strlit("{\"kind\":\"phantomData\",\"name\":");
            assert(s.subrange(pos, pos + "{\"kind\":\"phantomData\",\"name\":"@.len())[0] == s[pos]);
        },
        DefType::Cell(p) => {
            reveal_strlit("{\"kind\":\"cell\",\"name\":");
            assert(s.subrange(pos, pos + "{\"kind\":\"cell\",\"name\":"@.len())[0] == s[pos]);
        },
        DefType::RefCell(p) => {
            reveal_strlit("{\"kind\":\"refCell\",\"name\":");
            assert(s.subrange(pos, pos + "{\"kind\":\"refCell\",\"name\":"@.len())[0] == s[pos]);
        },
        DefType::Mutex(p) => {
            reveal_strlit("{\"kind\":\"mutex\",\"name\":");
            assert(s.subrange(pos, pos + "{\"kind\":\"mutex\",\"name\":"@.len())[0] == s[pos]);
        },
        DefType::RwLock(p) => {
            reveal_strlit("{\"kind\":\"rwLock\",\"name\":");
            assert(s.subrange(pos, pos + "{\"kind\":\"rwLock\",\"name\":"@.len())[0] == s[pos]);
        },
        DefType::Rc(p) => {
            reveal_strlit("{\"kind\":\"rc\",\"name\":");
            assert(s.subrange(pos, pos + "{\"kind\":\"rc\",\"name\":"@.len())[0] == s[pos]);
        },
        DefType::Arc(p) => {
            reveal_strlit("{\"kind\":\"arc\",\"name\":");
            assert(s.subrange(pos, pos + "{\"kind\":\"arc\",\"name\":"@.len())[0] == s[pos]);
        },
        DefType::Result(p) => {
            reveal_strlit("{\"kind\":\"result\",\"name\":");
            assert(s.subrange(pos, pos + "{\"kind\":\"result\",\"name\":"@.len())[0] == s[pos]);
        },
        DefType::Struct(p) => {
            reveal_strlit("{\"kind\":\"struct\",\"name\":");
            assert(s.subrange(pos, pos + "{\"kind\":\"struct\",\"name\":"@.len())[0] == s[pos]);
        },
        DefType::Enum(p) => {
            reveal_strlit("{\"kind\":\"enum\",\"name\":");
            assert(s.subrange(pos, pos + "{\"kind\":\"enum\",\"name\":"@.len())[0] == s[pos]);
        },
    }
}

/// The rendering of the elements from `k` on, with their separators.
pub open spec fn jdescs_from(es: Seq<DefType>, k: int) -> Seq<char>
    decreases es.len() - k,
{
    if k < 0 || k >= es.len() {
        Seq::empty()
    } else if k == 0 {
        jdesc(es[0]) + jdescs_from(es, 1)
    } else {
        seq![','] + jdesc(es[k]) + jdescs_from(es, k + 1)
    }
}

/// The forward rendering agrees with the rendering.
proof fn lemma_jdescs_from_full(es: Seq<DefType>)
    ensures
        jdescs_from(es, 0) == jdescs(es),
    decreases es.len(),
{
    if es.len() == 0 {
    } else if es.len() == 1 {
        assert(jdescs_from(es, 1) =~= Seq::<char>::empty());
        assert(jdescs_from(es, 0) =~= jdescs(es));
    } else {
        lemma_jdescs_from_full(es.drop_last());
        lemma_jdescs_from_shift(es, 0);
        assert(jdescs_from(es, 0) =~= jdescs(es));
    }
}

/// Dropping the last element removes exactly its separated rendering.
proof fn lemma_jdescs_from_shift(es: Seq<DefType>, k: int)
    requires
        0 <= k <= es.len() - 1,
        es.len() >= 2,
    ensures
        jdescs_from(es, k) == jdescs_from(es.drop_last(), k) + seq![','] + jdesc(es.last()),
    decreases es.len() - k,
{
    if k == es.len() - 1 {
        assert(jdescs_from(es.drop_last(), k) =~= Seq::<char>::empty());
        assert(jdescs_from(es, k + 1) =~= Seq::<char>::empty());
        if k == 0 {
            assert(jdescs_from(es, k) =~= jdescs_from(es.drop_last(), k) + seq![','] + jdesc(
                es.last(),
            ));
        } else {
            assert(jdescs_from(es, k) =~= jdescs_from(es.drop_last(), k) + seq![','] + jdesc(
                es.last(),
            ));
        }
    } else {
        lemma_jdescs_from_shift(es, k + 1);
        assert(es.drop_last()[k] == es[k]);
        assert(jdescs_from(es, k) =~= jdescs_from(es.drop_last(), k) + seq![','] + jdesc(
            es.last(),
        ));
    }
}

pub open spec fn descs_run(s: Seq<char>, pos: int, q: int, es: Seq<DefType>) -> bool {
    &&& 0 <= pos <= q <= s.len()
    &&& s.subrange(pos, q) == jdescs(es) + "]"@
}

#[verifier::rlimit(100)]
fn parse_descs(s: &Vec<char>, pos: usize) -> (r: Option<(Vec<DefType>, usize)>)
    ensures
        (r matches Some((es, p)) ==> pos <= p <= s@.len() && s@.subrange(pos as int, p as int)
            == jdescs(es@) + "]"@),
        (forall|es0: Seq<DefType>, q: int|
            descs_run(s@, pos as int, q, es0) ==> (r matches Some((es, p)) && es@.len()
                == es0.len() && (forall|i: int|
                0 <= i < es0.len() ==> desc_like(#[trigger] es@[i], es0[i])) && p == q)),
{
    if pos > s.len() {
        proof {
            assert forall|es0: Seq<DefType>, q: int| !descs_run(s@, pos as int, q, es0) by {}
        }
        return None;
    }
    let mut es: Vec<DefType> = Vec::new();
    let mut j: usize = pos;
    proof {
        assert(s@.subrange(pos as int, j as int) =~= jdescs(es@));
        assert forall|es0: Seq<DefType>, q: int|
            #[trigger] descs_run(s@, pos as int, q, es0) implies (j <= q && s@.subrange(
            j as int,
            q,
        ) == jdescs_from(es0, 0) + "]"@) by {
            lemma_jdescs_from_full(es0);
        }
    }
    loop
        invariant
            pos <= j <= s@.len(),
            s@.subrange(pos as int, j as int) == jdescs(es@),
            es@.len() >= 1 ==> j > pos,
            forall|es0: Seq<DefType>, q: int|
                #[trigger] descs_run(s@, pos as int, q, es0) ==> (es@.len() <= es0.len() && (
                forall|i: int| 0 <= i < es@.len() ==> desc_like(#[trigger] es@[i], es0[i]))
                    && j <= q && s@.subrange(j as int, q) == jdescs_from(es0, es@.len() as int) + "]"@),
        decreases s@.len() - j,
    {
        if let Some(p) = expect(s, j, "]") {
            proof {
                lemma_subrange_concat(s@, pos as int, j as int, p as int);
                assert forall|es0: Seq<DefType>, q: int|
                    descs_run(s@, pos as int, q, es0) implies (es@.len() == es0.len() && (forall|
                    i: int,
                |
                    0 <= i < es0.len() ==> desc_like(#[trigger] es@[i], es0[i])) && p as int
                    == q) by {
                    let k = es@.len() as int;
                    if k < es0.len() {
                        reveal_strlit("]");
                        lemma_descs_open_char(s@, j as int, q, es0, k);
                        assert(s@.subrange(j as int, p as int)[0] == s@[j as int]);
                        assert(false);
                    }
                    assert(jdescs_from(es0, k) =~= Seq::<char>::empty());
                    assert(Seq::<char>::empty() + "]"@ =~= "]"@);
                    assert(s@.subrange(j as int, q) =~= s@.subrange(j as int, p as int));
                }
            }
            return Some((es, p));
        }
        let pc = if es.len() > 0 {
            match expect(s, j, ",") {
                Some(p) => p,
                None => {
                    proof {
                        assert forall|es0: Seq<DefType>, q: int|
                            !descs_run(s@, pos as int, q, es0) by {
                            if descs_run(s@, pos as int, q, es0) {
                                let k = es@.len() as int;
                                reveal_strlit(",");
                                reveal_strlit("]");
                                if k == es0.len() {
                                    assert(Seq::<char>::empty() + "]"@ =~= "]"@);
                                    assert(s@.subrange(j as int, q) =~= "]"@);
                                    assert(s@.subrange(j as int, j + "]"@.len()) =~= "]"@);
                                    assert(false);
                                }
                                assert(jdescs_from(es0, k) =~= seq![','] + jdesc(es0[k])
                                    + jdescs_from(es0, k + 1));
                                assert(s@.subrange(j as int, q).len() == q - j);
                                assert(jdescs_from(es0, k)[0] == ',');
                                assert((jdescs_from(es0, k) + "]"@)[0] == ',');
                                assert(s@.subrange(j as int, q)[0] == s@[j as int]);
                                assert(s@[j as int] == ',');
                                assert(","@ =~= seq![',']);
                                assert(s@.subrange(j as int, j + 1) =~= seq![',']);
                                assert(false);
                            }
                        }
                    }
                    return None;
                },
            }
        } else {
            j
        };
        let (e, p2) = match parse_desc(s, pc) {
            Some(t) => t,
            None => {
                proof {
                    assert forall|es0: Seq<DefType>, q: int| !descs_run(s@, pos as int, q, es0) by {
                        if descs_run(s@, pos as int, q, es0) {
                            let k = es@.len() as int;
                            reveal_strlit(",");
                            reveal_strlit("]");
                            if k == es0.len() {
                                assert(Seq::<char>::empty() + "]"@ =~= "]"@);
                                assert(s@.subrange(j as int, q) =~= "]"@);
                                assert(s@.subrange(j as int, j + "]"@.len()) =~= "]"@);
                                assert(false);
                            }
                            lemma_descs_elem_at(s@, j as int, q, es0, k, pc as int);
                            assert(false);
                        }
                    }
                }
                return None;
            },
        };
        let ghost prev = es@;
        es.push(e);
        proof {
            if prev.len() == 0 {
                assert(es@ =~= seq![es@[0]]);
                assert(s@.subrange(pos as int, p2 as int) =~= jdescs(es@));
            } else {
                assert(es@.drop_last() =~= prev);
                assert(jdescs(es@) == jdescs(prev) + seq![','] + jdesc(e));
                reveal_strlit(",");
                assert(s@.subrange(j as int, pc as int) =~= seq![',']);
                lemma_subrange_concat(s@, pos as int, j as int, pc as int);
                lemma_subrange_concat(s@, pos as int, pc as int, p2 as int);
                assert(s@.subrange(pos as int, p2 as int) =~= jdescs(es@));
            }
            assert forall|es0: Seq<DefType>, q: int|
                descs_run(s@, pos as int, q, es0) implies (es@.len() <= es0.len() && (forall|
                i: int,
            |
                0 <= i < es@.len() ==> desc_like(#[trigger] es@[i], es0[i])) && p2 as int <= q
                && s@.subrange(p2 as int, q) == jdescs_from(es0, es@.len() as int) + "]"@) by {
                let k = prev.len() as int;
                reveal_strlit(",");
                reveal_strlit("]");
                if k == es0.len() {
                    assert(Seq::<char>::empty() + "]"@ =~= "]"@);
                    assert(s@.subrange(j as int, q) =~= "]"@);
                    assert(s@.subrange(j as int, j + "]"@.len()) =~= "]"@);
                    assert(false);
                }
                lemma_descs_elem_at(s@, j as int, q, es0, k, pc as int);
                assert(desc_run(s@, pc as int, pc + jdesc(es0[k]).len(), es0[k]));
                assert(p2 as int == pc + jdesc(es0[k]).len());
                assert forall|i: int| 0 <= i < es@.len() implies desc_like(
                    #[trigger] es@[i],
                    es0[i],
                ) by {
                    if i < k {
                        assert(es@[i] == prev[i]);
                    }
                }
                lemma_subrange_concat(s@, j as int, p2 as int, q);
                assert(s@.subrange(p2 as int, q) =~= jdescs_from(es0, k + 1) + "]"@);
            }
        }
        j = p2;
    }
}

/// Where the next element's rendering stands inside a spanned run.
proof fn lemma_descs_elem_at(s: Seq<char>, j: int, q: int, es0: Seq<DefType>, k: int, pc: int)
    requires
        0 <= j <= q <= s.len(),
        0 <= k < es0.len(),
        s.subrange(j, q) == jdescs_from(es0, k) + "]"@,
        pc == if k == 0 {
            j
        } else {
            j + 1
        },
    ensures
        desc_run(s, pc, pc + jdesc(es0[k]).len(), es0[k]),
        pc + jdesc(es0[k]).len() <= q,
        k >= 1 ==> s.subrange(j, j + 1) == seq![','],
        s.subrange(pc + jdesc(es0[k]).len(), q) == jdescs_from(es0, k + 1) + "]"@,
{
    assert(s.subrange(j, q).len() == q - j);
    if k == 0 {
        assert(jdescs_from(es0, k) + "]"@ =~= jdesc(es0[0]) + (jdescs_from(es0, 1) + "]"@));
        lemma_take_lit(s, j, q, jdesc(es0[0]), jdescs_from(es0, 1) + "]"@);
    } else {
        assert(jdescs_from(es0, k) + "]"@ =~= seq![','] + (jdesc(es0[k]) + (jdescs_from(
            es0,
            k + 1,
        ) + "]"@)));
        lemma_take_lit(s, j, q, seq![','], jdesc(es0[k]) + (jdescs_from(es0, k + 1) + "]"@));
        lemma_take_lit(s, j + 1, q, jdesc(es0[k]), jdescs_from(es0, k + 1) + "]"@);
    }
    assert(s.subrange(pc + jdesc(es0[k]).len(), q) =~= jdescs_from(es0, k + 1) + "]"@);
}

/// The first character of a pending element differs from the terminator's.
proof fn lemma_descs_open_char(s: Seq<char>, j: int, q: int, es0: Seq<DefType>, k: int)
    requires
        0 <= j <= q <= s.len(),
        0 <= k < es0.len(),
        s.subrange(j, q) == jdescs_from(es0, k) + "]"@,
    ensures
        j < s.len(),
        k == 0 ==> s[j] == '{',
        k >= 1 ==> s[j] == ',',
{
    assert(s.subrange(j, q).len() == q - j);
    if k == 0 {
        assert(jdescs_from(es0, k) + "]"@ =~= jdesc(es0[0]) + (jdescs_from(es0, 1) + "]"@));
        lemma_take_lit(s, j, q, jdesc(es0[0]), jdescs_from(es0, 1) + "]"@);
        lemma_desc_head_char(s, j, j + jdesc(es0[0]).len(), es0[0]);
    } else {
        assert(jdescs_from(es0, k) + "]"@ =~= seq![','] + (jdesc(es0[k]) + (jdescs_from(
            es0,
            k + 1,
        ) + "]"@)));
        lemma_take_lit(s, j, q, seq![','], jdesc(es0[k]) + (jdescs_from(es0, k + 1) + "]"@));
        assert(s.subrange(j, j + 1)[0] == s[j]);
    }
}

/// A whole catalog text opens with a bracket and spans a run of descriptors.
proof fn lemma_catalog_run(s: Seq<char>, ds: Seq<DefType>)
    requires
        s == jcatalog(ds),
    ensures
        s.len() >= 2,
        s.subrange(0, 1) == "["@,
        descs_run(s, 1, s.len() as int, ds),
{
    reveal_strlit("[");
    reveal_strlit("]");
    assert("["@ =~= seq!['[']);
    assert("]"@ =~= seq![']']);
    assert(jcatalog(ds) =~= seq!['['] + (jdescs(ds) + "]"@));
    assert(s.subrange(0, s.len() as int) =~= s);
    lemma_take_lit(s, 0, s.len() as int, seq!['['], jdescs(ds) + "]"@);
    assert(s.subrange(0, 1) =~= "["@);
}

/// Parse a catalog back from the boundary text format.
///
/// The contract runs in both directions. Whenever a catalog comes back, the
/// input was, character for character, that catalog's rendering, so rendering
/// the result again reproduces the input. And on every rendered catalog the
/// parse succeeds and hands back, entry for entry, the rendered contents: put
/// together with the renderer's own contract, parsing what `types_to_json`
/// wrote returns the original catalog.
pub fn types_from_json(s: &str) -> (r: Option<Vec<DefType>>)
    ensures
        (r matches Some(v) ==> s@ == jcatalog(v@)),
        (forall|ds: Seq<DefType>|
            s@ == #[trigger] jcatalog(ds) ==> (r matches Some(v) && v@.len() == ds.len() && (
            forall|i: int| 0 <= i < ds.len() ==> desc_like(#[trigger] v@[i], ds[i])))),
{
    let chars = string_to_chars(s);
    let n = chars.len();
    let p0 = match expect(&chars, 0, "[") {
        Some(p) => p,
        None => {
            proof {
                assert forall|ds: Seq<DefType>| s@ != jcatalog(ds) by {
                    if s@ == jcatalog(ds) {
                        lemma_catalog_run(chars@, ds);
                        assert(false);
                    }
                }
            }
            return None;
        },
    };
    let (ds, p1) = match parse_descs(&chars, p0) {
        Some(t) => t,
        None => {
            proof {
                assert forall|ds0: Seq<DefType>| s@ != jcatalog(ds0) by {
                    if s@ == jcatalog(ds0) {
                        lemma_catalog_run(chars@, ds0);
                        assert(false);
                    }
                }
            }
            return None;
        },
    };
    if p1 != n {
        proof {
            assert forall|ds0: Seq<DefType>| s@ != jcatalog(ds0) by {
                if s@ == jcatalog(ds0) {
                    lemma_catalog_run(chars@, ds0);
                    assert(false);
                }
            }
        }
        return None;
    }
    proof {
        reveal_strlit("[");
        assert("["@ =~= seq!['[']);
        reveal_strlit("]");
        assert("]"@ =~= seq![']']);
        lemma_subrange_concat(chars@, 0, p0 as int, p1 as int);
        assert(chars@.subrange(0, n as int) =~= chars@);
        assert(chars@ =~= jcatalog(ds@));
        assert forall|ds0: Seq<DefType>|
            s@ == #[trigger] jcatalog(ds0) implies (ds@.len() == ds0.len() && (forall|i: int|
            0 <= i < ds0.len() ==> desc_like(#[trigger] ds@[i], ds0[i]))) by {
            lemma_catalog_run(chars@, ds0);
        }
    }
    Some(ds)
}

} // verus!

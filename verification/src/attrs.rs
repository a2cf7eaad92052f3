use vstd::prelude::*;

verus! {

broadcast use vstd::string::group_string_axioms;

/// One meta item of a serialization annotation list: `name = "value"`, or a
/// bare flag such as `flatten`.
#[derive(PartialEq, Eq, Hash, Debug)]
pub enum AttrItem {
    NameValue(String, String),
    Flag(String),
}

/// The serialization-facing annotations gathered from one container, field or
/// variant.
#[derive(PartialEq, Eq, Hash, Debug)]
pub struct SerdeAttrs {
    pub rename: Option<String>,
    pub rename_all: Option<String>,
    pub tag: Option<String>,
    pub content: Option<String>,
    pub untagged: bool,
    pub flatten: bool,
    pub skip: bool,
    pub transparent: bool,
}

/// A rejected annotation list: the same `name = "value"` key twice on one host.
#[derive(PartialEq, Eq, Hash, Debug)]
pub struct DuplicateAttr {
    pub key: String,
    pub host: String,
}

impl DuplicateAttr {
    /// The diagnostic for a doubled annotation key.
    pub fn message(&self) -> (r: String)
        ensures
            r@ == "Multiple serde `"@ + self.key@ + "` tags on same "@ + self.host@,
    {
        let mut m = String::from_str("Multiple serde `");
        m.append(self.key.as_str());
        m.append("` tags on same ");
        m.append(self.host.as_str());
        m
    }
}

impl Default for SerdeAttrs {
    /// No annotations at all: nothing renamed, nothing tagged, no flags set.
    fn default() -> (r: SerdeAttrs)
        ensures
            r.rename is None && r.rename_all is None && r.tag is None && r.content is None,
            !r.untagged && !r.flatten && !r.skip && !r.transparent,
    {
        SerdeAttrs {
            rename: None,
            rename_all: None,
            tag: None,
            content: None,
            untagged: false,
            flatten: false,
            skip: false,
            transparent: false,
        }
    }
}

/// The view of an optional string.
pub open spec fn opt_view(o: Option<String>) -> Option<Seq<char>> {
    match o {
        Some(s) => Some(s@),
        None => None,
    }
}

/// The value of the first `key = "value"` item under `key`, if any.
pub open spec fn first_nv(items: Seq<AttrItem>, key: Seq<char>) -> Option<Seq<char>>
    decreases items.len(),
{
    if items.len() == 0 {
        None
    } else {
        let prior = first_nv(items.drop_last(), key);
        if prior is Some {
            prior
        } else {
            match items.last() {
                AttrItem::NameValue(k, v) => if k@ == key {
                    Some(v@)
                } else {
                    None
                },
                AttrItem::Flag(_) => None,
            }
        }
    }
}

/// How many `key = "value"` items stand under `key`.
pub open spec fn nv_count(items: Seq<AttrItem>, key: Seq<char>) -> nat
    decreases items.len(),
{
    if items.len() == 0 {
        0
    } else {
        nv_count(items.drop_last(), key) + (match items.last() {
            AttrItem::NameValue(k, _) => if k@ == key {
                1nat
            } else {
                0nat
            },
            AttrItem::Flag(_) => 0nat,
        })
    }
}

/// Whether a bare flag named `key` occurs.
pub open spec fn has_flag(items: Seq<AttrItem>, key: Seq<char>) -> bool
    decreases items.len(),
{
    if items.len() == 0 {
        false
    } else {
        has_flag(items.drop_last(), key) || (items.last() matches AttrItem::Flag(k) && k@ == key)
    }
}

/// Gather the serialization annotations of a struct, enum, struct field or
/// enum variant (`host` names which, for diagnostics).
///
/// Each of the four valued keys (`rename`, `rename_all`, `tag`, `content`)
/// may occur at most once: a second occurrence is rejected. Bare flags
/// (`flatten`, `skip`, `untagged`, `transparent`) are idempotent, and any
/// unrecognized item is ignored.
pub fn get_serde_attrs(items: &Vec<AttrItem>, host: &str) -> (r: Result<SerdeAttrs, DuplicateAttr>)
    ensures
        (r is Ok <==> nv_count(items@, "rename"@) <= 1 && nv_count(items@, "rename_all"@) <= 1
            && nv_count(items@, "tag"@) <= 1 && nv_count(items@, "content"@) <= 1),
        (r matches Ok(a) ==> {
            &&& opt_view(a.rename) == first_nv(items@, "rename"@)
            &&& opt_view(a.rename_all) == first_nv(items@, "rename_all"@)
            &&& opt_view(a.tag) == first_nv(items@, "tag"@)
            &&& opt_view(a.content) == first_nv(items@, "content"@)
            &&& a.untagged == has_flag(items@, "untagged"@)
            &&& a.flatten == has_flag(items@, "flatten"@)
            &&& a.skip == has_flag(items@, "skip"@)
            &&& a.transparent == has_flag(items@, "transparent"@)
        }),
        (r matches Err(e) ==> {
            &&& e.host@ == host@
            &&& nv_count(items@, e.key@) >= 2
            &&& (e.key@ == "rename"@ || e.key@ == "rename_all"@ || e.key@ == "tag"@
                || e.key@ == "content"@)
        }),
{
    let mut out = SerdeAttrs {
        rename: None,
        rename_all: None,
        tag: None,
        content: None,
        untagged: false,
        flatten: false,
        skip: false,
        transparent: false,
    };
    let n = items.len();
    let mut i: usize = 0;
    while i < n
        invariant
            i <= n,
            n == items@.len(),
            opt_view(out.rename) == first_nv(items@.subrange(0, i as int), "rename"@),
            opt_view(out.rename_all) == first_nv(items@.subrange(0, i as int), "rename_all"@),
            opt_view(out.tag) == first_nv(items@.subrange(0, i as int), "tag"@),
            opt_view(out.content) == first_nv(items@.subrange(0, i as int), "content"@),
            out.untagged == has_flag(items@.subrange(0, i as int), "untagged"@),
            out.flatten == has_flag(items@.subrange(0, i as int), "flatten"@),
            out.skip == has_flag(items@.subrange(0, i as int), "skip"@),
            out.transparent == has_flag(items@.subrange(0, i as int), "transparent"@),
            nv_count(items@.subrange(0, i as int), "rename"@) <= 1,
            nv_count(items@.subrange(0, i as int), "rename_all"@) <= 1,
            nv_count(items@.subrange(0, i as int), "tag"@) <= 1,
            nv_count(items@.subrange(0, i as int), "content"@) <= 1,
        decreases n - i,
    {
        proof {
            reveal_strlit("rename");
            reveal_strlit("rename_all");
            reveal_strlit("tag");
            reveal_strlit("content");
            reveal_strlit("untagged");
            reveal_strlit("flatten");
            reveal_strlit("skip");
            reveal_strlit("transparent");
            assert("rename"@.len() == 6 && "rename_all"@.len() == 10 && "tag"@.len() == 3
                && "content"@.len() == 7 && "untagged"@.len() == 8 && "flatten"@.len() == 7
                && "skip"@.len() == 4 && "transparent"@.len() == 11);
            assert("rename"@ != "rename_all"@ && "rename"@ != "tag"@ && "rename"@ != "content"@
                && "rename_all"@ != "tag"@ && "rename_all"@ != "content"@ && "tag"@
                != "content"@);
            assert("untagged"@ != "flatten"@ && "untagged"@ != "skip"@ && "untagged"@
                != "transparent"@ && "flatten"@ != "skip"@ && "flatten"@ != "transparent"@
                && "skip"@ != "transparent"@);
            assert(items@.subrange(0, i + 1) =~= items@.subrange(0, i as int).push(items@[i as int]));
            assert(items@.subrange(0, i + 1).drop_last() =~= items@.subrange(0, i as int));
            lemma_first_nv_some_count(items@.subrange(0, i as int), "rename"@);
            lemma_first_nv_some_count(items@.subrange(0, i as int), "rename_all"@);
            lemma_first_nv_some_count(items@.subrange(0, i as int), "tag"@);
            lemma_first_nv_some_count(items@.subrange(0, i as int), "content"@);
        }
        match &items[i] {
            AttrItem::NameValue(k, v) => {
                if *k == String::from_str("rename") {
                    if out.rename.is_some() {
                        proof {
                            lemma_nv_count_grows(items@, i as int, "rename"@);
                        }
                        return Err(DuplicateAttr {
                            key: k.clone(),
                            host: String::from_str(host),
                        });
                    }
                    out.rename = Some(v.clone());
                } else if *k == String::from_str("rename_all") {
                    if out.rename_all.is_some() {
                        proof {
                            lemma_nv_count_grows(items@, i as int, "rename_all"@);
                        }
                        return Err(DuplicateAttr {
                            key: k.clone(),
                            host: String::from_str(host),
                        });
                    }
                    out.rename_all = Some(v.clone());
                } else if *k == String::from_str("tag") {
                    if out.tag.is_some() {
                        proof {
                            lemma_nv_count_grows(items@, i as int, "tag"@);
                        }
                        return Err(DuplicateAttr {
                            key: k.clone(),
                            host: String::from_str(host),
                        });
                    }
                    out.tag = Some(v.clone());
                } else if *k == String::from_str("content") {
                    if out.content.is_some() {
                        proof {
                            lemma_nv_count_grows(items@, i as int, "content"@);
                        }
                        return Err(DuplicateAttr {
                            key: k.clone(),
                            host: String::from_str(host),
                        });
                    }
                    out.content = Some(v.clone());
                }
            },
            AttrItem::Flag(k) => {
                if *k == String::from_str("untagged") {
                    out.untagged = true;
                } else if *k == String::from_str("flatten") {
                    out.flatten = true;
                } else if *k == String::from_str("skip") {
                    out.skip = true;
                } else if *k == String::from_str("transparent") {
                    out.transparent = true;
                }
            },
        }
        i += 1;
    }
    proof {
        assert(items@.subrange(0, n as int) =~= items@);
    }
    Ok(out)
}

/// A first occurrence exists exactly when the count is positive.
proof fn lemma_first_nv_some_count(items: Seq<AttrItem>, key: Seq<char>)
    ensures
        first_nv(items, key) is Some <==> nv_count(items, key) >= 1,
    decreases items.len(),
{
    if items.len() > 0 {
        lemma_first_nv_some_count(items.drop_last(), key);
    }
}

/// A key already seen in a prefix and seen again at `i` is counted at least
/// twice over the whole list.
proof fn lemma_nv_count_grows(items: Seq<AttrItem>, i: int, key: Seq<char>)
    requires
        0 <= i < items.len(),
        nv_count(items.subrange(0, i), key) >= 1,
        (items[i] matches AttrItem::NameValue(k, _) && k@ == key),
    ensures
        nv_count(items, key) >= 2,
    decreases items.len(),
{
    lemma_nv_count_prefix(items, i + 1, key);
    assert(items.subrange(0, i + 1).drop_last() =~= items.subrange(0, i));
    assert(items.subrange(0, i + 1).last() == items[i]);
    assert(nv_count(items.subrange(0, i + 1), key) >= 2);
}

/// A prefix never counts more occurrences than the whole list.
proof fn lemma_nv_count_prefix(items: Seq<AttrItem>, m: int, key: Seq<char>)
    requires
        0 <= m <= items.len(),
    ensures
        nv_count(items.subrange(0, m), key) <= nv_count(items, key),
    decreases items.len() - m,
{
    if m < items.len() {
        lemma_nv_count_prefix(items, m + 1, key);
        assert(items.subrange(0, m + 1).drop_last() =~= items.subrange(0, m));
        assert(nv_count(items.subrange(0, m), key) <= nv_count(items.subrange(0, m + 1), key));
    } else {
        assert(items.subrange(0, m) =~= items);
    }
}

} // verus!

use vstd::prelude::*;
use convert_case::Casing;

verus! {

// What each supported case conversion returns depends on the input characters
// alone, so each conversion's result is given a name; the contracts of the
// policy functions below speak of these names exactly.

pub uninterp spec fn lower_of(s: Seq<char>) -> Seq<char>;

pub uninterp spec fn upper_of(s: Seq<char>) -> Seq<char>;

pub uninterp spec fn pascal_of(s: Seq<char>) -> Seq<char>;

pub uninterp spec fn camel_of(s: Seq<char>) -> Seq<char>;

pub uninterp spec fn snake_of(s: Seq<char>) -> Seq<char>;

pub uninterp spec fn upper_snake_of(s: Seq<char>) -> Seq<char>;

pub uninterp spec fn kebab_of(s: Seq<char>) -> Seq<char>;

pub uninterp spec fn upper_kebab_of(s: Seq<char>) -> Seq<char>;

/// Relies on str::to_lowercase: the result depends on the characters alone.
#[verifier::external_body]
fn to_lower(s: &str) -> (r: String)
    ensures
        r@ == lower_of(s@),
{
    s.to_lowercase()
}

/// Relies on str::to_uppercase: the result depends on the characters alone.
#[verifier::external_body]
fn to_upper(s: &str) -> (r: String)
    ensures
        r@ == upper_of(s@),
{
    s.to_uppercase()
}

/// Relies on convert_case's Casing::to_case with Case::Pascal.
#[verifier::external_body]
fn to_pascal(s: &str) -> (r: String)
    ensures
        r@ == pascal_of(s@),
{
    s.to_case(convert_case::Case::Pascal)
}

/// Relies on convert_case's Casing::to_case with Case::Camel.
#[verifier::external_body]
fn to_camel(s: &str) -> (r: String)
    ensures
        r@ == camel_of(s@),
{
    s.to_case(convert_case::Case::Camel)
}

/// Relies on convert_case's Casing::to_case with Case::Snake.
#[verifier::external_body]
fn to_snake(s: &str) -> (r: String)
    ensures
        r@ == snake_of(s@),
{
    s.to_case(convert_case::Case::Snake)
}

/// Relies on convert_case's Casing::to_case with Case::UpperSnake.
#[verifier::external_body]
fn to_upper_snake(s: &str) -> (r: String)
    ensures
        r@ == upper_snake_of(s@),
{
    s.to_case(convert_case::Case::UpperSnake)
}

/// Relies on convert_case's Casing::to_case with Case::Kebab.
#[verifier::external_body]
fn to_kebab(s: &str) -> (r: String)
    ensures
        r@ == kebab_of(s@),
{
    s.to_case(convert_case::Case::Kebab)
}

/// Relies on convert_case's Casing::to_case with Case::UpperKebab.
#[verifier::external_body]
fn to_upper_kebab(s: &str) -> (r: String)
    ensures
        r@ == upper_kebab_of(s@),
{
    s.to_case(convert_case::Case::UpperKebab)
}

/// The eight case-conversion policies a container-level rename-all annotation
/// may name.
pub open spec fn is_rename_all_policy(p: Seq<char>) -> bool {
    ||| p == "lowercase"@
    ||| p == "UPPERCASE"@
    ||| p == "PascalCase"@
    ||| p == "camelCase"@
    ||| p == "snake_case"@
    ||| p == "SCREAMING_SNAKE_CASE"@
    ||| p == "kebab-case"@
    ||| p == "SCREAMING-KEBAB-CASE"@
}

/// What the rename-all policy `p` turns the declared name `s` into.
pub open spec fn rename_spec(s: Seq<char>, p: Seq<char>) -> Seq<char>
    recommends
        is_rename_all_policy(p),
{
    if p == "lowercase"@ {
        lower_of(s)
    } else if p == "UPPERCASE"@ {
        upper_of(s)
    } else if p == "PascalCase"@ {
        pascal_of(s)
    } else if p == "camelCase"@ {
        camel_of(s)
    } else if p == "snake_case"@ {
        snake_of(s)
    } else if p == "SCREAMING_SNAKE_CASE"@ {
        upper_snake_of(s)
    } else if p == "kebab-case"@ {
        kebab_of(s)
    } else {
        upper_kebab_of(s)
    }
}

/// Whether `p` names a supported rename-all policy.
pub fn is_valid_rename_all(p: &str) -> (r: bool)
    ensures
        r == is_rename_all_policy(p@),
{
    let s = String::from_str(p);
    s == String::from_str("lowercase") || s == String::from_str("UPPERCASE")
        || s == String::from_str("PascalCase") || s == String::from_str("camelCase")
        || s == String::from_str("snake_case") || s == String::from_str("SCREAMING_SNAKE_CASE")
        || s == String::from_str("kebab-case") || s == String::from_str("SCREAMING-KEBAB-CASE")
}

/// Rename a declared field or variant name according to a container-level
/// rename-all policy.
pub fn rename(s: &str, rename_all: &str) -> (r: String)
    requires
        is_rename_all_policy(rename_all@),
    ensures
        r@ == rename_spec(s@, rename_all@),
{
    let p = String::from_str(rename_all);
    if p == String::from_str("lowercase") {
        to_lower(s)
    } else if p == String::from_str("UPPERCASE") {
        to_upper(s)
    } else if p == String::from_str("PascalCase") {
        to_pascal(s)
    } else if p == String::from_str("camelCase") {
        to_camel(s)
    } else if p == String::from_str("snake_case") {
        to_snake(s)
    } else if p == String::from_str("SCREAMING_SNAKE_CASE") {
        to_upper_snake(s)
    } else if p == String::from_str("kebab-case") {
        to_kebab(s)
    } else {
        to_upper_kebab(s)
    }
}

/// A declared name stripped of the raw-identifier escape marker.
pub open spec fn ident_name_spec(s: Seq<char>) -> Seq<char> {
    if s.len() >= 2 && s[0] == 'r' && s[1] == '#' {
        s.subrange(2, s.len() as int)
    } else {
        s
    }
}

/// Get a struct field / enum variant name: an escaped keyword such as
/// `r#type` loses its escape marker.
pub fn get_ident_name(ident: &str) -> (r: String)
    ensures
        r@ == ident_name_spec(ident@),
{
    let n = ident.unicode_len();
    if n >= 2 && ident.get_char(0) == 'r' && ident.get_char(1) == '#' {
        String::from_str(ident.substring_char(2, n))
    } else {
        String::from_str(ident)
    }
}

/// Get a struct field / enum variant serialization name.
///
/// An explicit rename annotation takes priority; otherwise the container's
/// rename-all policy, if any, is applied to the declared name; otherwise the
/// declared name stands unchanged.
pub fn get_ser_name(name: &str, renamed: &Option<String>, rename_all: &Option<String>) -> (r:
    String)
    requires
        renamed is None && rename_all is Some ==> is_rename_all_policy(rename_all->0@),
    ensures
        (renamed is Some ==> r@ == renamed->0@),
        (renamed is None && rename_all is Some ==> r@ == rename_spec(name@, rename_all->0@)),
        (renamed is None && rename_all is None ==> r@ == name@),
{
    match renamed {
        Some(n) => n.clone(),
        None => match rename_all {
            Some(p) => rename(name, p.as_str()),
            None => String::from_str(name),
        },
    }
}

} // verus!

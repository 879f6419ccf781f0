//! Naming rules of the generator: prefix stripping, case conversion and the
//! clean-up of documentation comments.

use vstd::prelude::*;
use crate::text::{
    has_suffix, replace, replace_all, trim, trim_end_all, trim_end_matches, trim_start_all,
    trim_start_matches, trim_white, ends_with,
};
use convert_case::{Case, Casing};

verus! {

/// What `convert_case` makes of `s` in `snake_case`.
pub uninterp spec fn snake_case_of(s: Seq<char>) -> Seq<char>;

/// What `convert_case` makes of `s` in `UPPER_SNAKE_CASE`.
pub uninterp spec fn upper_snake_case_of(s: Seq<char>) -> Seq<char>;

/// Relies on `convert_case::Casing::to_case` with `Case::Snake`: the result
/// depends on the characters of `s` alone.
#[verifier::external_body]
fn to_snake_case(s: &str) -> (r: String)
    ensures
        r@ == snake_case_of(s@),
{
    s.to_case(Case::Snake)
}

/// Relies on `convert_case::Casing::to_case` with `Case::UpperSnake`: the
/// result depends on the characters of `s` alone.
#[verifier::external_body]
fn to_upper_snake_case(s: &str) -> (r: String)
    ensures
        r@ == upper_snake_case_of(s@),
{
    s.to_case(Case::UpperSnake)
}

/// A documentation comment without its `/**` and `*/` markers and outer white
/// space, with carriage returns removed and each run of four spaces shortened
/// to one (so that indented lines are not read as code blocks).
pub open spec fn cleaned_doc(c: Seq<char>) -> Seq<char> {
    let a = trim_start_all(trim_start_all(c, seq!['/']), seq!['*']);
    let b = trim_end_all(trim_end_all(a, seq!['/']), seq!['*']);
    replace_all(replace_all(trim_white(b), seq!['\r'], seq![]), seq![' ', ' ', ' ', ' '], seq![' '])
}

/// Cleans a documentation comment taken from the header.
pub fn clean_doc(comment: &str) -> (r: String)
    ensures
        r@ == cleaned_doc(comment@),
{
    proof {
        reveal_strlit("/");
        reveal_strlit("*");
        reveal_strlit("\r");
        reveal_strlit("");
        reveal_strlit("    ");
        reveal_strlit(" ");
    }
    let a = trim_start_matches(trim_start_matches(comment, "/"), "*");
    let b = trim_end_matches(trim_end_matches(a, "/"), "*");
    let c = replace(trim(b), "\r", "");
    let r = replace(c.as_str(), "    ", " ");
    assert("/"@ =~= seq!['/']);
    assert("*"@ =~= seq!['*']);
    assert("\r"@ =~= seq!['\r']);
    assert(""@ =~= Seq::<char>::empty());
    assert("    "@ =~= seq![' ', ' ', ' ', ' ']);
    assert(" "@ =~= seq![' ']);
    r
}

/// Cleans an optional documentation comment.
pub fn clean_doc_opt(comment: &Option<String>) -> (r: Option<String>)
    ensures
        r.is_some() == comment.is_some(),
        comment.is_some() ==> r.unwrap()@ == cleaned_doc(comment.unwrap()@),
{
    match comment {
        Some(c) => Some(clean_doc(c.as_str())),
        None => None,
    }
}

/// The name of a field or parameter in the target language.
pub open spec fn member_name(c_name: Seq<char>) -> Seq<char> {
    snake_case_of(c_name)
}

/// Converts a field or parameter name to `snake_case`.
pub fn convert_member_name(c_name: &str) -> (r: String)
    ensures
        r@ == member_name(c_name@),
{
    to_snake_case(c_name)
}

/// The target name of a function: its library prefix removed, in `snake_case`.
pub open spec fn function_name(c_name: Seq<char>) -> Seq<char> {
    snake_case_of(trim_start_all(c_name, seq!['v', 'm', 'a']))
}

/// Converts the name of a function of the header.
pub fn convert_function_name(c_name: &str) -> (r: String)
    ensures
        r@ == function_name(c_name@),
{
    proof {
        reveal_strlit("vma");
    }
    assert("vma"@ =~= seq!['v', 'm', 'a']);
    to_snake_case(trim_start_matches(c_name, "vma"))
}

/// The target name of a type: its library prefix removed.
pub open spec fn declared_name(c_name: Seq<char>) -> Seq<char> {
    trim_start_all(c_name, seq!['V', 'm', 'a'])
}

/// Removes the library prefix from the name of a struct or enum.
pub fn convert_type_name<'a>(c_name: &'a str) -> (r: &'a str)
    ensures
        r@ == declared_name(c_name@),
{
    proof {
        reveal_strlit("Vma");
    }
    assert("Vma"@ =~= seq!['V', 'm', 'a']);
    trim_start_matches(c_name, "Vma")
}

/// The name of an enum in the target language, and whether it is a bit-flag
/// set: a name that ends in `Bits` becomes the plural `...Flags` form.
pub open spec fn enum_name(c_name: Seq<char>) -> (Seq<char>, bool) {
    let n = declared_name(c_name);
    let bits = seq!['B', 'i', 't', 's'];
    if has_suffix(n, bits) {
        (n.subrange(0, n.len() - 4) + seq!['s'], has_suffix(c_name, bits))
    } else {
        (n, has_suffix(c_name, bits))
    }
}

/// Converts the name of an enum and tells whether it names a set of flags.
pub fn convert_enum_name(c_name: &str) -> (r: (String, bool))
    ensures
        (r.0@, r.1) == enum_name(c_name@),
{
    proof {
        reveal_strlit("Bits");
        reveal_strlit("s");
    }
    assert("Bits"@ =~= seq!['B', 'i', 't', 's']);
    assert("s"@ =~= seq!['s']);
    let n = convert_type_name(c_name);
    let is_bitfield = ends_with(c_name, "Bits");
    if ends_with(n, "Bits") {
        let len = n.unicode_len();
        let name = String::from_str(n.substring_char(0, len - 4)).concat("s");
        (name, is_bitfield)
    } else {
        (String::from_str(n), is_bitfield)
    }
}

/// The prefix shared by the variants of an enum whose name, without its
/// `Flags` ending, reads `upper` in `UPPER_SNAKE_CASE`: `VMA_`, `upper`, `_`.
pub open spec fn prefix_for(upper: Seq<char>) -> Seq<char> {
    seq!['V', 'M', 'A', '_'] + upper + seq!['_']
}

/// A variant name without the prefix for `upper` and without trailing `_BIT`.
pub open spec fn short_variant_name(upper: Seq<char>, c_name: Seq<char>) -> Seq<char> {
    trim_end_all(trim_start_all(c_name, prefix_for(upper)), seq!['_', 'B', 'I', 'T'])
}

/// The target name of an enum variant: the shared prefix and a trailing
/// `_BIT` removed.
pub open spec fn variant_name(enum_name: Seq<char>, c_name: Seq<char>) -> Seq<char> {
    short_variant_name(upper_snake_case_of(trim_end_all(enum_name, seq!['F', 'l', 'a', 'g', 's'])), c_name)
}

/// Shortens a variant name, given the enum's name (without `Flags`) in
/// `UPPER_SNAKE_CASE`.
pub fn shorten_variant_name(upper: &str, c_name: &str) -> (r: String)
    ensures
        r@ == short_variant_name(upper@, c_name@),
{
    proof {
        reveal_strlit("VMA_");
        reveal_strlit("_");
        reveal_strlit("_BIT");
    }
    assert("VMA_"@ =~= seq!['V', 'M', 'A', '_']);
    assert("_"@ =~= seq!['_']);
    assert("_BIT"@ =~= seq!['_', 'B', 'I', 'T']);
    let prefix = String::from_str("VMA_").concat(upper).concat("_");
    String::from_str(trim_end_matches(trim_start_matches(c_name, prefix.as_str()), "_BIT"))
}

/// Converts the name of a variant of the enum called `enum_name` in the target.
pub fn convert_variant_name(enum_name: &str, c_name: &str) -> (r: String)
    ensures
        r@ == variant_name(enum_name@, c_name@),
{
    proof {
        reveal_strlit("Flags");
    }
    assert("Flags"@ =~= seq!['F', 'l', 'a', 'g', 's']);
    let upper = to_upper_snake_case(trim_end_matches(enum_name, "Flags"));
    shorten_variant_name(upper.as_str(), c_name)
}

/// The name of a builder setter for a field: the markers `p_`, `pp_`, `pfn_`
/// and `vk_`, which only tell pointer-ness in the header, removed in turn.
pub open spec fn setter_name(field: Seq<char>) -> Seq<char> {
    let a = trim_start_all(field, seq!['p', '_']);
    let b = trim_start_all(a, seq!['p', 'p', '_']);
    let c = trim_start_all(b, seq!['p', 'f', 'n', '_']);
    trim_start_all(c, seq!['v', 'k', '_'])
}

/// Computes the setter name for a field.
pub fn convert_setter_name(field: &str) -> (r: String)
    ensures
        r@ == setter_name(field@),
{
    proof {
        reveal_strlit("p_");
        reveal_strlit("pp_");
        reveal_strlit("pfn_");
        reveal_strlit("vk_");
    }
    assert("p_"@ =~= seq!['p', '_']);
    assert("pp_"@ =~= seq!['p', 'p', '_']);
    assert("pfn_"@ =~= seq!['p', 'f', 'n', '_']);
    assert("vk_"@ =~= seq!['v', 'k', '_']);
    let a = trim_start_matches(field, "p_");
    let b = trim_start_matches(a, "pp_");
    let c = trim_start_matches(b, "pfn_");
    String::from_str(trim_start_matches(c, "vk_"))
}

/// The name of a getter for a field: `get_` and the field name without `p_`.
pub open spec fn getter_name(field: Seq<char>) -> Seq<char> {
    seq!['g', 'e', 't', '_'] + trim_start_all(field, seq!['p', '_'])
}

/// Computes the getter name for a field.
pub fn convert_getter_name(field: &str) -> (r: String)
    ensures
        r@ == getter_name(field@),
{
    proof {
        reveal_strlit("get_");
        reveal_strlit("p_");
    }
    assert("get_"@ =~= seq!['g', 'e', 't', '_']);
    assert("p_"@ =~= seq!['p', '_']);
    String::from_str("get_").concat(trim_start_matches(field, "p_"))
}

/// The extension-compatibility trait for a chain pointer onto the structure
/// `base`: `vk::Extends` and the base name without `Vk` and `KHR`.
pub open spec fn extends_trait_name(base: Seq<char>) -> Seq<char> {
    seq!['v', 'k', ':', ':', 'E', 'x', 't', 'e', 'n', 'd', 's'] + trim_end_all(
        trim_start_all(base, seq!['V', 'k']),
        seq!['K', 'H', 'R'],
    )
}

/// Computes the extension trait for a chain pointer onto `base`.
pub fn convert_extends_trait(base: &str) -> (r: String)
    ensures
        r@ == extends_trait_name(base@),
{
    proof {
        reveal_strlit("vk::Extends");
        reveal_strlit("Vk");
        reveal_strlit("KHR");
    }
    assert("vk::Extends"@ =~= seq!['v', 'k', ':', ':', 'E', 'x', 't', 'e', 'n', 'd', 's']);
    assert("Vk"@ =~= seq!['V', 'k']);
    assert("KHR"@ =~= seq!['K', 'H', 'R']);
    String::from_str("vk::Extends").concat(trim_end_matches(trim_start_matches(base, "Vk"), "KHR"))
}

} // verus!

//! The enum generator: from an integer enum declaration to the plan of a
//! newtype with one constant per variant, and bit operations for flag sets.

use vstd::prelude::*;
use crate::naming::{
    clean_doc_opt, convert_enum_name, convert_variant_name, enum_name, variant_name,
};
use crate::shape::{opt_view, GenError};
use crate::structs::doc_view;
use crate::text::{ends_with, has_prefix, has_suffix, starts_with};

verus! {

/// A variant of an enum declaration.
pub struct VariantDecl {
    /// The variant's name, if the tree has one.
    pub name: Option<String>,
    /// Its documentation comment.
    pub docs: Option<String>,
    /// Its integer value.
    pub value: u64,
}

/// An integer enum declaration of the header.
pub struct EnumDecl {
    /// The enum's name, if the tree has one.
    pub name: Option<String>,
    /// Its documentation comment.
    pub docs: Option<String>,
    /// Its variants, in order.
    pub variants: Vec<VariantDecl>,
}

/// A constant of a generated newtype.
pub struct VariantPlan {
    /// The constant's name.
    pub name: String,
    /// Its cleaned documentation.
    pub docs: Option<String>,
    /// Its value, as declared.
    pub value: u64,
}

/// The plan of a generated newtype.
pub struct EnumPlan {
    /// The newtype's name.
    pub name: String,
    /// Whether it is a set of flags with bit operations.
    pub is_bitfield: bool,
    /// Its cleaned documentation.
    pub docs: Option<String>,
    /// Its constants, in declaration order.
    pub variants: Vec<VariantPlan>,
}

/// Whether an enum of the header is bound: it carries the library prefix.
pub open spec fn bound_enum(name: Seq<char>) -> bool {
    has_prefix(name, seq!['V', 'm', 'a'])
}

/// Tells whether the enum called `name` is to be bound.
pub fn is_bound_enum(name: &str) -> (r: bool)
    ensures
        r == bound_enum(name@),
{
    proof {
        reveal_strlit("Vma");
    }
    assert("Vma"@ =~= seq!['V', 'm', 'a']);
    starts_with(name, "Vma")
}

/// The marker that ends the name of a range sentinel.
pub open spec fn max_marker() -> Seq<char> {
    seq!['M', 'A', 'X', '_', 'E', 'N', 'U', 'M']
}

/// Whether a variant is a range sentinel, which is not bound.
pub open spec fn is_sentinel(v: VariantDecl) -> bool {
    v.name matches Some(n) && has_suffix(n@, max_marker())
}

/// The constants (name, documentation, value) that the variants `vs` of the
/// enum called `e` in the target become: sentinels dropped, names shortened.
pub open spec fn constants_of(e: Seq<char>, vs: Seq<VariantDecl>) -> Seq<(Seq<char>, Option<Seq<char>>, u64)>
    decreases vs.len(),
{
    if vs.len() == 0 {
        Seq::empty()
    } else {
        let v = vs.last();
        let rest = constants_of(e, vs.drop_last());
        match v.name {
            Some(n) => if has_suffix(n@, max_marker()) {
                rest
            } else {
                rest.push((variant_name(e, n@), doc_view(v.docs), v.value))
            },
            None => rest,
        }
    }
}

/// The (name, documentation, value) of each planned constant.
pub open spec fn constant_views(vs: Seq<VariantPlan>) -> Seq<(Seq<char>, Option<Seq<char>>, u64)> {
    vs.map_values(|v: VariantPlan| (v.name@, opt_view(v.docs), v.value))
}

/// Whether an enum declaration can be bound: it and its variants have names.
pub open spec fn enum_ok(d: EnumDecl) -> bool {
    d.name is Some && forall|i: int| 0 <= i < d.variants@.len() ==> (#[trigger] d.variants@[i]).name is Some
}

/// `p` is the plan of the enum declaration `d`.
pub open spec fn enum_plan_of(d: EnumDecl, p: EnumPlan) -> bool {
    &&& d.name matches Some(n) && (p.name@, p.is_bitfield) == enum_name(n@)
    &&& opt_view(p.docs) == doc_view(d.docs)
    &&& constant_views(p.variants@) == constants_of(p.name@, d.variants@)
}

/// Plans the newtype for an enum declaration: strips the library prefix,
/// turns `...FlagBits` into a `...Flags` flag set, drops range sentinels,
/// and shortens each variant name while keeping its value.
pub fn plan_enum(d: &EnumDecl) -> (r: Result<EnumPlan, GenError>)
    ensures
        r is Ok <==> enum_ok(*d),
        r matches Ok(p) ==> enum_plan_of(*d, p),
        !enum_ok(*d) ==> r matches Err(GenError::MissingName),
{
    proof {
        reveal_strlit("MAX_ENUM");
    }
    assert("MAX_ENUM"@ =~= max_marker());
    let (name, is_bitfield) = match &d.name {
        Some(n) => convert_enum_name(n.as_str()),
        None => {
            return Err(GenError::MissingName);
        },
    };
    let docs = clean_doc_opt(&d.docs);
    let mut variants: Vec<VariantPlan> = Vec::new();
    let mut i: usize = 0;
    let n = d.variants.len();
    while i < n
        invariant
            n == d.variants@.len(),
            i <= n,
            d.name is Some,
            forall|j: int| 0 <= j < i ==> (#[trigger] d.variants@[j]).name is Some,
            constant_views(variants@) == constants_of(name@, d.variants@.subrange(0, i as int)),
        decreases n - i,
    {
        let v = &d.variants[i];
        let ghost next = d.variants@.subrange(0, i + 1);
        let ghost before = constant_views(variants@);
        proof {
            reveal_strlit("MAX_ENUM");
        }
        assert("MAX_ENUM"@ =~= max_marker());
        assert(next.drop_last() =~= d.variants@.subrange(0, i as int));
        assert(next.last() == d.variants@[i as int]);
        let vname = match &v.name {
            Some(x) => x,
            None => {
                return Err(GenError::MissingName);
            },
        };
        if !ends_with(vname.as_str(), "MAX_ENUM") {
            let c = VariantPlan {
                name: convert_variant_name(name.as_str(), vname.as_str()),
                docs: clean_doc_opt(&v.docs),
                value: v.value,
            };
            variants.push(c);
            assert(constant_views(variants@) =~= before.push((c.name@, opt_view(c.docs), c.value)));
        }
        assert(constant_views(variants@) == constants_of(name@, next));
        i = i + 1;
    }
    assert(d.variants@.subrange(0, n as int) =~= d.variants@);
    Ok(EnumPlan { name, is_bitfield, docs, variants })
}

} // verus!

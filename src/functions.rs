//! The function generator: classifies the parameters of a function
//! declaration and plans the safe wrapper around the raw foreign call, its
//! signature, its output buffers, how each argument is passed and how the
//! outputs are returned.

use vstd::prelude::*;
use crate::naming::{clean_doc_opt, convert_function_name, function_name, member_name};
use crate::shape::{
    array_adjacent_name, array_ref, kind_array_adjacent, lemma_shape_facts, opt_view, plain_decl,
    shape_of, ArrayLen, GenError, RawType, VarKind,
};
use crate::structs::{
    classify_member, doc_view, extends_annotation, find_member, first_named, len_annotation,
    member_of, member_ok, Member,
};
use crate::text::{has_prefix, starts_with};

verus! {

/// A parameter of a function declaration.
pub struct ParamDecl {
    /// The parameter's name, if the tree has one.
    pub name: Option<String>,
    /// Its raw type.
    pub ty: RawType,
    /// The texts of its annotations, in order.
    pub annotations: Vec<String>,
}

/// A function declaration of the header.
pub struct FunctionDecl {
    /// The function's name, if the tree has one.
    pub name: Option<String>,
    /// Its documentation comment.
    pub docs: Option<String>,
    /// Its parameters, in order.
    pub params: Vec<ParamDecl>,
    /// Whether it returns `void`; otherwise it returns a status code.
    pub returns_void: bool,
}

/// Where the length of an output array comes from.
pub enum LenSource {
    /// The runtime length of the const array parameter at this index.
    ArrayParam(usize),
    /// The value of the count parameter at this index, supplied by the caller.
    CountParam(usize),
    /// The device's memory-heap count.
    HeapCount,
    /// The device's memory-type count.
    TypeCount,
}

/// The buffer the wrapper prepares for a parameter before the call.
pub enum Buffer {
    /// None: the caller supplies the argument, or it is derived.
    NoBuffer,
    /// One zero-initialised slot.
    Slot,
    /// A zero-initialised collection of the given length.
    Elements(LenSource),
}

/// How the wrapper passes a parameter to the raw call.
pub enum Pass {
    /// The caller's value as it is.
    Value,
    /// An optional extension reference as a nullable pointer (`true`: const).
    Chain(bool),
    /// The runtime length of the const array parameter at this index.
    LengthOf(usize),
    /// A mutable pointer to the parameter's slot.
    OutSlot,
    /// A mutable pointer to the parameter's collection.
    OutElements,
    /// A const pointer to the caller's slice.
    SlicePtr,
    /// A nullable pointer from the caller's optional string.
    StrPtr,
}

/// How the outputs of a wrapper are returned.
pub enum ReturnShape {
    /// Nothing (unit).
    Unit,
    /// The single output, not in a tuple: index of its parameter.
    Single(usize),
    /// A tuple of the outputs in declaration order: indices of their parameters.
    Tuple(Vec<usize>),
}

/// The plan of the safe wrapper around one foreign function.
pub struct FunctionPlan {
    /// The symbol of the raw foreign function.
    pub c_name: String,
    /// The name of the wrapper.
    pub rs_name: String,
    /// The cleaned documentation.
    pub docs: Option<String>,
    /// The classified parameters, in order.
    pub params: Vec<Member>,
    /// Whether the raw call returns a status code and the wrapper a `Result`.
    pub returns_result: bool,
    /// The buffer prepared for each parameter.
    pub buffers: Vec<Buffer>,
    /// How each parameter is passed to the raw call.
    pub passes: Vec<Pass>,
    /// The parameters whose buffers are returned, in order.
    pub outputs: Vec<usize>,
    /// How those outputs are returned.
    pub shape: ReturnShape,
}

/// Whether a function of the header is bound: it carries the library prefix.
pub open spec fn bound_function(name: Seq<char>) -> bool {
    has_prefix(name, seq!['v', 'm', 'a'])
}

/// Tells whether the function called `name` is to be bound.
pub fn is_bound_function(name: &str) -> (r: bool)
    ensures
        r == bound_function(name@),
{
    proof {
        reveal_strlit("vma");
    }
    assert("vma"@ =~= seq!['v', 'm', 'a']);
    starts_with(name, "vma")
}

/// Whether a parameter of shape `k` is supplied by the caller of the wrapper.
pub open spec fn is_input(k: VarKind) -> bool {
    k is Normal || k is Ref || k is Array || k is Str || k is PNext
}

/// Whether the buffer of a parameter of shape `k` is returned.
pub open spec fn is_output(k: VarKind) -> bool {
    k is RefMut || k is ArrayMut || k is StrMut
}

/// Tells whether the caller of the wrapper supplies a parameter of shape `k`;
/// lengths and outputs are made by the wrapper itself.
pub fn caller_supplies(k: &VarKind) -> (r: bool)
    ensures
        r == is_input(*k),
{
    match k {
        VarKind::Normal | VarKind::Ref(_) | VarKind::Array(_, _) | VarKind::Str | VarKind::PNext(_, _) => true,
        _ => false,
    }
}

/// Tells whether the buffer of a parameter of shape `k` is returned.
pub fn returned(k: &VarKind) -> (r: bool)
    ensures
        r == is_output(*k),
{
    match k {
        VarKind::RefMut(_) | VarKind::ArrayMut(_, _) | VarKind::StrMut => true,
        _ => false,
    }
}

/// The indices of the output parameters among `ps`, in order.
pub open spec fn output_indices(ps: Seq<Member>) -> Seq<usize>
    decreases ps.len(),
{
    if ps.len() == 0 {
        Seq::empty()
    } else if is_output(ps.last().kind) {
        output_indices(ps.drop_last()).push((ps.len() - 1) as usize)
    } else {
        output_indices(ps.drop_last())
    }
}

/// The return shape for the outputs `o`: unit for none, the value itself for
/// one, a tuple in order for more.
pub open spec fn shape_for(o: Seq<usize>, s: ReturnShape) -> bool {
    if o.len() == 0 {
        s is Unit
    } else if o.len() == 1 {
        s == ReturnShape::Single(o[0])
    } else {
        s matches ReturnShape::Tuple(v) && v@ == o
    }
}

/// Packages outputs: unit for none, the single output unwrapped, a tuple for more.
pub fn package_outputs(outputs: Vec<usize>) -> (r: ReturnShape)
    ensures
        shape_for(outputs@, r),
{
    if outputs.len() == 0 {
        ReturnShape::Unit
    } else if outputs.len() == 1 {
        ReturnShape::Single(outputs[0])
    } else {
        ReturnShape::Tuple(outputs)
    }
}

/// Collects the indices of the output parameters.
pub fn collect_outputs(ps: &Vec<Member>) -> (r: Vec<usize>)
    ensures
        r@ == output_indices(ps@),
{
    let mut out: Vec<usize> = Vec::new();
    let mut i: usize = 0;
    while i < ps.len()
        invariant
            i <= ps@.len(),
            out@ == output_indices(ps@.subrange(0, i as int)),
        decreases ps@.len() - i,
    {
        let ghost pre = ps@.subrange(0, i as int);
        assert(ps@.subrange(0, i + 1).drop_last() =~= pre);
        if returned(&ps[i].kind) {
            out.push(i);
        }
        i = i + 1;
    }
    assert(ps@.subrange(0, ps@.len() as int) =~= ps@);
    out
}

/// The const array at index `j` of `ps` is the first to take its length from
/// a sibling called `n`.
pub open spec fn first_array_for(ps: Seq<Member>, n: Seq<char>, j: int) -> bool {
    0 <= j < ps.len() && kind_array_adjacent(ps[j].kind) == Some(n)
        && forall|y: int| 0 <= y < j ==> kind_array_adjacent(ps[y].kind) != Some(n)
}

/// Some const array of `ps` takes its length from a sibling called `n`.
pub open spec fn array_refers(ps: Seq<Member>, n: Seq<char>) -> bool {
    exists|j: int| 0 <= j < ps.len() && kind_array_adjacent(#[trigger] ps[j].kind) == Some(n)
}

/// Finds the first const array that takes its length from a sibling called `name`.
pub fn find_array_for(ps: &Vec<Member>, name: &str) -> (r: Option<usize>)
    ensures
        r matches Some(j) ==> first_array_for(ps@, name@, j as int),
        r is None ==> !array_refers(ps@, name@),
{
    let mut j: usize = 0;
    while j < ps.len()
        invariant
            j <= ps@.len(),
            forall|y: int| 0 <= y < j ==> kind_array_adjacent(#[trigger] ps@[y].kind) != Some(name@),
        decreases ps@.len() - j,
    {
        match array_adjacent_name(&ps[j].kind) {
            Some(id) => if crate::text::same_text(id.as_str(), name) {
                return Some(j);
            },
            None => {},
        }
        j = j + 1;
    }
    None
}

/// Parameter `j` of `ps` is called `n` in the target.
pub open spec fn param_named(ps: Seq<ParamDecl>, j: int, n: Seq<char>) -> bool {
    ps[j].name matches Some(x) && member_name(x@) == n
}

/// Some parameter of `ps` is called `n`.
pub open spec fn has_param(ps: Seq<ParamDecl>, n: Seq<char>) -> bool {
    exists|j: int| 0 <= j < ps.len() && #[trigger] param_named(ps, j, n)
}

/// The first parameter of `ps` called `n` is at index `j`.
pub open spec fn first_param_named(ps: Seq<ParamDecl>, n: Seq<char>, j: int) -> bool {
    0 <= j < ps.len() && param_named(ps, j, n) && forall|y: int| 0 <= y < j ==> !param_named(ps, y, n)
}

/// Parameter `i` of `ps` is a const array that takes its length from `n`.
pub open spec fn param_array_refers(ps: Seq<ParamDecl>, i: int, n: Seq<char>) -> bool {
    array_ref(ps[i].ty, len_annotation(ps[i].annotations@)) == Some(n)
}

/// Parameter `i` of `ps` is an output array that takes its length from `n`.
pub open spec fn param_out_refers(ps: Seq<ParamDecl>, i: int, n: Seq<char>) -> bool {
    crate::shape::adjacent_ref(ps[i].ty, len_annotation(ps[i].annotations@)) == Some(n)
        && array_ref(ps[i].ty, len_annotation(ps[i].annotations@)) is None
}

/// A parameter called `n` is the length of a const array of `ps`: the wrapper
/// derives it from that array instead of taking it from the caller.
pub open spec fn is_len_param(ps: Seq<ParamDecl>, n: Seq<char>) -> bool {
    exists|i: int| 0 <= i < ps.len() && #[trigger] param_array_refers(ps, i, n)
}

/// The first parameter of `ps` called `n` is a plain count.
pub open spec fn count_param(ps: Seq<ParamDecl>, n: Seq<char>) -> bool {
    exists|j: int| #[trigger] first_param_named(ps, n, j)
        && plain_decl(ps[j].ty, extends_annotation(ps[j].annotations@))
}

/// Whether a function declaration can be bound: it has a name; each
/// parameter can be classified and is no fixed-size array; each const array
/// names an existing length parameter; and each output array sized by a
/// sibling is sized by a const array's length or by a plain count parameter.
pub open spec fn function_ok(d: FunctionDecl) -> bool {
    let ps = d.params@;
    &&& d.name is Some
    &&& forall|i: int| 0 <= i < ps.len() ==> member_ok(#[trigger] ps[i].name, ps[i].ty, ps[i].annotations@)
    &&& forall|i: int| 0 <= i < ps.len() ==> !(#[trigger] ps[i].ty is ConstantArray)
    &&& forall|i: int, n: Seq<char>| 0 <= i < ps.len() && #[trigger] param_array_refers(ps, i, n) ==> has_param(ps, n)
    &&& forall|i: int, n: Seq<char>| 0 <= i < ps.len() && #[trigger] param_out_refers(ps, i, n)
        ==> is_len_param(ps, n) || count_param(ps, n)
}

/// `m` is parameter `i` of `ps` once classified: a plain parameter that a
/// const array takes its length from has become a length.
pub open spec fn param_planned(ps: Seq<ParamDecl>, i: int, m: Member) -> bool {
    let p = ps[i];
    &&& p.name matches Some(x) && m.name@ == member_name(x@)
    &&& m.docs is None
    &&& crate::shape::ffi_type_of(p.ty, m.ty)
    &&& if plain_decl(p.ty, extends_annotation(p.annotations@)) && is_len_param(ps, m.name@) {
        m.kind is Len
    } else {
        shape_of(p.ty, len_annotation(p.annotations@), extends_annotation(p.annotations@), m.kind)
    }
}

/// `p` is how parameter `i` of `ps` is passed to the raw call.
pub open spec fn pass_of(ps: Seq<Member>, i: int, p: Pass) -> bool {
    match ps[i].kind {
        VarKind::Normal | VarKind::Ref(_) => p is Value,
        VarKind::PNext(_, c) => p == Pass::Chain(c),
        VarKind::Len => p matches Pass::LengthOf(j) && first_array_for(ps, ps[i].name@, j as int),
        VarKind::RefMut(_) | VarKind::StrMut => p is OutSlot,
        VarKind::ArrayMut(_, _) => p is OutElements,
        VarKind::Array(_, _) => p is SlicePtr,
        VarKind::Str => p is StrPtr,
        VarKind::ConstantArray(_, _) => false,
    }
}

/// `s` is where the length of an output array sized by `l` comes from.
pub open spec fn source_of(ps: Seq<Member>, l: ArrayLen, s: LenSource) -> bool {
    match l {
        ArrayLen::MemoryHeapCount => s is HeapCount,
        ArrayLen::MemoryTypeCount => s is TypeCount,
        ArrayLen::Adjacent(id) => if array_refers(ps, id@) {
            s matches LenSource::ArrayParam(j) && first_array_for(ps, id@, j as int)
        } else {
            s matches LenSource::CountParam(j) && first_named(ps, id@, j as int) && ps[j as int].kind is Normal
        },
    }
}

/// `b` is the buffer prepared for parameter `i` of `ps`.
pub open spec fn buffer_of(ps: Seq<Member>, i: int, b: Buffer) -> bool {
    match ps[i].kind {
        VarKind::RefMut(_) | VarKind::StrMut => b is Slot,
        VarKind::ArrayMut(_, l) => b matches Buffer::Elements(s) && source_of(ps, l, s),
        _ => b is NoBuffer,
    }
}

/// `p` is the wrapper plan of the function declaration `d`.
pub open spec fn function_plan_of(d: FunctionDecl, p: FunctionPlan) -> bool {
    let n = d.params@.len();
    &&& d.name matches Some(x) && p.c_name@ == x@ && p.rs_name@ == function_name(x@)
    &&& opt_view(p.docs) == doc_view(d.docs)
    &&& p.returns_result == !d.returns_void
    &&& p.params@.len() == n
    &&& forall|i: int| 0 <= i < n ==> param_planned(d.params@, i, #[trigger] p.params@[i])
    &&& p.passes@.len() == n
    &&& forall|i: int| 0 <= i < n ==> pass_of(p.params@, i, #[trigger] p.passes@[i])
    &&& p.buffers@.len() == n
    &&& forall|i: int| 0 <= i < n ==> buffer_of(p.params@, i, #[trigger] p.buffers@[i])
    &&& p.outputs@ == output_indices(p.params@)
    &&& shape_for(p.outputs@, p.shape)
}

/// Classifies every parameter of `ps`.
fn classify_params(ps: &Vec<ParamDecl>) -> (r: Result<Vec<Member>, GenError>)
    ensures
        !(r matches Err(GenError::MissingLength(_))),
        !(r matches Err(GenError::ArrayParameter(_))),
        r is Ok <==> forall|i: int| 0 <= i < ps@.len() ==> member_ok(#[trigger] ps@[i].name, ps@[i].ty, ps@[i].annotations@),
        r matches Ok(ms) ==> ms@.len() == ps@.len() && forall|i: int| 0 <= i < ps@.len()
            ==> member_of(ps@[i].name, None, ps@[i].ty, ps@[i].annotations@, #[trigger] ms@[i]),
{
    let mut ms: Vec<Member> = Vec::new();
    let mut i: usize = 0;
    let none: Option<String> = None;
    while i < ps.len()
        invariant
            none is None,
            i <= ps@.len(),
            ms@.len() == i,
            forall|j: int| 0 <= j < i ==> member_ok(#[trigger] ps@[j].name, ps@[j].ty, ps@[j].annotations@),
            forall|j: int| 0 <= j < i ==> member_of(ps@[j].name, None, ps@[j].ty, ps@[j].annotations@, #[trigger] ms@[j]),
        decreases ps@.len() - i,
    {
        let p = &ps[i];
        match classify_member(&p.name, &none, &p.ty, &p.annotations) {
            Ok(m) => ms.push(m),
            Err(e) => {
                assert(!member_ok(ps@[i as int].name, ps@[i as int].ty, ps@[i as int].annotations@));
                return Err(e);
            },
        }
        i = i + 1;
    }
    Ok(ms)
}

/// Computes how parameter `i` is passed to the raw call.
fn plan_pass(ps: &Vec<Member>, i: usize) -> (r: Pass)
    requires
        i < ps@.len(),
        !(ps@[i as int].kind is ConstantArray),
        ps@[i as int].kind is Len ==> array_refers(ps@, ps@[i as int].name@),
    ensures
        pass_of(ps@, i as int, r),
{
    match &ps[i].kind {
        VarKind::Normal | VarKind::Ref(_) => Pass::Value,
        VarKind::PNext(_, c) => Pass::Chain(*c),
        VarKind::Len => match find_array_for(ps, ps[i].name.as_str()) {
            Some(j) => Pass::LengthOf(j),
            None => Pass::Value,
        },
        VarKind::RefMut(_) | VarKind::StrMut => Pass::OutSlot,
        VarKind::ArrayMut(_, _) => Pass::OutElements,
        VarKind::Array(_, _) => Pass::SlicePtr,
        VarKind::Str => Pass::StrPtr,
        VarKind::ConstantArray(_, _) => Pass::Value,
    }
}

/// The output array at `i` of `ps` is sized by a sibling `id` that neither a
/// const array nor a plain count parameter provides.
pub open spec fn unsized_output(ps: Seq<Member>, i: int, id: Seq<char>) -> bool {
    &&& ps[i].kind matches VarKind::ArrayMut(_, ArrayLen::Adjacent(x)) && x@ == id
    &&& !array_refers(ps, id)
    &&& forall|j: int| #[trigger] first_named(ps, id, j) ==> !(ps[j].kind is Normal)
}

/// Computes the buffer prepared for parameter `i`.
fn plan_buffer(ps: &Vec<Member>, i: usize) -> (r: Result<Buffer, GenError>)
    requires
        i < ps@.len(),
    ensures
        r matches Ok(b) ==> buffer_of(ps@, i as int, b),
        r matches Err(e) ==> (e matches GenError::MissingLength(id) && unsized_output(ps@, i as int, id@)),
{
    match &ps[i].kind {
        VarKind::RefMut(_) | VarKind::StrMut => Ok(Buffer::Slot),
        VarKind::ArrayMut(_, l) => match l {
            ArrayLen::MemoryHeapCount => Ok(Buffer::Elements(LenSource::HeapCount)),
            ArrayLen::MemoryTypeCount => Ok(Buffer::Elements(LenSource::TypeCount)),
            ArrayLen::Adjacent(id) => match find_array_for(ps, id.as_str()) {
                Some(j) => Ok(Buffer::Elements(LenSource::ArrayParam(j))),
                None => match find_member(ps, id.as_str()) {
                    Some(j) => if let VarKind::Normal = ps[j].kind {
                        Ok(Buffer::Elements(LenSource::CountParam(j)))
                    } else {
                        proof {
                            assert forall|y: int| #[trigger] first_named(ps@, id@, y) implies !(ps@[y].kind is Normal) by {
                                assert(y == j);
                            }
                        }
                        Err(GenError::MissingLength(id.clone()))
                    },
                    None => Err(GenError::MissingLength(id.clone())),
                },
            },
        },
        _ => Ok(Buffer::NoBuffer),
    }
}

/// Every parameter of `decls` is planned as in `ps`.
pub open spec fn planned_params(decls: Seq<ParamDecl>, ps: Seq<Member>) -> bool {
    ps.len() == decls.len() && forall|j: int| 0 <= j < ps.len() ==> param_planned(decls, j, #[trigger] ps[j])
}

/// The first planned parameter called `m` is the first declared one.
proof fn lemma_first_named_iff(decls: Seq<ParamDecl>, ps: Seq<Member>, m: Seq<char>, j: int)
    requires
        planned_params(decls, ps),
    ensures
        first_named(ps, m, j) <==> first_param_named(decls, m, j),
{
    if 0 <= j < ps.len() {
        assert(param_planned(decls, j, ps[j]));
        if first_named(ps, m, j) {
            assert forall|y: int| 0 <= y < j implies !param_named(decls, y, m) by {
                assert(param_planned(decls, y, ps[y]));
                assert(ps[y].name@ != m);
            }
        }
        if first_param_named(decls, m, j) {
            assert forall|y: int| 0 <= y < j implies ps[y].name@ != m by {
                assert(param_planned(decls, y, ps[y]));
                assert(!param_named(decls, y, m));
            }
        }
    }
}

/// What planned parameters tell of their declarations.
proof fn lemma_planned_facts(decls: Seq<ParamDecl>, ps: Seq<Member>)
    requires
        planned_params(decls, ps),
    ensures
        forall|j: int| 0 <= j < ps.len() ==> kind_array_adjacent(#[trigger] ps[j].kind)
            == array_ref(decls[j].ty, len_annotation(decls[j].annotations@)),
        forall|m: Seq<char>| #[trigger] array_refers(ps, m) == is_len_param(decls, m),
        forall|j: int| 0 <= j < ps.len() ==> (#[trigger] ps[j].kind is Normal <==> (plain_decl(
            decls[j].ty,
            extends_annotation(decls[j].annotations@),
        ) && !is_len_param(decls, ps[j].name@))),
        forall|j: int| 0 <= j < ps.len() && !(#[trigger] ps[j].kind is Len) ==> crate::shape::kind_adjacent(ps[j].kind)
            == crate::shape::adjacent_ref(decls[j].ty, len_annotation(decls[j].annotations@)),
        forall|j: int| 0 <= j < ps.len() ==> (#[trigger] ps[j].kind is ConstantArray <==> decls[j].ty is ConstantArray),
        forall|m: Seq<char>, j: int| #[trigger] first_named(ps, m, j) <==> first_param_named(decls, m, j),
{
    assert forall|j: int| 0 <= j < ps.len() implies {
        &&& kind_array_adjacent(#[trigger] ps[j].kind) == array_ref(decls[j].ty, len_annotation(decls[j].annotations@))
        &&& (!(ps[j].kind is Len) ==> crate::shape::kind_adjacent(ps[j].kind)
            == crate::shape::adjacent_ref(decls[j].ty, len_annotation(decls[j].annotations@)))
        &&& (ps[j].kind is ConstantArray <==> decls[j].ty is ConstantArray)
    } by {
        assert(param_planned(decls, j, ps[j]));
        let p = decls[j];
        if !(plain_decl(p.ty, extends_annotation(p.annotations@)) && is_len_param(decls, ps[j].name@)) {
            lemma_shape_facts(p.ty, len_annotation(p.annotations@), extends_annotation(p.annotations@), ps[j].kind);
        }
    }
    assert forall|m: Seq<char>| #[trigger] array_refers(ps, m) == is_len_param(decls, m) by {
        if array_refers(ps, m) {
            let j = choose|j: int| 0 <= j < ps.len() && kind_array_adjacent(#[trigger] ps[j].kind) == Some(m);
            assert(param_array_refers(decls, j, m));
        }
        if is_len_param(decls, m) {
            let j = choose|j: int| 0 <= j < decls.len() && #[trigger] param_array_refers(decls, j, m);
            assert(kind_array_adjacent(ps[j].kind) == Some(m));
        }
    }
    assert forall|j: int| 0 <= j < ps.len() implies (#[trigger] ps[j].kind is Normal <==> (plain_decl(
        decls[j].ty,
        extends_annotation(decls[j].annotations@),
    ) && !is_len_param(decls, ps[j].name@))) by {
        assert(param_planned(decls, j, ps[j]));
        let p = decls[j];
        if !(plain_decl(p.ty, extends_annotation(p.annotations@)) && is_len_param(decls, ps[j].name@)) {
            lemma_shape_facts(p.ty, len_annotation(p.annotations@), extends_annotation(p.annotations@), ps[j].kind);
        }
    }
    assert forall|m: Seq<char>, j: int| #[trigger] first_named(ps, m, j) <==> first_param_named(decls, m, j) by {
        lemma_first_named_iff(decls, ps, m, j);
    }
}

/// Every parameter of `ps` can be classified.
pub open spec fn params_ok(ps: Seq<ParamDecl>) -> bool {
    forall|i: int| 0 <= i < ps.len() ==> member_ok(#[trigger] ps[i].name, ps[i].ty, ps[i].annotations@)
}

/// Some array of `ps` takes its length from a sibling `id` that cannot
/// provide it: a const array's length parameter that does not exist, or an
/// output array's size that neither a const array nor a plain count gives.
pub open spec fn length_unresolved(ps: Seq<ParamDecl>, id: Seq<char>) -> bool {
    exists|i: int| 0 <= i < ps.len() && #[trigger] unresolved_at(ps, i, id)
}

/// Parameter `i` of `ps` takes its length from `id`, which cannot provide it.
pub open spec fn unresolved_at(ps: Seq<ParamDecl>, i: int, id: Seq<char>) -> bool {
    ||| param_array_refers(ps, i, id) && !has_param(ps, id)
    ||| param_out_refers(ps, i, id) && !is_len_param(ps, id) && !count_param(ps, id)
}

/// An output array that no sibling can size makes the declaration unbindable.
proof fn lemma_unsized_output(d: FunctionDecl, ps: Seq<Member>, i: int, id: Seq<char>)
    requires
        planned_params(d.params@, ps),
        0 <= i < ps.len(),
        unsized_output(ps, i, id),
    ensures
        !function_ok(d),
        param_out_refers(d.params@, i, id),
        !is_len_param(d.params@, id),
        !count_param(d.params@, id),
{
    let decls = d.params@;
    lemma_planned_facts(decls, ps);
    assert(param_out_refers(decls, i, id));
    if count_param(decls, id) {
        let j = choose|j: int| #[trigger] first_param_named(decls, id, j)
            && plain_decl(decls[j].ty, extends_annotation(decls[j].annotations@));
        assert(first_named(ps, id, j));
        assert(param_planned(decls, j, ps[j]));
    }
}

/// A complete plan shows the declaration bindable.
proof fn lemma_plan_ok(d: FunctionDecl, ps: Seq<Member>, buffers: Seq<Buffer>)
    requires
        d.name is Some,
        params_ok(d.params@),
        planned_params(d.params@, ps),
        forall|j: int| 0 <= j < ps.len() ==> !(#[trigger] ps[j].kind is ConstantArray),
        forall|j: int, m: Seq<char>| 0 <= j < ps.len() && #[trigger] param_array_refers(d.params@, j, m) ==> has_param(d.params@, m),
        buffers.len() == ps.len(),
        forall|j: int| 0 <= j < ps.len() ==> buffer_of(ps, j, #[trigger] buffers[j]),
    ensures
        function_ok(d),
{
    let decls = d.params@;
    lemma_planned_facts(decls, ps);
    assert forall|i: int| 0 <= i < decls.len() implies !(#[trigger] decls[i].ty is ConstantArray) by {
        assert(!(ps[i].kind is ConstantArray));
    }
    assert forall|i: int, m: Seq<char>| 0 <= i < decls.len() && #[trigger] param_out_refers(decls, i, m)
        implies is_len_param(decls, m) || count_param(decls, m) by {
        assert(param_planned(decls, i, ps[i]));
        assert(buffer_of(ps, i, buffers[i]));
        if !is_len_param(decls, m) {
            let b = buffers[i];
            if let Buffer::Elements(LenSource::CountParam(j)) = b {
                assert(first_param_named(decls, m, j as int));
                assert(param_planned(decls, j as int, ps[j as int]));
            }
        }
    }
}

/// Plans the safe wrapper of a function declaration: classifies its
/// parameters, turns the counts of const arrays into derived lengths, and
/// plans its buffers, its arguments to the raw call and its return value.
pub fn plan_function(d: &FunctionDecl) -> (r: Result<FunctionPlan, GenError>)
    ensures
        r is Ok <==> function_ok(*d),
        r matches Ok(p) ==> function_plan_of(*d, p),
        d.name is None ==> r matches Err(GenError::MissingName),
        r matches Err(GenError::ArrayParameter(_)) ==> exists|i: int| 0 <= i < d.params@.len() && (#[trigger] d.params@[i]).ty is ConstantArray,
        r matches Err(GenError::MissingLength(id)) ==> length_unresolved(d.params@, id@),
{
    let c_name = match &d.name {
        Some(n) => n.clone(),
        None => {
            return Err(GenError::MissingName);
        },
    };
    let rs_name = convert_function_name(c_name.as_str());
    let docs = clean_doc_opt(&d.docs);
    let ghost decls = d.params@;
    let mut params = match classify_params(&d.params) {
        Ok(ms) => ms,
        Err(e) => {
            return Err(e);
        },
    };
    let n = params.len();
    let ghost pre = params@;
    proof {
        assert forall|i: int| 0 <= i < n implies {
            &&& kind_array_adjacent(#[trigger] pre[i].kind) == array_ref(decls[i].ty, len_annotation(decls[i].annotations@))
            &&& (pre[i].kind is Normal <==> plain_decl(decls[i].ty, extends_annotation(decls[i].annotations@)))
            &&& (pre[i].kind is ConstantArray <==> decls[i].ty is ConstantArray)
        } by {
            assert(member_of(decls[i].name, None, decls[i].ty, decls[i].annotations@, pre[i]));
            lemma_shape_facts(decls[i].ty, len_annotation(decls[i].annotations@),
                extends_annotation(decls[i].annotations@), pre[i].kind);
        }
        assert forall|m: Seq<char>| #[trigger] array_refers(pre, m) == is_len_param(decls, m) by {
            if array_refers(pre, m) {
                let j = choose|j: int| 0 <= j < pre.len() && kind_array_adjacent(#[trigger] pre[j].kind) == Some(m);
                assert(param_array_refers(decls, j, m));
            }
            if is_len_param(decls, m) {
                let j = choose|j: int| 0 <= j < decls.len() && #[trigger] param_array_refers(decls, j, m);
                assert(kind_array_adjacent(pre[j].kind) == Some(m));
            }
        }
    }
    // fixed-size arrays cannot be parameters
    let mut i: usize = 0;
    while i < n
        invariant
            d.name is Some,
            decls == d.params@,
            params_ok(decls),
            n == params@.len(),
            n == decls.len(),
            params@ == pre,
            i <= n,
            forall|j: int| 0 <= j < n ==> (#[trigger] pre[j].kind is ConstantArray <==> decls[j].ty is ConstantArray),
            forall|j: int| 0 <= j < i ==> !(#[trigger] pre[j].kind is ConstantArray),
        decreases n - i,
    {
        if let VarKind::ConstantArray(_, _) = params[i].kind {
            assert(decls[i as int].ty is ConstantArray);
            return Err(GenError::ArrayParameter(params[i].name.clone()));
        }
        i = i + 1;
    }
    // plain parameters that const arrays take their lengths from become lengths
    let mut is_len: Vec<bool> = Vec::new();
    let mut i: usize = 0;
    while i < n
        invariant
            d.name is Some,
            decls == d.params@,
            params_ok(decls),
            n == params@.len(),
            params@ == pre,
            i <= n,
            is_len@.len() == i,
            forall|j: int| 0 <= j < i ==> #[trigger] is_len@[j] == (pre[j].kind is Normal && array_refers(pre, pre[j].name@)),
        decreases n - i,
    {
        let plain = match params[i].kind {
            VarKind::Normal => true,
            _ => false,
        };
        is_len.push(plain && find_array_for(&params, params[i].name.as_str()).is_some());
        i = i + 1;
    }
    let mut i: usize = 0;
    while i < n
        invariant
            d.name is Some,
            decls == d.params@,
            params_ok(decls),
            n == params@.len(),
            n == pre.len(),
            i <= n,
            is_len@.len() == n,
            forall|j: int| 0 <= j < n ==> #[trigger] is_len@[j] == (pre[j].kind is Normal && array_refers(pre, pre[j].name@)),
            forall|j: int| 0 <= j < n ==> (#[trigger] params@[j]).name == pre[j].name && params@[j].docs
                == pre[j].docs && params@[j].ty == pre[j].ty,
            forall|j: int| 0 <= j < i ==> (#[trigger] params@[j]).kind == if is_len@[j] {
                VarKind::Len
            } else {
                pre[j].kind
            },
            forall|j: int| i <= j < n ==> (#[trigger] params@[j]).kind == pre[j].kind,
        decreases n - i,
    {
        if is_len[i] {
            params[i].kind = VarKind::Len;
        }
        i = i + 1;
    }
    proof {
        assert forall|m: Seq<char>| #[trigger] array_refers(params@, m) == array_refers(pre, m) by {
            if array_refers(params@, m) {
                let j = choose|j: int| 0 <= j < n && kind_array_adjacent(#[trigger] params@[j].kind) == Some(m);
                assert(kind_array_adjacent(pre[j].kind) == Some(m));
            }
            if array_refers(pre, m) {
                let j = choose|j: int| 0 <= j < n && kind_array_adjacent(#[trigger] pre[j].kind) == Some(m);
                assert(kind_array_adjacent(params@[j].kind) == Some(m));
            }
        }
        assert forall|j: int| 0 <= j < n implies param_planned(decls, j, #[trigger] params@[j]) by {
            assert(member_of(decls[j].name, None, decls[j].ty, decls[j].annotations@, pre[j]));
        }
        lemma_planned_facts(decls, params@);
    }
    // every const array names an existing length parameter
    let mut i: usize = 0;
    while i < n
        invariant
            d.name is Some,
            decls == d.params@,
            params_ok(decls),
            n == params@.len(),
            n == decls.len(),
            i <= n,
            planned_params(decls, params@),
            forall|j: int| 0 <= j < n ==> !(#[trigger] params@[j].kind is ConstantArray),
            forall|j: int| 0 <= j < n ==> kind_array_adjacent(#[trigger] params@[j].kind)
                == array_ref(decls[j].ty, len_annotation(decls[j].annotations@)),
            forall|m: Seq<char>, j: int| #[trigger] first_named(params@, m, j) <==> first_param_named(decls, m, j),
            forall|j: int, m: Seq<char>| 0 <= j < i && #[trigger] param_array_refers(decls, j, m) ==> has_param(decls, m),
        decreases n - i,
    {
        match array_adjacent_name(&params[i].kind) {
            Some(id) => match find_member(&params, id.as_str()) {
                Some(x) => {
                    assert(first_named(params@, id@, x as int));
                    assert(param_named(decls, x as int, id@));
                },
                None => {
                    proof {
                        assert(param_array_refers(decls, i as int, id@));
                        if has_param(decls, id@) {
                            let y = choose|y: int| 0 <= y < n && #[trigger] param_named(decls, y, id@);
                            assert(param_planned(decls, y, params@[y]));
                        }
                        assert(unresolved_at(d.params@, i as int, id@));
                    }
                    return Err(GenError::MissingLength(id.clone()));
                },
            },
            None => {},
        }
        i = i + 1;
    }
    // arguments and buffers
    let mut passes: Vec<Pass> = Vec::new();
    let mut buffers: Vec<Buffer> = Vec::new();
    let mut i: usize = 0;
    while i < n
        invariant
            d.name is Some,
            decls == d.params@,
            params_ok(decls),
            n == params@.len(),
            n == decls.len(),
            i <= n,
            planned_params(decls, params@),
            forall|j: int, m: Seq<char>| 0 <= j < n && #[trigger] param_array_refers(decls, j, m) ==> has_param(decls, m),
            forall|j: int| 0 <= j < n ==> !(#[trigger] params@[j].kind is ConstantArray),
            forall|j: int| 0 <= j < n ==> (#[trigger] params@[j].kind is Len ==> array_refers(params@, params@[j].name@)),
            passes@.len() == i,
            buffers@.len() == i,
            forall|j: int| 0 <= j < i ==> pass_of(params@, j, #[trigger] passes@[j]),
            forall|j: int| 0 <= j < i ==> buffer_of(params@, j, #[trigger] buffers@[j]),
        decreases n - i,
    {
        passes.push(plan_pass(&params, i));
        match plan_buffer(&params, i) {
            Ok(b) => buffers.push(b),
            Err(e) => {
                proof {
                    let id = choose|id: Seq<char>| #[trigger] unsized_output(params@, i as int, id);
                    lemma_unsized_output(*d, params@, i as int, id);
                    assert(unresolved_at(d.params@, i as int, id));
                }
                return Err(e);
            },
        }
        i = i + 1;
    }
    proof {
        lemma_plan_ok(*d, params@, buffers@);
    }
    let outputs = collect_outputs(&params);
    let shape = package_outputs(collect_outputs(&params));
    Ok(FunctionPlan {
        c_name,
        rs_name,
        docs,
        params,
        returns_result: !d.returns_void,
        buffers,
        passes,
        outputs,
        shape,
    })
}

/// Every output index is that of an output parameter, the indices increase,
/// and every output parameter is listed.
pub proof fn lemma_output_indices(ps: Seq<Member>)
    requires
        ps.len() <= usize::MAX,
    ensures
        forall|k: int| 0 <= k < output_indices(ps).len() ==> {
            let x = #[trigger] output_indices(ps)[k];
            x < ps.len() && is_output(ps[x as int].kind)
        },
        forall|k1: int, k2: int| 0 <= k1 < k2 < output_indices(ps).len()
            ==> #[trigger] output_indices(ps)[k1] < #[trigger] output_indices(ps)[k2],
        forall|i: int| 0 <= i < ps.len() && is_output(#[trigger] ps[i].kind) ==> output_indices(ps).contains(i as usize),
    decreases ps.len(),
{
    if ps.len() > 0 {
        let q = ps.drop_last();
        lemma_output_indices(q);
        let o = output_indices(q);
        let r = output_indices(ps);
        if is_output(ps.last().kind) {
            assert(r == o.push((ps.len() - 1) as usize));
            assert forall|k: int| 0 <= k < r.len() implies {
                let x = #[trigger] r[k];
                x < ps.len() && is_output(ps[x as int].kind)
            } by {
                if k < o.len() {
                    let x = o[k];
                    assert(x < q.len() && is_output(q[x as int].kind));
                    assert(q[x as int] == ps[x as int]);
                }
            }
            assert forall|k1: int, k2: int| 0 <= k1 < k2 < r.len() implies #[trigger] r[k1] < #[trigger] r[k2] by {
                let x = o[k1];
                assert(x < q.len() && is_output(q[x as int].kind));
                if k2 < o.len() {
                    assert(o[k1] < o[k2]);
                }
            }
            assert forall|i: int| 0 <= i < ps.len() && is_output(#[trigger] ps[i].kind) implies r.contains(i as usize) by {
                if i < q.len() {
                    assert(q[i] == ps[i]);
                    assert(is_output(q[i].kind));
                    let k = choose|k: int| 0 <= k < o.len() && o[k] == i as usize;
                    assert(r[k] == i as usize);
                } else {
                    assert(r[o.len() as int] == i as usize);
                }
            }
        } else {
            assert(r == o);
            assert forall|k: int| 0 <= k < r.len() implies {
                let x = #[trigger] r[k];
                x < ps.len() && is_output(ps[x as int].kind)
            } by {
                let x = o[k];
                assert(x < q.len() && is_output(q[x as int].kind));
                assert(q[x as int] == ps[x as int]);
            }
            assert forall|i: int| 0 <= i < ps.len() && is_output(#[trigger] ps[i].kind) implies r.contains(i as usize) by {
                assert(i < q.len());
                assert(q[i] == ps[i]);
                assert(is_output(q[i].kind));
            }
        }
    }
}

/// A wrapper with exactly one output returns that output itself, not a
/// one-element tuple; one with none returns unit; one with more returns a
/// tuple of them in declaration order.
pub proof fn lemma_return_arity(d: FunctionDecl, p: FunctionPlan)
    requires
        function_plan_of(d, p),
    ensures
        p.outputs@.len() == 0 ==> p.shape is Unit,
        p.outputs@.len() == 1 ==> (p.shape == ReturnShape::Single(p.outputs@[0]) && is_output(
            p.params@[p.outputs@[0] as int].kind,
        )),
        p.outputs@.len() >= 2 ==> (p.shape matches ReturnShape::Tuple(v) && v@ == p.outputs@),
        forall|k1: int, k2: int| 0 <= k1 < k2 < p.outputs@.len() ==> #[trigger] p.outputs@[k1] < #[trigger] p.outputs@[k2],
        forall|i: int| 0 <= i < p.params@.len() ==> (is_output(#[trigger] p.params@[i].kind) <==> p.outputs@.contains(i as usize)),
{
    assert(p.params@.len() == p.params.len());
    lemma_output_indices(p.params@);
    assert forall|i: int| 0 <= i < p.params@.len() implies (is_output(#[trigger] p.params@[i].kind) <==> p.outputs@.contains(i as usize)) by {
        if p.outputs@.contains(i as usize) {
            let k = choose|k: int| 0 <= k < p.outputs@.len() && p.outputs@[k] == i as usize;
            assert(is_output(p.params@[p.outputs@[k] as int].kind));
        }
    }
    if p.outputs@.len() == 1 {
        assert(is_output(p.params@[p.outputs@[0] as int].kind));
    }
}

/// A plain parameter that a const array names as its length is no argument
/// of the wrapper: it becomes a length, and the raw call receives the
/// runtime length of the first such array.
pub proof fn lemma_length_from_array(d: FunctionDecl, p: FunctionPlan, i: int, j: int)
    requires
        function_plan_of(d, p),
        0 <= i < p.params@.len(),
        0 <= j < p.params@.len(),
        p.params@[i].kind matches VarKind::Array(_, ArrayLen::Adjacent(x)) && x@ == p.params@[j].name@,
        plain_decl(d.params@[j].ty, extends_annotation(d.params@[j].annotations@)),
    ensures
        p.params@[j].kind is Len,
        !is_input(p.params@[j].kind),
        p.passes@[j] matches Pass::LengthOf(k) && first_array_for(p.params@, p.params@[j].name@, k as int),
{
    let decls = d.params@;
    assert(planned_params(decls, p.params@));
    lemma_planned_facts(decls, p.params@);
    assert(array_refers(p.params@, p.params@[j].name@));
    assert(param_planned(decls, j, p.params@[j]));
    assert(pass_of(p.params@, j, p.passes@[j]));
}

} // verus!

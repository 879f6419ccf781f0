//! The struct generator: classifies the fields of a struct declaration, turns
//! the counts of arrays into derived length fields, and plans the struct's
//! builder setters, its getters and whether it borrows (needs a lifetime).

use vstd::prelude::*;
use crate::naming::{
    clean_doc_opt, cleaned_doc, convert_getter_name, convert_member_name, convert_setter_name,
    convert_type_name, getter_name, member_name, setter_name, declared_name,
};
use crate::shape::{
    adjacent_name, adjacent_ref, classifiable, is_const_char_ptr, classify, ffi_supported, ffi_type_of,
    find_annotation, first_annotation, kind_adjacent, lemma_adjacent_of_shape, opt_view, shape_of,
    translate_ffi_type, ArrayLen, FfiType, GenError, RawType, VarKind, EXTENDS_MARK, LEN_MARK,
};
use crate::text::{ends_with, has_prefix, has_suffix, same_text, starts_with};

verus! {

/// A field of a struct declaration, as the header's syntax tree gives it.
pub struct FieldDecl {
    /// The field's name, if the tree has one.
    pub name: Option<String>,
    /// Its documentation comment.
    pub docs: Option<String>,
    /// Its raw type.
    pub ty: RawType,
    /// The texts of its annotations, in order.
    pub annotations: Vec<String>,
}

/// A struct declaration of the header.
pub struct StructDecl {
    /// The struct's name, if the tree has one.
    pub name: Option<String>,
    /// Its documentation comment.
    pub docs: Option<String>,
    /// Its fields, in declaration order.
    pub fields: Vec<FieldDecl>,
}

/// A classified field or parameter.
pub struct Member {
    /// Its name in the target language.
    pub name: String,
    /// Its cleaned documentation.
    pub docs: Option<String>,
    /// Its type in the foreign declaration.
    pub ty: FfiType,
    /// Its semantic shape.
    pub kind: VarKind,
}

/// How a builder setter stores its argument.
pub enum SetterForm {
    /// Stores a plain value.
    Value,
    /// Stores an optional extension-chain reference (`true`: const).
    Chain(bool),
    /// Stores a shared reference.
    Ref,
    /// Stores a mutable reference.
    RefMut,
    /// Stores a shared slice; with the index of the length field it also sets.
    Slice(Option<usize>),
    /// Stores a mutable slice; with the index of the length field it also sets.
    SliceMut(Option<usize>),
    /// Stores a fixed-size array.
    Fixed,
    /// Stores an optional C string.
    CStr,
}

/// A setter of a builder.
pub struct Setter {
    /// The setter's name.
    pub name: String,
    /// How it stores its argument.
    pub form: SetterForm,
}

/// A read-only view of a field.
pub enum Getter {
    /// The slice of an output array, bounded by its length field (index), by
    /// shared and by mutable reference.
    Slice { name: String, name_mut: String, len_field: usize },
    /// An optional C string; a null pointer reads as absent.
    CStr { name: String },
}

/// The plan of a struct, its builder and getters.
pub struct StructPlan {
    /// The target name of the struct.
    pub name: String,
    /// Its cleaned documentation.
    pub docs: Option<String>,
    /// Its fields, in declaration order, length fields included.
    pub fields: Vec<Member>,
    /// Whether the struct carries a lifetime.
    pub needs_lifetime: bool,
    /// The builder setter of each field; none for a length field.
    pub setters: Vec<Option<Setter>>,
    /// The getter of each field, if it has one.
    pub getters: Vec<Option<Getter>>,
}

/// Whether a struct of the header is bound: it carries the library prefix and
/// is not an opaque handle placeholder (`..._T`).
pub open spec fn bound_struct(name: Seq<char>) -> bool {
    has_prefix(name, seq!['V', 'm', 'a']) && !has_suffix(name, seq!['_', 'T'])
}

/// Tells whether the struct called `name` is to be bound.
pub fn is_bound_struct(name: &str) -> (r: bool)
    ensures
        r == bound_struct(name@),
{
    proof {
        reveal_strlit("Vma");
        reveal_strlit("_T");
    }
    assert("Vma"@ =~= seq!['V', 'm', 'a']);
    assert("_T"@ =~= seq!['_', 'T']);
    starts_with(name, "Vma") && !ends_with(name, "_T")
}

/// The length annotation of a declaration.
pub open spec fn len_annotation(a: Seq<String>) -> Option<Seq<char>> {
    first_annotation(a, LEN_MARK@)
}

/// The extension-chain annotation of a declaration.
pub open spec fn extends_annotation(a: Seq<String>) -> Option<Seq<char>> {
    first_annotation(a, EXTENDS_MARK@)
}

/// Whether a field or parameter declaration can be classified.
pub open spec fn member_ok(name: Option<String>, ty: RawType, a: Seq<String>) -> bool {
    name is Some && ffi_supported(ty) && classifiable(ty, extends_annotation(a))
}

/// `m` is the classified form of the declaration (`name`, `docs`, `ty`, `a`),
/// before length fields are marked.
pub open spec fn member_of(
    name: Option<String>,
    docs: Option<String>,
    ty: RawType,
    a: Seq<String>,
    m: Member,
) -> bool {
    &&& name matches Some(n) && m.name@ == member_name(n@)
    &&& opt_view(m.docs) == doc_view(docs)
    &&& ffi_type_of(ty, m.ty)
    &&& shape_of(ty, len_annotation(a), extends_annotation(a), m.kind)
}

/// The cleaned form of an optional documentation comment.
pub open spec fn doc_view(d: Option<String>) -> Option<Seq<char>> {
    match d {
        Some(c) => Some(cleaned_doc(c@)),
        None => None,
    }
}

/// Classifies one field or parameter declaration.
pub fn classify_member(
    name: &Option<String>,
    docs: &Option<String>,
    ty: &RawType,
    annotations: &Vec<String>,
) -> (r: Result<Member, GenError>)
    ensures
        r matches Err(e) ==> (e is MissingName || e is UnsupportedType || e is UnknownTypedef
            || e is UnannotatedConstVoid),
        r is Ok <==> member_ok(*name, *ty, annotations@),
        r matches Ok(m) ==> member_of(*name, *docs, *ty, annotations@, m),
        name is None ==> r matches Err(GenError::MissingName),
{
    let n = match name {
        Some(n) => convert_member_name(n.as_str()),
        None => {
            return Err(GenError::MissingName);
        },
    };
    let d = clean_doc_opt(docs);
    let len = find_annotation(annotations, LEN_MARK);
    let ext = find_annotation(annotations, EXTENDS_MARK);
    let f = match translate_ffi_type(ty) {
        Ok(f) => f,
        Err(e) => {
            return Err(e);
        },
    };
    let k = match classify(ty, &len, &ext) {
        Ok(k) => k,
        Err(e) => {
            return Err(e);
        },
    };
    Ok(Member { name: n, docs: d, ty: f, kind: k })
}

/// The length annotation of field `i` names a sibling called `n`.
pub open spec fn field_refers(fs: Seq<FieldDecl>, i: int, n: Seq<char>) -> bool {
    adjacent_ref(fs[i].ty, len_annotation(fs[i].annotations@)) == Some(n)
}

/// Some field of `fs` takes its length from a sibling called `n`.
pub open spec fn is_len_field(fs: Seq<FieldDecl>, n: Seq<char>) -> bool {
    exists|i: int| 0 <= i < fs.len() && #[trigger] field_refers(fs, i, n)
}

/// Some field of `fs` is called `n` in the target.
pub open spec fn has_field(fs: Seq<FieldDecl>, n: Seq<char>) -> bool {
    exists|i: int| 0 <= i < fs.len() && #[trigger] field_named(fs, i, n)
}

/// Field `i` of `fs` is called `n` in the target.
pub open spec fn field_named(fs: Seq<FieldDecl>, i: int, n: Seq<char>) -> bool {
    fs[i].name matches Some(x) && member_name(x@) == n
}

/// Whether a struct declaration can be bound: it has a name, each field can
/// be classified and is no string output, and each sibling an array names
/// exists.
pub open spec fn struct_ok(d: StructDecl) -> bool {
    &&& d.name is Some
    &&& forall|i: int| 0 <= i < d.fields@.len() ==> member_ok(#[trigger] d.fields@[i].name, d.fields@[i].ty, d.fields@[i].annotations@)
    &&& forall|i: int| 0 <= i < d.fields@.len() ==> !(#[trigger] shape_is_str_out(d.fields@[i]))
    &&& forall|i: int, n: Seq<char>| 0 <= i < d.fields@.len() && #[trigger] field_refers(d.fields@, i, n) ==> has_field(d.fields@, n)
}

/// A field declaration whose shape is a string output, which structs cannot hold.
pub open spec fn shape_is_str_out(f: FieldDecl) -> bool {
    f.ty matches RawType::Pointer(p, c) && !c && len_annotation(f.annotations@) is None
        && is_const_char_ptr(*p)
}

/// The first member of `fs` called `n` is at index `x`.
pub open spec fn first_named(fs: Seq<Member>, n: Seq<char>, x: int) -> bool {
    0 <= x < fs.len() && fs[x].name@ == n && forall|y: int| 0 <= y < x ==> fs[y].name@ != n
}

/// Finds the first member called `name`.
pub fn find_member(fs: &Vec<Member>, name: &str) -> (r: Option<usize>)
    ensures
        r matches Some(x) ==> first_named(fs@, name@, x as int),
        r is None ==> forall|y: int| 0 <= y < fs@.len() ==> fs@[y].name@ != name@,
{
    let mut i: usize = 0;
    while i < fs.len()
        invariant
            i <= fs@.len(),
            forall|y: int| 0 <= y < i ==> fs@[y].name@ != name@,
        decreases fs@.len() - i,
    {
        if same_text(fs[i].name.as_str(), name) {
            return Some(i);
        }
        i = i + 1;
    }
    None
}

/// Some member of `fs` takes its length from a sibling called `n`.
pub open spec fn referred(fs: Seq<Member>, n: Seq<char>) -> bool {
    exists|j: int| 0 <= j < fs.len() && kind_adjacent(#[trigger] fs[j].kind) == Some(n)
}

/// Tells whether some member takes its length from a sibling called `name`.
pub fn is_referred(fs: &Vec<Member>, name: &str) -> (r: bool)
    ensures
        r == referred(fs@, name@),
{
    let mut j: usize = 0;
    while j < fs.len()
        invariant
            j <= fs@.len(),
            forall|y: int| 0 <= y < j ==> kind_adjacent(#[trigger] fs@[y].kind) != Some(name@),
        decreases fs@.len() - j,
    {
        match adjacent_name(&fs[j].kind) {
            Some(id) => if same_text(id.as_str(), name) {
                return true;
            },
            None => {},
        }
        j = j + 1;
    }
    false
}

/// `j` locates the length field that the length source `l` names, if it names one.
pub open spec fn len_target(fs: Seq<Member>, l: ArrayLen, j: Option<usize>) -> bool {
    match l {
        ArrayLen::Adjacent(id) => j matches Some(x) && first_named(fs, id@, x as int),
        _ => j is None,
    }
}

/// Whether a field of shape `k` makes its struct borrow external memory.
pub open spec fn borrows(k: VarKind) -> bool {
    match k {
        VarKind::Ref(_) | VarKind::RefMut(_) | VarKind::Array(_, _) | VarKind::ArrayMut(_, _)
        | VarKind::Str | VarKind::PNext(_, _) => true,
        _ => false,
    }
}

/// Whether a field of shape `k` makes its struct borrow external memory.
pub fn kind_borrows(k: &VarKind) -> (r: bool)
    ensures
        r == borrows(*k),
{
    match k {
        VarKind::Ref(_) | VarKind::RefMut(_) | VarKind::Array(_, _) | VarKind::ArrayMut(_, _)
        | VarKind::Str | VarKind::PNext(_, _) => true,
        _ => false,
    }
}

/// Whether a struct with the fields `fs` needs a lifetime.
pub open spec fn needs_lifetime_spec(fs: Seq<Member>) -> bool {
    exists|i: int| 0 <= i < fs.len() && borrows(#[trigger] fs[i].kind)
}

/// Tells whether a struct with the fields `fs` needs a lifetime: whether
/// any field is a reference, an array, a string or a chain pointer.
pub fn needs_lifetime(fs: &Vec<Member>) -> (r: bool)
    ensures
        r == needs_lifetime_spec(fs@),
{
    let mut i: usize = 0;
    while i < fs.len()
        invariant
            i <= fs@.len(),
            forall|y: int| 0 <= y < i ==> !borrows(#[trigger] fs@[y].kind),
        decreases fs@.len() - i,
    {
        if kind_borrows(&fs[i].kind) {
            return true;
        }
        i = i + 1;
    }
    false
}

/// `f` is the setter form for a field of shape `k` among the fields `fs`.
pub open spec fn form_of(fs: Seq<Member>, k: VarKind, f: SetterForm) -> bool {
    match k {
        VarKind::Normal => f is Value,
        VarKind::PNext(_, c) => f matches SetterForm::Chain(d) && d == c,
        VarKind::Ref(_) => f is Ref,
        VarKind::RefMut(_) => f is RefMut,
        VarKind::Array(_, l) => f matches SetterForm::Slice(j) && len_target(fs, l, j),
        VarKind::ArrayMut(_, l) => f matches SetterForm::SliceMut(j) && len_target(fs, l, j),
        VarKind::ConstantArray(_, _) => f is Fixed,
        VarKind::Str => f is CStr,
        _ => false,
    }
}

/// `s` is the builder setter of field `i` of `fs`: none for a length field,
/// which the setter of its array sets.
pub open spec fn setter_of(fs: Seq<Member>, i: int, s: Option<Setter>) -> bool {
    if fs[i].kind is Len {
        s is None
    } else {
        s matches Some(st) && st.name@ == setter_name(fs[i].name@) && form_of(fs, fs[i].kind, st.form)
    }
}

/// `g` is the getter of field `i` of `fs`: output arrays with a length
/// field read as slices, strings as optional strings.
pub open spec fn getter_of(fs: Seq<Member>, i: int, g: Option<Getter>) -> bool {
    match fs[i].kind {
        VarKind::ArrayMut(_, ArrayLen::Adjacent(id)) => g matches Some(Getter::Slice { name, name_mut, len_field })
            && name@ == getter_name(fs[i].name@)
            && name_mut@ == getter_name(fs[i].name@) + seq!['_', 'm', 'u', 't']
            && first_named(fs, id@, len_field as int),
        VarKind::Str => g matches Some(Getter::CStr { name }) && name@ == getter_name(fs[i].name@),
        _ => g is None,
    }
}

/// The sibling that the shape `k` takes its length from, if any, is a member of `fs`.
pub open spec fn resolved(fs: Seq<Member>, k: VarKind) -> bool {
    match kind_adjacent(k) {
        Some(n) => exists|x: int| #[trigger] first_named(fs, n, x),
        None => true,
    }
}

/// Every sibling that a member of `fs` takes its length from is a member of `fs`.
pub open spec fn lengths_resolved(fs: Seq<Member>) -> bool {
    forall|j: int| 0 <= j < fs.len() ==> #[trigger] resolved(fs, fs[j].kind)
}

/// Computes the setter of field `i`.
fn plan_setter(fs: &Vec<Member>, i: usize) -> (r: Result<Option<Setter>, GenError>)
    requires
        i < fs@.len(),
        !(fs@[i as int].kind is StrMut),
        lengths_resolved(fs@),
    ensures
        r matches Ok(s) && setter_of(fs@, i as int, s),
{
    let k = &fs[i].kind;
    assert(resolved(fs@, fs@[i as int].kind));
    let form = match k {
        VarKind::Normal => SetterForm::Value,
        VarKind::Len => {
            return Ok(None);
        },
        VarKind::PNext(_, c) => SetterForm::Chain(*c),
        VarKind::Ref(_) => SetterForm::Ref,
        VarKind::RefMut(_) => SetterForm::RefMut,
        VarKind::Array(_, l) => SetterForm::Slice(len_index(fs, l)),
        VarKind::ArrayMut(_, l) => SetterForm::SliceMut(len_index(fs, l)),
        VarKind::ConstantArray(_, _) => SetterForm::Fixed,
        VarKind::Str => SetterForm::CStr,
        VarKind::StrMut => {
            return Err(GenError::StringOutputField(fs[i].name.clone()));
        },
    };
    Ok(Some(Setter { name: convert_setter_name(fs[i].name.as_str()), form }))
}

/// The index of the length field that `l` names.
fn len_index(fs: &Vec<Member>, l: &ArrayLen) -> (r: Option<usize>)
    requires
        l matches ArrayLen::Adjacent(id) ==> (exists|x: int| first_named(fs@, id@, x)),
    ensures
        len_target(fs@, *l, r),
{
    match l {
        ArrayLen::Adjacent(id) => {
            let r = find_member(fs, id.as_str());
            proof {
                if r is None {
                    let x = choose|x: int| first_named(fs@, id@, x);
                    assert(fs@[x].name@ == id@);
                }
            }
            r
        },
        _ => None,
    }
}

/// Computes the getter of field `i`.
fn plan_getter(fs: &Vec<Member>, i: usize) -> (r: Option<Getter>)
    requires
        i < fs@.len(),
        lengths_resolved(fs@),
    ensures
        getter_of(fs@, i as int, r),
{
    proof {
        reveal_strlit("_mut");
    }
    match &fs[i].kind {
        VarKind::ArrayMut(_, ArrayLen::Adjacent(id)) => {
            assert(resolved(fs@, fs@[i as int].kind));
            assert(kind_adjacent(fs@[i as int].kind) == Some(id@));
            let x = find_member(fs, id.as_str());
            let len_field = match x {
                Some(x) => x,
                None => {
                    proof {
                        let w = choose|w: int| first_named(fs@, id@, w);
                        assert(fs@[w].name@ == id@);
                    }
                    0
                },
            };
            let name = convert_getter_name(fs[i].name.as_str());
            let name_mut = convert_getter_name(fs[i].name.as_str()).concat("_mut");
            assert("_mut"@ =~= seq!['_', 'm', 'u', 't']);
            Some(Getter::Slice { name, name_mut, len_field })
        },
        VarKind::Str => Some(Getter::CStr { name: convert_getter_name(fs[i].name.as_str()) }),
        _ => None,
    }
}

/// `m` is field `i` of the declarations `fs` once classified, a field that
/// another field names as its length having become a length field.
pub open spec fn field_planned(fs: Seq<FieldDecl>, i: int, m: Member) -> bool {
    let f = fs[i];
    &&& f.name matches Some(n) && m.name@ == member_name(n@)
    &&& opt_view(m.docs) == doc_view(f.docs)
    &&& ffi_type_of(f.ty, m.ty)
    &&& if is_len_field(fs, m.name@) {
        m.kind is Len
    } else {
        shape_of(f.ty, len_annotation(f.annotations@), extends_annotation(f.annotations@), m.kind)
    }
}

/// `p` is the plan of the struct declaration `d`.
pub open spec fn struct_plan_of(d: StructDecl, p: StructPlan) -> bool {
    let n = d.fields@.len();
    &&& d.name matches Some(x) && p.name@ == declared_name(x@)
    &&& opt_view(p.docs) == doc_view(d.docs)
    &&& p.fields@.len() == n
    &&& forall|i: int| 0 <= i < n ==> field_planned(d.fields@, i, #[trigger] p.fields@[i])
    &&& p.needs_lifetime == needs_lifetime_spec(p.fields@)
    &&& p.setters@.len() == n
    &&& forall|i: int| 0 <= i < n ==> setter_of(p.fields@, i, #[trigger] p.setters@[i])
    &&& p.getters@.len() == n
    &&& forall|i: int| 0 <= i < n ==> getter_of(p.fields@, i, #[trigger] p.getters@[i])
}

/// Classifies every field of `fs`.
fn classify_fields(fs: &Vec<FieldDecl>) -> (r: Result<Vec<Member>, GenError>)
    ensures
        !(r matches Err(GenError::MissingLength(_))),
        !(r matches Err(GenError::StringOutputField(_))),
        r is Ok <==> forall|i: int| 0 <= i < fs@.len() ==> member_ok(#[trigger] fs@[i].name, fs@[i].ty, fs@[i].annotations@),
        r matches Ok(ms) ==> ms@.len() == fs@.len() && forall|i: int| 0 <= i < fs@.len()
            ==> member_of(fs@[i].name, fs@[i].docs, fs@[i].ty, fs@[i].annotations@, #[trigger] ms@[i]),
{
    let mut ms: Vec<Member> = Vec::new();
    let mut i: usize = 0;
    while i < fs.len()
        invariant
            i <= fs@.len(),
            ms@.len() == i,
            forall|j: int| 0 <= j < i ==> member_ok(#[trigger] fs@[j].name, fs@[j].ty, fs@[j].annotations@),
            forall|j: int| 0 <= j < i ==> member_of(fs@[j].name, fs@[j].docs, fs@[j].ty, fs@[j].annotations@, #[trigger] ms@[j]),
        decreases fs@.len() - i,
    {
        let f = &fs[i];
        match classify_member(&f.name, &f.docs, &f.ty, &f.annotations) {
            Ok(m) => ms.push(m),
            Err(e) => {
                assert(!member_ok(fs@[i as int].name, fs@[i as int].ty, fs@[i as int].annotations@));
                return Err(e);
            },
        }
        i = i + 1;
    }
    Ok(ms)
}

/// Plans the binding of a struct declaration: classifies its fields, turns
/// the fields that arrays take their lengths from into length fields, and
/// plans its setters, getters and lifetime.
pub fn plan_struct(d: &StructDecl) -> (r: Result<StructPlan, GenError>)
    ensures
        r is Ok <==> struct_ok(*d),
        r matches Ok(p) ==> struct_plan_of(*d, p),
        d.name is None ==> r matches Err(GenError::MissingName),
        r matches Err(GenError::MissingLength(id)) ==> is_len_field(d.fields@, id@) && !has_field(d.fields@, id@),
        r matches Err(GenError::StringOutputField(_)) ==> exists|i: int| 0 <= i < d.fields@.len() && #[trigger] shape_is_str_out(d.fields@[i]),
{
    let name = match &d.name {
        Some(n) => String::from_str(convert_type_name(n.as_str())),
        None => {
            return Err(GenError::MissingName);
        },
    };
    let docs = clean_doc_opt(&d.docs);
    let ghost decls = d.fields@;
    let mut fields = match classify_fields(&d.fields) {
        Ok(ms) => ms,
        Err(e) => {
            return Err(e);
        },
    };
    let n = fields.len();
    proof {
        assert forall|i: int| 0 <= i < n implies kind_adjacent(#[trigger] fields@[i].kind)
            == adjacent_ref(decls[i].ty, len_annotation(decls[i].annotations@)) by {
            lemma_adjacent_of_shape(decls[i].ty, len_annotation(decls[i].annotations@),
                extends_annotation(decls[i].annotations@), fields@[i].kind);
        }
    }
    // string outputs cannot be struct fields
    let mut i: usize = 0;
    while i < n
        invariant
            d.name is Some,
            decls == d.fields@,
            n == fields@.len(),
            n == decls.len(),
            i <= n,
            forall|j: int| 0 <= j < n ==> member_of(decls[j].name, decls[j].docs, decls[j].ty, decls[j].annotations@, #[trigger] fields@[j]),
            forall|j: int| 0 <= j < i ==> !(#[trigger] fields@[j].kind is StrMut),
        decreases n - i,
    {
        if let VarKind::StrMut = fields[i].kind {
            assert(shape_is_str_out(decls[i as int]));
            return Err(GenError::StringOutputField(fields[i].name.clone()));
        }
        i = i + 1;
    }
    // every sibling named as a length exists
    let mut i: usize = 0;
    while i < n
        invariant
            d.name is Some,
            decls == d.fields@,
            n == fields@.len(),
            n == decls.len(),
            i <= n,
            forall|j: int| 0 <= j < n ==> member_of(decls[j].name, decls[j].docs, decls[j].ty, decls[j].annotations@, #[trigger] fields@[j]),
            forall|j: int| 0 <= j < n ==> kind_adjacent(#[trigger] fields@[j].kind)
                == adjacent_ref(decls[j].ty, len_annotation(decls[j].annotations@)),
            forall|j: int| 0 <= j < i ==> #[trigger] resolved(fields@, fields@[j].kind),
        decreases n - i,
    {
        match adjacent_name(&fields[i].kind) {
            Some(id) => {
                match find_member(&fields, id.as_str()) {
                    Some(x) => {
                        assert(first_named(fields@, id@, x as int));
                        assert(resolved(fields@, fields@[i as int].kind)) by {
                            let m = kind_adjacent(fields@[i as int].kind).unwrap();
                            assert(m == id@);
                            assert(first_named(fields@, m, x as int));
                        }
                    },
                    None => {
                        proof {
                            assert(field_refers(decls, i as int, id@));
                            if has_field(decls, id@) {
                                let y = choose|y: int| 0 <= y < decls.len() && #[trigger] field_named(decls, y, id@);
                                assert(fields@[y].name@ == id@);
                            }
                        }
                        return Err(GenError::MissingLength(id.clone()));
                    },
                }
            },
            None => {
                assert(resolved(fields@, fields@[i as int].kind));
            },
        }
        i = i + 1;
    }
    proof {
        assert forall|j: int, m: Seq<char>| 0 <= j < decls.len() && #[trigger] field_refers(decls, j, m)
            implies has_field(decls, m) by {
            assert(resolved(fields@, fields@[j].kind));
            let x = choose|x: int| first_named(fields@, m, x);
            assert(field_named(decls, x, m));
        }
        assert forall|j: int| 0 <= j < decls.len() implies !(#[trigger] shape_is_str_out(decls[j])) by {
            assert(member_of(decls[j].name, decls[j].docs, decls[j].ty, decls[j].annotations@, fields@[j]));
        }
    }
    // which fields are lengths of arrays
    let mut is_len: Vec<bool> = Vec::new();
    let mut i: usize = 0;
    while i < n
        invariant
            d.name is Some,
            decls == d.fields@,
            n == fields@.len(),
            i <= n,
            is_len@.len() == i,
            forall|j: int| 0 <= j < i ==> #[trigger] is_len@[j] == referred(fields@, fields@[j].name@),
        decreases n - i,
    {
        is_len.push(is_referred(&fields, fields[i].name.as_str()));
        i = i + 1;
    }
    let ghost pre = fields@;
    let mut i: usize = 0;
    while i < n
        invariant
            d.name is Some,
            decls == d.fields@,
            n == fields@.len(),
            n == pre.len(),
            i <= n,
            is_len@.len() == n,
            forall|j: int| 0 <= j < n ==> #[trigger] is_len@[j] == referred(pre, pre[j].name@),
            forall|j: int| 0 <= j < n ==> (#[trigger] fields@[j]).name == pre[j].name && fields@[j].docs
                == pre[j].docs && fields@[j].ty == pre[j].ty,
            forall|j: int| 0 <= j < i ==> (#[trigger] fields@[j]).kind == if is_len@[j] {
                VarKind::Len
            } else {
                pre[j].kind
            },
            forall|j: int| i <= j < n ==> (#[trigger] fields@[j]).kind == pre[j].kind,
        decreases n - i,
    {
        if is_len[i] {
            fields[i].kind = VarKind::Len;
        }
        i = i + 1;
    }
    proof {
        assert forall|j: int| 0 <= j < n implies #[trigger] resolved(fields@, fields@[j].kind) by {
            if let Some(m) = kind_adjacent(fields@[j].kind) {
                assert(resolved(pre, pre[j].kind));
                let x = choose|x: int| first_named(pre, m, x);
                assert(first_named(fields@, m, x));
            }
        }
        assert forall|m: Seq<char>| #[trigger] referred(pre, m) == is_len_field(decls, m) by {
            if referred(pre, m) {
                let j = choose|j: int| 0 <= j < pre.len() && kind_adjacent(#[trigger] pre[j].kind) == Some(m);
                assert(field_refers(decls, j, m));
            }
            if is_len_field(decls, m) {
                let j = choose|j: int| 0 <= j < decls.len() && #[trigger] field_refers(decls, j, m);
                assert(kind_adjacent(pre[j].kind) == Some(m));
            }
        }
        assert forall|j: int| 0 <= j < n implies field_planned(decls, j, #[trigger] fields@[j]) by {
            assert(member_of(decls[j].name, decls[j].docs, decls[j].ty, decls[j].annotations@, pre[j]));
            assert(is_len@[j] == referred(pre, pre[j].name@));
        }
    }
    let needs = needs_lifetime(&fields);
    let mut setters: Vec<Option<Setter>> = Vec::new();
    let mut getters: Vec<Option<Getter>> = Vec::new();
    let mut i: usize = 0;
    while i < n
        invariant
            d.name is Some,
            decls == d.fields@,
            n == fields@.len(),
            i <= n,
            lengths_resolved(fields@),
            forall|j: int| 0 <= j < n ==> !(#[trigger] fields@[j].kind is StrMut),
            setters@.len() == i,
            getters@.len() == i,
            forall|j: int| 0 <= j < i ==> setter_of(fields@, j, #[trigger] setters@[j]),
            forall|j: int| 0 <= j < i ==> getter_of(fields@, j, #[trigger] getters@[j]),
        decreases n - i,
    {
        match plan_setter(&fields, i) {
            Ok(s) => setters.push(s),
            Err(e) => {
                return Err(e);
            },
        }
        getters.push(plan_getter(&fields, i));
        i = i + 1;
    }
    Ok(StructPlan { name, docs, fields, needs_lifetime: needs, setters, getters })
}

/// A field that an array field names as its length becomes a length field:
/// it gets no setter of its own, and the array's setter sets it from the
/// length of the slice it is given.
pub proof fn lemma_length_pairing(d: StructDecl, p: StructPlan, i: int, n: String)
    requires
        struct_plan_of(d, p),
        struct_ok(d),
        0 <= i < p.fields@.len(),
        p.fields@[i].kind matches VarKind::Array(_, ArrayLen::Adjacent(x)) && x@ == n@,
    ensures
        exists|j: int| {
            &&& #[trigger] first_named(p.fields@, n@, j)
            &&& p.fields@[j].kind is Len
            &&& p.setters@[j] is None
            &&& p.setters@[i] matches Some(s) && s.form == SetterForm::Slice(Some(j as usize))
        },
{
    let decls = d.fields@;
    let f = decls[i];
    assert(field_planned(decls, i, p.fields@[i]));
    lemma_adjacent_of_shape(f.ty, len_annotation(f.annotations@), extends_annotation(f.annotations@), p.fields@[i].kind);
    assert(field_refers(decls, i, n@));
    assert(setter_of(p.fields@, i, p.setters@[i]));
    let j = p.setters@[i]->Some_0.form->Slice_0->Some_0;
    assert(first_named(p.fields@, n@, j as int));
    assert(field_planned(decls, j as int, p.fields@[j as int]));
    assert(setter_of(p.fields@, j as int, p.setters@[j as int]));
}

/// A struct whose fields are all plain values, fixed-size arrays or lengths
/// has no lifetime; one with a reference, array, string or chain-pointer
/// field always has one.
pub proof fn lemma_lifetime_necessity(d: StructDecl, p: StructPlan)
    requires
        struct_plan_of(d, p),
    ensures
        (forall|i: int| 0 <= i < p.fields@.len() ==> {
            let k = #[trigger] p.fields@[i].kind;
            k is Normal || k is ConstantArray || k is Len
        }) ==> !p.needs_lifetime,
        (exists|i: int| 0 <= i < p.fields@.len() && {
            let k = #[trigger] p.fields@[i].kind;
            k is Ref || k is RefMut || k is Array || k is ArrayMut || k is Str || k is PNext
        }) ==> p.needs_lifetime,
{
}

} // verus!

//! The shape classifier: from the raw type of a field or parameter and its
//! annotations to the semantic role it plays in the generated bindings.

use vstd::prelude::*;
use crate::text::{
    has_prefix, same_text, starts_with, trim_end_all, trim_end_matches, trim_start_all,
    trim_start_matches,
};
use crate::naming::{
    convert_extends_trait, convert_member_name, extends_trait_name, snake_case_of,
};

verus! {

/// A C type as the header's syntax tree presents it. The const-qualification
/// stored with a pointer is that of the pointee in the *canonical* type: the
/// declared form can drop `const` on typedef'd handle types.
pub enum RawType {
    /// A named typedef (scalars, handles, function pointers, structs).
    Typedef(String),
    /// A pointer: its pointee, and whether the pointee is const-qualified.
    Pointer(Box<RawType>, bool),
    /// A fixed-size array: element type and length.
    ConstantArray(Box<RawType>, usize),
    /// A plain or signed or unsigned `char`.
    Char,
    /// `void`.
    Void,
    /// `float`.
    Float,
    /// Any other shape, with its display name.
    Other(String),
}

/// A type in the low-level foreign declarations of the target language.
pub enum FfiType {
    /// A path such as `vk::Buffer`, `u32` or `Option<vk::PFN_vkMapMemory>`.
    Path(String),
    /// `*const T`.
    ConstPtr(Box<FfiType>),
    /// `*mut T`.
    MutPtr(Box<FfiType>),
    /// `[T; N]`.
    Array(Box<FfiType>, usize),
    /// `c_char`.
    CChar,
    /// `c_void`.
    CVoid,
    /// `f32`.
    F32,
}

/// Where the length of an array comes from.
pub enum ArrayLen {
    /// A sibling field or parameter of this name.
    Adjacent(String),
    /// The memory-heap count of the device's memory properties.
    MemoryHeapCount,
    /// The memory-type count of the device's memory properties.
    MemoryTypeCount,
}

/// The semantic role of a field or parameter.
pub enum VarKind {
    /// A plain value.
    Normal,
    /// The count of an array, derived from that array.
    Len,
    /// A const pointer to one value.
    Ref(FfiType),
    /// A mutable pointer to one value: an output.
    RefMut(FfiType),
    /// A const pointer to several values.
    Array(FfiType, ArrayLen),
    /// A mutable pointer to several values: an output array.
    ArrayMut(FfiType, ArrayLen),
    /// A fixed-size array.
    ConstantArray(FfiType, usize),
    /// A const C string.
    Str,
    /// A pointer to a C string the callee hands out.
    StrMut,
    /// An extension-chain pointer: the trait its targets implement, and
    /// whether the pointer is const.
    PNext(String, bool),
}

/// Why a declaration cannot be bound.
pub enum GenError {
    /// A type shape that no rule covers, with its display name.
    UnsupportedType(String),
    /// A typedef whose target-language type is not known.
    UnknownTypedef(String),
    /// A `const void*` without an extension-chain annotation.
    UnannotatedConstVoid,
    /// An array names a length sibling that does not exist.
    MissingLength(String),
    /// A declaration without a name.
    MissingName,
    /// A struct field that is a string output, which only parameters can be.
    StringOutputField(String),
    /// A function parameter that is a fixed-size array.
    ArrayParameter(String),
}

/// The length annotation naming the device's memory-heap count.
pub const HEAP_COUNT_LEN: &'static str = "\"VkPhysicalDeviceMemoryProperties::memoryHeapCount\"";

/// The length annotation naming the device's memory-type count.
pub const TYPE_COUNT_LEN: &'static str = "\"VkPhysicalDeviceMemoryProperties::memoryTypeCount\"";

/// `l` is what the length annotation `a` denotes.
pub open spec fn array_len_of(a: Seq<char>, l: ArrayLen) -> bool {
    if a == HEAP_COUNT_LEN@ {
        l is MemoryHeapCount
    } else if a == TYPE_COUNT_LEN@ {
        l is MemoryTypeCount
    } else {
        l matches ArrayLen::Adjacent(id) && id@ == snake_case_of(a)
    }
}

impl ArrayLen {
    /// Parses the content of a length annotation.
    pub fn parse(val: &str) -> (r: ArrayLen)
        ensures
            array_len_of(val@, r),
    {
        if same_text(val, HEAP_COUNT_LEN) {
            ArrayLen::MemoryHeapCount
        } else if same_text(val, TYPE_COUNT_LEN) {
            ArrayLen::MemoryTypeCount
        } else {
            ArrayLen::Adjacent(convert_member_name(val))
        }
    }
}

/// The target-language path of a typedef, if the typedef is known: `Vk...`
/// types live under `vk::`, `PFN_vk...` pointers become optional `vk::PFN_vk...`
/// without `KHR`, `Vma...` types lose the prefix, `PFN_vma...` stay as they
/// are, and `uint32_t` and `size_t` map to `u32` and `usize`.
pub open spec fn typedef_path(n: Seq<char>) -> Option<Seq<char>> {
    if has_prefix(n, seq!['V', 'k']) {
        Some(seq!['v', 'k', ':', ':'] + n.subrange(2, n.len() as int))
    } else if has_prefix(n, seq!['P', 'F', 'N', '_', 'v', 'k']) {
        Some(seq!['O', 'p', 't', 'i', 'o', 'n', '<', 'v', 'k', ':', ':', 'P', 'F', 'N', '_', 'v', 'k']
            + trim_end_all(n.subrange(6, n.len() as int), seq!['K', 'H', 'R']) + seq!['>'])
    } else if has_prefix(n, seq!['V', 'm', 'a']) {
        Some(n.subrange(3, n.len() as int))
    } else if has_prefix(n, seq!['P', 'F', 'N', '_', 'v', 'm', 'a']) {
        Some(n)
    } else if n == seq!['u', 'i', 'n', 't', '3', '2', '_', 't'] {
        Some(seq!['u', '3', '2'])
    } else if n == seq!['s', 'i', 'z', 'e', '_', 't'] {
        Some(seq!['u', 's', 'i', 'z', 'e'])
    } else {
        None
    }
}

/// Converts the name of a typedef to the corresponding path in the target.
pub fn convert_typedef(name: &str) -> (r: Result<String, GenError>)
    ensures
        typedef_path(name@) matches Some(p) ==> (r matches Ok(s) && s@ == p),
        typedef_path(name@) is None ==> (r matches Err(GenError::UnknownTypedef(n)) && n@ == name@),
{
    proof {
        reveal_strlit("Vk");
        reveal_strlit("vk::");
        reveal_strlit("PFN_vk");
        reveal_strlit("Option<vk::PFN_vk");
        reveal_strlit("KHR");
        reveal_strlit(">");
        reveal_strlit("Vma");
        reveal_strlit("PFN_vma");
        reveal_strlit("uint32_t");
        reveal_strlit("u32");
        reveal_strlit("size_t");
        reveal_strlit("usize");
    }
    assert("Vk"@ =~= seq!['V', 'k']);
    assert("vk::"@ =~= seq!['v', 'k', ':', ':']);
    assert("PFN_vk"@ =~= seq!['P', 'F', 'N', '_', 'v', 'k']);
    assert("Option<vk::PFN_vk"@ =~= seq!['O', 'p', 't', 'i', 'o', 'n', '<', 'v', 'k', ':', ':', 'P', 'F', 'N', '_', 'v', 'k']);
    assert("KHR"@ =~= seq!['K', 'H', 'R']);
    assert(">"@ =~= seq!['>']);
    assert("Vma"@ =~= seq!['V', 'm', 'a']);
    assert("PFN_vma"@ =~= seq!['P', 'F', 'N', '_', 'v', 'm', 'a']);
    assert("uint32_t"@ =~= seq!['u', 'i', 'n', 't', '3', '2', '_', 't']);
    assert("u32"@ =~= seq!['u', '3', '2']);
    assert("size_t"@ =~= seq!['s', 'i', 'z', 'e', '_', 't']);
    assert("usize"@ =~= seq!['u', 's', 'i', 'z', 'e']);
    let n = name.unicode_len();
    if starts_with(name, "Vk") {
        Ok(String::from_str("vk::").concat(name.substring_char(2, n)))
    } else if starts_with(name, "PFN_vk") {
        let rest = trim_end_matches(name.substring_char(6, n), "KHR");
        Ok(String::from_str("Option<vk::PFN_vk").concat(rest).concat(">"))
    } else if starts_with(name, "Vma") {
        Ok(String::from_str(name.substring_char(3, n)))
    } else if starts_with(name, "PFN_vma") {
        Ok(String::from_str(name))
    } else if same_text(name, "uint32_t") {
        Ok(String::from_str("u32"))
    } else if same_text(name, "size_t") {
        Ok(String::from_str("usize"))
    } else {
        Err(GenError::UnknownTypedef(String::from_str(name)))
    }
}

/// Whether the foreign translation of `t` exists.
pub open spec fn ffi_supported(t: RawType) -> bool
    decreases t,
{
    match t {
        RawType::Typedef(n) => typedef_path(n@) is Some,
        RawType::Pointer(p, _) => ffi_supported(*p),
        RawType::ConstantArray(e, _) => ffi_supported(*e),
        RawType::Other(_) => false,
        _ => true,
    }
}

/// `f` is the foreign translation of `t`: `const T*` becomes `*const T`
/// (by the canonical const-qualification), `T*` becomes `*mut T`, `T[N]`
/// becomes `[T; N]`, and typedefs become their paths.
pub open spec fn ffi_type_of(t: RawType, f: FfiType) -> bool
    decreases t,
{
    match t {
        RawType::Typedef(n) => f matches FfiType::Path(p) && typedef_path(n@) == Some(p@),
        RawType::Pointer(p, c) => match f {
            FfiType::ConstPtr(q) => c && ffi_type_of(*p, *q),
            FfiType::MutPtr(q) => !c && ffi_type_of(*p, *q),
            _ => false,
        },
        RawType::ConstantArray(e, n) => f matches FfiType::Array(q, m) && m == n && ffi_type_of(*e, *q),
        RawType::Char => f is CChar,
        RawType::Void => f is CVoid,
        RawType::Float => f is F32,
        RawType::Other(_) => false,
    }
}

/// The display name of the first unsupported part of a type.
pub open spec fn unsupported_part(t: RawType) -> Seq<char>
    decreases t,
{
    match t {
        RawType::Typedef(n) => n@,
        RawType::Pointer(p, _) => unsupported_part(*p),
        RawType::ConstantArray(e, _) => unsupported_part(*e),
        RawType::Other(d) => d@,
        _ => Seq::empty(),
    }
}

/// The error for a type without a foreign translation.
pub open spec fn ffi_error(t: RawType, e: GenError) -> bool
    decreases t,
{
    match t {
        RawType::Typedef(n) => e matches GenError::UnknownTypedef(m) && m@ == n@,
        RawType::Pointer(p, _) => ffi_error(*p, e),
        RawType::ConstantArray(q, _) => ffi_error(*q, e),
        RawType::Other(d) => e matches GenError::UnsupportedType(m) && m@ == d@,
        _ => false,
    }
}

/// Translates a raw type into the type of the foreign declaration.
pub fn translate_ffi_type(t: &RawType) -> (r: Result<FfiType, GenError>)
    ensures
        r is Ok <==> ffi_supported(*t),
        r matches Ok(f) ==> ffi_type_of(*t, f),
        r matches Err(e) ==> ffi_error(*t, e),
        r matches Err(e) ==> (e is UnsupportedType || e is UnknownTypedef),
    decreases t,
{
    match t {
        RawType::Typedef(n) => match convert_typedef(n.as_str()) {
            Ok(p) => Ok(FfiType::Path(p)),
            Err(e) => Err(e),
        },
        RawType::Pointer(p, c) => match translate_ffi_type(p) {
            Ok(q) => if *c {
                Ok(FfiType::ConstPtr(Box::new(q)))
            } else {
                Ok(FfiType::MutPtr(Box::new(q)))
            },
            Err(e) => Err(e),
        },
        RawType::ConstantArray(e, n) => match translate_ffi_type(e) {
            Ok(q) => Ok(FfiType::Array(Box::new(q), *n)),
            Err(e) => Err(e),
        },
        RawType::Char => Ok(FfiType::CChar),
        RawType::Void => Ok(FfiType::CVoid),
        RawType::Float => Ok(FfiType::F32),
        RawType::Other(d) => Err(GenError::UnsupportedType(d.clone())),
    }
}

/// The characters of an optional string.
pub open spec fn opt_view(o: Option<String>) -> Option<Seq<char>> {
    match o {
        Some(s) => Some(s@),
        None => None,
    }
}

/// `t` points to a const `char`.
pub open spec fn is_const_char_ptr(t: RawType) -> bool {
    t matches RawType::Pointer(q, c) && c && *q is Char
}

/// The display name used when a top-level type has no rule.
pub open spec fn display_of(t: RawType) -> Seq<char> {
    match t {
        RawType::Char => seq!['c', 'h', 'a', 'r'],
        RawType::Void => seq!['v', 'o', 'i', 'd'],
        RawType::Other(d) => d@,
        _ => Seq::empty(),
    }
}

/// Whether a field or parameter of raw type `t` has a shape; `ext` is its
/// extension-chain annotation.
pub open spec fn classifiable(t: RawType, ext: Option<Seq<char>>) -> bool {
    match t {
        RawType::Typedef(_) => true,
        RawType::Float => true,
        RawType::ConstantArray(e, _) => ffi_supported(*e),
        RawType::Pointer(p, c) => ffi_supported(*p) && !(c && *p is Void && ext is None),
        _ => false,
    }
}

/// `k` is the shape of a pointer to `p` (`c`: the pointee is const) with the
/// length annotation `len` and the extension annotation `ext`.
pub open spec fn pointer_shape(
    p: RawType,
    c: bool,
    len: Option<Seq<char>>,
    ext: Option<Seq<char>>,
    k: VarKind,
) -> bool {
    if p is Void {
        match ext {
            Some(b) => k matches VarKind::PNext(tr, kc) && tr@ == extends_trait_name(b) && kc == c,
            None => !c && k is Normal,
        }
    } else if c && p is Char {
        k is Str
    } else {
        match len {
            Some(a) => if c {
                k matches VarKind::Array(f, l) && ffi_type_of(p, f) && array_len_of(a, l)
            } else {
                k matches VarKind::ArrayMut(f, l) && ffi_type_of(p, f) && array_len_of(a, l)
            },
            None => if !c && is_const_char_ptr(p) {
                k is StrMut
            } else if c {
                k matches VarKind::Ref(f) && ffi_type_of(p, f)
            } else {
                k matches VarKind::RefMut(f) && ffi_type_of(p, f)
            },
        }
    }
}

/// `k` is the shape of a field or parameter of raw type `t`.
pub open spec fn shape_of(t: RawType, len: Option<Seq<char>>, ext: Option<Seq<char>>, k: VarKind) -> bool {
    match t {
        RawType::Typedef(_) => k is Normal,
        RawType::Float => k is Normal,
        RawType::ConstantArray(e, n) => k matches VarKind::ConstantArray(f, m) && m == n && ffi_type_of(*e, f),
        RawType::Pointer(p, c) => pointer_shape(*p, c, len, ext, k),
        _ => false,
    }
}

/// `e` reports why `t` has no shape.
pub open spec fn shape_error(t: RawType, e: GenError) -> bool {
    match t {
        RawType::ConstantArray(q, _) => ffi_error(*q, e),
        RawType::Pointer(p, c) => if ffi_supported(*p) {
            e is UnannotatedConstVoid
        } else {
            ffi_error(*p, e)
        },
        _ => e matches GenError::UnsupportedType(d) && d@ == display_of(t),
    }
}

/// Classifies a field or parameter from its raw type, its length annotation
/// and its extension-chain annotation. Unsupported shapes are errors, never
/// guesses.
pub fn classify(t: &RawType, len_attr: &Option<String>, ext_attr: &Option<String>) -> (r: Result<VarKind, GenError>)
    ensures
        r is Ok <==> classifiable(*t, opt_view(*ext_attr)),
        r matches Ok(k) ==> shape_of(*t, opt_view(*len_attr), opt_view(*ext_attr), k),
        r matches Err(e) ==> shape_error(*t, e),
        r matches Err(e) ==> (e is UnsupportedType || e is UnknownTypedef || e is UnannotatedConstVoid),
{
    proof {
        reveal_strlit("char");
        reveal_strlit("void");
    }
    match t {
        RawType::Typedef(_) => Ok(VarKind::Normal),
        RawType::Float => Ok(VarKind::Normal),
        RawType::ConstantArray(e, n) => match translate_ffi_type(e) {
            Ok(f) => Ok(VarKind::ConstantArray(f, *n)),
            Err(err) => Err(err),
        },
        RawType::Pointer(p, c) => {
            let f = match translate_ffi_type(p) {
                Ok(f) => f,
                Err(err) => {
                    return Err(err);
                },
            };
            let is_void = match &**p {
                RawType::Void => true,
                _ => false,
            };
            let is_char = match &**p {
                RawType::Char => true,
                _ => false,
            };
            if is_void {
                match ext_attr {
                    Some(b) => Ok(VarKind::PNext(convert_extends_trait(b.as_str()), *c)),
                    None => if *c {
                        Err(GenError::UnannotatedConstVoid)
                    } else {
                        Ok(VarKind::Normal)
                    },
                }
            } else if *c && is_char {
                Ok(VarKind::Str)
            } else {
                match len_attr {
                    Some(a) => {
                        let l = ArrayLen::parse(a.as_str());
                        if *c {
                            Ok(VarKind::Array(f, l))
                        } else {
                            Ok(VarKind::ArrayMut(f, l))
                        }
                    },
                    None => {
                        let str_out = match &**p {
                            RawType::Pointer(q, qc) => *qc && match &**q {
                                RawType::Char => true,
                                _ => false,
                            },
                            _ => false,
                        };
                        if !*c && str_out {
                            Ok(VarKind::StrMut)
                        } else if *c {
                            Ok(VarKind::Ref(f))
                        } else {
                            Ok(VarKind::RefMut(f))
                        }
                    },
                }
            }
        },
        RawType::Char => {
            assert("char"@ =~= seq!['c', 'h', 'a', 'r']);
            Err(GenError::UnsupportedType(String::from_str("char")))
        },
        RawType::Void => {
            assert("void"@ =~= seq!['v', 'o', 'i', 'd']);
            Err(GenError::UnsupportedType(String::from_str("void")))
        },
        RawType::Other(d) => Err(GenError::UnsupportedType(d.clone())),
    }
}

/// The prefix of a length annotation.
pub const LEN_MARK: &'static str = "LEN:";

/// The prefix of an extension-chain annotation.
pub const EXTENDS_MARK: &'static str = "VK_STRUCT:";

/// The content of the first annotation in `a` that starts with `mark`, with
/// the mark removed.
pub open spec fn first_annotation(a: Seq<String>, mark: Seq<char>) -> Option<Seq<char>>
    decreases a.len(),
{
    if a.len() == 0 {
        None
    } else if has_prefix(a[0]@, mark) {
        Some(trim_start_all(a[0]@, mark))
    } else {
        first_annotation(a.subrange(1, a.len() as int), mark)
    }
}

/// Finds the first annotation that starts with `mark` and returns its content.
pub fn find_annotation(annotations: &Vec<String>, mark: &str) -> (r: Option<String>)
    ensures
        opt_view(r) == first_annotation(annotations@, mark@),
{
    let n = annotations.len();
    let mut i: usize = 0;
    assert(annotations@.subrange(0, n as int) =~= annotations@);
    while i < n
        invariant
            n == annotations@.len(),
            i <= n,
            first_annotation(annotations@.subrange(i as int, n as int), mark@)
                == first_annotation(annotations@, mark@),
        decreases n - i,
    {
        let a = annotations[i].as_str();
        let ghost rest = annotations@.subrange(i as int, n as int);
        if starts_with(a, mark) {
            return Some(String::from_str(trim_start_matches(a, mark)));
        }
        assert(rest.subrange(1, rest.len() as int) =~= annotations@.subrange(i + 1, n as int));
        i = i + 1;
    }
    None
}

/// The name of the length sibling that a field or parameter of raw type `t`
/// with length annotation `len` refers to, if its shape is an array whose
/// length lives in a sibling.
pub open spec fn adjacent_ref(t: RawType, len: Option<Seq<char>>) -> Option<Seq<char>> {
    match (t, len) {
        (RawType::Pointer(p, c), Some(a)) => if *p is Void || (c && *p is Char) || a == HEAP_COUNT_LEN@
            || a == TYPE_COUNT_LEN@ {
            None
        } else {
            Some(snake_case_of(a))
        },
        _ => None,
    }
}

/// The sibling that the shape `k` takes its length from, if any.
pub open spec fn kind_adjacent(k: VarKind) -> Option<Seq<char>> {
    match k {
        VarKind::Array(_, ArrayLen::Adjacent(id)) => Some(id@),
        VarKind::ArrayMut(_, ArrayLen::Adjacent(id)) => Some(id@),
        _ => None,
    }
}

/// The sibling reference of a classified shape is the one its declaration names.
pub proof fn lemma_adjacent_of_shape(t: RawType, len: Option<Seq<char>>, ext: Option<Seq<char>>, k: VarKind)
    requires
        shape_of(t, len, ext, k),
    ensures
        kind_adjacent(k) == adjacent_ref(t, len),
{
}

/// Which sibling, if any, the array shape `k` takes its length from.
pub fn adjacent_name(k: &VarKind) -> (r: Option<&String>)
    ensures
        match r {
            Some(s) => kind_adjacent(*k) == Some(s@),
            None => kind_adjacent(*k) is None,
        },
{
    match k {
        VarKind::Array(_, ArrayLen::Adjacent(id)) => Some(id),
        VarKind::ArrayMut(_, ArrayLen::Adjacent(id)) => Some(id),
        _ => None,
    }
}

/// The name of the sibling that a *const* array of raw type `t` with length
/// annotation `len` takes its length from, if it is such an array.
pub open spec fn array_ref(t: RawType, len: Option<Seq<char>>) -> Option<Seq<char>> {
    match t {
        RawType::Pointer(_, c) => if c {
            adjacent_ref(t, len)
        } else {
            None
        },
        _ => None,
    }
}

/// The sibling that the const-array shape `k` takes its length from, if any.
pub open spec fn kind_array_adjacent(k: VarKind) -> Option<Seq<char>> {
    match k {
        VarKind::Array(_, ArrayLen::Adjacent(id)) => Some(id@),
        _ => None,
    }
}

/// Which sibling, if any, the const-array shape `k` takes its length from.
pub fn array_adjacent_name(k: &VarKind) -> (r: Option<&String>)
    ensures
        match r {
            Some(s) => kind_array_adjacent(*k) == Some(s@),
            None => kind_array_adjacent(*k) is None,
        },
{
    match k {
        VarKind::Array(_, ArrayLen::Adjacent(id)) => Some(id),
        _ => None,
    }
}

/// A declaration whose shape is a plain value.
pub open spec fn plain_decl(t: RawType, ext: Option<Seq<char>>) -> bool {
    t is Typedef || t is Float || (t matches RawType::Pointer(p, c) && *p is Void && !c && ext is None)
}

/// The const-array reference and the plain-value test of a classified shape
/// are those its declaration gives.
pub proof fn lemma_shape_facts(t: RawType, len: Option<Seq<char>>, ext: Option<Seq<char>>, k: VarKind)
    requires
        shape_of(t, len, ext, k),
    ensures
        kind_array_adjacent(k) == array_ref(t, len),
        kind_adjacent(k) == adjacent_ref(t, len),
        k is Normal <==> plain_decl(t, ext),
{
}

/// Which of the shapes `k` is, as a number.
pub open spec fn kind_tag(k: VarKind) -> int {
    match k {
        VarKind::Normal => 0,
        VarKind::Len => 1,
        VarKind::Ref(_) => 2,
        VarKind::RefMut(_) => 3,
        VarKind::Array(_, _) => 4,
        VarKind::ArrayMut(_, _) => 5,
        VarKind::ConstantArray(_, _) => 6,
        VarKind::Str => 7,
        VarKind::StrMut => 8,
        VarKind::PNext(_, _) => 9,
    }
}

/// A type with a foreign translation is supported.
pub proof fn lemma_ffi_supported(t: RawType, f: FfiType)
    requires
        ffi_type_of(t, f),
    ensures
        ffi_supported(t),
    decreases t,
{
    match t {
        RawType::Pointer(p, _) => match f {
            FfiType::ConstPtr(q) => lemma_ffi_supported(*p, *q),
            FfiType::MutPtr(q) => lemma_ffi_supported(*p, *q),
            _ => {},
        },
        RawType::ConstantArray(e, _) => match f {
            FfiType::Array(q, _) => lemma_ffi_supported(*e, *q),
            _ => {},
        },
        _ => {},
    }
}

/// The classifier is total and unambiguous: a type and annotations with a
/// shape are classifiable, and any two shapes the rules give them are the
/// same kind of shape.
pub proof fn lemma_classifier_totality(
    t: RawType,
    len: Option<Seq<char>>,
    ext: Option<Seq<char>>,
    k1: VarKind,
    k2: VarKind,
)
    requires
        shape_of(t, len, ext, k1),
        shape_of(t, len, ext, k2),
    ensures
        classifiable(t, ext),
        kind_tag(k1) == kind_tag(k2),
{
    match t {
        RawType::ConstantArray(e, _) => {
            let f = k1->ConstantArray_0;
            assert(ffi_type_of(*e, f));
            lemma_ffi_supported(*e, f);
        },
        RawType::Pointer(p, c) => {
            if !(*p is Void) && !(c && *p is Char) {
                match k1 {
                    VarKind::Array(f, _) | VarKind::ArrayMut(f, _) | VarKind::Ref(f) | VarKind::RefMut(f) => {
                        lemma_ffi_supported(*p, f);
                    },
                    _ => {
                        if let RawType::Pointer(q, _) = *p {
                            assert(ffi_supported(*q));
                        }
                    },
                }
            }
        },
        _ => {},
    }
}

/// A `const void*` without an extension-chain annotation has no shape.
pub proof fn lemma_const_void_unsupported(len: Option<Seq<char>>, k: VarKind)
    ensures
        !classifiable(RawType::Pointer(Box::new(RawType::Void), true), None),
        !shape_of(RawType::Pointer(Box::new(RawType::Void), true), len, None, k),
{
}

} // verus!

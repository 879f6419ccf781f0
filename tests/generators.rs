use vma_bindgen::enums::{is_bound_enum, plan_enum, EnumDecl, VariantDecl};
use vma_bindgen::functions::{
    caller_supplies, is_bound_function, plan_function, Buffer, FunctionDecl, LenSource, ParamDecl,
    Pass, ReturnShape,
};
use vma_bindgen::shape::{GenError, RawType, VarKind, HEAP_COUNT_LEN};
use vma_bindgen::structs::{
    is_bound_struct, needs_lifetime, plan_struct, FieldDecl, Getter, SetterForm, StructDecl,
};

fn td(n: &str) -> RawType {
    RawType::Typedef(n.to_string())
}

fn ptr(t: RawType, pointee_const: bool) -> RawType {
    RawType::Pointer(Box::new(t), pointee_const)
}

fn field(name: &str, ty: RawType, annotations: &[&str]) -> FieldDecl {
    FieldDecl {
        name: Some(name.to_string()),
        docs: None,
        ty,
        annotations: annotations.iter().map(|a| a.to_string()).collect(),
    }
}

fn param(name: &str, ty: RawType, annotations: &[&str]) -> ParamDecl {
    ParamDecl {
        name: Some(name.to_string()),
        ty,
        annotations: annotations.iter().map(|a| a.to_string()).collect(),
    }
}

fn function(name: &str, params: Vec<ParamDecl>, returns_void: bool) -> FunctionDecl {
    FunctionDecl { name: Some(name.to_string()), docs: None, params, returns_void }
}

fn variant(name: &str, value: u64) -> VariantDecl {
    VariantDecl { name: Some(name.to_string()), docs: None, value }
}

#[test]
fn selection_by_prefix() {
    assert!(is_bound_struct("VmaAllocationInfo"));
    assert!(!is_bound_struct("VmaAllocation_T"));
    assert!(!is_bound_struct("VkBufferCreateInfo"));
    assert!(is_bound_function("vmaCreateBuffer"));
    assert!(!is_bound_function("vkCreateBuffer"));
    assert!(is_bound_enum("VmaMemoryUsage"));
    assert!(!is_bound_enum("VkFormat"));
}

#[test]
fn enum_plan_flag_bits() {
    let d = EnumDecl {
        name: Some("VmaPoolCreateFlagBits".to_string()),
        docs: Some("/** Flags to be passed as VmaPoolCreateInfo::flags. */".to_string()),
        variants: vec![
            variant("VMA_POOL_CREATE_IGNORE_BUFFER_IMAGE_GRANULARITY_BIT", 2),
            variant("VMA_POOL_CREATE_LINEAR_ALGORITHM_BIT", 4),
            variant("VMA_POOL_CREATE_ALGORITHM_MASK", 4),
            variant("VMA_POOL_CREATE_FLAG_BITS_MAX_ENUM", 0x7FFF_FFFF),
        ],
    };
    let p = plan_enum(&d).ok().unwrap();
    assert_eq!(p.name, "PoolCreateFlags");
    assert!(p.is_bitfield);
    assert_eq!(p.docs.as_deref(), Some("Flags to be passed as VmaPoolCreateInfo::flags."));
    let got: Vec<(String, u64)> = p.variants.iter().map(|v| (v.name.clone(), v.value)).collect();
    assert_eq!(
        got,
        vec![
            ("IGNORE_BUFFER_IMAGE_GRANULARITY".to_string(), 2),
            ("LINEAR_ALGORITHM".to_string(), 4),
            ("ALGORITHM_MASK".to_string(), 4),
        ]
    );
}

#[test]
fn enum_plan_plain_and_missing_names() {
    let d = EnumDecl {
        name: Some("VmaMemoryUsage".to_string()),
        docs: None,
        variants: vec![variant("VMA_MEMORY_USAGE_UNKNOWN", 0), variant("VMA_MEMORY_USAGE_AUTO", 7)],
    };
    let p = plan_enum(&d).ok().unwrap();
    assert_eq!(p.name, "MemoryUsage");
    assert!(!p.is_bitfield);
    assert_eq!(p.variants[1].name, "AUTO");
    assert_eq!(p.variants[1].value, 7);
    let unnamed = EnumDecl { name: None, docs: None, variants: vec![] };
    assert!(matches!(plan_enum(&unnamed), Err(GenError::MissingName)));
    let bad_variant = EnumDecl {
        name: Some("VmaMemoryUsage".to_string()),
        docs: None,
        variants: vec![VariantDecl { name: None, docs: None, value: 1 }],
    };
    assert!(matches!(plan_enum(&bad_variant), Err(GenError::MissingName)));
}

#[test]
fn struct_length_pairing() {
    let d = StructDecl {
        name: Some("VmaDefragmentationPassMoveInfo".to_string()),
        docs: None,
        fields: vec![
            field("moveCount", td("uint32_t"), &[]),
            field("pMoves", ptr(td("VmaDefragmentationMove"), false), &["LEN:moveCount"]),
        ],
    };
    let p = plan_struct(&d).ok().unwrap();
    assert_eq!(p.name, "DefragmentationPassMoveInfo");
    assert_eq!(p.fields[0].name, "move_count");
    assert!(matches!(p.fields[0].kind, VarKind::Len));
    assert!(p.setters[0].is_none());
    let s = p.setters[1].as_ref().unwrap();
    assert_eq!(s.name, "moves");
    assert!(matches!(s.form, SetterForm::SliceMut(Some(0))));
    match p.getters[1].as_ref().unwrap() {
        Getter::Slice { name, name_mut, len_field } => {
            assert_eq!(name, "get_moves");
            assert_eq!(name_mut, "get_moves_mut");
            assert_eq!(*len_field, 0);
        }
        _ => panic!("expected a slice getter"),
    }
    assert!(p.needs_lifetime);
}

#[test]
fn struct_lifetime_necessity() {
    let plain = StructDecl {
        name: Some("VmaStatistics".to_string()),
        docs: None,
        fields: vec![
            field("blockCount", td("uint32_t"), &[]),
            field("blockBytes", td("VkDeviceSize"), &[]),
            field("sizes", RawType::ConstantArray(Box::new(td("VkDeviceSize")), 4), &[]),
        ],
    };
    let p = plan_struct(&plain).ok().unwrap();
    assert!(!p.needs_lifetime);
    assert!(!needs_lifetime(&p.fields));
    assert!(matches!(p.setters[2].as_ref().unwrap().form, SetterForm::Fixed));
    let with_name = StructDecl {
        name: Some("VmaPoolCreateInfo".to_string()),
        docs: None,
        fields: vec![
            field("pName", ptr(RawType::Char, true), &[]),
            field("pMemoryAllocateNext", ptr(RawType::Void, false), &["VK_STRUCT:VkMemoryAllocateInfo"]),
        ],
    };
    let p = plan_struct(&with_name).ok().unwrap();
    assert!(p.needs_lifetime);
    assert!(matches!(p.setters[0].as_ref().unwrap().form, SetterForm::CStr));
    assert!(matches!(p.getters[0], Some(Getter::CStr { .. })));
    let s = p.setters[1].as_ref().unwrap();
    assert_eq!(s.name, "memory_allocate_next");
    assert!(matches!(s.form, SetterForm::Chain(false)));
}

#[test]
fn struct_errors() {
    let missing = StructDecl {
        name: Some("VmaAllocatorCreateInfo".to_string()),
        docs: None,
        fields: vec![field("pHeapSizeLimit", ptr(td("VkDeviceSize"), true), &["LEN:heapCount"])],
    };
    assert!(matches!(plan_struct(&missing), Err(GenError::MissingLength(n)) if n == "heap_count"));
    let sentinel = StructDecl {
        name: Some("VmaAllocatorCreateInfo".to_string()),
        docs: None,
        fields: vec![field(
            "pHeapSizeLimit",
            ptr(td("VkDeviceSize"), true),
            &[&format!("LEN:{}", HEAP_COUNT_LEN)],
        )],
    };
    let p = plan_struct(&sentinel).ok().unwrap();
    assert_eq!(p.setters[0].as_ref().unwrap().name, "heap_size_limit");
    assert!(matches!(p.setters[0].as_ref().unwrap().form, SetterForm::Slice(None)));
    let str_out = StructDecl {
        name: Some("VmaX".to_string()),
        docs: None,
        fields: vec![field("ppName", ptr(ptr(RawType::Char, true), false), &[])],
    };
    assert!(matches!(plan_struct(&str_out), Err(GenError::StringOutputField(_))));
    let unnamed = StructDecl { name: None, docs: None, fields: vec![] };
    assert!(matches!(plan_struct(&unnamed), Err(GenError::MissingName)));
}

#[test]
fn alloc_scenario() {
    let d = function(
        "vmaAlloc",
        vec![
            param("count", td("uint32_t"), &[]),
            param("outValues", ptr(td("VkDeviceSize"), false), &["LEN:count"]),
        ],
        false,
    );
    let p = plan_function(&d).ok().unwrap();
    assert_eq!(p.c_name, "vmaAlloc");
    assert_eq!(p.rs_name, "alloc");
    assert!(p.returns_result);
    // the caller supplies `count`, not the output array
    assert!(caller_supplies(&p.params[0].kind));
    assert!(!caller_supplies(&p.params[1].kind));
    // a collection of `count` elements is prepared and passed with `count`
    assert!(matches!(p.buffers[1], Buffer::Elements(LenSource::CountParam(0))));
    assert!(matches!(p.passes[0], Pass::Value));
    assert!(matches!(p.passes[1], Pass::OutElements));
    assert_eq!(p.outputs, vec![1]);
    assert!(matches!(p.shape, ReturnShape::Single(1)));
}

#[test]
fn length_derived_from_array() {
    let d = function(
        "vmaFlushAllocations",
        vec![
            param("allocator", td("VmaAllocator"), &[]),
            param("allocationCount", td("uint32_t"), &[]),
            param("allocations", ptr(td("VmaAllocation"), true), &["LEN:allocationCount"]),
            param("offsets", ptr(td("VkDeviceSize"), true), &["LEN:allocationCount"]),
        ],
        false,
    );
    let p = plan_function(&d).ok().unwrap();
    assert_eq!(p.rs_name, "flush_allocations");
    assert!(matches!(p.params[1].kind, VarKind::Len));
    assert!(!caller_supplies(&p.params[1].kind));
    assert!(matches!(p.passes[1], Pass::LengthOf(2)));
    assert!(matches!(p.passes[2], Pass::SlicePtr));
    assert!(matches!(p.shape, ReturnShape::Unit));
}

#[test]
fn outputs_in_order() {
    let d = function(
        "vmaAllocateMemoryPages",
        vec![
            param("allocator", td("VmaAllocator"), &[]),
            param("pVkMemoryRequirements", ptr(td("VkMemoryRequirements"), true), &["LEN:allocationCount"]),
            param("allocationCount", td("size_t"), &[]),
            param("pAllocations", ptr(td("VmaAllocation"), false), &["LEN:allocationCount"]),
            param("pAllocationInfo", ptr(td("VmaAllocationInfo"), false), &["LEN:allocationCount"]),
        ],
        false,
    );
    let p = plan_function(&d).ok().unwrap();
    assert!(matches!(p.buffers[3], Buffer::Elements(LenSource::ArrayParam(1))));
    assert!(matches!(p.buffers[4], Buffer::Elements(LenSource::ArrayParam(1))));
    assert!(matches!(p.passes[2], Pass::LengthOf(1)));
    assert_eq!(p.outputs, vec![3, 4]);
    match &p.shape {
        ReturnShape::Tuple(v) => assert_eq!(v, &vec![3, 4]),
        _ => panic!("expected a tuple"),
    }
}

#[test]
fn void_function_and_slots() {
    let d = function(
        "vmaGetHeapBudgets",
        vec![
            param("allocator", td("VmaAllocator"), &[]),
            param("pBudgets", ptr(td("VmaBudget"), false), &[&format!("LEN:{}", HEAP_COUNT_LEN)]),
        ],
        true,
    );
    let p = plan_function(&d).ok().unwrap();
    assert!(!p.returns_result);
    assert!(matches!(p.buffers[1], Buffer::Elements(LenSource::HeapCount)));
    let d = function(
        "vmaGetPoolName",
        vec![
            param("allocator", td("VmaAllocator"), &[]),
            param("pool", td("VmaPool"), &[]),
            param("ppName", ptr(ptr(RawType::Char, true), false), &[]),
        ],
        true,
    );
    let p = plan_function(&d).ok().unwrap();
    assert!(matches!(p.params[2].kind, VarKind::StrMut));
    assert!(matches!(p.buffers[2], Buffer::Slot));
    assert!(matches!(p.passes[2], Pass::OutSlot));
    assert!(matches!(p.shape, ReturnShape::Single(2)));
}

#[test]
fn function_errors() {
    let no_count = function(
        "vmaX",
        vec![param("pOut", ptr(td("VkDeviceSize"), false), &["LEN:count"])],
        false,
    );
    assert!(matches!(plan_function(&no_count), Err(GenError::MissingLength(n)) if n == "count"));
    let fixed = function(
        "vmaY",
        vec![param("values", RawType::ConstantArray(Box::new(td("uint32_t")), 2), &[])],
        false,
    );
    assert!(matches!(plan_function(&fixed), Err(GenError::ArrayParameter(_))));
    let const_void = function("vmaZ", vec![param("pData", ptr(RawType::Void, true), &[])], true);
    assert!(matches!(plan_function(&const_void), Err(GenError::UnannotatedConstVoid)));
    let unnamed = FunctionDecl { name: None, docs: None, params: vec![], returns_void: true };
    assert!(matches!(plan_function(&unnamed), Err(GenError::MissingName)));
}

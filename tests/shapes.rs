use vma_bindgen::shape::{
    classify, convert_typedef, translate_ffi_type, ArrayLen, FfiType, GenError, RawType, VarKind,
    HEAP_COUNT_LEN, TYPE_COUNT_LEN,
};

fn td(n: &str) -> RawType {
    RawType::Typedef(n.to_string())
}

fn ptr(t: RawType, pointee_const: bool) -> RawType {
    RawType::Pointer(Box::new(t), pointee_const)
}

fn path_of(f: &FfiType) -> String {
    match f {
        FfiType::Path(p) => p.clone(),
        _ => panic!("not a path"),
    }
}

#[test]
fn typedefs_and_floats_are_plain() {
    assert!(matches!(classify(&td("uint32_t"), &None, &None), Ok(VarKind::Normal)));
    assert!(matches!(classify(&td("PFN_vkAllocateMemory"), &None, &None), Ok(VarKind::Normal)));
    assert!(matches!(classify(&RawType::Float, &None, &None), Ok(VarKind::Normal)));
}

#[test]
fn void_pointers() {
    assert!(matches!(classify(&ptr(RawType::Void, false), &None, &None), Ok(VarKind::Normal)));
    match classify(&ptr(RawType::Void, false), &None, &Some("VkMemoryAllocateInfo".to_string())) {
        Ok(VarKind::PNext(t, c)) => {
            assert_eq!(t, "vk::ExtendsMemoryAllocateInfo");
            assert!(!c);
        }
        _ => panic!("expected a chain pointer"),
    }
    match classify(&ptr(RawType::Void, true), &None, &Some("VkBufferCreateInfo".to_string())) {
        Ok(VarKind::PNext(t, c)) => {
            assert_eq!(t, "vk::ExtendsBufferCreateInfo");
            assert!(c);
        }
        _ => panic!("expected a const chain pointer"),
    }
    assert!(matches!(
        classify(&ptr(RawType::Void, true), &None, &None),
        Err(GenError::UnannotatedConstVoid)
    ));
}

#[test]
fn strings() {
    assert!(matches!(classify(&ptr(RawType::Char, true), &None, &None), Ok(VarKind::Str)));
    assert!(matches!(
        classify(&ptr(ptr(RawType::Char, true), false), &None, &None),
        Ok(VarKind::StrMut)
    ));
    // a mutable pointer to a mutable char pointer is an output reference
    assert!(matches!(
        classify(&ptr(ptr(RawType::Char, false), false), &None, &None),
        Ok(VarKind::RefMut(FfiType::MutPtr(_)))
    ));
}

#[test]
fn references_and_arrays() {
    match classify(&ptr(td("VmaAllocationCreateInfo"), true), &None, &None) {
        Ok(VarKind::Ref(f)) => assert_eq!(path_of(&f), "AllocationCreateInfo"),
        _ => panic!("expected a reference"),
    }
    match classify(&ptr(td("VmaAllocation"), false), &None, &None) {
        Ok(VarKind::RefMut(f)) => assert_eq!(path_of(&f), "Allocation"),
        _ => panic!("expected an output reference"),
    }
    match classify(&ptr(td("VkDeviceSize"), true), &Some("allocationCount".to_string()), &None) {
        Ok(VarKind::Array(f, ArrayLen::Adjacent(n))) => {
            assert_eq!(path_of(&f), "vk::DeviceSize");
            assert_eq!(n, "allocation_count");
        }
        _ => panic!("expected an array"),
    }
    assert!(matches!(
        classify(&ptr(td("VmaBudget"), false), &Some(HEAP_COUNT_LEN.to_string()), &None),
        Ok(VarKind::ArrayMut(_, ArrayLen::MemoryHeapCount))
    ));
    assert!(matches!(
        classify(&ptr(td("VkDeviceSize"), true), &Some(TYPE_COUNT_LEN.to_string()), &None),
        Ok(VarKind::Array(_, ArrayLen::MemoryTypeCount))
    ));
}

#[test]
fn fixed_arrays() {
    match classify(&RawType::ConstantArray(Box::new(td("VkDeviceSize")), 16), &None, &None) {
        Ok(VarKind::ConstantArray(e, m)) => {
            assert_eq!(path_of(&e), "vk::DeviceSize");
            assert_eq!(m, 16);
        }
        _ => panic!("expected a fixed-size array"),
    }
}

#[test]
fn unsupported_shapes_fail() {
    assert!(matches!(classify(&RawType::Char, &None, &None), Err(GenError::UnsupportedType(_))));
    assert!(matches!(
        classify(&RawType::Other("int (*)[]".to_string()), &None, &None),
        Err(GenError::UnsupportedType(d)) if d == "int (*)[]"
    ));
    assert!(matches!(
        classify(&ptr(td("int64_t"), true), &None, &None),
        Err(GenError::UnknownTypedef(n)) if n == "int64_t"
    ));
}

#[test]
fn typedef_paths() {
    assert_eq!(convert_typedef("VkBuffer").ok().unwrap(), "vk::Buffer");
    assert_eq!(
        convert_typedef("PFN_vkGetBufferMemoryRequirements2KHR").ok().unwrap(),
        "Option<vk::PFN_vkGetBufferMemoryRequirements2>"
    );
    assert_eq!(convert_typedef("VmaPool").ok().unwrap(), "Pool");
    assert_eq!(
        convert_typedef("PFN_vmaAllocateDeviceMemoryFunction").ok().unwrap(),
        "PFN_vmaAllocateDeviceMemoryFunction"
    );
    assert_eq!(convert_typedef("uint32_t").ok().unwrap(), "u32");
    assert_eq!(convert_typedef("size_t").ok().unwrap(), "usize");
    assert!(matches!(convert_typedef("float"), Err(GenError::UnknownTypedef(_))));
}

#[test]
fn ffi_types() {
    match translate_ffi_type(&ptr(ptr(RawType::Char, true), false)) {
        Ok(FfiType::MutPtr(inner)) => assert!(matches!(*inner, FfiType::ConstPtr(ref c) if matches!(**c, FfiType::CChar))),
        _ => panic!("expected *mut *const c_char"),
    }
    assert!(matches!(translate_ffi_type(&RawType::Float), Ok(FfiType::F32)));
    match translate_ffi_type(&RawType::ConstantArray(Box::new(td("uint32_t")), 4)) {
        Ok(FfiType::Array(e, n)) => {
            assert_eq!(path_of(&e), "u32");
            assert_eq!(n, 4);
        }
        _ => panic!("expected [u32; 4]"),
    }
    assert!(matches!(translate_ffi_type(&ptr(RawType::Void, true)), Ok(FfiType::ConstPtr(_))));
}

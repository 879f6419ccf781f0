use vma_bindgen::naming::{
    clean_doc, convert_enum_name, convert_extends_trait, convert_function_name,
    convert_getter_name, convert_member_name, convert_setter_name, convert_type_name,
    convert_variant_name, shorten_variant_name,
};
use vma_bindgen::text::{ends_with, replace, same_text, starts_with, trim, trim_end_matches, trim_start_matches};

#[test]
fn trims_repeat() {
    assert_eq!(trim_start_matches("p_p_x", "p_"), "x");
    assert_eq!(trim_end_matches("A_BIT_BIT", "_BIT"), "A");
    assert_eq!(trim_start_matches("abc", ""), "abc");
    assert!(starts_with("vmaMap", "vma"));
    assert!(!starts_with("vm", "vma"));
    assert!(ends_with("FlagBits", "Bits"));
    assert!(same_text("abc", "abc"));
    assert!(!same_text("abc", "abd"));
}

#[test]
fn whitespace_and_replace() {
    assert_eq!(trim(" \t x y \n"), "x y");
    assert_eq!(trim("   "), "");
    assert_eq!(replace("a    b        c", "    ", " "), "a b  c");
    assert_eq!(replace("x\r\ny", "\r", ""), "x\ny");
}

#[test]
fn doc_comments_are_cleaned() {
    assert_eq!(clean_doc("/** Flags for created #VmaAllocator. */"), "Flags for created #VmaAllocator.");
    assert_eq!(clean_doc("/**\r\n    Indented\r\n*/"), "Indented");
    assert_eq!(clean_doc("/// a\n    b"), "a\n b");
}

#[test]
fn member_and_function_names() {
    assert_eq!(convert_member_name("allocationCount"), "allocation_count");
    assert_eq!(convert_member_name("pVulkanFunctions"), "p_vulkan_functions");
    assert_eq!(convert_function_name("vmaCreateAllocator"), "create_allocator");
    assert_eq!(convert_function_name("vmaGetHeapBudgets"), "get_heap_budgets");
    assert_eq!(convert_type_name("VmaAllocationInfo"), "AllocationInfo");
}

#[test]
fn enum_and_variant_names() {
    assert_eq!(
        convert_enum_name("VmaAllocatorCreateFlagBits"),
        ("AllocatorCreateFlags".to_string(), true)
    );
    assert_eq!(convert_enum_name("VmaMemoryUsage"), ("MemoryUsage".to_string(), false));
    assert_eq!(
        convert_variant_name("AllocatorCreateFlags", "VMA_ALLOCATOR_CREATE_EXTERNALLY_SYNCHRONIZED_BIT"),
        "EXTERNALLY_SYNCHRONIZED"
    );
    assert_eq!(convert_variant_name("MemoryUsage", "VMA_MEMORY_USAGE_GPU_ONLY"), "GPU_ONLY");
    assert_eq!(
        convert_variant_name("DefragmentationFlags", "VMA_DEFRAGMENTATION_FLAG_ALGORITHM_FAST_BIT"),
        "FLAG_ALGORITHM_FAST"
    );
}

#[test]
fn setter_getter_and_trait_names() {
    assert_eq!(convert_setter_name("p_heap_size_limit"), "heap_size_limit");
    assert_eq!(convert_setter_name("pfn_allocate"), "allocate");
    assert_eq!(convert_setter_name("vk_allocate_memory"), "allocate_memory");
    assert_eq!(convert_setter_name("pp_name"), "name");
    assert_eq!(convert_getter_name("p_name"), "get_name");
    assert_eq!(convert_extends_trait("VkMemoryAllocateInfo"), "vk::ExtendsMemoryAllocateInfo");
    assert_eq!(convert_extends_trait("VkBindBufferMemoryInfoKHR"), "vk::ExtendsBindBufferMemoryInfo");
}

#[test]
fn variant_names_from_upper_snake() {
    assert_eq!(
        shorten_variant_name("ALLOCATION_CREATE", "VMA_ALLOCATION_CREATE_MAPPED_BIT"),
        "MAPPED"
    );
    assert_eq!(shorten_variant_name("MEMORY_USAGE", "VMA_MEMORY_USAGE_AUTO"), "AUTO");
    assert_eq!(shorten_variant_name("POOL_CREATE", "OTHER_BIT_BIT"), "OTHER");
}

use vma_bindgen::flags::{
    AllocationCreateFlags, AllocatorCreateFlags, DefragmentationFlags, DefragmentationMoveOperation,
    MemoryUsage, PoolCreateFlags, VirtualAllocationCreateFlags, VirtualBlockCreateFlags,
};

#[test]
fn constants_keep_declared_values() {
    assert_eq!(AllocatorCreateFlags::EXTERNALLY_SYNCHRONIZED().into_raw(), 1);
    assert_eq!(AllocatorCreateFlags::KHR_MAINTENANCE5().into_raw(), 256);
    assert_eq!(MemoryUsage::UNKNOWN().into_raw(), 0);
    assert_eq!(MemoryUsage::AUTO_PREFER_HOST().into_raw(), 9);
    assert_eq!(AllocationCreateFlags::STRATEGY_MASK().into_raw(), 458752);
    assert_eq!(
        AllocationCreateFlags::STRATEGY_BEST_FIT(),
        AllocationCreateFlags::STRATEGY_MIN_MEMORY()
    );
    assert_eq!(PoolCreateFlags::ALGORITHM_MASK().into_raw(), 4);
    assert_eq!(DefragmentationFlags::FLAG_ALGORITHM_MASK().into_raw(), 15);
    assert_eq!(DefragmentationMoveOperation::DESTROY().into_raw(), 2);
    assert_eq!(VirtualBlockCreateFlags::LINEAR_ALGORITHM().into_raw(), 1);
    assert_eq!(VirtualAllocationCreateFlags::UPPER_ADDRESS().into_raw(), 64);
}

#[test]
fn raw_round_trip_every_constant() {
    let all = [
        AllocationCreateFlags::DEDICATED_MEMORY(),
        AllocationCreateFlags::NEVER_ALLOCATE(),
        AllocationCreateFlags::MAPPED(),
        AllocationCreateFlags::HOST_ACCESS_RANDOM(),
        AllocationCreateFlags::STRATEGY_MIN_OFFSET(),
    ];
    for c in all {
        assert_eq!(AllocationCreateFlags::from_raw(c.into_raw()), c);
    }
    for v in [0u32, 1, 7, 9, 12345, u32::MAX] {
        assert_eq!(MemoryUsage::from_raw(v).into_raw(), v);
        assert_eq!(DefragmentationMoveOperation::from_raw(v).into_raw(), v);
    }
    assert_eq!(MemoryUsage::from_raw(7), MemoryUsage::AUTO());
}

#[test]
fn empty_has_no_bits() {
    assert_eq!(PoolCreateFlags::empty().into_raw(), 0);
    assert!(!PoolCreateFlags::empty().intersects(PoolCreateFlags::LINEAR_ALGORITHM()));
    assert!(PoolCreateFlags::LINEAR_ALGORITHM().contains(PoolCreateFlags::empty()));
}

#[test]
fn bit_operators() {
    let a = AllocatorCreateFlags::EXTERNALLY_SYNCHRONIZED();
    let b = AllocatorCreateFlags::EXT_MEMORY_BUDGET();
    assert_eq!((a | b).into_raw(), 9);
    assert_eq!((a & b).into_raw(), 0);
    assert_eq!(((a | b) ^ a).into_raw(), 8);
    assert_eq!((!a).into_raw(), 0xFFFF_FFFE);
    let mut c = a;
    c |= b;
    assert_eq!(c.into_raw(), 9);
    c &= b;
    assert_eq!(c.into_raw(), 8);
    c ^= AllocatorCreateFlags::from_raw(12);
    assert_eq!(c.into_raw(), 4);
}

#[test]
fn contains_and_intersects() {
    let mask = VirtualAllocationCreateFlags::STRATEGY_MASK();
    let t = VirtualAllocationCreateFlags::STRATEGY_MIN_TIME();
    let up = VirtualAllocationCreateFlags::UPPER_ADDRESS();
    assert!(mask.contains(t));
    assert!(!t.contains(mask));
    assert!(mask.intersects(t));
    assert!(!mask.intersects(up));
    assert!((up | t).contains(up));
}

#[test]
fn flag_algebra_on_values() {
    let values = [0u32, 1, 6, 0x8000_0000, 458752, u32::MAX];
    for &x in &values {
        for &y in &values {
            let a = DefragmentationFlags::from_raw(x);
            let b = DefragmentationFlags::from_raw(y);
            assert_eq!((a | b) & a, a);
            assert!(a.contains(a));
            assert_eq!(!(!a), a);
            assert_eq!(a.intersects(b), (a & b) != DefragmentationFlags::empty());
        }
    }
}

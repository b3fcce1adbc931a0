use simd_ecs::allocators::DynamicAllocator;
use simd_ecs::allocators::FixedAllocator;
use simd_ecs::allocators::Gen;
use simd_ecs::allocators::GenId;
use simd_ecs::allocators::Id;

#[test]
fn dynamic_allocator_create_two() {
    let mut a = DynamicAllocator::<()>::default();

    let id0 = a.create();
    assert_eq!(GenId::new(Id::new(0), Gen::default()), id0);

    let id1 = a.create();
    assert_eq!(GenId::new(Id::new(1), Gen::default()), id1);
}

#[test]
fn create_destroy_create() {
    let mut a = DynamicAllocator::<()>::default();

    let id0 = a.create();
    a.kill(id0);
    let id1 = a.create();

    assert_eq!(GenId::new(Id::new(0), Gen::default().next()), id1);
}

#[test]
fn fixed_allocator_create_two() {
    let mut a = FixedAllocator::<()>::default();

    let id0 = a.create();
    let id1 = a.create();

    assert_eq!(0, id0.index);
    assert_eq!(1, id1.index);
}

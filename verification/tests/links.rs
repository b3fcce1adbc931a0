use simd_ecs::allocators::DynamicAllocator;
use simd_ecs::allocators::FixedAllocator;
use simd_ecs::links::GenIds;
use simd_ecs::Get2;
use simd_ecs::Insert;

#[derive(Debug, Default, Eq, PartialEq)]
struct Type1;
#[derive(Debug, Default)]
struct Type2;

#[test]
fn update_test() {
    let mut dyn_alloc = DynamicAllocator::<Type1>::default();
    let mut fixed_alloc = FixedAllocator::<Type2>::default();

    let mut ids = GenIds::<Type2, Type1>::default();

    let dyn0 = dyn_alloc.create();
    let fixed0 = fixed_alloc.create();
    ids.insert(fixed0, dyn0).unwrap();
    assert_eq!((&Some(dyn0.index), &Some(dyn0.gen)), ids.ids.get(fixed0).unwrap());

    assert_eq!(dyn_alloc.version, ids.version);
    ids.update(&dyn_alloc);

    let to_kill = dyn_alloc.create();
    dyn_alloc.kill(to_kill);

    assert_ne!(dyn_alloc.version, ids.version);
    ids.update(&dyn_alloc);
    assert_eq!(dyn_alloc.version, ids.version);

    dyn_alloc.kill(dyn0);
    assert_ne!(dyn_alloc.version, ids.version);
    ids.update(&dyn_alloc);
    assert_eq!(dyn_alloc.version, ids.version);
    assert_eq!((&None, &None), ids.ids.get(fixed0).unwrap());
}

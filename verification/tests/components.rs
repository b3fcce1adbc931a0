use simd_ecs::allocators::FixedAllocator;
use simd_ecs::allocators::Id;
use simd_ecs::components::Comp1;
use simd_ecs::components::Comp2;
use simd_ecs::Insert;

#[derive(Default)]
struct Type1;
#[derive(Default)]
struct Type2;

#[test]
fn zip_comp1_to_comp1() {
    let mut a = FixedAllocator::<()>::default();

    let mut t1 = Comp1::<(), u32>::default();
    let mut t2 = Comp1::<(), u32>::default();

    let id = a.create();
    t1.insert(id, 2).unwrap();
    t2.insert(id, 3).unwrap();

    t1.zip_to_comp1(&t2, |a: u32, b: u32| a + b);

    assert_eq!(5, t1.values[0]);
}

#[test]
fn zip_comp1_to_comp1_and_comp1() {
    let mut a = FixedAllocator::<()>::default();

    let mut t1 = Comp1::<(), u32>::default();
    let mut t2 = Comp1::<(), u32>::default();
    let mut t3 = Comp1::<(), u32>::default();

    let id = a.create();
    t1.insert(id, 2).unwrap();
    t2.insert(id, 3).unwrap();
    t3.insert(id, 5).unwrap();

    t1.zip2_to_comp1(&t2, &t3, |a: u32, b: u32, c: u32| a + b * c);

    assert_eq!(17, t1.values[0]);
}

#[test]
fn zip_comp1_to_comp2() {
    let mut a = FixedAllocator::<()>::default();

    let mut t1 = Comp1::<(), u32>::default();
    let mut t2 = Comp2::<(), u32, u32>::default();

    let id = a.create();
    t1.insert(id, 2).unwrap();
    t2.insert(id, (3, 5)).unwrap();

    t1.zip2_to_comp1(&t2.0, &t2.1, |a: u32, b: u32, c: u32| a + b * c);

    assert_eq!(17, t1.values[0]);
}

#[test]
fn zip_to_comp2_and_comp1() {
    let mut a = FixedAllocator::<()>::default();

    let mut t1 = Comp1::<(), u32>::default();
    let mut t2 = Comp1::<(), u32>::default();
    let mut t3 = Comp2::<(), u32, u32>::default();

    let id = a.create();
    t1.insert(id, 2).unwrap();
    t2.insert(id, 7).unwrap();
    t3.insert(id, (3, 5)).unwrap();

    t1.zip3_to_comp1(&t2, &t3.0, &t3.1, |a: u32, b: u32, c: u32, d: u32| a + b + (c * d));

    assert_eq!(24, t1.values[0]);
}

#[test]
fn zip_to_comp2_and_comp2() {
    let mut a = FixedAllocator::<()>::default();

    let mut t1 = Comp1::<(), u32>::default();
    let mut t2 = Comp2::<(), u32, u32>::default();
    let mut t3 = Comp2::<(), u32, u32>::default();

    let id = a.create();
    t1.insert(id, 1).unwrap();
    t2.insert(id, (2, 3)).unwrap();
    t3.insert(id, (5, 7)).unwrap();

    t1.zip4_to_comp1(
        &t2.0,
        &t2.1,
        &t3.0,
        &t3.1,
        |a: u32, b: u32, c: u32, d: u32, e: u32| a + (b * c) + (d * e),
    );

    assert_eq!(42, t1.values[0]);
}

#[test]
fn get_from_id() {
    let mut taken = vec![];

    let mut alloc1 = FixedAllocator::<Type1>::default();
    let mut from_values = Comp1::<Type1, u8>::default();
    for i in 0..10 {
        let id = alloc1.create();
        from_values.insert(id, i).unwrap();
        if i == 2 || i == 3 || i == 5 {
            taken.push(id);
        }
    }

    let mut alloc2 = FixedAllocator::<Type2>::default();
    let mut to_values = Comp1::<Type2, u8>::default();
    let mut ids = Comp1::<Type2, Id<Type1>>::default();

    for i in taken {
        let id = alloc2.create();
        to_values.insert(id, Default::default()).unwrap();
        ids.insert(id, i).unwrap();
    }

    to_values.get_from(&from_values, &ids);

    assert_eq!(vec![2, 3, 5], to_values.values);
}

#[test]
fn zip_to_comp1() {
    let mut a = FixedAllocator::<()>::default();

    let mut t1 = Comp2::<(), u32, u32>::default();
    let mut t2 = Comp1::<(), u32>::default();

    let id = a.create();
    t1.insert(id, (5, 7)).unwrap();
    t2.insert(id, 2).unwrap();

    t1.zip_to_comp2(&t2, |a: u32, b: u32, c: u32| (a + c, b + c));

    assert_eq!(7, t1.0.values[0]);
    assert_eq!(9, t1.1.values[0]);
}

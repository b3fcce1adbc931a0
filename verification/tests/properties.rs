use simd_ecs::allocators::DynamicAllocator;
use simd_ecs::allocators::FixedAllocator;
use simd_ecs::allocators::Id;
use simd_ecs::components::Comp1;
use simd_ecs::components::Comp2;
use simd_ecs::links::GenIds;
use simd_ecs::Get1;
use simd_ecs::Get2;
use simd_ecs::Insert;
use simd_ecs::StoreError;

#[derive(Debug, Default)]
struct Body;
#[derive(Debug, Default)]
struct Holder;
#[derive(Debug, Default, Eq, PartialEq)]
struct Target;

#[test]
fn handle_lifecycle() {
    let mut a = DynamicAllocator::<()>::default();

    let h0 = a.create();
    assert_eq!(0, h0.index.index);
    assert_eq!(1, h0.gen.0);
    assert!(a.is_valid(&h0));

    a.kill(h0);
    assert!(!a.is_valid(&h0));

    let h1 = a.create();
    assert_eq!(0, h1.index.index);
    assert_eq!(2, h1.gen.0);
    assert!(!a.is_valid(&h0));
    assert!(a.is_valid(&h1));
    assert!(a.is_alive(h1.index, h1.gen));
    assert!(!a.is_alive(h0.index, h0.gen));
}

#[test]
fn slot_reuse_order() {
    let mut a = DynamicAllocator::<()>::default();

    let first = a.create();
    let second = a.create();
    assert_eq!(1, second.index.index);
    a.kill(first);

    let third = a.create();
    assert_eq!(0, third.index.index);
}

#[test]
fn reuse_is_last_freed_first() {
    let mut a = DynamicAllocator::<()>::default();

    let h0 = a.create();
    let h1 = a.create();
    let h2 = a.create();
    a.kill(h0);
    a.kill(h2);

    assert_eq!(2, a.create().index.index);
    assert_eq!(0, a.create().index.index);
    assert_eq!(3, a.create().index.index);
    let _ = h1;
}

#[test]
fn kill_of_dead_handle_still_bumps_version() {
    let mut a = DynamicAllocator::<()>::default();

    let h = a.create();
    a.kill(h);
    assert_eq!(1, a.version);
    a.kill(h);
    assert_eq!(2, a.version);

    let again = a.create();
    assert_eq!(2, again.gen.0);
}

#[test]
fn fixed_handles_in_order() {
    let mut a = FixedAllocator::<Body>::default();

    for expected in 0..5usize {
        let id = a.create();
        assert_eq!(expected, id.index);
    }
}

#[test]
fn column_round_trip() {
    let mut a = FixedAllocator::<Body>::default();
    let mut column = Comp1::<Body, u32>::default();

    let id = a.create();
    column.insert(id, 11).unwrap();
    assert_eq!(Some(&11), column.get(id));
    assert_eq!(1, column.len());

    column.insert(id, 12).unwrap();
    assert_eq!(Some(&12), column.get(id));
    assert_eq!(1, column.len());
}

#[test]
fn missing_column_value_is_absent() {
    let mut a = FixedAllocator::<Body>::default();
    let column = Comp1::<Body, u32>::default();

    let id = a.create();
    assert_eq!(None, column.get(id));
    assert_eq!(None, column.get(None));
}

#[test]
fn out_of_range_insert_is_rejected() {
    let mut column = Comp1::<Body, u32>::default();

    column.insert_index(0, 5).unwrap();
    let r = column.insert_index(2, 7);
    assert_eq!(Err(StoreError::OutOfRangeInsert), r);
    assert_eq!(vec![5], column.values);

    let mut pair = Comp2::<Body, u32, u32>::default();
    let r2 = pair.insert(Id::<Body>::new(1), (1, 2));
    assert_eq!(Err(StoreError::OutOfRangeInsert), r2);
    assert_eq!(0, pair.len());
}

#[test]
fn lazy_link_invalidation() {
    let mut alloc = DynamicAllocator::<Target>::default();
    let mut rows = FixedAllocator::<Holder>::default();
    let mut links = GenIds::<Holder, Target>::default();

    let g = alloc.create();
    let row = rows.create();
    links.insert(row, g).unwrap();

    alloc.kill(g);

    // Before the update the raw stored pair still holds the dead handle.
    assert_eq!((&Some(g.index), &Some(g.gen)), links.ids.get(row).unwrap());

    links.update(&alloc);
    assert_eq!((&None, &None), links.ids.get(row).unwrap());
}

#[test]
fn idempotent_update() {
    let mut alloc = DynamicAllocator::<Target>::default();
    let mut rows = FixedAllocator::<Holder>::default();
    let mut links = GenIds::<Holder, Target>::default();

    let keep = alloc.create();
    let g = alloc.create();
    let row0 = rows.create();
    let row1 = rows.create();
    links.insert(row0, keep).unwrap();
    links.insert(row1, g).unwrap();
    alloc.kill(g);

    links.update(&alloc);
    let swept = links.scans;
    let column0 = links.ids.0.values.clone();
    let column1 = links.ids.1.values.clone();

    links.update(&alloc);
    assert_eq!(swept, links.scans);
    assert_eq!(column0, links.ids.0.values);
    assert_eq!(column1, links.ids.1.values);
    assert_eq!((&Some(keep.index), &Some(keep.gen)), links.ids.get(row0).unwrap());
}

#[test]
fn validate_then_get_from_or() {
    let mut alloc = DynamicAllocator::<Target>::default();
    let mut rows = FixedAllocator::<Holder>::default();
    let mut links = GenIds::<Holder, Target>::default();

    let mut source = Comp1::<Target, u32>::default();
    let mut destination = Comp1::<Holder, u32>::default();

    let live = alloc.create();
    source.insert(live, 41).unwrap();
    let dead = alloc.create();
    source.insert(dead, 53).unwrap();

    let row0 = rows.create();
    let row1 = rows.create();
    links.insert(row0, live).unwrap();
    links.insert(row1, dead).unwrap();
    destination.insert(row0, 0).unwrap();
    destination.insert(row1, 0).unwrap();

    alloc.kill(dead);

    let valid = alloc.validate(&mut links);
    destination.get_from_or(&source, &valid, 99);

    // Every destination row gets a defined value: the hit, or the fallback.
    assert_eq!(vec![41, 99], destination.values);
}

#[test]
fn comp2_get_from_and_get_from_or() {
    let mut alloc = DynamicAllocator::<Target>::default();
    let mut rows = FixedAllocator::<Holder>::default();
    let mut links = GenIds::<Holder, Target>::default();

    let mut source = Comp2::<Target, u32, u32>::default();
    let mut destination = Comp2::<Holder, u32, u32>::default();
    let mut ids = Comp1::<Holder, Id<Target>>::default();

    let live = alloc.create();
    source.insert(live, (10, 20)).unwrap();
    let dead = alloc.create();
    source.insert(dead, (30, 40)).unwrap();

    let row0 = rows.create();
    let row1 = rows.create();
    links.insert(row0, live).unwrap();
    links.insert(row1, dead).unwrap();
    destination.insert(row0, (0, 0)).unwrap();
    destination.insert(row1, (0, 0)).unwrap();
    ids.insert(row0, live.index).unwrap();
    ids.insert(row1, Id::new(9)).unwrap();

    destination.get_from(&source, ids);
    // Hits copy the pair across; the out-of-range handle leaves row1 alone.
    assert_eq!(Some((&10, &20)), destination.get(row0));
    assert_eq!(Some((&0, &0)), destination.get(row1));

    alloc.kill(dead);
    let valid = alloc.validate(&mut links);
    destination.get_from_or(&source, &valid, (7, 8));
    assert_eq!(Some((&10, &20)), destination.get(row0));
    assert_eq!(Some((&7, &8)), destination.get(row1));
}

#[test]
fn get_from_keeps_stale_value_on_miss() {
    let mut destination = Comp1::<Holder, u32>::default();
    let mut source = Comp1::<Target, u32>::default();
    let mut ids = Comp1::<Holder, Id<Target>>::default();

    destination.insert_index(0, 7).unwrap();
    destination.insert_index(1, 8).unwrap();
    source.insert_index(0, 70).unwrap();
    ids.insert_index(0, Id::new(0)).unwrap();
    ids.insert_index(1, Id::new(9)).unwrap();

    destination.get_from(&source, &ids);

    assert_eq!(vec![70, 8], destination.values);
}

#[test]
fn zip_truncates_to_shortest_column() {
    let mut t1 = Comp1::<Body, u32>::default();
    let mut t2 = Comp1::<Body, u32>::default();

    t1.insert_index(0, 1).unwrap();
    t1.insert_index(1, 2).unwrap();
    t2.insert_index(0, 10).unwrap();

    t1.zip_to_comp1(&t2, |a: u32, b: u32| a + b);
    assert_eq!(vec![11, 2], t1.values);

    let mut empty = Comp1::<Body, u32>::default();
    empty.zip_to_comp1(&t2, |a: u32, b: u32| a + b);
    assert_eq!(0, empty.len());
}

#[test]
fn mutation_through_borrows() {
    let mut a = FixedAllocator::<Body>::default();
    let mut single = Comp1::<Body, u32>::default();
    let mut pair = Comp2::<Body, u32, u32>::default();

    let id = a.create();
    single.insert(id, 1).unwrap();
    pair.insert(id, (2, 3)).unwrap();

    *single.get_mut(id).unwrap() = 10;
    assert_eq!(Some(&10), single.get(id));
    assert_eq!(None, single.get_mut(Id::<Body>::new(7)));

    let (x, y) = pair.get_mut(id).unwrap();
    *x += 1;
    *y += 1;
    assert_eq!(Some((&3, &4)), pair.get(id));

    for v in single.iter_mut().iter_mut() {
        *v += 5;
    }
    assert_eq!(vec![15], *single.iter());

    let (c1, c2) = pair.iter_mut();
    c1[0] = 0;
    c2[0] = 0;
    assert_eq!((&vec![0], &vec![0]), pair.iter());
}

#[test]
fn parent_chain_absolute_position() {
    let mut alloc = FixedAllocator::<Body>::default();
    let mut parent = Comp1::<Body, Option<Id<Body>>>::default();
    let mut offset = Comp2::<Body, i64, i64>::default();

    let row0 = alloc.create();
    let row1 = alloc.create();
    let row2 = alloc.create();

    // row0 is the root at (0, 0); row1 orbits row2 at local offset (1, 0);
    // row2 orbits row0 at local offset (2, 0).
    parent.insert(row0, None).unwrap();
    parent.insert(row1, Some(row2)).unwrap();
    parent.insert(row2, Some(row0)).unwrap();
    offset.insert(row0, (0, 0)).unwrap();
    offset.insert(row1, (1, 0)).unwrap();
    offset.insert(row2, (2, 0)).unwrap();

    // Resolve row1's absolute position by walking the parent chain.
    let mut x: i64 = 0;
    let mut y: i64 = 0;
    let mut cursor = Some(row1);
    while let Some(row) = cursor {
        let (dx, dy) = offset.get(row).unwrap();
        x += *dx;
        y += *dy;
        cursor = *parent.get(row).unwrap();
    }

    assert_eq!((3, 0), (x, y));
}

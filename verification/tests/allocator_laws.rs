use generative_ecs::{FixedAllocator, GenAllocator, GenId, Generation, Id};

#[derive(Debug)]
struct Ship;

#[test]
fn fixed_allocator_counts_up_from_zero() {
    let mut allocator = FixedAllocator::<Ship>::default();
    for expected in 0..5usize {
        assert_eq!(allocator.create().index, expected);
    }
    let mut copy = allocator.clone();
    assert_eq!(copy.create().index, 5);
    assert_eq!(allocator.create().index, 5);
}

#[test]
fn generation_starts_at_one_and_steps_by_one() {
    let first = Generation::default();
    assert_eq!(first.value(), 1);
    assert_eq!(first.next().value(), 2);
    assert_eq!(first.next().next().value(), 3);
    assert!(first < first.next());
}

#[test]
fn sequential_creates_return_indices_in_order_at_generation_one() {
    let mut allocator = GenAllocator::<Ship>::new();
    for expected in 0..10usize {
        let handle = allocator.create();
        assert_eq!(handle.index(), expected);
        assert_eq!(handle.id.gen.value(), 1);
        assert_eq!(handle.id, GenId::new(expected, Generation::default()));
    }
}

#[test]
fn kill_then_is_alive_is_false_and_kill_is_idempotent() {
    let mut allocator = GenAllocator::<Ship>::new();
    let a = allocator.create().id;
    let b = allocator.create().id;

    allocator.kill(a);
    assert!(!allocator.is_alive(a));
    assert!(allocator.is_alive(b));

    // a second kill of the same handle changes nothing: the slot stands at
    // generation 2, and one create issues it once
    allocator.kill(a);
    assert!(!allocator.is_alive(a));
    let again = allocator.create().id;
    assert_eq!(again, GenId::new(0, Generation::default().next()));
    let fresh = allocator.create().id;
    assert_eq!(fresh, GenId::new(2, Generation::default()));
}

#[test]
fn reused_slot_is_one_generation_on_and_generations_never_repeat() {
    let mut allocator = GenAllocator::<Ship>::new();
    let mut handle = allocator.create().id;
    let mut seen = vec![handle.gen.value()];
    for round in 0..5u32 {
        allocator.kill(handle);
        let next = allocator.create().id;
        assert_eq!(next.id.index, handle.id.index);
        assert_eq!(next.gen.value(), handle.gen.value() + 1);
        assert_eq!(next.gen.value(), round + 2);
        assert!(!seen.contains(&next.gen.value()));
        assert!(!allocator.is_alive(handle));
        assert!(allocator.is_alive(next));
        seen.push(next.gen.value());
        handle = next;
    }
}

#[test]
fn dead_slots_are_issued_last_killed_first() {
    let mut allocator = GenAllocator::<Ship>::new();
    let a = allocator.create().id;
    let b = allocator.create().id;
    let c = allocator.create().id;
    allocator.kill(a);
    allocator.kill(c);
    allocator.kill(b);
    assert_eq!(allocator.create().index(), 1);
    assert_eq!(allocator.create().index(), 2);
    assert_eq!(allocator.create().index(), 0);
    assert_eq!(allocator.create().index(), 3);
}

#[test]
fn verify_returns_the_slot_only_for_index_in_range_and_matching_generation() {
    let mut allocator = GenAllocator::<Ship>::new();
    let live = allocator.create().id;
    let found = allocator.verify(live).expect("a live handle verifies");
    assert_eq!(found.id, live);
    assert_eq!(found.index(), 0);

    // out of range
    assert!(allocator.verify(GenId::new(7, Generation::default())).is_none());
    // stale generation
    allocator.kill(live);
    let reissued = allocator.create().id;
    assert!(allocator.verify(live).is_none());
    assert_eq!(allocator.verify(reissued).map(|v| v.id), Some(reissued));
    // a generation that was never issued
    assert!(allocator.verify(GenId::new(0, reissued.gen.next())).is_none());
}

#[test]
fn liveness_cache_mirrors_the_slots_after_every_call() {
    let mut allocator = GenAllocator::<Ship>::new();
    assert!(!allocator.is_living(0));

    let a = allocator.create().id;
    assert!(allocator.is_living(0));
    assert!(!allocator.is_living(1));

    let b = allocator.create().id;
    assert!(allocator.is_living(0));
    assert!(allocator.is_living(1));

    allocator.kill(a);
    assert!(!allocator.is_living(0));
    assert!(allocator.is_living(1));

    allocator.kill(a);
    assert!(!allocator.is_living(0));

    let copy = allocator.clone();
    assert!(!copy.is_living(0));
    assert!(copy.is_living(1));
    assert!(copy.is_alive(b));
    assert!(!copy.is_alive(a));

    let again = allocator.create().id;
    assert_eq!(again.id.index, 0);
    assert!(allocator.is_living(0));
    // the copy went its own way
    assert!(!copy.is_living(0));

    allocator.kill(b);
    assert!(!allocator.is_living(1));
    assert!(allocator.is_living(0));
    assert!(!allocator.is_living(usize::MAX));
}

#[test]
fn permanent_ids_compare_by_index() {
    let a = Id::<Ship>::new(1);
    let b = Id::<Ship>::new(2);
    assert!(a < b);
    assert!(a == Id::new(1));
    assert!(a != b);
    assert_eq!(a.clone().index, 1);
}

#[test]
fn transient_ids_are_equal_by_both_parts_and_ordered_by_index_alone() {
    let first = Generation::default();
    let a = GenId::<Ship>::new(3, first);
    let b = GenId::<Ship>::new(3, first.next());
    let c = GenId::<Ship>::new(4, first);

    assert!(a != b);
    assert!(a == GenId::new(3, first));
    // the order does not look at the generation
    assert!(!(a < b));
    assert!(!(b < a));
    assert!(a <= b && b <= a);
    assert_eq!(a.partial_cmp(&b), Some(std::cmp::Ordering::Equal));
    assert!(a < c);
    assert!(b < c);
    assert!(c > a);
}

use generative_ecs::{Component, FixedAllocator, GenAllocator, GenId, Generation, Id};

#[derive(Debug, Default, Clone)]
struct Fixed;

#[derive(Debug, Default, Clone)]
struct Gen;

#[derive(Debug)]
struct Test;

#[test]
#[should_panic]
fn insert_given_invalid_id_panics() {
    let mut allocator = FixedAllocator::<Fixed>::default();
    let mut component = Component::<Fixed, u32>::new();

    let _id0 = allocator.create();
    let id1 = allocator.create();

    component.insert(id1, 0);
}

#[test]
fn insert_and_retrieve() {
    let mut allocator = FixedAllocator::<Fixed>::default();
    let mut component = Component::<Fixed, u32>::new();

    let id = allocator.create();
    component.insert(id, 3);

    assert_eq!(&3, component.get(id));
}

#[test]
fn reuse_index() {
    let mut allocator = GenAllocator::<Gen>::default();
    let mut component = Component::<Gen, u32>::new();

    let id_0_1 = allocator.create();
    component.insert(Id::new(id_0_1.index()), 2);
    let id_0_1 = id_0_1.id;
    allocator.kill(id_0_1);

    let id_0_2 = allocator.create();
    component.insert(Id::new(id_0_2.index()), 3);

    assert_eq!(id_0_1.id.index, id_0_2.id.id.index); // same index
    assert_ne!(id_0_1.gen, id_0_2.id.gen); // different gen
    assert_eq!(&3, component.get(Id::new(id_0_2.index())));
}

#[test]
#[should_panic]
fn panic_text_test() {
    let mut allocator = FixedAllocator::<Fixed>::default();
    let component = Component::<Fixed, u32>::default();

    let id = allocator.create();

    let _panics = component.get(id);
}

#[test]
fn flex_allocator() {
    let mut allocator = GenAllocator::<Test>::default();

    let id_0_gen_1 = allocator.create().id;
    let id_1_gen_1 = allocator.create().id;

    assert_eq!(id_0_gen_1, GenId::<Test>::new(0, Generation::default()));
    assert_eq!(id_1_gen_1, GenId::<Test>::new(1, Generation::default()));
}

#[test]
fn verify_when_id_is_alive_returns_some() {
    let mut allocator = GenAllocator::<Test>::default();

    let id_0_gen_1 = allocator.create().id;

    assert!(allocator.verify(id_0_gen_1).is_some());
}

#[test]
fn verify_when_id_is_not_alive_returns_none() {
    let mut allocator = GenAllocator::<Test>::default();

    let _id_0_gen_1 = allocator.create().id;

    assert!(allocator.verify(GenId::new(1, Generation::default())).is_none()); //invalid index
    assert!(allocator.verify(GenId::new(0, Generation::default().next())).is_none()); // wrong generation
}

#[test]
fn is_alive_when_id_is_alive_returns_true() {
    let mut allocator = GenAllocator::<Test>::default();

    let id_0_gen_1 = allocator.create().id;

    assert!(allocator.is_alive(id_0_gen_1));
}

#[test]
fn is_alive_when_id_is_not_alive_returns_false() {
    let mut allocator = GenAllocator::<Test>::default();

    let _id_0_gen_1 = allocator.create().id;

    assert!(!allocator.is_alive(GenId::new(1, Generation::default()))); //invalid index
    assert!(!allocator.is_alive(GenId::new(0, Generation::default().next()))); // wrong generation
}

#[test]
fn kill_given_live_entity_is_no_longer_alive() {
    let mut allocator = GenAllocator::<Test>::default();

    let id_0_gen_1 = allocator.create().id;

    allocator.kill(id_0_gen_1);

    assert!(!allocator.is_alive(id_0_gen_1))
}

#[test]
fn create_when_dead_index_returns_reused_index() {
    let mut allocator = GenAllocator::<Test>::default();

    let id_0_gen_1 = allocator.create().id;

    allocator.kill(id_0_gen_1);

    let id_0_gen_2 = allocator.create().id;

    assert_eq!(id_0_gen_2, GenId::new(0, Generation::default().next()));
}

use generative_ecs::links::Link;
use generative_ecs::{Allocator, Arena, LinkImplementation, LinkType, World};

fn ends(list: &[LinkImplementation]) -> Vec<(String, String)> {
    list.iter().map(|i| (i.from.clone(), i.to.clone())).collect()
}

fn pair(from: &str, to: &str) -> (String, String) {
    (from.to_string(), to.to_string())
}

#[test]
fn owner_writes_the_relation_and_the_owned_arena_does_not() {
    let mut leopard = Arena::fixed("Leopard");
    let mut spot = Arena::fixed("Spot");
    leopard.add_ownership(&spot, LinkType::Optional);
    spot.add_reference(&leopard, LinkType::Required);

    let world = World::new().add_arena(spot).add_arena(leopard);
    assert!(world.validate().is_ok());

    let forward = Link::new("Leopard", "Spot")
        .get_implementation(&world, &LinkType::Optional)
        .expect("the owner writes");
    assert_eq!(forward.from, "Leopard");
    assert_eq!(forward.to, "Spot");
    assert_eq!(forward.from_allocator, Allocator::Fixed);
    assert_eq!(forward.to_allocator, Allocator::Fixed);
    assert_eq!(forward.link_type, LinkType::Optional);
    assert_eq!(forward.back_reference, Some(LinkType::Required));

    assert!(Link::new("Spot", "Leopard").get_implementation(&world, &LinkType::Required).is_none());

    assert_eq!(ends(&world.get_link_implementations()), vec![pair("Leopard", "Spot")]);
}

#[test]
fn of_two_arenas_that_refer_to_each_other_the_later_one_writes() {
    let mut a = Arena::fixed("Zebra");
    let mut b = Arena::fixed("Ant");
    a.add_reference(&b, LinkType::Optional);
    b.add_reference(&a, LinkType::Many);

    // Zebra is declared first, so Ant, declared after it, writes
    let world = World::new().add_arena(a.clone()).add_arena(b.clone());
    assert!(world.validate().is_ok());
    assert!(Link::new("Zebra", "Ant").get_implementation(&world, &LinkType::Optional).is_none());
    let written =
        Link::new("Ant", "Zebra").get_implementation(&world, &LinkType::Many).expect("later writes");
    assert_eq!(written.link_type, LinkType::Many);
    assert_eq!(written.back_reference, Some(LinkType::Optional));
    assert_eq!(ends(&world.get_link_implementations()), vec![pair("Ant", "Zebra")]);

    // declared the other way round, Zebra writes
    let world = World::new().add_arena(b).add_arena(a);
    assert_eq!(ends(&world.get_link_implementations()), vec![pair("Zebra", "Ant")]);
}

#[test]
fn one_sided_reference_is_written_by_its_source() {
    let system = Arena::fixed("System");
    let mut body = Arena::fixed("Body");
    body.add_reference(&system, LinkType::Required);

    let world = World::new().add_arena(system).add_arena(body);
    assert!(world.validate().is_ok());
    let list = world.get_link_implementations();
    assert_eq!(ends(&list), vec![pair("Body", "System")]);
    assert_eq!(list[0].link_type, LinkType::Required);
    assert_eq!(list[0].back_reference, None);
}

#[test]
fn arena_that_refers_to_itself_writes_nothing_unless_it_owns_itself() {
    let mut node = Arena::fixed("Node");
    let copy = node.clone();
    node.add_reference(&copy, LinkType::Optional);
    let world = World::new().add_arena(node);
    assert!(world.validate().is_ok());
    assert!(world.get_link_implementations().is_empty());

    let mut node = Arena::fixed("Node");
    let copy = node.clone();
    node.add_ownership(&copy, LinkType::Many);
    let world = World::new().add_arena(node);
    assert_eq!(ends(&world.get_link_implementations()), vec![pair("Node", "Node")]);
}

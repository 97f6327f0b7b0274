use generative_ecs::structs::Field;
use generative_ecs::{
    Allocator, Arena, ComponentType, LinkType, StaticComponent, Storage, Visibility, World,
};

fn flat(fields: &[Field]) -> Vec<(Visibility, String, String)> {
    fields.iter().map(|f| (f.visibility, f.name.clone(), f.field_type.clone())).collect()
}

fn public(name: &str, field_type: &str) -> (Visibility, String, String) {
    (Visibility::Pub, name.to_string(), field_type.to_string())
}

fn private(name: &str, field_type: &str) -> (Visibility, String, String) {
    (Visibility::Private, name.to_string(), field_type.to_string())
}

#[test]
fn storage_decides_the_type_texts() {
    assert_eq!(Storage::Linear.get_component_data_type("f32"), "Component<Self, f32>");
    assert_eq!(
        Storage::LinearOption.get_component_data_type("Id<Body>"),
        "Component<Self, Option<Id<Body>>>"
    );
    assert_eq!(Storage::Linear.get_row_data_type("f32"), "f32");
    assert_eq!(Storage::LinearOption.get_row_data_type("String"), "Option<String>");
}

#[test]
fn allocator_kind_decides_allocator_and_id_types() {
    let perm = Arena::fixed("Body");
    let temp = Arena::generational("Ship");

    assert_eq!(Allocator::Fixed.get_type(&perm), "FixedAllocator<Body>");
    assert_eq!(Allocator::Generational.get_type(&temp), "GenAllocator<Ship>");
    assert_eq!(Allocator::Fixed.get_id_type(&perm), "Id<Body>");
    assert_eq!(Allocator::Generational.get_id_type(&temp), "GenId<Ship>");
    // the kind decides, not the arena's own
    assert_eq!(Allocator::Generational.get_id_type(&perm), "GenId<Body>");

    assert_eq!(perm.get_id_type(), "Id<Body>");
    assert_eq!(temp.get_id_type(), "GenId<Ship>");
    assert_eq!(perm.get_arena_type(), "Body");
}

#[test]
fn component_fields() {
    let dense = ComponentType::dense("radius", "Length");
    let sparse = ComponentType::sparse("parent", "Id<Body>");

    assert_eq!(flat(&[dense.get_arena_field()]), vec![public("radius", "Component<Self, Length>")]);
    assert_eq!(
        flat(&[sparse.get_arena_field()]),
        vec![public("parent", "Component<Self, Option<Id<Body>>>")]
    );
    assert_eq!(flat(&[dense.get_data_field()]), vec![private("radius", "Length")]);
    assert_eq!(flat(&[sparse.get_data_field()]), vec![private("parent", "Option<Id<Body>>")]);

    let copy = sparse.clone();
    assert_eq!(copy.name, "parent");
    assert_eq!(copy.data_type, "Id<Body>");
    assert_eq!(copy.storage, Storage::LinearOption);

    let time = StaticComponent::from_type("Time");
    assert_eq!(flat(&[time.get_field()]), vec![public("Time", "Time")]);
    assert_eq!(time.clone().name, "Time");
}

#[test]
fn link_component_depends_on_multiplicity_and_target_kind() {
    let source = Arena::fixed("Body");
    let perm = Arena::fixed("System");
    let temp = Arena::generational("Ship");

    let required = source.get_link_component(&perm, &LinkType::Required).unwrap();
    assert_eq!(required.name, "System");
    assert_eq!(required.data_type, "Id<System>");
    assert_eq!(required.storage, Storage::Linear);

    let optional = source.get_link_component(&temp, &LinkType::Optional).unwrap();
    assert_eq!(optional.name, "Ship");
    assert_eq!(optional.data_type, "GenId<Ship>");
    assert_eq!(optional.storage, Storage::LinearOption);

    assert!(source.get_link_component(&temp, &LinkType::Many).is_none());
}

#[test]
fn arena_struct_lists_components_then_defaults_then_link_fields() {
    let system = Arena::fixed("System");
    let surface = Arena::generational("Surface");
    let moon = Arena::fixed("Moon");
    let mut body = Arena::fixed("Body")
        .add_component(ComponentType::sparse("name", "String"))
        .add_component(ComponentType::dense("parameters", "OrbitParameters"))
        .add_default_component(ComponentType::dense_from_type("Position"));
    body.add_reference(&system, LinkType::Required);
    body.add_ownership(&surface, LinkType::Optional);
    body.add_ownership(&moon, LinkType::Many);

    let row = body.get_data_row();
    assert_eq!(row.typ, "BodyRow");
    assert_eq!(row.derives, vec!["Debug".to_string()]);
    assert_eq!(
        flat(&row.fields),
        vec![private("name", "Option<String>"), private("parameters", "OrbitParameters")]
    );
    assert_eq!(flat(&[body.get_allocator_field()]), vec![public("Body", "FixedAllocator<Body>")]);
    assert_eq!(flat(&[body.get_state_field()]), vec![private("Body", "Body")]);

    let world = World::new()
        .add_static_component(StaticComponent::from_type("Time"))
        .add_arena(system)
        .add_arena(body)
        .add_arena(surface)
        .add_arena(moon);
    assert!(world.validate().is_ok());

    let shape = world.get_arena("Body").get_struct(&world);
    assert_eq!(shape.typ, "Body");
    assert_eq!(
        shape.derives,
        vec!["Debug".to_string(), "Default".to_string(), "Clone".to_string()]
    );
    assert_eq!(
        flat(&shape.fields),
        vec![
            public("name", "Component<Self, Option<String>>"),
            public("parameters", "Component<Self, OrbitParameters>"),
            public("Position", "Component<Self, Position>"),
            // ownership before reference; the edge to many moons has no field
            public("Surface", "Component<Self, Option<GenId<Surface>>>"),
            public("System", "Component<Self, Id<System>>"),
        ]
    );

    let allocators = world.get_allocators();
    assert_eq!(allocators.typ, "Allocators");
    assert_eq!(
        flat(&allocators.fields),
        vec![
            public("System", "FixedAllocator<System>"),
            public("Body", "FixedAllocator<Body>"),
            public("Surface", "GenAllocator<Surface>"),
            public("Moon", "FixedAllocator<Moon>"),
        ]
    );

    let state = world.get_state();
    assert_eq!(state.typ, "State");
    assert_eq!(
        flat(&state.fields),
        vec![
            public("Time", "Time"),
            private("System", "System"),
            private("Body", "Body"),
            private("Surface", "Surface"),
            private("Moon", "Moon"),
        ]
    );
}

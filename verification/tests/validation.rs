use generative_ecs::{Arena, LinkType, Rule, SchemaError, World};

fn violation(result: &Result<(), SchemaError>) -> (Rule, String, String) {
    match result {
        Err(SchemaError::Validation { rule, arena, target }) => {
            (*rule, arena.clone(), target.clone())
        }
        other => panic!("expected a violation, found {:?}", other),
    }
}

fn lookup(result: &Result<(), SchemaError>) -> (String, String) {
    match result {
        Err(SchemaError::Lookup { arena, target }) => (arena.clone(), target.clone()),
        other => panic!("expected a failed lookup, found {:?}", other),
    }
}

#[test]
fn empty_world_is_safe() {
    assert!(World::new().validate().is_ok());
    assert!(World::new().add_arena(Arena::fixed("Alone")).validate().is_ok());
}

#[test]
fn transient_with_required_ownership_of_permanent_fails() {
    let perm = Arena::fixed("Perm");
    let mut temp = Arena::generational("Temp");
    temp.add_ownership(&perm, LinkType::Required);

    let world = World::new().add_arena(perm).add_arena(temp);

    let result = world.validate();
    assert_eq!(
        violation(&result),
        (Rule::TransientOwnsPermanent, "Temp".to_string(), "Perm".to_string())
    );
    assert!(world.no_transient_owns_permanent().is_err());
    assert!(world.no_permanent_has_mandatory_link_to_transient().is_ok());
    assert!(world.no_transient_has_mandatory_reference_to_non_owner_transient().is_ok());
}

#[test]
fn transient_owning_permanent_fails_for_every_multiplicity() {
    for link_type in [LinkType::Required, LinkType::Optional, LinkType::Many] {
        let perm = Arena::fixed("Perm");
        let mut temp = Arena::generational("Temp");
        temp.add_ownership(&perm, link_type);
        let world = World::new().add_arena(temp).add_arena(perm);
        assert_eq!(violation(&world.validate()).0, Rule::TransientOwnsPermanent);
    }
}

#[test]
fn transient_may_refer_to_permanent() {
    for link_type in [LinkType::Required, LinkType::Optional, LinkType::Many] {
        let perm = Arena::fixed("Perm");
        let mut temp = Arena::generational("Temp");
        temp.add_reference(&perm, link_type);
        let world = World::new().add_arena(temp).add_arena(perm);
        assert!(world.validate().is_ok());
    }
}

#[test]
fn permanent_with_required_reference_to_transient_fails_and_optional_passes() {
    let temp = Arena::generational("Temp");
    let mut perm = Arena::fixed("Perm");
    perm.add_reference(&temp, LinkType::Required);
    let world = World::new().add_arena(perm).add_arena(temp);
    assert_eq!(
        violation(&world.validate()),
        (Rule::PermanentRequiresTransient, "Perm".to_string(), "Temp".to_string())
    );

    let temp = Arena::generational("Temp");
    let mut perm = Arena::fixed("Perm");
    perm.add_reference(&temp, LinkType::Optional);
    let world = World::new().add_arena(perm).add_arena(temp);
    assert!(world.validate().is_ok());

    let temp = Arena::generational("Temp");
    let mut perm = Arena::fixed("Perm");
    perm.add_reference(&temp, LinkType::Required);
    perm.add_reference(&temp, LinkType::Optional);
    let world = World::new().add_arena(perm).add_arena(temp);
    assert!(world.validate().is_ok());
}

#[test]
fn permanent_may_own_transient_unless_required() {
    for (link_type, safe) in [
        (LinkType::Required, false),
        (LinkType::Optional, true),
        (LinkType::Many, true),
    ] {
        let temp = Arena::generational("Temp");
        let mut perm = Arena::fixed("Perm");
        perm.add_ownership(&temp, link_type);
        let world = World::new().add_arena(perm).add_arena(temp);
        assert_eq!(world.validate().is_ok(), safe);
    }
}

#[test]
fn permanent_to_permanent_is_always_safe() {
    for link_type in [LinkType::Required, LinkType::Optional, LinkType::Many] {
        let a = Arena::fixed("A");
        let mut b = Arena::fixed("B");
        b.add_ownership(&a, link_type);
        b.add_reference(&a, link_type);
        let world = World::new().add_arena(a).add_arena(b);
        assert!(world.validate().is_ok());
    }
}

#[test]
fn required_reference_between_transients_must_point_at_the_owner() {
    // A owns B, B refers back to A: the target is the owner
    let mut a = Arena::generational("A");
    let mut b = Arena::generational("B");
    a.add_ownership(&b, LinkType::Required);
    b.add_reference(&a, LinkType::Required);
    let world = World::new().add_arena(a).add_arena(b);
    assert!(world.validate().is_ok());

    // B refers to C instead, which does not own it
    let mut a = Arena::generational("A");
    let mut b = Arena::generational("B");
    let c = Arena::generational("C");
    a.add_ownership(&b, LinkType::Required);
    b.add_reference(&c, LinkType::Required);
    let world = World::new().add_arena(a).add_arena(b).add_arena(c);
    assert_eq!(
        violation(&world.validate()),
        (Rule::TransientRequiresNonOwner, "B".to_string(), "C".to_string())
    );

    // an optional reference to a stranger is safe
    let mut b = Arena::generational("B");
    let c = Arena::generational("C");
    b.add_reference(&c, LinkType::Optional);
    let world = World::new().add_arena(b).add_arena(c);
    assert!(world.validate().is_ok());
}

#[test]
fn transient_may_own_transient() {
    for link_type in [LinkType::Required, LinkType::Optional, LinkType::Many] {
        let b = Arena::generational("B");
        let mut a = Arena::generational("A");
        a.add_ownership(&b, link_type);
        let world = World::new().add_arena(a).add_arena(b);
        assert!(world.validate().is_ok());
    }
}

#[test]
fn repeated_validation_gives_the_same_result() {
    let perm = Arena::fixed("Perm");
    let mut temp = Arena::generational("Temp");
    temp.add_ownership(&perm, LinkType::Required);
    let world = World::new().add_arena(perm).add_arena(temp);
    let first = violation(&world.validate());
    for _ in 0..3 {
        assert_eq!(violation(&world.validate()), first);
    }

    let safe = World::new().add_arena(Arena::fixed("Perm")).add_arena(Arena::generational("Temp"));
    for _ in 0..3 {
        assert!(safe.validate().is_ok());
    }
}

#[test]
fn edge_to_an_undeclared_arena_fails_the_lookup() {
    let ghost = Arena::fixed("Ghost");
    let mut real = Arena::fixed("Real");
    real.add_reference(&ghost, LinkType::Optional);
    let world = World::new().add_arena(real);
    assert_eq!(lookup(&world.validate()), ("Real".to_string(), "Ghost".to_string()));

    let ghost = Arena::fixed("Ghost");
    let mut real = Arena::generational("Real");
    real.add_ownership(&ghost, LinkType::Many);
    let world = World::new().add_arena(real);
    assert_eq!(lookup(&world.validate()), ("Real".to_string(), "Ghost".to_string()));
    assert_eq!(
        lookup(&world.no_transient_owns_permanent()),
        ("Real".to_string(), "Ghost".to_string())
    );
    // the other two rules do not look at an ownership edge of a transient arena
    assert!(world.no_permanent_has_mandatory_link_to_transient().is_ok());
    assert!(world.no_transient_has_mandatory_reference_to_non_owner_transient().is_ok());
}

#[test]
fn first_fault_of_the_first_failing_rule_is_reported() {
    // P breaks the second rule, T the first and the third: the first rule
    // speaks first, though P is declared before T
    let mut p = Arena::fixed("P");
    let mut t = Arena::generational("T");
    let u = Arena::generational("U");
    p.add_reference(&t, LinkType::Required);
    t.add_reference(&u, LinkType::Required);
    t.add_ownership(&p, LinkType::Optional);
    let world = World::new().add_arena(p).add_arena(t).add_arena(u);

    assert_eq!(
        violation(&world.validate()),
        (Rule::TransientOwnsPermanent, "T".to_string(), "P".to_string())
    );
    assert_eq!(
        violation(&world.check_rule(Rule::PermanentRequiresTransient)),
        (Rule::PermanentRequiresTransient, "P".to_string(), "T".to_string())
    );
    assert_eq!(
        violation(&world.check_rule(Rule::TransientRequiresNonOwner)),
        (Rule::TransientRequiresNonOwner, "T".to_string(), "U".to_string())
    );
}

#[test]
fn within_a_rule_arenas_and_edges_are_taken_in_declaration_order() {
    // both arenas break the second rule; within Moon two edges do
    let t = Arena::generational("T");
    let u = Arena::generational("U");
    let mut sun = Arena::fixed("Sun");
    let mut moon = Arena::fixed("Moon");
    moon.add_reference(&u, LinkType::Required);
    moon.add_ownership(&t, LinkType::Required);
    sun.add_reference(&u, LinkType::Required);

    let world = World::new()
        .add_arena(t.clone())
        .add_arena(u.clone())
        .add_arena(moon.clone())
        .add_arena(sun.clone());
    // Moon comes first, and its ownership edges come before its references
    assert_eq!(
        violation(&world.validate()),
        (Rule::PermanentRequiresTransient, "Moon".to_string(), "T".to_string())
    );

    let world = World::new().add_arena(sun).add_arena(moon).add_arena(t).add_arena(u);
    assert_eq!(
        violation(&world.validate()),
        (Rule::PermanentRequiresTransient, "Sun".to_string(), "U".to_string())
    );
}

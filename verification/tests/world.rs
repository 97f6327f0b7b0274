use generative_ecs::{Arena, LinkType, Rule, SchemaError, World};

fn expect_violation(result: Result<(), SchemaError>, rule: Rule, arena: &str, target: &str) {
    match result {
        Err(SchemaError::Validation { rule: found, arena: a, target: t }) => {
            assert_eq!(found, rule);
            assert_eq!(a, arena);
            assert_eq!(t, target);
        }
        other => panic!("expected a violation, found {:?}", other),
    }
}

//	Transient	Permanent	Owns	    INVALID, child entity will leak if parent removed
#[test]
fn invalid_transient_owning_permanent() {
    let perm = Arena::fixed("Perm");

    let mut temp = Arena::generational("Temp");
    temp.add_ownership(&perm, LinkType::Required);

    let invalid = World::new().add_arena(perm).add_arena(temp);

    expect_violation(invalid.validate(), Rule::TransientOwnsPermanent, "Temp", "Perm");
}

//	Permanent	Transient	Owns	    INVALID, no reason for child to be temp if it cannot unlink
#[test]
fn invalid_permanent_cannot_mandatory_own_transient() {
    let temp = Arena::generational("Temp");

    let mut perm = Arena::fixed("Perm");
    perm.add_ownership(&temp, LinkType::Required);

    let invalid = World::new().add_arena(perm).add_arena(temp);

    expect_violation(invalid.validate(), Rule::PermanentRequiresTransient, "Perm", "Temp");
}

//	Permanent	Transient	Ref	        INVALID, cannot be unlinked if child removed
#[test]
fn invalid_permanent_cannot_mandatory_refer_to_transient() {
    let temp = Arena::generational("Temp");

    let mut perm = Arena::fixed("Perm");
    perm.add_reference(&temp, LinkType::Required);

    let invalid = World::new().add_arena(perm).add_arena(temp);

    expect_violation(invalid.validate(), Rule::PermanentRequiresTransient, "Perm", "Temp");
}

//	Transient	Permanent	Owns	    INVALID, child entity will leak if parent removed
#[test]
fn invalid_transient_cannot_mandatory_own_permanent() {
    let perm = Arena::fixed("Perm");

    let mut temp = Arena::generational("Temp");
    temp.add_ownership(&perm, LinkType::Required);

    let invalid = World::new().add_arena(perm).add_arena(temp);

    expect_violation(invalid.validate(), Rule::TransientOwnsPermanent, "Temp", "Perm");
}

//	Transient	Permanent	Maybe Owns	INVALID, child entity will leak if parent removed
#[test]
fn invalid_transient_cannot_optionally_own_permanent() {
    let perm = Arena::fixed("Perm");

    let mut temp = Arena::generational("Temp");
    temp.add_ownership(&perm, LinkType::Optional);

    let invalid = World::new().add_arena(perm).add_arena(temp);

    expect_violation(invalid.validate(), Rule::TransientOwnsPermanent, "Temp", "Perm");
}

//	Transient	Transient	Ref	        INVALID, must point at owner, so refer is deleted along with it
#[test]
fn invalid_transient_cannot_have_mandatory_reference_to_transient() {
    let temp1 = Arena::generational("Temp1");

    let mut temp2 = Arena::generational("Temp2");
    temp2.add_reference(&temp1, LinkType::Required);

    let invalid = World::new().add_arena(temp1).add_arena(temp2);

    expect_violation(invalid.validate(), Rule::TransientRequiresNonOwner, "Temp2", "Temp1");
}

//	Transient	Transient	Ref	        must point at owner, so refer is deleted along with it
#[test]
fn invalid_transient_can_have_mandatory_reference_to_transient_owner() {
    let mut owner = Arena::generational("Temp1");
    let mut owned = Arena::generational("Temp2");

    owner.add_ownership(&owned, LinkType::Required);
    owned.add_reference(&owner, LinkType::Required);

    let valid = World::new().add_arena(owner).add_arena(owned);

    assert!(valid.validate().is_ok());
}

use generative_ecs::links::Link;

#[test]
fn overlap() {
    let a = "A";
    let b = "B";
    let c = "C";

    let a_b = Link::new(a, b);
    let a_c = Link::new(a, c);

    let b_a = Link::new(b, a);
    let b_c = Link::new(b, c);

    let c_a = Link::new(c, a);
    let c_b = Link::new(c, b);

    assert!(a_b.overlaps(&a_b));
    assert!(a_b.overlaps(&b_a));

    assert!(!a_b.overlaps(&a_c));
    assert!(!a_b.overlaps(&c_a));

    assert!(!a_b.overlaps(&b_c));
    assert!(!a_b.overlaps(&c_b));
}

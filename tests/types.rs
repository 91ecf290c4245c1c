use clowc::Type;

#[test]
fn reserved_names_are_scalars() {
    assert_eq!(Type::from("byte"), Type::Byte);
    assert_eq!(Type::from("int"), Type::Int);
    assert_eq!(Type::from("long"), Type::Long);
    assert_eq!(Type::from("float"), Type::Float);
    assert_eq!(Type::from("double"), Type::Double);
}

#[test]
fn other_names_are_classes() {
    assert_eq!(Type::from("Point"), Type::Class("Point"));
    assert_eq!(Type::from("Int"), Type::Class("Int"));
    assert_eq!(Type::from("bytes"), Type::Class("bytes"));
    assert_eq!(Type::from("in"), Type::Class("in"));
    assert_eq!(Type::from(" int"), Type::Class(" int"));
    assert_eq!(Type::from("DOUBLE"), Type::Class("DOUBLE"));
    assert_eq!(Type::from("\u{e9}t\u{e9}"), Type::Class("\u{e9}t\u{e9}"));
}

#[test]
fn class_keeps_the_borrowed_name() {
    let source = String::from("let v: Vector = 1");
    let name = &source[7..13];
    match Type::from(name) {
        Type::Class(n) => {
            assert_eq!(n, "Vector");
            assert!(std::ptr::eq(n, name));
        }
        other => panic!("unexpected {:?}", other),
    }
}

#[test]
fn conversion_never_builds_generic() {
    for name in ["List", "Map", "int", ""] {
        assert!(!matches!(Type::from(name), Type::Generic(_, _)));
    }
    let g = Type::Generic("List", vec![Type::Int, Type::Class("Point")]);
    assert_eq!(g, Type::Generic("List", vec![Type::Int, Type::Class("Point")]));
}

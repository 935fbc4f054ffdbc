use lua_marshalling::{
    dependencies, dependency_sorted_type_descriptions, make_dependencies, typedeclaration,
    typename, Dependencies, MarshalError, Primitive, Type, TypeDescription,
};

fn names_of(d: &Dependencies) -> Vec<String> {
    d.entries.iter().map(|e| typename(&e.typ)).collect()
}

#[test]
fn primitive_mapping_is_single_entry() {
    let t = Type::Primitive(Primitive::I32);
    let d = make_dependencies(&t);
    assert_eq!(d.entries.len(), 1);
    assert_eq!(typename(&d.entries[0].typ), "i32");
    assert!(d.entries[0].dependencies.is_empty());
    assert_eq!(d.entries[0].typedeclaration, "");
    assert_eq!(d.entries[0].metatype, "");
}

#[test]
fn optional_mapping_holds_element_and_root() {
    let t = Type::Optional(Box::new(Type::Primitive(Primitive::U8)));
    let d = make_dependencies(&t);
    let mut names = names_of(&d);
    names.sort();
    assert_eq!(names, vec!["Option_u8".to_string(), "u8".to_string()]);
    let root = d.entries.iter().find(|e| typename(&e.typ) == "Option_u8").unwrap();
    let dep_names: Vec<String> = root.dependencies.iter().map(typename).collect();
    assert_eq!(dep_names, vec!["u8".to_string()]);
}

#[test]
fn nested_mapping_holds_full_closure_once() {
    let t = Type::OwnedSequence(Box::new(Type::OwnedSequence(Box::new(Type::Primitive(
        Primitive::U8,
    )))));
    let d = make_dependencies(&t);
    let mut names = names_of(&d);
    names.sort();
    assert_eq!(
        names,
        vec!["Vec_Vec_u8".to_string(), "Vec_u8".to_string(), "u8".to_string()]
    );
}

#[test]
fn direct_dependencies_are_element_closure() {
    let t = Type::Optional(Box::new(Type::Primitive(Primitive::U8)));
    let d = dependencies(&t);
    assert_eq!(names_of(&d), vec!["u8".to_string()]);
    let p = Type::TextBuffer;
    assert_eq!(dependencies(&p).entries.len(), 0);
}

#[test]
fn sorted_order_emits_dependencies_first() {
    let t = Type::OwnedSequence(Box::new(Type::OwnedSequence(Box::new(Type::Primitive(
        Primitive::U8,
    )))));
    let d = make_dependencies(&t);
    let sorted = dependency_sorted_type_descriptions(&d).unwrap();
    let names: Vec<String> = sorted.iter().map(|e| typename(&e.typ)).collect();
    assert_eq!(
        names,
        vec!["u8".to_string(), "Vec_u8".to_string(), "Vec_Vec_u8".to_string()]
    );
}

#[test]
fn sorted_output_is_a_permutation() {
    let t = Type::Optional(Box::new(Type::OwnedSequence(Box::new(Type::TextBuffer))));
    let d = make_dependencies(&t);
    let sorted = dependency_sorted_type_descriptions(&d).unwrap();
    assert_eq!(sorted.len(), d.entries.len());
    let mut sorted_names: Vec<String> = sorted.iter().map(|e| typename(&e.typ)).collect();
    let mut map_names = names_of(&d);
    sorted_names.sort();
    map_names.sort();
    assert_eq!(sorted_names, map_names);
}

#[test]
fn sorted_descriptors_carry_declarations() {
    let t = Type::OwnedSequence(Box::new(Type::Primitive(Primitive::U8)));
    let d = make_dependencies(&t);
    let sorted = dependency_sorted_type_descriptions(&d).unwrap();
    let vec_entry = sorted.iter().find(|e| typename(&e.typ) == "Vec_u8").unwrap();
    assert_eq!(vec_entry.typedeclaration, typedeclaration(&t));
}

#[test]
fn two_element_cycle_is_reported() {
    let d = Dependencies {
        entries: vec![
            TypeDescription {
                typ: Type::Primitive(Primitive::U8),
                dependencies: vec![Type::Primitive(Primitive::U16)],
                typedeclaration: String::new(),
                metatype: String::new(),
            },
            TypeDescription {
                typ: Type::Primitive(Primitive::U16),
                dependencies: vec![Type::Primitive(Primitive::U8)],
                typedeclaration: String::new(),
                metatype: String::new(),
            },
        ],
    };
    match dependency_sorted_type_descriptions(&d) {
        Err(MarshalError::CyclicDependency(remaining)) => {
            let mut names: Vec<String> = remaining.iter().map(typename).collect();
            names.sort();
            assert_eq!(names, vec!["u16".to_string(), "u8".to_string()]);
        },
        _ => panic!("a cyclic mapping must be reported as such"),
    }
}

#[test]
fn self_cycle_is_reported() {
    let d = Dependencies {
        entries: vec![TypeDescription {
            typ: Type::TextBuffer,
            dependencies: vec![Type::TextBuffer],
            typedeclaration: String::new(),
            metatype: String::new(),
        }],
    };
    assert!(matches!(
        dependency_sorted_type_descriptions(&d),
        Err(MarshalError::CyclicDependency(_))
    ));
}

#[test]
fn partial_cycle_returns_no_partial_order() {
    let d = Dependencies {
        entries: vec![
            TypeDescription {
                typ: Type::Primitive(Primitive::I8),
                dependencies: vec![],
                typedeclaration: String::new(),
                metatype: String::new(),
            },
            TypeDescription {
                typ: Type::Primitive(Primitive::U8),
                dependencies: vec![Type::Primitive(Primitive::U16)],
                typedeclaration: String::new(),
                metatype: String::new(),
            },
            TypeDescription {
                typ: Type::Primitive(Primitive::U16),
                dependencies: vec![Type::Primitive(Primitive::U8)],
                typedeclaration: String::new(),
                metatype: String::new(),
            },
        ],
    };
    match dependency_sorted_type_descriptions(&d) {
        Err(MarshalError::CyclicDependency(remaining)) => {
            let names: Vec<String> = remaining.iter().map(typename).collect();
            assert!(!names.contains(&"i8".to_string()));
            assert_eq!(remaining.len(), 2);
        },
        _ => panic!("a cyclic mapping must be reported as such"),
    }
}

#[test]
fn acyclic_mapping_with_external_dependency_still_sorts() {
    let d = Dependencies {
        entries: vec![TypeDescription {
            typ: Type::Primitive(Primitive::I8),
            dependencies: vec![Type::Primitive(Primitive::I16)],
            typedeclaration: String::new(),
            metatype: String::new(),
        }],
    };
    let sorted = dependency_sorted_type_descriptions(&d).unwrap();
    assert_eq!(sorted.len(), 1);
}

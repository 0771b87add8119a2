use agent_loader::mapping::class::{Field, Method, MethodOrVec, MinecraftClass};
use agent_loader::mapping::compat::{JavaObject, JavaValue, ObjectClass, SignatureMatch};
use agent_loader::mapping::error::MappingError;
use agent_loader::mapping::signature::SignatureError;

fn method(name: &str, signature: &str) -> Method {
    Method { name: name.to_string(), signature: signature.to_string() }
}

fn instance(class_name: &str, assignable_to: &[&str]) -> JavaValue {
    JavaValue::Object(JavaObject::Instance(ObjectClass {
        class_name: class_name.to_string(),
        assignable_to: assignable_to.iter().map(|s| s.to_string()).collect(),
    }))
}

fn sample_class() -> MinecraftClass {
    let mut class = MinecraftClass::new("abc".to_string());
    class.insert_methods("tick".to_string(), vec![method("a", "()V")]);
    class.insert_methods(
        "move".to_string(),
        vec![method("b", "(I)V"), method("c", "(J)V"), method("d", "(Ljava/lang/String;)V")],
    );
    class.insert_methods("none".to_string(), Vec::new());
    class.insert_field("level".to_string(), Field { name: "f_1".to_string() });
    class
}

#[test]
fn test_parameter_type_extraction() {
    let class = MinecraftClass::new("TestClass".to_string());

    // Test basic types
    assert_eq!(class.extract_parameter_types("()V").unwrap(), Vec::<String>::new());

    assert_eq!(class.extract_parameter_types("(I)V").unwrap(), vec!["I"]);

    assert_eq!(
        class.extract_parameter_types("(ILjava/lang/String;F)V").unwrap(),
        vec!["I", "Ljava/lang/String;", "F"]
    );

    // Test arrays
    assert_eq!(class.extract_parameter_types("([I)V").unwrap(), vec!["[I"]);
}

#[test]
fn test_type_compatibility() {
    let class = MinecraftClass::new("TestClass".to_string());

    // Test exact matches
    assert_eq!(class.check_type_compatibility("I", &JavaValue::Int), SignatureMatch::Exact);

    // Test compatible matches (promotion)
    assert_eq!(class.check_type_compatibility("I", &JavaValue::Byte), SignatureMatch::Compatible);

    // Test incompatible matches
    assert_eq!(
        class.check_type_compatibility("I", &JavaValue::Double),
        SignatureMatch::Incompatible
    );
}

#[test]
fn parameter_types_of_object_arrays_and_unterminated_objects() {
    let class = MinecraftClass::new("T".to_string());
    assert_eq!(
        class.extract_parameter_types("([Ljava/lang/String;Z)V").unwrap(),
        vec!["[Ljava/lang/String;", "Z"]
    );
    assert_eq!(class.extract_parameter_types("(Lfoo)V").unwrap(), vec!["Lfoo"]);
    assert_eq!(class.extract_parameter_types("(I[)V").unwrap(), vec!["I", "["]);
    assert_eq!(class.extract_parameter_types("x(BCSJD)").unwrap(), vec!["B", "C", "S", "J", "D"]);
}

#[test]
fn parameter_type_errors() {
    let class = MinecraftClass::new("T".to_string());
    assert_eq!(
        class.extract_parameter_types("I)V"),
        Err(SignatureError::MissingOpeningParenthesis)
    );
    assert_eq!(
        class.extract_parameter_types("(I"),
        Err(SignatureError::MissingClosingParenthesis)
    );
    assert_eq!(class.extract_parameter_types(")("), Err(SignatureError::MalformedParentheses));
    assert_eq!(class.extract_parameter_types("([[I)V"), Err(SignatureError::InvalidArrayType));
    assert_eq!(class.extract_parameter_types("(IX)V"), Err(SignatureError::UnknownTypeCharacter));
    assert_eq!(
        SignatureError::MissingOpeningParenthesis.message(),
        "Invalid signature: missing opening parenthesis"
    );
    assert_eq!(SignatureError::InvalidArrayType.message(), "Invalid array type in signature");
}

#[test]
fn methods_are_found_by_name() {
    let class = sample_class();
    assert_eq!(class.get_name(), "abc");
    assert_eq!(class.get_methods("move").unwrap().len(), 3);
    assert_eq!(class.get_method("move").unwrap(), &method("b", "(I)V"));
    assert_eq!(class.get_method("tick").unwrap(), &method("a", "()V"));
    assert_eq!(
        class.get_methods("jump"),
        Err(MappingError::MethodNotFound("jump".to_string()))
    );
    assert_eq!(class.get_method("jump"), Err(MappingError::MethodNotFound("jump".to_string())));
    assert_eq!(class.get_method("none"), Err(MappingError::MethodNotFound("none".to_string())));
}

#[test]
fn methods_are_found_by_signature() {
    let class = sample_class();
    assert_eq!(class.get_method_by_signature("move", "(J)V").unwrap(), &method("c", "(J)V"));
    assert_eq!(
        class.get_method_by_signature("move", "(F)V"),
        Err(MappingError::SignatureNotFound {
            name: "move".to_string(),
            signature: "(F)V".to_string()
        })
    );
    assert_eq!(
        class.get_method_by_signature("jump", "(F)V"),
        Err(MappingError::MethodNotFound("jump".to_string()))
    );
}

#[test]
fn inserting_again_replaces_the_entry() {
    let mut class = sample_class();
    class.insert_methods("tick".to_string(), vec![method("z", "(I)V")]);
    assert_eq!(class.get_method("tick").unwrap(), &method("z", "(I)V"));
    assert_eq!(class.get_methods("move").unwrap().len(), 3);
    class.insert_field("level".to_string(), Field { name: "f_2".to_string() });
    assert_eq!(class.get_field("level").unwrap().name, "f_2");
}

#[test]
fn fields_are_found_by_name() {
    let class = sample_class();
    assert_eq!(class.get_field("level").unwrap(), &Field { name: "f_1".to_string() });
    assert_eq!(class.get_field("world"), Err(MappingError::FieldNotFound("world".to_string())));
}

#[test]
fn mapping_error_messages() {
    assert_eq!(
        MappingError::MethodNotFound("jump".to_string()).message(),
        "jump method not found"
    );
    assert_eq!(
        MappingError::SignatureNotFound { name: "move".to_string(), signature: "(F)V".to_string() }
            .message(),
        "move method with signature (F)V not found"
    );
    assert_eq!(MappingError::FieldNotFound("x".to_string()).message(), "x field not found");
    assert_eq!(MappingError::ClassNotFound("y".to_string()).message(), "y java class not found");
}

#[test]
fn single_entry_becomes_a_list_of_one() {
    assert_eq!(
        MethodOrVec::Single(method("a", "()V")).into_overloads(),
        vec![method("a", "()V")]
    );
    assert_eq!(
        MethodOrVec::Multiple(vec![method("a", "()V"), method("b", "(I)V")]).into_overloads(),
        vec![method("a", "()V"), method("b", "(I)V")]
    );
}

#[test]
fn class_names_compatible_by_table() {
    let class = MinecraftClass::new("T".to_string());
    assert!(class.are_compatible_types("a/B", "a/B"));
    assert!(class.are_compatible_types("java/lang/String", "java/lang/CharSequence"));
    assert!(class.are_compatible_types("java/util/ArrayList", "java/util/List"));
    assert!(class.are_compatible_types("java/util/LinkedList", "java/util/List"));
    assert!(class.are_compatible_types("java/util/HashSet", "java/util/Set"));
    assert!(class.are_compatible_types("java/util/HashMap", "java/util/Map"));
    assert!(!class.are_compatible_types("java/lang/CharSequence", "java/lang/String"));
    assert!(!class.are_compatible_types("java/util/HashMap", "java/util/Set"));
}

#[test]
fn array_component_types() {
    let class = MinecraftClass::new("T".to_string());
    assert_eq!(class.extract_array_component_type("[I"), Some("I".to_string()));
    assert_eq!(
        class.extract_array_component_type("[Ljava/lang/String;"),
        Some("Ljava/lang/String;".to_string())
    );
    assert_eq!(class.extract_array_component_type("["), None);
    assert_eq!(class.extract_array_component_type("I"), None);
    assert_eq!(class.extract_array_component_type(""), None);
}

#[test]
fn array_types_compatible() {
    let class = MinecraftClass::new("T".to_string());
    assert!(class.are_compatible_array_types("[I", "[I"));
    assert!(!class.are_compatible_array_types("[I", "[J"));
    assert!(class.are_compatible_array_types("[Ljava/lang/String;", "[Ljava/lang/CharSequence;"));
    assert!(!class.are_compatible_array_types("[Ljava/lang/String;", "[I"));
    assert!(!class.are_compatible_array_types("I", "[I"));
    assert!(!class.are_compatible_array_types("[L", "[La;"));
}

#[test]
fn primitives_widen() {
    let class = MinecraftClass::new("T".to_string());
    assert_eq!(class.check_type_compatibility("Z", &JavaValue::Bool), SignatureMatch::Exact);
    assert_eq!(class.check_type_compatibility("D", &JavaValue::Double), SignatureMatch::Exact);
    assert_eq!(class.check_type_compatibility("J", &JavaValue::Int), SignatureMatch::Compatible);
    assert_eq!(class.check_type_compatibility("F", &JavaValue::Char), SignatureMatch::Compatible);
    assert_eq!(class.check_type_compatibility("D", &JavaValue::Float), SignatureMatch::Compatible);
    assert_eq!(class.check_type_compatibility("F", &JavaValue::Long), SignatureMatch::Incompatible);
    assert_eq!(class.check_type_compatibility("I", &JavaValue::Long), SignatureMatch::Incompatible);
    assert_eq!(class.check_type_compatibility("Z", &JavaValue::Int), SignatureMatch::Incompatible);
    assert_eq!(class.check_type_compatibility("V", &JavaValue::Void), SignatureMatch::Incompatible);
    assert_eq!(
        class.check_type_compatibility("Ljava/lang/String;", &JavaValue::Int),
        SignatureMatch::Incompatible
    );
}

#[test]
fn objects_fit_object_types() {
    let class = MinecraftClass::new("T".to_string());
    let null = JavaValue::Object(JavaObject::Null);
    let unknown = JavaValue::Object(JavaObject::Unknown);
    let string = instance("java/lang/String", &["java/lang/Comparable"]);
    assert_eq!(class.check_type_compatibility("La/B;", &null), SignatureMatch::Compatible);
    assert_eq!(class.check_type_compatibility("[I", &null), SignatureMatch::Compatible);
    assert_eq!(class.check_type_compatibility("La/B", &null), SignatureMatch::Compatible);
    assert_eq!(class.check_type_compatibility("La/B", &string), SignatureMatch::Incompatible);
    assert_eq!(class.check_type_compatibility("I", &null), SignatureMatch::Incompatible);
    assert_eq!(
        class.check_type_compatibility("Ljava/lang/Object;", &unknown),
        SignatureMatch::Compatible
    );
    assert_eq!(class.check_type_compatibility("La/B;", &unknown), SignatureMatch::Incompatible);
    assert_eq!(
        class.check_type_compatibility("Ljava/lang/String;", &string),
        SignatureMatch::Exact
    );
    assert_eq!(
        class.check_type_compatibility("Ljava/lang/Object;", &string),
        SignatureMatch::Compatible
    );
    assert_eq!(
        class.check_type_compatibility("Ljava/lang/Comparable;", &string),
        SignatureMatch::Compatible
    );
    assert_eq!(
        class.check_type_compatibility("Ljava/lang/CharSequence;", &string),
        SignatureMatch::Compatible
    );
    assert_eq!(
        class.check_type_compatibility("Ljava/util/List;", &string),
        SignatureMatch::Incompatible
    );
}

#[test]
fn objects_fit_array_types() {
    let class = MinecraftClass::new("T".to_string());
    let ints = instance("[I", &[]);
    let strings = instance("[Ljava/lang/String;", &[]);
    let string = instance("java/lang/String", &[]);
    assert_eq!(class.check_type_compatibility("[I", &ints), SignatureMatch::Exact);
    assert_eq!(class.check_type_compatibility("[J", &ints), SignatureMatch::Incompatible);
    assert_eq!(
        class.check_type_compatibility("[Ljava/lang/CharSequence;", &strings),
        SignatureMatch::Compatible
    );
    assert_eq!(class.check_type_compatibility("[I", &string), SignatureMatch::Incompatible);
    assert_eq!(
        class.check_type_compatibility("[I", &JavaValue::Object(JavaObject::Unknown)),
        SignatureMatch::Incompatible
    );
}

#[test]
fn argument_lists_fit_signatures() {
    let class = MinecraftClass::new("T".to_string());
    assert_eq!(class.evaluate_signature_compatibility("()V", &[]), SignatureMatch::Exact);
    assert_eq!(
        class.evaluate_signature_compatibility("(IJ)V", &[JavaValue::Int, JavaValue::Long]),
        SignatureMatch::Exact
    );
    assert_eq!(
        class.evaluate_signature_compatibility("(IJ)V", &[JavaValue::Int, JavaValue::Int]),
        SignatureMatch::Compatible
    );
    assert_eq!(
        class.evaluate_signature_compatibility("(IJ)V", &[JavaValue::Long, JavaValue::Int]),
        SignatureMatch::Incompatible
    );
    assert_eq!(
        class.evaluate_signature_compatibility("(IJ)V", &[JavaValue::Int]),
        SignatureMatch::Incompatible
    );
    assert_eq!(
        class.evaluate_signature_compatibility("IJ", &[JavaValue::Int, JavaValue::Long]),
        SignatureMatch::Incompatible
    );
}

#[test]
fn overloads_are_chosen_by_arguments() {
    let class = sample_class();
    // A single overload is taken whatever the arguments are.
    assert_eq!(class.get_method_by_args("tick", &[JavaValue::Int]).unwrap(), &method("a", "()V"));
    // The first exact fit wins.
    assert_eq!(class.get_method_by_args("move", &[JavaValue::Long]).unwrap(), &method("c", "(J)V"));
    assert_eq!(class.get_method_by_args("move", &[JavaValue::Int]).unwrap(), &method("b", "(I)V"));
    // Without an exact fit, the last compatible one.
    assert_eq!(class.get_method_by_args("move", &[JavaValue::Byte]).unwrap(), &method("c", "(J)V"));
    assert_eq!(
        class.get_method_by_args("move", &[JavaValue::Object(JavaObject::Null)]).unwrap(),
        &method("d", "(Ljava/lang/String;)V")
    );
    // Without any fit, the first overload.
    assert_eq!(
        class.get_method_by_args("move", &[JavaValue::Double]).unwrap(),
        &method("b", "(I)V")
    );
    assert_eq!(
        class.get_method_by_args("jump", &[]),
        Err(MappingError::MethodNotFound("jump".to_string()))
    );
    assert_eq!(
        class.get_method_by_args("none", &[]),
        Err(MappingError::MethodNotFound("none".to_string()))
    );
}

use agent_loader::mapping::call::{
    describe_class_missing, describe_field_failure, Access, FieldTarget, MethodTarget,
};
use agent_loader::mapping::class::{Field, Method, MinecraftClass};
use agent_loader::mapping::class_type::MinecraftClassType;
use agent_loader::mapping::compat::JavaValue;
use agent_loader::mapping::error::MappingError;
use agent_loader::mapping::minecraft_version::MinecraftVersion;
use agent_loader::mapping::{FieldType, Mapping};
use agent_loader::module::{modules_to_stop, HandlerFlag, KeyLatch};

fn method(name: &str, signature: &str) -> Method {
    Method { name: name.to_string(), signature: signature.to_string() }
}

fn game() -> Mapping {
    let mut entity = MinecraftClass::new("bum".to_string());
    entity.insert_methods(
        "setInvulnerable".to_string(),
        vec![method("m_1", "(Z)V")],
    );
    entity.insert_methods(
        "teleport".to_string(),
        vec![method("m_2", "(III)V"), method("m_3", "(DDD)V"), method("m_4", "(Lbum;)V")],
    );
    entity.insert_field("fallDistance".to_string(), Field { name: "f_9".to_string() });
    entity.insert_field("vehicle".to_string(), Field { name: "f_3".to_string() });
    Mapping::empty(MinecraftVersion::new(1, 21, 4))
        .with_class("net/minecraft/world/entity/Entity".to_string(), entity)
}

#[test]
fn methods_are_resolved_to_obfuscated_names() {
    let mapping = game();
    assert_eq!(
        mapping.resolve_method(MinecraftClassType::Entity, "setInvulnerable", &[JavaValue::Bool]),
        Ok(MethodTarget {
            class_name: "bum".to_string(),
            method_name: "m_1".to_string(),
            signature: "(Z)V".to_string()
        })
    );
    assert_eq!(
        mapping
            .resolve_method(
                MinecraftClassType::Entity,
                "teleport",
                &[JavaValue::Double, JavaValue::Double, JavaValue::Double]
            )
            .unwrap()
            .method_name,
        "m_3"
    );
    assert_eq!(
        mapping
            .resolve_method(
                MinecraftClassType::Entity,
                "teleport",
                &[JavaValue::Short, JavaValue::Int, JavaValue::Int]
            )
            .unwrap()
            .method_name,
        "m_3"
    );
}

#[test]
fn resolving_a_method_fails_for_unknown_names() {
    let mapping = game();
    assert_eq!(
        mapping.resolve_method(MinecraftClassType::Window, "getWindow", &[]),
        Err(MappingError::ClassNotFound("com/mojang/blaze3d/platform/Window".to_string()))
    );
    assert_eq!(
        mapping.resolve_method(MinecraftClassType::Entity, "fly", &[]),
        Err(MappingError::MethodNotFound("fly".to_string()))
    );
}

#[test]
fn fields_are_resolved_with_their_signature() {
    let mapping = game();
    assert_eq!(
        mapping.resolve_field(MinecraftClassType::Entity, "fallDistance", FieldType::Double),
        Ok(FieldTarget {
            class_name: "bum".to_string(),
            field_name: "f_9".to_string(),
            signature: "D".to_string()
        })
    );
    assert_eq!(
        mapping.resolve_field(
            MinecraftClassType::Entity,
            "vehicle",
            FieldType::Object(MinecraftClassType::Entity, &mapping)
        ),
        Ok(FieldTarget {
            class_name: "bum".to_string(),
            field_name: "f_3".to_string(),
            signature: "Lbum;".to_string()
        })
    );
}

#[test]
fn resolving_a_field_reports_the_first_thing_missing() {
    let mapping = game();
    assert_eq!(
        mapping.resolve_field(MinecraftClassType::Vec3, "x", FieldType::Double),
        Err(MappingError::ClassNotFound("net/minecraft/world/phys/Vec3".to_string()))
    );
    assert_eq!(
        mapping.resolve_field(
            MinecraftClassType::Entity,
            "nothing",
            FieldType::Object(MinecraftClassType::Vec3, &mapping)
        ),
        Err(MappingError::FieldNotFound("nothing".to_string()))
    );
    assert_eq!(
        mapping.resolve_field(
            MinecraftClassType::Entity,
            "vehicle",
            FieldType::Object(MinecraftClassType::Vec3, &mapping)
        ),
        Err(MappingError::ClassNotFound("net/minecraft/world/phys/Vec3".to_string()))
    );
}

#[test]
fn failed_calls_are_put_into_words() {
    let mapping = game();
    let target = MethodTarget {
        class_name: "bum".to_string(),
        method_name: "m_4".to_string(),
        signature: "(Lbum;)V".to_string(),
    };
    assert_eq!(
        mapping.describe_method_failure(
            Access::Call,
            "teleport",
            MinecraftClassType::Entity,
            &target
        ),
        "Error calling method teleport (m_4) in class net/minecraft/world/entity/Entity (bum) \
         with signature (net/minecraft/world/entity/Entity) -> void ((Lbum;)V)"
    );
    assert_eq!(
        mapping.describe_method_failure(
            Access::StaticCall,
            "teleport",
            MinecraftClassType::Entity,
            &target
        ),
        "Error calling static method teleport (m_4) in class net/minecraft/world/entity/Entity \
         (bum) with signature (net/minecraft/world/entity/Entity) -> void ((Lbum;)V)"
    );
}

#[test]
fn failed_field_accesses_are_put_into_words() {
    let target = FieldTarget {
        class_name: "bum".to_string(),
        field_name: "f_9".to_string(),
        signature: "D".to_string(),
    };
    assert_eq!(
        describe_field_failure(
            Access::FieldRead,
            "fallDistance",
            MinecraftClassType::Entity,
            &target
        ),
        "Error getting field fallDistance (f_9) from class net/minecraft/world/entity/Entity (bum)"
    );
    assert_eq!(
        describe_field_failure(
            Access::StaticFieldRead,
            "fallDistance",
            MinecraftClassType::Entity,
            &target
        ),
        "Error getting static field fallDistance (f_9) from class \
         net/minecraft/world/entity/Entity (bum)"
    );
    assert_eq!(
        describe_field_failure(
            Access::FieldWrite,
            "fallDistance",
            MinecraftClassType::Entity,
            &target
        ),
        "Error setting field fallDistance (f_9) in class net/minecraft/world/entity/Entity (bum)"
    );
    assert_eq!(
        describe_class_missing(MinecraftClassType::Entity, "bum"),
        "Class net/minecraft/world/entity/Entity (bum) not found"
    );
}

#[test]
fn a_held_key_is_one_press() {
    let mut latch = KeyLatch::new();
    assert!(!latch.observe(70, false));
    assert!(latch.observe(70, true));
    assert!(!latch.observe(70, true));
    assert!(latch.observe(71, true));
    assert!(!latch.observe(70, true));
    assert!(!latch.observe(70, false));
    assert!(!latch.observe(71, true));
    assert!(latch.observe(70, true));
}

#[test]
fn arguments_decide_only_among_several_overloads() {
    let mapping = game();
    assert!(mapping.arguments_decide(MinecraftClassType::Entity, "teleport"));
    assert!(!mapping.arguments_decide(MinecraftClassType::Entity, "setInvulnerable"));
    assert!(!mapping.arguments_decide(MinecraftClassType::Entity, "fly"));
    assert!(!mapping.arguments_decide(MinecraftClassType::Window, "getWindow"));
    assert_eq!(
        mapping.resolve_method(MinecraftClassType::Entity, "setInvulnerable", &[]),
        mapping.resolve_method(MinecraftClassType::Entity, "setInvulnerable", &[JavaValue::Bool])
    );
}

#[test]
fn the_enabled_modules_are_stopped_in_order() {
    assert_eq!(modules_to_stop(&vec![]), Vec::<usize>::new());
    assert_eq!(modules_to_stop(&vec![false, false]), Vec::<usize>::new());
    assert_eq!(modules_to_stop(&vec![true, false, true, true, false]), vec![0, 2, 3]);
    assert_eq!(modules_to_stop(&vec![false, true]), vec![1]);
}

#[test]
fn the_handler_flag_is_set_once_and_cleared_for_good() {
    let mut flag = HandlerFlag::new();
    assert_eq!(flag.running, None);
    assert!(!flag.is_running());
    flag.stop();
    assert_eq!(flag.running, None);
    flag.start();
    assert_eq!(flag.running, Some(true));
    assert!(flag.is_running());
    flag.start();
    assert_eq!(flag.running, Some(true));
    flag.stop();
    assert_eq!(flag.running, Some(false));
    assert!(!flag.is_running());
    flag.stop();
    assert_eq!(flag.running, Some(false));
    flag.start();
    assert_eq!(flag.running, Some(false));
}

use agent_loader::mapping::class::MinecraftClass;
use agent_loader::mapping::class_type::MinecraftClassType;
use agent_loader::mapping::error::MappingError;
use agent_loader::mapping::method::MethodName;
use agent_loader::mapping::minecraft_version::{MinecraftVersion, VersionError};
use agent_loader::mapping::{FieldType, Mapping};
use agent_loader::module::{KeyboardKey, ModuleCategory};

fn sample_mapping() -> Mapping {
    Mapping::empty(MinecraftVersion::new(1, 21, 4))
        .with_class(
            "net/minecraft/client/Minecraft".to_string(),
            MinecraftClass::new("fqq".to_string()),
        )
        .with_class(
            "net/minecraft/world/entity/Entity".to_string(),
            MinecraftClass::new("bum".to_string()),
        )
}

#[test]
fn class_type_names() {
    assert_eq!(MinecraftClassType::Minecraft.get_name(), "net/minecraft/client/Minecraft");
    assert_eq!(
        MinecraftClassType::LocalPlayer.get_name(),
        "net/minecraft/client/player/LocalPlayer"
    );
    assert_eq!(
        MinecraftClassType::Level.get_name(),
        "net/minecraft/client/multiplayer/ClientLevel"
    );
    assert_eq!(MinecraftClassType::Player.get_name(), "net/minecraft/world/entity/player/Player");
    assert_eq!(
        MinecraftClassType::Abilities.get_name(),
        "net/minecraft/world/entity/player/Abilities"
    );
    assert_eq!(MinecraftClassType::Entity.get_name(), "net/minecraft/world/entity/Entity");
    assert_eq!(MinecraftClassType::Vec3.get_name(), "net/minecraft/world/phys/Vec3");
    assert_eq!(MinecraftClassType::Window.get_name(), "com/mojang/blaze3d/platform/Window");
}

#[test]
fn version_text() {
    assert_eq!(MinecraftVersion::new(1, 21, 9).to_string(), "1.21.9");
    assert_eq!(MinecraftVersion::new(0, 0, 0).to_string(), "0.0.0");
    assert_eq!(
        MinecraftVersion::new(4294967295, 10, 100).to_string(),
        "4294967295.10.100"
    );
}

#[test]
fn version_order() {
    let v = MinecraftVersion::new(1, 21, 9);
    assert!(MinecraftVersion::new(1, 21, 8).precedes(&v));
    assert!(MinecraftVersion::new(1, 20, 99).precedes(&v));
    assert!(MinecraftVersion::new(0, 99, 99).precedes(&v));
    assert!(!v.precedes(&v));
    assert!(!MinecraftVersion::new(1, 21, 10).precedes(&v));
    assert!(!MinecraftVersion::new(2, 0, 0).precedes(&v));
    assert!(MinecraftVersion::new(1, 21, 8) < v);
    assert_eq!(
        MinecraftVersion::new(1, 2, 3),
        MinecraftVersion { major: 1, minor: 2, patch: 3 }
    );
}

#[test]
fn version_parsing() {
    assert_eq!(MinecraftVersion::parse("1.21.9"), Ok(MinecraftVersion::new(1, 21, 9)));
    assert_eq!(MinecraftVersion::parse("+1.021.0"), Ok(MinecraftVersion::new(1, 21, 0)));
    assert_eq!(
        MinecraftVersion::parse("4294967295.0.00000000000000000000001"),
        Ok(MinecraftVersion::new(4294967295, 0, 1))
    );
    assert_eq!(MinecraftVersion::parse("1.21"), Err(VersionError::InvalidFormat));
    assert_eq!(MinecraftVersion::parse("1.21.9.0"), Err(VersionError::InvalidFormat));
    assert_eq!(MinecraftVersion::parse(""), Err(VersionError::InvalidFormat));
    assert_eq!(MinecraftVersion::parse("a.21.9"), Err(VersionError::InvalidMajor));
    assert_eq!(MinecraftVersion::parse(".21.9"), Err(VersionError::InvalidMajor));
    assert_eq!(MinecraftVersion::parse("4294967296.1.1"), Err(VersionError::InvalidMajor));
    assert_eq!(MinecraftVersion::parse("1.-2.x"), Err(VersionError::InvalidMinor));
    assert_eq!(MinecraftVersion::parse("1.+.3"), Err(VersionError::InvalidMinor));
    assert_eq!(MinecraftVersion::parse("1.2.3 "), Err(VersionError::InvalidPatch));
    assert_eq!(MinecraftVersion::parse("1.2."), Err(VersionError::InvalidPatch));
}

#[test]
fn parsing_reads_back_what_was_written() {
    let v = MinecraftVersion::new(12, 0, 345);
    assert_eq!(MinecraftVersion::parse(&v.to_string()), Ok(v));
}

#[test]
fn method_names_follow_the_version() {
    assert_eq!(MethodName::WindowGetWindow.get_name(MinecraftVersion::new(1, 21, 8)), "getWindow");
    assert_eq!(MethodName::WindowGetWindow.get_name(MinecraftVersion::new(1, 20, 99)), "getWindow");
    assert_eq!(MethodName::WindowGetWindow.get_name(MinecraftVersion::new(1, 21, 9)), "handle");
    assert_eq!(MethodName::WindowGetWindow.get_name(MinecraftVersion::new(2, 0, 0)), "handle");
}

#[test]
fn classes_are_found_by_name() {
    let mapping = sample_mapping();
    assert_eq!(mapping.get_version(), MinecraftVersion::new(1, 21, 4));
    assert_eq!(mapping.get_class("net/minecraft/client/Minecraft").unwrap().get_name(), "fqq");
    assert_eq!(mapping.get_class("net/minecraft/world/entity/Entity").unwrap().get_name(), "bum");
    match mapping.get_class("net/minecraft/Nothing") {
        Err(error) => {
            assert_eq!(error, MappingError::ClassNotFound("net/minecraft/Nothing".to_string()))
        }
        Ok(_) => panic!("a class that is not listed was found"),
    }
}

#[test]
fn listing_a_class_again_replaces_it() {
    let mapping = sample_mapping().with_class(
        "net/minecraft/client/Minecraft".to_string(),
        MinecraftClass::new("zzz".to_string()),
    );
    assert_eq!(mapping.get_class("net/minecraft/client/Minecraft").unwrap().get_name(), "zzz");
    assert_eq!(mapping.find_class_by_obfuscated_name("fqq"), None);
    assert_eq!(
        mapping.find_class_by_obfuscated_name("zzz"),
        Some("net/minecraft/client/Minecraft")
    );
}

#[test]
fn classes_are_found_by_obfuscated_name() {
    let mapping = sample_mapping();
    assert_eq!(
        mapping.find_class_by_obfuscated_name("bum"),
        Some("net/minecraft/world/entity/Entity")
    );
    assert_eq!(mapping.find_class_by_obfuscated_name("nope"), None);
}

#[test]
fn field_type_signatures() {
    let mapping = sample_mapping();
    assert_eq!(FieldType::Boolean.get_signature().unwrap(), "Z");
    assert_eq!(FieldType::Byte.get_signature().unwrap(), "B");
    assert_eq!(FieldType::Char.get_signature().unwrap(), "C");
    assert_eq!(FieldType::Short.get_signature().unwrap(), "S");
    assert_eq!(FieldType::Int.get_signature().unwrap(), "I");
    assert_eq!(FieldType::Long.get_signature().unwrap(), "J");
    assert_eq!(FieldType::Float.get_signature().unwrap(), "F");
    assert_eq!(FieldType::Double.get_signature().unwrap(), "D");
    assert_eq!(FieldType::String.get_signature().unwrap(), "Ljava/lang/String;");
    assert_eq!(
        FieldType::Object(MinecraftClassType::Entity, &mapping).get_signature().unwrap(),
        "Lbum;"
    );
    assert_eq!(
        FieldType::Object(MinecraftClassType::Window, &mapping).get_signature(),
        Err(MappingError::ClassNotFound("com/mojang/blaze3d/platform/Window".to_string()))
    );
}

#[test]
fn type_descriptors_are_translated() {
    let mapping = sample_mapping();
    let mut d = "IJ";
    assert_eq!(mapping.translate_type_descriptor(&mut d), "int");
    assert_eq!(d, "J");
    assert_eq!(mapping.translate_type_descriptor(&mut d), "long");
    assert_eq!(d, "");
    let mut d = "[[Lbum;Z";
    assert_eq!(mapping.translate_type_descriptor(&mut d), "net/minecraft/world/entity/Entity[][]");
    assert_eq!(d, "Z");
    let mut d = "Lunknown;V";
    assert_eq!(mapping.translate_type_descriptor(&mut d), "unknown");
    assert_eq!(d, "V");
    let mut d = "[Lbroken";
    assert_eq!(mapping.translate_type_descriptor(&mut d), "Lbroken[]");
    assert_eq!(d, "");
    let mut d = "Q?";
    assert_eq!(mapping.translate_type_descriptor(&mut d), "Q");
    assert_eq!(d, "?");
    let mut d = "[";
    assert_eq!(mapping.translate_type_descriptor(&mut d), "[]");
    assert_eq!(d, "");
}

#[test]
fn signatures_are_translated() {
    let mapping = sample_mapping();
    assert_eq!(mapping.translate_signature("()V"), "() -> void");
    assert_eq!(mapping.translate_signature("(I)Z"), "(int) -> boolean");
    assert_eq!(
        mapping.translate_signature("(ILbum;[F)Lfqq;"),
        "(int, net/minecraft/world/entity/Entity, float[]) -> net/minecraft/client/Minecraft"
    );
    assert_eq!(
        mapping.translate_signature("(BCSJD)Ljava/lang/String;"),
        "(byte, char, short, long, double) -> java/lang/String"
    );
    assert_eq!(mapping.translate_signature("no signature"), "no signature");
    assert_eq!(mapping.translate_signature(")("), ")(");
    assert_eq!(mapping.translate_signature("(I"), "(I");
}

#[test]
fn category_names() {
    assert_eq!(ModuleCategory::COMBAT.display_name(), "Combat");
    assert_eq!(ModuleCategory::MOVEMENT.display_name(), "Movement");
    assert_eq!(ModuleCategory::RENDER.display_name(), "Render");
    assert_eq!(ModuleCategory::PLAYER.display_name(), "Player");
    assert_eq!(ModuleCategory::WORLD.display_name(), "World");
    assert_eq!(ModuleCategory::MISC.display_name(), "Misc");
}

#[test]
fn key_codes() {
    assert_eq!(KeyboardKey::KeyNone.code(), -1);
    assert_eq!(KeyboardKey::KeyEscape.code(), 256);
    assert_eq!(KeyboardKey::KeyF.code(), 70);
    assert_eq!(KeyboardKey::KeySpace.code(), 32);
    assert_eq!(KeyboardKey::KeyDelete.code(), 261);
    assert_eq!(KeyboardKey::KeyRControl.code(), 345);
}

#[test]
fn both_orders_of_versions_agree() {
    let versions = [
        MinecraftVersion::new(0, 0, 0),
        MinecraftVersion::new(1, 20, 99),
        MinecraftVersion::new(1, 21, 8),
        MinecraftVersion::new(1, 21, 9),
        MinecraftVersion::new(2, 0, 0),
    ];
    for (i, a) in versions.iter().enumerate() {
        for (j, b) in versions.iter().enumerate() {
            assert_eq!(a.partial_cmp(b), Some(a.cmp(b)));
            assert_eq!(a.partial_cmp(b), Some(i.cmp(&j)));
            assert_eq!(a < b, a.precedes(b));
        }
    }
}

#[test]
fn version_parts_are_read_as_the_standard_library_reads_numbers() {
    let parts = [
        "0", "1", "007", "+5", "+", "-1", "-0", "", " 1", "1 ", "4294967295", "4294967296",
        "99999999999999999999", "+4294967295", "++1", "1+", "12a", "٣", "1_0", "0x10",
    ];
    for a in parts {
        for b in parts {
            let text = format!("{}.{}.7", a, b);
            let expected = match (a.parse::<u32>(), b.parse::<u32>()) {
                (Err(_), _) => Err(VersionError::InvalidMajor),
                (Ok(_), Err(_)) => Err(VersionError::InvalidMinor),
                (Ok(major), Ok(minor)) => Ok(MinecraftVersion::new(major, minor, 7)),
            };
            assert_eq!(MinecraftVersion::parse(&text), expected);
        }
    }
}

#[test]
fn version_errors_are_put_into_words() {
    assert_eq!(
        VersionError::InvalidFormat.message("1.21"),
        "Invalid version format: 1.21 (expected major.minor.patch)"
    );
    assert_eq!(VersionError::InvalidMajor.message("a.2.3"), "Invalid major version");
    assert_eq!(VersionError::InvalidMinor.message("1.b.3"), "Invalid minor version");
    assert_eq!(VersionError::InvalidPatch.message("1.2.c"), "Invalid patch version");
}

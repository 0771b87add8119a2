//! The mapping from readable class, method and field names to the
//! obfuscated names that the game ships with.

use crate::lookup::{first_index, first_index_after_put, first_index_found, first_index_is_first};
use crate::mapping::class::MinecraftClass;
use crate::mapping::class_type::MinecraftClassType;
use crate::mapping::error::{MappingError, MappingErrorView};
use crate::mapping::minecraft_version::MinecraftVersion;
use crate::text::{from_chars, push_str_chars, same_text};
use vstd::prelude::*;

pub mod call;
pub mod class;
pub mod class_type;
pub mod compat;
pub mod error;
pub mod method;
pub mod minecraft_version;
pub mod signature;
pub mod translate;
pub mod version_order;

verus! {

/// One class of the mapping, listed under its readable name.
#[derive(Debug)]
struct ClassEntry {
    name: String,
    class: MinecraftClass,
}

/// All mapped classes of one version of the game. No readable name is
/// listed twice.
#[derive(Debug)]
pub struct Mapping {
    version: MinecraftVersion,
    classes: Vec<ClassEntry>,
}

/// The type of a field, as far as its JNI signature needs it.
#[allow(dead_code)]
pub enum FieldType<'local> {
    Boolean,
    Byte,
    Char,
    Short,
    Int,
    Long,
    Float,
    Double,
    String,
    /// A game class, to be looked up in the given mapping.
    Object(MinecraftClassType, &'local Mapping),
}

/// The readable names that the classes are listed under, in order.
spec fn class_keys(classes: Seq<ClassEntry>) -> Seq<Seq<char>> {
    classes.map_values(|entry: ClassEntry| entry.name@)
}

/// The obfuscated names of the classes, in the order of the list.
spec fn obfuscated_names(classes: Seq<ClassEntry>) -> Seq<Seq<char>> {
    classes.map_values(|entry: ClassEntry| entry.class.obfuscated_name())
}

/// The JNI signature of a primitive or string field type; `None` for a
/// game class.
pub open spec fn plain_signature(field_type: FieldType<'_>) -> Option<Seq<char>> {
    match field_type {
        FieldType::Boolean => Some("Z"@),
        FieldType::Byte => Some("B"@),
        FieldType::Char => Some("C"@),
        FieldType::Short => Some("S"@),
        FieldType::Int => Some("I"@),
        FieldType::Long => Some("J"@),
        FieldType::Float => Some("F"@),
        FieldType::Double => Some("D"@),
        FieldType::String => Some("Ljava/lang/String;"@),
        FieldType::Object(_, _) => None,
    }
}

impl FieldType<'_> {
    /// The JNI signature of the type. That of a game class is `L`, the
    /// obfuscated name of the class and `;`; it is an error if the
    /// mapping does not list the class.
    pub fn get_signature(&self) -> (signature: Result<String, MappingError>)
        ensures
            match *self {
                FieldType::Object(class_type, mapping) => match signature {
                    Ok(text) => mapping.has_class(class_type.name()) && text@ == "L"@
                        + mapping.class_named(class_type.name()).obfuscated_name() + ";"@,
                    Err(error) => !mapping.has_class(class_type.name()) && error@
                        == MappingErrorView::ClassNotFound(class_type.name()),
                },
                _ => signature matches Ok(text) && Some(text@) == plain_signature(*self),
            },
    {
        match self {
            FieldType::Boolean => Ok("Z".to_owned()),
            FieldType::Byte => Ok("B".to_owned()),
            FieldType::Char => Ok("C".to_owned()),
            FieldType::Short => Ok("S".to_owned()),
            FieldType::Int => Ok("I".to_owned()),
            FieldType::Long => Ok("J".to_owned()),
            FieldType::Float => Ok("F".to_owned()),
            FieldType::Double => Ok("D".to_owned()),
            FieldType::String => Ok("Ljava/lang/String;".to_owned()),
            FieldType::Object(minecraft_class_type, mapping) => {
                match mapping.get_class(minecraft_class_type.get_name()) {
                    Ok(class) => {
                        let mut out: Vec<char> = Vec::new();
                        push_str_chars(&mut out, "L");
                        push_str_chars(&mut out, class.get_name());
                        push_str_chars(&mut out, ";");
                        let n = out.len();
                        let text = from_chars(&out, 0, n);
                        assert(out@.subrange(0, n as int) == out@);
                        Ok(text)
                    },
                    Err(error) => Err(error),
                }
            },
        }
    }
}

impl Mapping {
    #[verifier::type_invariant]
    spec fn names_are_unique(&self) -> bool {
        forall|i: int, j: int|
            0 <= i < j < self.classes@.len() ==> self.classes@[i].name@ != self.classes@[j].name@
    }

    /// The version of the game that the mapping is for.
    pub closed spec fn version(&self) -> MinecraftVersion {
        self.version
    }

    /// Whether a class is listed under the readable name `name`.
    pub closed spec fn has_class(&self, name: Seq<char>) -> bool {
        first_index(class_keys(self.classes@), name) < self.classes@.len()
    }

    /// The class listed under the readable name `name`.
    pub closed spec fn class_named(&self, name: Seq<char>) -> MinecraftClass {
        self.classes@[first_index(class_keys(self.classes@), name)].class
    }

    /// The readable name of the first class listed whose obfuscated name
    /// is `obfuscated`, if there is one.
    pub closed spec fn readable_name(&self, obfuscated: Seq<char>) -> Option<Seq<char>> {
        let at = first_index(obfuscated_names(self.classes@), obfuscated);
        if at < self.classes@.len() {
            Some(self.classes@[at].name@)
        } else {
            None
        }
    }

    /// A mapping for the given version, with no class listed.
    pub fn empty(version: MinecraftVersion) -> (mapping: Mapping)
        ensures
            mapping.version() == version,
            forall|name: Seq<char>| !mapping.has_class(name),
    {
        Mapping { version, classes: Vec::new() }
    }

    /// The mapping with `class` listed under the readable name `name`, in
    /// place of the class that was listed under it, if any.
    pub fn with_class(self, name: String, class: MinecraftClass) -> (mapping: Mapping)
        ensures
            mapping.version() == self.version(),
            mapping.has_class(name@),
            mapping.class_named(name@) == class,
            forall|other: Seq<char>|
                other != name@ ==> mapping.has_class(other) == self.has_class(other) && (
                self.has_class(other) ==> mapping.class_named(other) == self.class_named(other)),
    {
        proof {
            use_type_invariant(&self);
        }
        let ghost before = self.classes@;
        let ghost key = name@;
        let Mapping { version, classes } = self;
        let mut classes = classes;
        let mut i: usize = 0;
        while i < classes.len() && !same_text(classes[i].name.as_str(), name.as_str())
            invariant
                i <= classes.len(),
                classes@ == before,
                forall|j: int| 0 <= j < i ==> classes@[j].name@ != name@,
            decreases classes.len() - i,
        {
            i += 1;
        }
        let entry = ClassEntry { name, class };
        if i < classes.len() {
            classes.set(i, entry);
        } else {
            classes.push(entry);
        }
        proof {
            let after = classes@;
            first_index_found(class_keys(before), key, i as int);
            if i < before.len() {
                assert(class_keys(after) =~= class_keys(before));
            } else {
                assert(class_keys(after) =~= class_keys(before).push(key));
            }
            first_index_after_put(class_keys(before), class_keys(after), key);
            assert forall|a: int, b: int| 0 <= a < b < after.len() implies after[a].name@
                != after[b].name@ by {
                assert(class_keys(after)[a] == after[a].name@);
                assert(class_keys(after)[b] == after[b].name@);
                if i < before.len() {
                    assert(class_keys(before)[a] == before[a].name@);
                    assert(class_keys(before)[b] == before[b].name@);
                } else if b < before.len() {
                    assert(after[a] == before[a] && after[b] == before[b]);
                } else {
                    assert(after[a] == before[a]);
                }
            }
            assert forall|other: Seq<char>|
                other != key && first_index(class_keys(before), other)
                    < before.len() implies after[first_index(class_keys(after), other)]
                == before[first_index(class_keys(before), other)] by {
                first_index_is_first(class_keys(before), other);
                let found = first_index(class_keys(before), other);
                assert(first_index(class_keys(after), other) < after.len());
                assert(class_keys(before)[found] == other);
                assert(found != i);
                assert(after[found] == before[found]);
            }
        }
        Mapping { version, classes }
    }

    /// The version of the game that the mapping is for.
    pub fn get_version(&self) -> (version: MinecraftVersion)
        ensures
            version == self.version(),
    {
        self.version
    }

    /// The class listed under the readable name `name`.
    pub fn get_class(&self, name: &str) -> (found: Result<&MinecraftClass, MappingError>)
        ensures
            match found {
                Ok(class) => self.has_class(name@) && *class == self.class_named(name@),
                Err(error) => !self.has_class(name@) && error@ == MappingErrorView::ClassNotFound(
                    name@,
                ),
            },
    {
        let mut i: usize = 0;
        while i < self.classes.len()
            invariant
                i <= self.classes.len(),
                forall|j: int| 0 <= j < i ==> self.classes@[j].name@ != name@,
            decreases self.classes.len() - i,
        {
            if same_text(self.classes[i].name.as_str(), name) {
                proof {
                    first_index_found(class_keys(self.classes@), name@, i as int);
                }
                return Ok(&self.classes[i].class);
            }
            i += 1;
        }
        proof {
            first_index_found(class_keys(self.classes@), name@, i as int);
        }
        Err(MappingError::ClassNotFound(name.to_owned()))
    }

    /// The readable name of a class, given its obfuscated name.
    ///
    /// A name that comes back is listed, and the class listed under it
    /// has the obfuscated name; none comes back only when no listed class
    /// has it.
    pub fn find_class_by_obfuscated_name(&self, obfuscated_name: &str) -> (found: Option<&str>)
        ensures
            match found {
                Some(name) => self.readable_name(obfuscated_name@) == Some(name@) && self.has_class(
                    name@,
                ) && self.class_named(name@).obfuscated_name() == obfuscated_name@,
                None => self.readable_name(obfuscated_name@) is None && forall|name: Seq<char>|
                    self.has_class(name) ==> self.class_named(name).obfuscated_name()
                        != obfuscated_name@,
            },
    {
        let mut i: usize = 0;
        while i < self.classes.len()
            invariant
                i <= self.classes.len(),
                forall|j: int|
                    0 <= j < i ==> self.classes@[j].class.obfuscated_name() != obfuscated_name@,
            decreases self.classes.len() - i,
        {
            if same_text(self.classes[i].class.get_name(), obfuscated_name) {
                proof {
                    use_type_invariant(self);
                    first_index_found(
                        obfuscated_names(self.classes@),
                        obfuscated_name@,
                        i as int,
                    );
                    assert forall|j: int| 0 <= j < i implies class_keys(self.classes@)[j]
                        != self.classes@[i as int].name@ by {}
                    first_index_found(
                        class_keys(self.classes@),
                        self.classes@[i as int].name@,
                        i as int,
                    );
                }
                return Some(self.classes[i].name.as_str());
            }
            i += 1;
        }
        proof {
            first_index_found(obfuscated_names(self.classes@), obfuscated_name@, i as int);
            assert forall|name: Seq<char>| self.has_class(name) implies self.class_named(
                name,
            ).obfuscated_name() != obfuscated_name@ by {
                first_index_is_first(class_keys(self.classes@), name);
            }
        }
        None
    }
}

} // verus!

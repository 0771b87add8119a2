//! One mapped class of the game: its obfuscated name, and the obfuscated
//! names of its methods and fields, each listed under a readable name.

use crate::lookup::{first_index, first_index_after_put, first_index_found, first_index_is_first};
use crate::mapping::error::{MappingError, MappingErrorView};
use crate::text::same_text;
use vstd::prelude::*;

verus! {

/// A method, by its obfuscated name and its JNI signature.
#[derive(Debug, PartialEq, Eq)]
pub struct Method {
    pub name: String,
    pub signature: String,
}

/// What a `Method` holds.
pub struct MethodView {
    pub name: Seq<char>,
    pub signature: Seq<char>,
}

impl View for Method {
    type V = MethodView;

    open spec fn view(&self) -> MethodView {
        MethodView { name: self.name@, signature: self.signature@ }
    }
}

/// A field, by its obfuscated name.
#[derive(Debug, PartialEq, Eq)]
pub struct Field {
    pub name: String,
}

/// What may be listed under a method name when a mapping is written
/// down: one method, or a list of overloads.
#[derive(Debug, PartialEq, Eq)]
pub enum MethodOrVec {
    Single(Method),
    Multiple(Vec<Method>),
}

impl MethodOrVec {
    /// The overloads that the entry stands for.
    pub open spec fn overloads(self) -> Seq<Method> {
        match self {
            MethodOrVec::Single(method) => seq![method],
            MethodOrVec::Multiple(methods) => methods@,
        }
    }

    /// The list of overloads: a single method makes a list of one.
    pub fn into_overloads(self) -> (methods: Vec<Method>)
        ensures
            methods@ == self.overloads(),
    {
        match self {
            MethodOrVec::Single(method) => {
                let mut methods: Vec<Method> = Vec::new();
                methods.push(method);
                assert(methods@ =~= seq![method]);
                methods
            },
            MethodOrVec::Multiple(methods) => methods,
        }
    }
}

/// The views of a list of methods, in order.
pub open spec fn method_views(methods: Seq<Method>) -> Seq<MethodView> {
    methods.map_values(|method: Method| method@)
}

/// The methods listed under one readable name: the overloads.
#[derive(Debug)]
struct MethodGroup {
    name: String,
    overloads: Vec<Method>,
}

/// The field listed under one readable name.
#[derive(Debug)]
struct FieldEntry {
    name: String,
    field: Field,
}

/// A mapped class. Its methods and fields are found by readable name.
#[derive(Debug)]
pub struct MinecraftClass {
    /// The obfuscated name of the class.
    pub name: String,
    methods: Vec<MethodGroup>,
    fields: Vec<FieldEntry>,
}

/// The readable names that the groups are listed under, in order.
spec fn group_keys(groups: Seq<MethodGroup>) -> Seq<Seq<char>> {
    groups.map_values(|group: MethodGroup| group.name@)
}

/// The readable names that the fields are listed under, in order.
spec fn field_keys(fields: Seq<FieldEntry>) -> Seq<Seq<char>> {
    fields.map_values(|entry: FieldEntry| entry.name@)
}

/// The signatures of a list of methods, in order.
pub open spec fn signatures(methods: Seq<MethodView>) -> Seq<Seq<char>> {
    methods.map_values(|method: MethodView| method.signature)
}

/// The position of the first method of `methods` with the signature, or
/// the number of methods when there is none.
pub open spec fn signature_index(methods: Seq<MethodView>, signature: Seq<char>) -> int {
    first_index(signatures(methods), signature)
}

/// `signature_index` is within bounds, lands on a method with the
/// signature, and passes none.
pub proof fn signature_index_is_first(methods: Seq<MethodView>, signature: Seq<char>)
    ensures
        0 <= signature_index(methods, signature) <= methods.len(),
        signature_index(methods, signature) < methods.len() ==> methods[signature_index(
            methods,
            signature,
        )].signature == signature,
        forall|j: int|
            0 <= j < signature_index(methods, signature) ==> methods[j].signature != signature,
{
    first_index_is_first(signatures(methods), signature);
    assert forall|j: int| 0 <= j < signature_index(methods, signature) implies methods[j].signature
        != signature by {
        assert(signatures(methods)[j] == methods[j].signature);
    }
}

impl MinecraftClass {
    /// The overloads listed under each readable method name.
    pub closed spec fn methods(&self) -> Map<Seq<char>, Seq<MethodView>> {
        Map::new(
            |name: Seq<char>| first_index(group_keys(self.methods@), name) < self.methods@.len(),
            |name: Seq<char>|
                method_views(
                    self.methods@[first_index(group_keys(self.methods@), name)].overloads@,
                ),
        )
    }

    /// The obfuscated field name listed under each readable field name.
    pub closed spec fn fields(&self) -> Map<Seq<char>, Seq<char>> {
        Map::new(
            |name: Seq<char>| first_index(field_keys(self.fields@), name) < self.fields@.len(),
            |name: Seq<char>| self.fields@[first_index(field_keys(self.fields@), name)].field.name@,
        )
    }

    /// The obfuscated name of the class.
    pub closed spec fn obfuscated_name(&self) -> Seq<char> {
        self.name@
    }

    /// The obfuscated name of the class.
    pub fn get_name(&self) -> (name: &str)
        ensures
            name@ == self.obfuscated_name(),
    {
        self.name.as_str()
    }

    /// A class with the given obfuscated name and nothing listed.
    pub fn new(name: String) -> (class: MinecraftClass)
        ensures
            class.obfuscated_name() == name@,
            class.methods() == Map::<Seq<char>, Seq<MethodView>>::empty(),
            class.fields() == Map::<Seq<char>, Seq<char>>::empty(),
    {
        let class = MinecraftClass { name, methods: Vec::new(), fields: Vec::new() };
        assert(class.methods() =~= Map::<Seq<char>, Seq<MethodView>>::empty());
        assert(class.fields() =~= Map::<Seq<char>, Seq<char>>::empty());
        class
    }

    /// Lists `overloads` under the readable method name `name`, in place
    /// of whatever was listed under it.
    pub fn insert_methods(&mut self, name: String, overloads: Vec<Method>)
        ensures
            final(self).methods() == old(self).methods().insert(name@, method_views(overloads@)),
            final(self).fields() == old(self).fields(),
            final(self).obfuscated_name() == old(self).obfuscated_name(),
    {
        let mut i: usize = 0;
        while i < self.methods.len() && !same_text(self.methods[i].name.as_str(), name.as_str())
            invariant
                i <= self.methods.len(),
                *self == *old(self),
                forall|j: int| 0 <= j < i ==> self.methods@[j].name@ != name@,
            decreases self.methods.len() - i,
        {
            i += 1;
        }
        let ghost before = self.methods@;
        let ghost key = name@;
        let ghost value = method_views(overloads@);
        let group = MethodGroup { name, overloads };
        if i < self.methods.len() {
            self.methods.set(i, group);
        } else {
            self.methods.push(group);
        }
        proof {
            let after = self.methods@;
            first_index_found(group_keys(before), key, i as int);
            if i < before.len() {
                assert(group_keys(after) =~= group_keys(before));
            } else {
                assert(group_keys(after) =~= group_keys(before).push(key));
            }
            first_index_after_put(group_keys(before), group_keys(after), key);
            assert forall|other: Seq<char>|
                other != key && first_index(group_keys(before), other)
                    < before.len() implies after[first_index(group_keys(after), other)]
                == before[first_index(group_keys(before), other)] by {
                first_index_is_first(group_keys(before), other);
                let found = first_index(group_keys(before), other);
                assert(first_index(group_keys(after), other) < after.len());
                assert(group_keys(before)[found] == other);
                assert(found != i);
                assert(after[found] == before[found]);
            }
            assert(final(self).methods() =~= old(self).methods().insert(key, value));
        }
    }

    /// Lists `field` under the readable field name `name`, in place of
    /// whatever was listed under it.
    pub fn insert_field(&mut self, name: String, field: Field)
        ensures
            final(self).fields() == old(self).fields().insert(name@, field.name@),
            final(self).methods() == old(self).methods(),
            final(self).obfuscated_name() == old(self).obfuscated_name(),
    {
        let mut i: usize = 0;
        while i < self.fields.len() && !same_text(self.fields[i].name.as_str(), name.as_str())
            invariant
                i <= self.fields.len(),
                *self == *old(self),
                forall|j: int| 0 <= j < i ==> self.fields@[j].name@ != name@,
            decreases self.fields.len() - i,
        {
            i += 1;
        }
        let ghost before = self.fields@;
        let ghost key = name@;
        let ghost value = field.name@;
        let entry = FieldEntry { name, field };
        if i < self.fields.len() {
            self.fields.set(i, entry);
        } else {
            self.fields.push(entry);
        }
        proof {
            let after = self.fields@;
            first_index_found(field_keys(before), key, i as int);
            if i < before.len() {
                assert(field_keys(after) =~= field_keys(before));
            } else {
                assert(field_keys(after) =~= field_keys(before).push(key));
            }
            first_index_after_put(field_keys(before), field_keys(after), key);
            assert forall|other: Seq<char>|
                other != key && first_index(field_keys(before), other)
                    < before.len() implies after[first_index(field_keys(after), other)]
                == before[first_index(field_keys(before), other)] by {
                first_index_is_first(field_keys(before), other);
                let found = first_index(field_keys(before), other);
                assert(first_index(field_keys(after), other) < after.len());
                assert(field_keys(before)[found] == other);
                assert(found != i);
                assert(after[found] == before[found]);
            }
            assert(final(self).fields() =~= old(self).fields().insert(key, value));
        }
    }

    /// The overloads listed under `name`.
    pub fn get_methods(&self, name: &str) -> (found: Result<&Vec<Method>, MappingError>)
        ensures
            match found {
                Ok(methods) => self.methods().contains_key(name@) && method_views(methods@)
                    == self.methods()[name@],
                Err(error) => !self.methods().contains_key(name@) && error@
                    == MappingErrorView::MethodNotFound(name@),
            },
    {
        let mut i: usize = 0;
        while i < self.methods.len()
            invariant
                i <= self.methods.len(),
                forall|j: int| 0 <= j < i ==> self.methods@[j].name@ != name@,
            decreases self.methods.len() - i,
        {
            if same_text(self.methods[i].name.as_str(), name) {
                proof {
                    first_index_found(group_keys(self.methods@), name@, i as int);
                }
                return Ok(&self.methods[i].overloads);
            }
            i += 1;
        }
        proof {
            first_index_found(group_keys(self.methods@), name@, i as int);
        }
        Err(MappingError::MethodNotFound(name.to_owned()))
    }

    /// The first overload listed under `name`. It is an error if nothing
    /// is listed under the name, or no overload at all.
    pub fn get_method(&self, name: &str) -> (found: Result<&Method, MappingError>)
        ensures
            match found {
                Ok(method) => self.methods().contains_key(name@) && self.methods()[name@].len() > 0
                    && method@ == self.methods()[name@][0],
                Err(error) => (!self.methods().contains_key(name@) || self.methods()[name@].len()
                    == 0) && error@ == MappingErrorView::MethodNotFound(name@),
            },
    {
        match self.get_methods(name) {
            Ok(methods) => {
                if methods.len() > 0 {
                    Ok(&methods[0])
                } else {
                    Err(MappingError::MethodNotFound(name.to_owned()))
                }
            },
            Err(error) => Err(error),
        }
    }

    /// The first overload listed under `name` that has the signature.
    pub fn get_method_by_signature(&self, name: &str, signature: &str) -> (found: Result<
        &Method,
        MappingError,
    >)
        ensures
            match found {
                Ok(method) => {
                    &&& self.methods().contains_key(name@)
                    &&& signature_index(self.methods()[name@], signature@)
                        < self.methods()[name@].len()
                    &&& method@ == self.methods()[name@][signature_index(
                        self.methods()[name@],
                        signature@,
                    )]
                },
                Err(error) => if self.methods().contains_key(name@) {
                    &&& signature_index(self.methods()[name@], signature@)
                        == self.methods()[name@].len()
                    &&& error@ == MappingErrorView::SignatureNotFound {
                        name: name@,
                        signature: signature@,
                    }
                } else {
                    error@ == MappingErrorView::MethodNotFound(name@)
                },
            },
    {
        let methods = match self.get_methods(name) {
            Ok(methods) => methods,
            Err(error) => {
                return Err(error);
            },
        };
        let ghost views = method_views(methods@);
        let mut i: usize = 0;
        while i < methods.len()
            invariant
                i <= methods.len(),
                views == method_views(methods@),
                self.methods().contains_key(name@),
                views == self.methods()[name@],
                forall|j: int| 0 <= j < i ==> views[j].signature != signature@,
            decreases methods.len() - i,
        {
            if same_text(methods[i].signature.as_str(), signature) {
                proof {
                    signature_index_is_first(views, signature@);
                    let g = signature_index(views, signature@);
                    assert(views[i as int].signature == signature@);
                    if g < i {
                        assert(views[g].signature != signature@);
                    }
                }
                return Ok(&methods[i]);
            }
            assert(views[i as int].signature != signature@);
            i += 1;
        }
        proof {
            signature_index_is_first(views, signature@);
        }
        Err(
            MappingError::SignatureNotFound {
                name: name.to_owned(),
                signature: signature.to_owned(),
            },
        )
    }

    /// The field listed under `name`.
    pub fn get_field(&self, name: &str) -> (found: Result<&Field, MappingError>)
        ensures
            match found {
                Ok(field) => self.fields().contains_key(name@) && field.name@
                    == self.fields()[name@],
                Err(error) => !self.fields().contains_key(name@) && error@
                    == MappingErrorView::FieldNotFound(name@),
            },
    {
        let mut i: usize = 0;
        while i < self.fields.len()
            invariant
                i <= self.fields.len(),
                forall|j: int| 0 <= j < i ==> self.fields@[j].name@ != name@,
            decreases self.fields.len() - i,
        {
            if same_text(self.fields[i].name.as_str(), name) {
                proof {
                    first_index_found(field_keys(self.fields@), name@, i as int);
                }
                return Ok(&self.fields[i].field);
            }
            i += 1;
        }
        proof {
            first_index_found(field_keys(self.fields@), name@, i as int);
        }
        Err(MappingError::FieldNotFound(name.to_owned()))
    }
}

} // verus!

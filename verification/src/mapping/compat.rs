//! How well an argument fits a parameter type, and a list of arguments a
//! method signature.
//!
//! An argument is described by what the choice of an overload reads of it:
//! which kind of primitive it is, or, for a reference, whether it is null
//! and which class it belongs to.

use crate::lookup::{first_index, first_index_is_first};
use crate::mapping::class::{method_views, Method, MethodView, MinecraftClass};
use crate::mapping::error::{MappingError, MappingErrorView};
use crate::mapping::signature::{parameter_types, texts, SignatureError};
use crate::text::{from_chars, same_text, to_chars};
use vstd::prelude::*;

verus! {

/// How well a value fits a type.
#[derive(Debug, Clone, Copy, PartialEq, Eq)]
pub enum SignatureMatch {
    /// The value has exactly the type.
    Exact,
    /// The value can be passed for the type.
    Compatible,
    /// The value cannot be passed for the type.
    Incompatible,
}

/// The class of an object, as the Java virtual machine reports it.
#[derive(Debug, PartialEq, Eq)]
pub struct ObjectClass {
    /// The name of the object's class, with slashes; an array's class
    /// name begins with `[`.
    pub class_name: String,
    /// The names of the classes and interfaces that the object is an
    /// instance of, with slashes.
    pub assignable_to: Vec<String>,
}

/// What an `ObjectClass` holds.
pub struct ObjectClassView {
    pub class_name: Seq<char>,
    pub assignable_to: Seq<Seq<char>>,
}

impl View for ObjectClass {
    type V = ObjectClassView;

    open spec fn view(&self) -> ObjectClassView {
        ObjectClassView { class_name: self.class_name@, assignable_to: texts(self.assignable_to@) }
    }
}

/// A reference that is passed as an argument.
#[derive(Debug, PartialEq, Eq)]
pub enum JavaObject {
    /// The null reference.
    Null,
    /// An object whose class could not be told.
    Unknown,
    /// An object of a known class.
    Instance(ObjectClass),
}

/// What a `JavaObject` holds.
pub enum JavaObjectView {
    Null,
    Unknown,
    Instance(ObjectClassView),
}

impl View for JavaObject {
    type V = JavaObjectView;

    open spec fn view(&self) -> JavaObjectView {
        match self {
            JavaObject::Null => JavaObjectView::Null,
            JavaObject::Unknown => JavaObjectView::Unknown,
            JavaObject::Instance(class) => JavaObjectView::Instance(class@),
        }
    }
}

/// A value that is passed as an argument: the kind of a primitive, or a
/// reference.
#[derive(Debug, PartialEq, Eq)]
pub enum JavaValue {
    Bool,
    Byte,
    Char,
    Short,
    Int,
    Long,
    Float,
    Double,
    Void,
    Object(JavaObject),
}

/// What a `JavaValue` holds.
pub enum JavaValueView {
    Bool,
    Byte,
    Char,
    Short,
    Int,
    Long,
    Float,
    Double,
    Void,
    Object(JavaObjectView),
}

impl View for JavaValue {
    type V = JavaValueView;

    open spec fn view(&self) -> JavaValueView {
        match self {
            JavaValue::Bool => JavaValueView::Bool,
            JavaValue::Byte => JavaValueView::Byte,
            JavaValue::Char => JavaValueView::Char,
            JavaValue::Short => JavaValueView::Short,
            JavaValue::Int => JavaValueView::Int,
            JavaValue::Long => JavaValueView::Long,
            JavaValue::Float => JavaValueView::Float,
            JavaValue::Double => JavaValueView::Double,
            JavaValue::Void => JavaValueView::Void,
            JavaValue::Object(object) => JavaValueView::Object(object@),
        }
    }
}

/// The views of a list of arguments, in order.
pub open spec fn value_views(values: Seq<JavaValue>) -> Seq<JavaValueView> {
    values.map_values(|value: JavaValue| value@)
}

/// Whether an object of class `actual` may stand where `expected` is
/// asked for, going by the names alone: the same class, or one of a few
/// well-known classes for an interface it implements.
pub open spec fn compatible_types(actual: Seq<char>, expected: Seq<char>) -> bool {
    ||| actual == expected
    ||| (actual == "java/lang/String"@ && expected == "java/lang/CharSequence"@)
    ||| (actual == "java/util/ArrayList"@ && expected == "java/util/List"@)
    ||| (actual == "java/util/LinkedList"@ && expected == "java/util/List"@)
    ||| (actual == "java/util/HashSet"@ && expected == "java/util/Set"@)
    ||| (actual == "java/util/HashMap"@ && expected == "java/util/Map"@)
}

/// The component type of an array type: what follows the leading `[`,
/// if anything does.
pub open spec fn array_component(array_type: Seq<char>) -> Option<Seq<char>> {
    if array_type.len() > 1 && array_type[0] == '[' {
        Some(array_type.skip(1))
    } else {
        None
    }
}

/// Whether `s` is a single character of one byte, as the letter of a
/// primitive type is.
pub open spec fn is_one_byte(s: Seq<char>) -> bool {
    s.len() == 1 && (s[0] as u32) < 0x80
}

/// `s` without its first and its last character.
pub open spec fn inner(s: Seq<char>) -> Seq<char> {
    if s.len() >= 2 {
        s.subrange(1, s.len() - 1)
    } else {
        Seq::empty()
    }
}

/// Whether an array of type `actual` may stand where `expected` is asked
/// for: arrays of primitives only for the same primitive, arrays of
/// objects when the classes of the components are compatible.
pub open spec fn compatible_array_types(actual: Seq<char>, expected: Seq<char>) -> bool {
    match (array_component(actual), array_component(expected)) {
        (Some(a), Some(e)) => {
            if is_one_byte(a) && is_one_byte(e) {
                a == e
            } else if a[0] == 'L' && e[0] == 'L' {
                compatible_types(inner(a), inner(e))
            } else {
                false
            }
        },
        _ => false,
    }
}

/// How well an object fits the object type `expected_type`, which is
/// `L`, a class name and `;`.
pub open spec fn object_match(expected_type: Seq<char>, object: JavaObjectView) -> SignatureMatch {
    let expected = inner(expected_type);
    match object {
        JavaObjectView::Null => SignatureMatch::Compatible,
        JavaObjectView::Unknown => if expected == "java/lang/Object"@ {
            SignatureMatch::Compatible
        } else {
            SignatureMatch::Incompatible
        },
        JavaObjectView::Instance(class) => if expected == "java/lang/Object"@ {
            SignatureMatch::Compatible
        } else if class.class_name == expected {
            SignatureMatch::Exact
        } else if class.assignable_to.contains(expected) || compatible_types(
            class.class_name,
            expected,
        ) {
            SignatureMatch::Compatible
        } else {
            SignatureMatch::Incompatible
        },
    }
}

/// How well an object fits the array type `expected_type`.
pub open spec fn array_match(expected_type: Seq<char>, object: JavaObjectView) -> SignatureMatch {
    match object {
        JavaObjectView::Null => SignatureMatch::Compatible,
        JavaObjectView::Unknown => SignatureMatch::Incompatible,
        JavaObjectView::Instance(class) => if class.class_name.len() > 0 && class.class_name[0]
            == '[' {
            if class.class_name == expected_type {
                SignatureMatch::Exact
            } else if compatible_array_types(class.class_name, expected_type) {
                SignatureMatch::Compatible
            } else {
                SignatureMatch::Incompatible
            }
        } else {
            SignatureMatch::Incompatible
        },
    }
}

/// How well a primitive of kind `value` fits the primitive type with the
/// letter `letter`: exactly, by a widening conversion, or not at all.
pub open spec fn primitive_match(letter: char, value: JavaValueView) -> SignatureMatch {
    let exact = match value {
        JavaValueView::Bool => letter == 'Z',
        JavaValueView::Byte => letter == 'B',
        JavaValueView::Char => letter == 'C',
        JavaValueView::Short => letter == 'S',
        JavaValueView::Int => letter == 'I',
        JavaValueView::Long => letter == 'J',
        JavaValueView::Float => letter == 'F',
        JavaValueView::Double => letter == 'D',
        _ => false,
    };
    let small = value is Byte || value is Short || value is Char;
    let widened = match letter {
        'I' => small,
        'J' => small || value is Int,
        'F' => small || value is Int,
        'D' => small || value is Int || value is Long || value is Float,
        _ => false,
    };
    if exact {
        SignatureMatch::Exact
    } else if widened {
        SignatureMatch::Compatible
    } else {
        SignatureMatch::Incompatible
    }
}

/// How well `value` fits the type `jni_type`.
///
/// A primitive is held against a one-letter type. A reference is held
/// against an object type, which begins with `L` and ends with `;`, or
/// against an array type, which begins with `[`; against a type that
/// begins with `L` and does not end with `;`, only null fits.
pub open spec fn type_match(jni_type: Seq<char>, value: JavaValueView) -> SignatureMatch {
    match value {
        JavaValueView::Object(object) => {
            if jni_type.len() > 0 && jni_type[0] == 'L' && jni_type.last() == ';' {
                object_match(jni_type, object)
            } else if jni_type.len() > 0 && jni_type[0] == '[' {
                array_match(jni_type, object)
            } else if jni_type.len() > 0 && jni_type[0] == 'L' && object is Null {
                SignatureMatch::Compatible
            } else {
                SignatureMatch::Incompatible
            }
        },
        _ => if jni_type.len() == 1 {
            primitive_match(jni_type[0], value)
        } else {
            SignatureMatch::Incompatible
        },
    }
}

/// Whether the first `count` arguments all fit their parameter types
/// with none incompatible.
pub open spec fn none_incompatible(types: Seq<Seq<char>>, values: Seq<JavaValueView>, count: int)
    -> bool {
    forall|i: int|
        0 <= i < count ==> #[trigger] type_match(types[i], values[i])
            != SignatureMatch::Incompatible
}

/// Whether the first `count` arguments all fit their parameter types
/// exactly.
pub open spec fn all_exact(types: Seq<Seq<char>>, values: Seq<JavaValueView>, count: int) -> bool {
    forall|i: int|
        0 <= i < count ==> #[trigger] type_match(types[i], values[i]) == SignatureMatch::Exact
}

/// How well a list of arguments fits a list of parameter types: not at
/// all unless there is one argument for each parameter and each fits;
/// exactly when each fits exactly.
pub open spec fn types_match(types: Seq<Seq<char>>, values: Seq<JavaValueView>) -> SignatureMatch {
    if types.len() != values.len() || !none_incompatible(types, values, types.len() as int) {
        SignatureMatch::Incompatible
    } else if all_exact(types, values, types.len() as int) {
        SignatureMatch::Exact
    } else {
        SignatureMatch::Compatible
    }
}

/// How well a list of arguments fits a method signature. A signature
/// whose parameter types cannot be told fits nothing.
pub open spec fn signature_match(signature: Seq<char>, values: Seq<JavaValueView>)
    -> SignatureMatch {
    match parameter_types(signature) {
        Ok(types) => types_match(types, values),
        Err(_) => SignatureMatch::Incompatible,
    }
}

/// The part of `v` between its first and its last character.
fn inner_text(v: &Vec<char>) -> (text: String)
    ensures
        text@ == inner(v@),
{
    if v.len() >= 2 {
        from_chars(v, 1, v.len() - 1)
    } else {
        String::new()
    }
}

/// Whether `list` holds a string with the text of `wanted`.
fn holds_text(list: &Vec<String>, wanted: &str) -> (found: bool)
    ensures
        found == texts(list@).contains(wanted@),
{
    let mut i: usize = 0;
    while i < list.len()
        invariant
            i <= list.len(),
            forall|j: int| 0 <= j < i ==> texts(list@)[j] != wanted@,
        decreases list.len() - i,
    {
        if same_text(list[i].as_str(), wanted) {
            assert(texts(list@)[i as int] == wanted@);
            return true;
        }
        assert(texts(list@)[i as int] != wanted@);
        i += 1;
    }
    false
}

/// How well the arguments fit each of the methods, in order.
pub open spec fn qualities(methods: Seq<MethodView>, values: Seq<JavaValueView>) -> Seq<
    SignatureMatch,
> {
    methods.map_values(|method: MethodView| signature_match(method.signature, values))
}

/// The position of the first method whose signature the arguments fit
/// exactly, or the number of methods when there is none.
pub open spec fn first_exact(methods: Seq<MethodView>, values: Seq<JavaValueView>) -> int {
    first_index(qualities(methods, values), SignatureMatch::Exact)
}

/// The position of the last method whose signature the arguments fit
/// without fitting it exactly, or `-1` when there is none.
pub open spec fn last_compatible(methods: Seq<MethodView>, values: Seq<JavaValueView>) -> int
    decreases methods.len(),
{
    if methods.len() == 0 {
        -1
    } else if signature_match(methods.last().signature, values) == SignatureMatch::Compatible {
        methods.len() - 1
    } else {
        last_compatible(methods.drop_last(), values)
    }
}

/// The position of the overload to call with the given arguments.
///
/// A single overload is taken as it is. Of several, the first that the
/// arguments fit exactly is taken; failing that, the last that they fit
/// at all; failing that, the first overload. There is no choice among
/// none.
pub open spec fn chosen_overload(methods: Seq<MethodView>, values: Seq<JavaValueView>) -> Option<
    int,
> {
    if methods.len() == 0 {
        None
    } else if methods.len() == 1 {
        Some(0)
    } else if first_exact(methods, values) < methods.len() {
        Some(first_exact(methods, values))
    } else if last_compatible(methods, values) >= 0 {
        Some(last_compatible(methods, values))
    } else {
        Some(0)
    }
}

/// `first_exact` is within bounds, lands on an exact fit, and passes none.
pub proof fn first_exact_is_first(methods: Seq<MethodView>, values: Seq<JavaValueView>)
    ensures
        0 <= first_exact(methods, values) <= methods.len(),
        first_exact(methods, values) < methods.len() ==> signature_match(
            methods[first_exact(methods, values)].signature,
            values,
        ) == SignatureMatch::Exact,
        forall|j: int|
            0 <= j < first_exact(methods, values) ==> signature_match(
                (#[trigger] methods[j]).signature,
                values,
            ) != SignatureMatch::Exact,
{
    first_index_is_first(qualities(methods, values), SignatureMatch::Exact);
    assert forall|j: int| 0 <= j < first_exact(methods, values) implies signature_match(
        (#[trigger] methods[j]).signature,
        values,
    ) != SignatureMatch::Exact by {
        assert(qualities(methods, values)[j] == signature_match(methods[j].signature, values));
    }
}

/// Where at most one overload is listed, the arguments have no say in
/// the choice.
pub proof fn lone_overload_ignores_arguments(
    methods: Seq<MethodView>,
    some: Seq<JavaValueView>,
    others: Seq<JavaValueView>,
)
    requires
        methods.len() <= 1,
    ensures
        chosen_overload(methods, some) == chosen_overload(methods, others),
{
}

impl MinecraftClass {
    /// Whether an object of class `actual_type` may stand where
    /// `expected_type` is asked for, going by the names alone.
    pub fn are_compatible_types(&self, actual_type: &str, expected_type: &str) -> (compatible: bool)
        ensures
            compatible == compatible_types(actual_type@, expected_type@),
    {
        same_text(actual_type, expected_type) || (same_text(actual_type, "java/lang/String")
            && same_text(expected_type, "java/lang/CharSequence")) || (same_text(
            actual_type,
            "java/util/ArrayList",
        ) && same_text(expected_type, "java/util/List")) || (same_text(
            actual_type,
            "java/util/LinkedList",
        ) && same_text(expected_type, "java/util/List")) || (same_text(
            actual_type,
            "java/util/HashSet",
        ) && same_text(expected_type, "java/util/Set")) || (same_text(
            actual_type,
            "java/util/HashMap",
        ) && same_text(expected_type, "java/util/Map"))
    }

    /// The component type of an array type: `[I` gives `I`, and
    /// `[Ljava/lang/String;` gives `Ljava/lang/String;`.
    pub fn extract_array_component_type(&self, array_type: &str) -> (component: Option<String>)
        ensures
            match component {
                Some(text) => array_component(array_type@) == Some(text@),
                None => array_component(array_type@) is None,
            },
    {
        let v = to_chars(array_type);
        if v.len() > 1 && v[0] == '[' {
            let text = from_chars(&v, 1, v.len());
            assert(v@.subrange(1, v@.len() as int) =~= v@.skip(1));
            Some(text)
        } else {
            None
        }
    }

    /// Whether an array of type `actual_type` may stand where
    /// `expected_type` is asked for.
    pub fn are_compatible_array_types(&self, actual_type: &str, expected_type: &str) -> (compatible:
        bool)
        ensures
            compatible == compatible_array_types(actual_type@, expected_type@),
    {
        let actual = match self.extract_array_component_type(actual_type) {
            Some(text) => text,
            None => {
                return false;
            },
        };
        let expected = match self.extract_array_component_type(expected_type) {
            Some(text) => text,
            None => {
                return false;
            },
        };
        let a = to_chars(actual.as_str());
        let e = to_chars(expected.as_str());
        if a.len() == 1 && (a[0] as u32) < 0x80 && e.len() == 1 && (e[0] as u32) < 0x80 {
            if a[0] == e[0] {
                assert(a@ =~= e@);
                return true;
            } else {
                return false;
            }
        }
        if a[0] == 'L' && e[0] == 'L' {
            let inner_a = inner_text(&a);
            let inner_e = inner_text(&e);
            self.are_compatible_types(inner_a.as_str(), inner_e.as_str())
        } else {
            false
        }
    }

    /// How well `value` fits the type `jni_type`.
    pub fn check_type_compatibility(&self, jni_type: &str, value: &JavaValue) -> (quality:
        SignatureMatch)
        ensures
            quality == type_match(jni_type@, value@),
    {
        let t = to_chars(jni_type);
        let n = t.len();
        match value {
            JavaValue::Object(object) => {
                if n > 0 && t[0] == 'L' && t[n - 1] == ';' {
                    let expected = inner_text(&t);
                    let is_root = same_text(expected.as_str(), "java/lang/Object");
                    match object {
                        JavaObject::Null => SignatureMatch::Compatible,
                        JavaObject::Unknown => if is_root {
                            SignatureMatch::Compatible
                        } else {
                            SignatureMatch::Incompatible
                        },
                        JavaObject::Instance(class) => {
                            if is_root {
                                SignatureMatch::Compatible
                            } else if same_text(class.class_name.as_str(), expected.as_str()) {
                                SignatureMatch::Exact
                            } else if holds_text(&class.assignable_to, expected.as_str())
                                || self.are_compatible_types(
                                class.class_name.as_str(),
                                expected.as_str(),
                            ) {
                                SignatureMatch::Compatible
                            } else {
                                SignatureMatch::Incompatible
                            }
                        },
                    }
                } else if n > 0 && t[0] == '[' {
                    match object {
                        JavaObject::Null => SignatureMatch::Compatible,
                        JavaObject::Unknown => SignatureMatch::Incompatible,
                        JavaObject::Instance(class) => {
                            let name = to_chars(class.class_name.as_str());
                            if name.len() > 0 && name[0] == '[' {
                                if same_text(class.class_name.as_str(), jni_type) {
                                    SignatureMatch::Exact
                                } else if self.are_compatible_array_types(
                                    class.class_name.as_str(),
                                    jni_type,
                                ) {
                                    SignatureMatch::Compatible
                                } else {
                                    SignatureMatch::Incompatible
                                }
                            } else {
                                SignatureMatch::Incompatible
                            }
                        },
                    }
                } else if n > 0 && t[0] == 'L' {
                    match object {
                        JavaObject::Null => SignatureMatch::Compatible,
                        _ => SignatureMatch::Incompatible,
                    }
                } else {
                    SignatureMatch::Incompatible
                }
            },
            _ => {
                if n != 1 {
                    return SignatureMatch::Incompatible;
                }
                let letter = t[0];
                let exact = match value {
                    JavaValue::Bool => letter == 'Z',
                    JavaValue::Byte => letter == 'B',
                    JavaValue::Char => letter == 'C',
                    JavaValue::Short => letter == 'S',
                    JavaValue::Int => letter == 'I',
                    JavaValue::Long => letter == 'J',
                    JavaValue::Float => letter == 'F',
                    JavaValue::Double => letter == 'D',
                    _ => false,
                };
                let small = match value {
                    JavaValue::Byte => true,
                    JavaValue::Short => true,
                    JavaValue::Char => true,
                    _ => false,
                };
                let is_int = match value {
                    JavaValue::Int => true,
                    _ => false,
                };
                let is_long_or_float = match value {
                    JavaValue::Long => true,
                    JavaValue::Float => true,
                    _ => false,
                };
                let widened = if letter == 'I' {
                    small
                } else if letter == 'J' || letter == 'F' {
                    small || is_int
                } else if letter == 'D' {
                    small || is_int || is_long_or_float
                } else {
                    false
                };
                if exact {
                    SignatureMatch::Exact
                } else if widened {
                    SignatureMatch::Compatible
                } else {
                    SignatureMatch::Incompatible
                }
            },
        }
    }

    /// How well the arguments fit a method signature.
    pub fn evaluate_signature_compatibility(&self, method_signature: &str, args: &[JavaValue]) -> (quality:
        SignatureMatch)
        ensures
            quality == signature_match(method_signature@, value_views(args@)),
    {
        let types = match self.extract_parameter_types(method_signature) {
            Ok(types) => types,
            Err(_) => {
                return SignatureMatch::Incompatible;
            },
        };
        if types.len() != args.len() {
            return SignatureMatch::Incompatible;
        }
        let ghost ts = texts(types@);
        let ghost vs = value_views(args@);
        let mut exact = true;
        let mut i: usize = 0;
        while i < types.len()
            invariant
                i <= types.len() == args.len(),
                ts == texts(types@),
                vs == value_views(args@),
                parameter_types(method_signature@) == Ok::<Seq<Seq<char>>, SignatureError>(ts),
                none_incompatible(ts, vs, i as int),
                exact == all_exact(ts, vs, i as int),
            decreases types.len() - i,
        {
            let quality = self.check_type_compatibility(types[i].as_str(), &args[i]);
            assert(quality == type_match(ts[i as int], vs[i as int]));
            match quality {
                SignatureMatch::Incompatible => {
                    assert(!none_incompatible(ts, vs, ts.len() as int));
                    return SignatureMatch::Incompatible;
                },
                SignatureMatch::Exact => {},
                SignatureMatch::Compatible => {
                    exact = false;
                },
            }
            i += 1;
        }
        if exact {
            SignatureMatch::Exact
        } else {
            SignatureMatch::Compatible
        }
    }

    /// The overload listed under `name` to call with the given arguments.
    /// It is an error if nothing is listed under the name, or no overload
    /// at all.
    pub fn get_method_by_args(&self, name: &str, args: &[JavaValue]) -> (found: Result<
        &Method,
        MappingError,
    >)
        ensures
            match found {
                Ok(method) => {
                    &&& self.methods().contains_key(name@)
                    &&& chosen_overload(self.methods()[name@], value_views(args@)) matches Some(
                        at,
                    ) && 0 <= at < self.methods()[name@].len() && method@
                        == self.methods()[name@][at]
                },
                Err(error) => {
                    &&& error@ == MappingErrorView::MethodNotFound(name@)
                    &&& self.methods().contains_key(name@) ==> chosen_overload(
                        self.methods()[name@],
                        value_views(args@),
                    ) is None
                },
            },
    {
        let methods = match self.get_methods(name) {
            Ok(methods) => methods,
            Err(error) => {
                return Err(error);
            },
        };
        if methods.len() == 0 {
            return Err(MappingError::MethodNotFound(name.to_owned()));
        }
        if methods.len() == 1 {
            return Ok(&methods[0]);
        }
        let ghost ms = method_views(methods@);
        let ghost vs = value_views(args@);
        let mut best: Option<usize> = None;
        let mut i: usize = 0;
        assert(ms.take(0) =~= Seq::<MethodView>::empty());
        while i < methods.len()
            invariant
                i <= methods.len(),
                methods.len() > 1,
                ms == method_views(methods@),
                vs == value_views(args@),
                self.methods().contains_key(name@),
                ms == self.methods()[name@],
                forall|j: int|
                    0 <= j < i ==> signature_match((#[trigger] ms[j]).signature, vs)
                        != SignatureMatch::Exact,
                match best {
                    Some(at) => at < i && last_compatible(ms.take(i as int), vs) == at,
                    None => last_compatible(ms.take(i as int), vs) == -1,
                },
            decreases methods.len() - i,
        {
            let quality = self.evaluate_signature_compatibility(methods[i].signature.as_str(), args);
            assert(quality == signature_match(ms[i as int].signature, vs));
            proof {
                assert(ms.take(i + 1).drop_last() =~= ms.take(i as int));
                assert(ms.take(i + 1).last() == ms[i as int]);
            }
            match quality {
                SignatureMatch::Exact => {
                    proof {
                        first_exact_is_first(ms, vs);
                        let g = first_exact(ms, vs);
                        if g < i {
                            assert(signature_match(ms[g].signature, vs) != SignatureMatch::Exact);
                        }
                        if g > i {
                            assert(signature_match(ms[i as int].signature, vs)
                                != SignatureMatch::Exact);
                        }
                    }
                    return Ok(&methods[i]);
                },
                SignatureMatch::Compatible => {
                    best = Some(i);
                },
                SignatureMatch::Incompatible => {},
            }
            i += 1;
        }
        proof {
            assert(ms.take(methods.len() as int) =~= ms);
            first_exact_is_first(ms, vs);
            let g = first_exact(ms, vs);
            if g < ms.len() {
                assert(signature_match(ms[g].signature, vs) != SignatureMatch::Exact);
            }
        }
        match best {
            Some(at) => Ok(&methods[at]),
            None => Ok(&methods[0]),
        }
    }
}

} // verus!

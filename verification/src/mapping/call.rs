//! What a call into the game needs from the mapping before it is made,
//! and what is reported when it fails.
//!
//! The call itself goes through the Java virtual machine and is made by
//! the caller. Here the readable names are turned into the obfuscated
//! names and the signature to call with, and a failed call is put into
//! words.

use crate::mapping::class_type::MinecraftClassType;
use crate::mapping::compat::{chosen_overload, value_views, JavaValue};
use crate::mapping::error::{MappingError, MappingErrorView};
use crate::mapping::{plain_signature, FieldType, Mapping};
use crate::text::{from_chars, push_str_chars};
use vstd::prelude::*;

verus! {

/// The method to call, by the names that the game knows.
#[derive(Debug, PartialEq, Eq)]
pub struct MethodTarget {
    /// The obfuscated name of the class.
    pub class_name: String,
    /// The obfuscated name of the method.
    pub method_name: String,
    /// The JNI signature of the method.
    pub signature: String,
}

/// What a `MethodTarget` holds.
pub struct MethodTargetView {
    pub class_name: Seq<char>,
    pub method_name: Seq<char>,
    pub signature: Seq<char>,
}

impl View for MethodTarget {
    type V = MethodTargetView;

    open spec fn view(&self) -> MethodTargetView {
        MethodTargetView {
            class_name: self.class_name@,
            method_name: self.method_name@,
            signature: self.signature@,
        }
    }
}

/// The field to read or write, by the names that the game knows.
#[derive(Debug, PartialEq, Eq)]
pub struct FieldTarget {
    /// The obfuscated name of the class.
    pub class_name: String,
    /// The obfuscated name of the field.
    pub field_name: String,
    /// The JNI signature of the field's type.
    pub signature: String,
}

/// What a `FieldTarget` holds.
pub struct FieldTargetView {
    pub class_name: Seq<char>,
    pub field_name: Seq<char>,
    pub signature: Seq<char>,
}

impl View for FieldTarget {
    type V = FieldTargetView;

    open spec fn view(&self) -> FieldTargetView {
        FieldTargetView {
            class_name: self.class_name@,
            field_name: self.field_name@,
            signature: self.signature@,
        }
    }
}

/// The access to the game that failed.
#[derive(Debug, Clone, Copy, PartialEq, Eq)]
pub enum Access {
    StaticCall,
    Call,
    StaticFieldRead,
    FieldRead,
    FieldWrite,
}

/// The words that open the report of a failed access, and the word that
/// joins the member to its class.
pub open spec fn access_words(access: Access) -> (Seq<char>, Seq<char>) {
    match access {
        Access::StaticCall => ("Error calling static method "@, " in class "@),
        Access::Call => ("Error calling method "@, " in class "@),
        Access::StaticFieldRead => ("Error getting static field "@, " from class "@),
        Access::FieldRead => ("Error getting field "@, " from class "@),
        Access::FieldWrite => ("Error setting field "@, " in class "@),
    }
}

/// `readable`, then `obfuscated` in parentheses.
pub open spec fn both_names(readable: Seq<char>, obfuscated: Seq<char>) -> Seq<char> {
    readable + " ("@ + obfuscated + ")"@
}

/// The report that a class could not be found in the game.
pub open spec fn class_missing_text(class_type: MinecraftClassType, obfuscated: Seq<char>) -> Seq<
    char,
> {
    "Class "@ + both_names(class_type.name(), obfuscated) + " not found"@
}

/// The report of a failed read or write of a field: the access, the field
/// and the class, each by its readable and its obfuscated name.
pub open spec fn field_failure_text(
    access: Access,
    field_name: Seq<char>,
    class_type: MinecraftClassType,
    target: FieldTargetView,
) -> Seq<char> {
    access_words(access).0 + both_names(field_name, target.field_name) + access_words(access).1
        + both_names(class_type.name(), target.class_name)
}

impl Mapping {
    /// The report of a failed call: the access, the method and the class,
    /// each by its readable and its obfuscated name, and the signature,
    /// readable and as it is.
    pub open spec fn method_failure_text(
        &self,
        access: Access,
        method_name: Seq<char>,
        class_type: MinecraftClassType,
        target: MethodTargetView,
    ) -> Seq<char> {
        access_words(access).0 + both_names(method_name, target.method_name) + access_words(
            access,
        ).1 + both_names(class_type.name(), target.class_name) + " with signature "@ + both_names(
            self.signature_text(target.signature),
            target.signature,
        )
    }

    /// Whether the arguments have a say in which method is called: that
    /// is so when the class is listed and lists more than one overload
    /// under the name.
    pub open spec fn overloads_compete(&self, class_type: MinecraftClassType, method_name: Seq<char>)
        -> bool {
        &&& self.has_class(class_type.name())
        &&& self.class_named(class_type.name()).methods().contains_key(method_name)
        &&& self.class_named(class_type.name()).methods()[method_name].len() > 1
    }

    /// Says whether `resolve_method` will look at the arguments. Where it
    /// will not, any list of arguments resolves alike, and the caller need
    /// not describe them.
    pub fn arguments_decide(&self, class_type: MinecraftClassType, method_name: &str) -> (decide:
        bool)
        ensures
            decide == self.overloads_compete(class_type, method_name@),
    {
        match self.get_class(class_type.get_name()) {
            Ok(class) => match class.get_methods(method_name) {
                Ok(methods) => methods.len() > 1,
                Err(_) => false,
            },
            Err(_) => false,
        }
    }

    /// Finds the method to call for a readable method name of a class and
    /// a list of arguments.
    ///
    /// It is an error if the class is not listed, and if no method is
    /// listed under the name. Among several overloads the arguments
    /// decide.
    pub fn resolve_method(
        &self,
        class_type: MinecraftClassType,
        method_name: &str,
        args: &[JavaValue],
    ) -> (target: Result<MethodTarget, MappingError>)
        ensures
            match target {
                Ok(found) => {
                    let class = self.class_named(class_type.name());
                    &&& self.has_class(class_type.name())
                    &&& class.methods().contains_key(method_name@)
                    &&& chosen_overload(class.methods()[method_name@], value_views(args@))
                        matches Some(at) && 0 <= at < class.methods()[method_name@].len() && found@
                        == (MethodTargetView {
                        class_name: class.obfuscated_name(),
                        method_name: class.methods()[method_name@][at].name,
                        signature: class.methods()[method_name@][at].signature,
                    })
                },
                Err(error) => if self.has_class(class_type.name()) {
                    let class = self.class_named(class_type.name());
                    &&& error@ == MappingErrorView::MethodNotFound(method_name@)
                    &&& class.methods().contains_key(method_name@) ==> chosen_overload(
                        class.methods()[method_name@],
                        value_views(args@),
                    ) is None
                } else {
                    error@ == MappingErrorView::ClassNotFound(class_type.name())
                },
            },
    {
        let class = match self.get_class(class_type.get_name()) {
            Ok(class) => class,
            Err(error) => {
                return Err(error);
            },
        };
        let method = match class.get_method_by_args(method_name, args) {
            Ok(method) => method,
            Err(error) => {
                return Err(error);
            },
        };
        Ok(
            MethodTarget {
                class_name: class.get_name().to_owned(),
                method_name: method.name.clone(),
                signature: method.signature.clone(),
            },
        )
    }

    /// Finds the field to read or write for a readable field name of a
    /// class, with the signature of its type.
    ///
    /// It is an error if the class is not listed, if no field is listed
    /// under the name, and if the type is a game class that is not
    /// listed; of these the first that holds is reported.
    pub fn resolve_field(
        &self,
        class_type: MinecraftClassType,
        field_name: &str,
        field_type: FieldType<'_>,
    ) -> (target: Result<FieldTarget, MappingError>)
        ensures
            match target {
                Ok(found) => {
                    let class = self.class_named(class_type.name());
                    &&& self.has_class(class_type.name())
                    &&& class.fields().contains_key(field_name@)
                    &&& found.class_name@ == class.obfuscated_name()
                    &&& found.field_name@ == class.fields()[field_name@]
                    &&& match field_type {
                        FieldType::Object(of, mapping) => mapping.has_class(of.name())
                            && found.signature@ == "L"@ + mapping.class_named(
                            of.name(),
                        ).obfuscated_name() + ";"@,
                        _ => Some(found.signature@) == plain_signature(field_type),
                    }
                },
                Err(error) => if !self.has_class(class_type.name()) {
                    error@ == MappingErrorView::ClassNotFound(class_type.name())
                } else if !self.class_named(class_type.name()).fields().contains_key(field_name@) {
                    error@ == MappingErrorView::FieldNotFound(field_name@)
                } else {
                    field_type matches FieldType::Object(of, mapping) && !mapping.has_class(
                        of.name(),
                    ) && error@ == MappingErrorView::ClassNotFound(of.name())
                },
            },
    {
        let class = match self.get_class(class_type.get_name()) {
            Ok(class) => class,
            Err(error) => {
                return Err(error);
            },
        };
        let field = match class.get_field(field_name) {
            Ok(field) => field,
            Err(error) => {
                return Err(error);
            },
        };
        let signature = match field_type.get_signature() {
            Ok(signature) => signature,
            Err(error) => {
                return Err(error);
            },
        };
        Ok(
            FieldTarget {
                class_name: class.get_name().to_owned(),
                field_name: field.name.clone(),
                signature,
            },
        )
    }

    /// Puts a failed call into words.
    pub fn describe_method_failure(
        &self,
        access: Access,
        method_name: &str,
        class_type: MinecraftClassType,
        target: &MethodTarget,
    ) -> (text: String)
        ensures
            text@ == self.method_failure_text(access, method_name@, class_type, target@),
    {
        let translated = self.translate_signature(target.signature.as_str());
        let mut out: Vec<char> = Vec::new();
        push_access_and_names(
            &mut out,
            access,
            method_name,
            target.method_name.as_str(),
            class_type,
            target.class_name.as_str(),
        );
        push_str_chars(&mut out, " with signature ");
        push_both_names(&mut out, translated.as_str(), target.signature.as_str());
        let n = out.len();
        let text = from_chars(&out, 0, n);
        assert(out@.subrange(0, n as int) == out@);
        assert(out@ =~= self.method_failure_text(access, method_name@, class_type, target@));
        text
    }
}

fn push_both_names(out: &mut Vec<char>, readable: &str, obfuscated: &str)
    ensures
        final(out)@ == old(out)@ + both_names(readable@, obfuscated@),
{
    push_str_chars(out, readable);
    push_str_chars(out, " (");
    push_str_chars(out, obfuscated);
    push_str_chars(out, ")");
    assert(out@ =~= old(out)@ + both_names(readable@, obfuscated@));
}

fn push_access_and_names(
    out: &mut Vec<char>,
    access: Access,
    member: &str,
    obfuscated_member: &str,
    class_type: MinecraftClassType,
    obfuscated_class: &str,
)
    ensures
        final(out)@ == old(out)@ + access_words(access).0 + both_names(
            member@,
            obfuscated_member@,
        ) + access_words(access).1 + both_names(class_type.name(), obfuscated_class@),
{
    match access {
        Access::StaticCall => push_str_chars(out, "Error calling static method "),
        Access::Call => push_str_chars(out, "Error calling method "),
        Access::StaticFieldRead => push_str_chars(out, "Error getting static field "),
        Access::FieldRead => push_str_chars(out, "Error getting field "),
        Access::FieldWrite => push_str_chars(out, "Error setting field "),
    }
    push_both_names(out, member, obfuscated_member);
    match access {
        Access::StaticCall => push_str_chars(out, " in class "),
        Access::Call => push_str_chars(out, " in class "),
        Access::StaticFieldRead => push_str_chars(out, " from class "),
        Access::FieldRead => push_str_chars(out, " from class "),
        Access::FieldWrite => push_str_chars(out, " in class "),
    }
    push_both_names(out, class_type.get_name(), obfuscated_class);
}

/// Puts into words that a class could not be found in the game.
pub fn describe_class_missing(class_type: MinecraftClassType, obfuscated: &str) -> (text: String)
    ensures
        text@ == class_missing_text(class_type, obfuscated@),
{
    let mut out: Vec<char> = Vec::new();
    push_str_chars(&mut out, "Class ");
    push_both_names(&mut out, class_type.get_name(), obfuscated);
    push_str_chars(&mut out, " not found");
    let n = out.len();
    let text = from_chars(&out, 0, n);
    assert(out@.subrange(0, n as int) == out@);
    assert(out@ =~= class_missing_text(class_type, obfuscated@));
    text
}

/// Puts a failed read or write of a field into words.
pub fn describe_field_failure(
    access: Access,
    field_name: &str,
    class_type: MinecraftClassType,
    target: &FieldTarget,
) -> (text: String)
    ensures
        text@ == field_failure_text(access, field_name@, class_type, target@),
{
    let mut out: Vec<char> = Vec::new();
    push_access_and_names(
        &mut out,
        access,
        field_name,
        target.field_name.as_str(),
        class_type,
        target.class_name.as_str(),
    );
    let n = out.len();
    let text = from_chars(&out, 0, n);
    assert(out@.subrange(0, n as int) == out@);
    assert(out@ =~= field_failure_text(access, field_name@, class_type, target@));
    text
}

} // verus!

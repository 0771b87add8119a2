//! JNI method signatures and type descriptors.
//!
//! A method signature is `(` parameter types `)` return type. A type is
//! one letter for a primitive, `L` class name `;` for an object, and `[`
//! in front of a type for an array.

use crate::mapping::class::MinecraftClass;
use crate::text::{find_from, from_chars, next_index_of, next_index_of_is_first, to_chars};
use vstd::prelude::*;

verus! {

/// Why the parameter types of a signature cannot be told.
#[derive(Debug, Clone, Copy, PartialEq, Eq)]
pub enum SignatureError {
    /// The signature holds no `(`.
    MissingOpeningParenthesis,
    /// The signature holds no `)`.
    MissingClosingParenthesis,
    /// The first `)` does not come after the first `(`.
    MalformedParentheses,
    /// A `[` is followed by something that is neither a primitive nor an
    /// object type.
    InvalidArrayType,
    /// A parameter starts with a character that begins no type.
    UnknownTypeCharacter,
}

impl SignatureError {
    /// The text that `message` gives.
    pub open spec fn text(self) -> Seq<char> {
        match self {
            SignatureError::MissingOpeningParenthesis => "Invalid signature: missing opening parenthesis"@,
            SignatureError::MissingClosingParenthesis => "Invalid signature: missing closing parenthesis"@,
            SignatureError::MalformedParentheses => "Invalid signature: malformed parentheses"@,
            SignatureError::InvalidArrayType => "Invalid array type in signature"@,
            SignatureError::UnknownTypeCharacter => "Unknown type character in signature"@,
        }
    }

    /// A line that says what is wrong with the signature.
    pub fn message(&self) -> (text: &'static str)
        ensures
            text@ == self.text(),
    {
        match self {
            SignatureError::MissingOpeningParenthesis => "Invalid signature: missing opening parenthesis",
            SignatureError::MissingClosingParenthesis => "Invalid signature: missing closing parenthesis",
            SignatureError::MalformedParentheses => "Invalid signature: malformed parentheses",
            SignatureError::InvalidArrayType => "Invalid array type in signature",
            SignatureError::UnknownTypeCharacter => "Unknown type character in signature",
        }
    }
}

/// Whether `c` is the letter of a primitive parameter type.
pub open spec fn is_primitive(c: char) -> bool {
    c == 'Z' || c == 'B' || c == 'C' || c == 'S' || c == 'I' || c == 'J' || c == 'F' || c == 'D'
}

/// Decides whether `c` is the letter of a primitive parameter type.
pub fn is_primitive_letter(c: char) -> (primitive: bool)
    ensures
        primitive == is_primitive(c),
{
    c == 'Z' || c == 'B' || c == 'C' || c == 'S' || c == 'I' || c == 'J' || c == 'F' || c == 'D'
}

/// Where the object type that runs through position `from` ends: just
/// behind the next `;`, or at the end of `s` when no `;` follows.
pub open spec fn object_end(s: Seq<char>, from: int) -> int {
    let semicolon = next_index_of(s, ';', from);
    if semicolon < s.len() {
        semicolon + 1
    } else {
        s.len() as int
    }
}

/// `types` put in front of the types of `rest`; an error stays an error.
pub open spec fn prepend(types: Seq<Seq<char>>, rest: Result<Seq<Seq<char>>, SignatureError>)
    -> Result<Seq<Seq<char>>, SignatureError> {
    match rest {
        Ok(more) => Ok(types + more),
        Err(error) => Err(error),
    }
}

/// The parameter types that `s` holds from position `from` on.
///
/// A primitive is one letter. An object type starts at `L` and runs
/// through the next `;`. An array type is `[` with one primitive or one
/// object type behind it; a `[` at the very end stands alone. Anything
/// else is an error, whatever came before it.
pub open spec fn types_from(s: Seq<char>, from: int) -> Result<Seq<Seq<char>>, SignatureError>
    decreases s.len() - from,
    via types_from_terminates
{
    if from < 0 || from >= s.len() {
        Ok(Seq::empty())
    } else if is_primitive(s[from]) {
        prepend(seq![s.subrange(from, from + 1)], types_from(s, from + 1))
    } else if s[from] == 'L' {
        let end = object_end(s, from + 1);
        prepend(seq![s.subrange(from, end)], types_from(s, end))
    } else if s[from] == '[' {
        if from + 1 >= s.len() {
            Ok(seq![s.subrange(from, from + 1)])
        } else if is_primitive(s[from + 1]) {
            prepend(seq![s.subrange(from, from + 2)], types_from(s, from + 2))
        } else if s[from + 1] == 'L' {
            let end = object_end(s, from + 1);
            prepend(seq![s.subrange(from, end)], types_from(s, end))
        } else {
            Err(SignatureError::InvalidArrayType)
        }
    } else {
        Err(SignatureError::UnknownTypeCharacter)
    }
}

#[via_fn]
proof fn types_from_terminates(s: Seq<char>, from: int) {
    if 0 <= from < s.len() {
        next_index_of_is_first(s, ';', from + 1);
    }
}

/// The parameter types of a method signature: the types that stand
/// between the first `(` and the first `)`.
pub open spec fn parameter_types(signature: Seq<char>) -> Result<Seq<Seq<char>>, SignatureError> {
    let start = next_index_of(signature, '(', 0);
    let end = next_index_of(signature, ')', 0);
    if start >= signature.len() {
        Err(SignatureError::MissingOpeningParenthesis)
    } else if end >= signature.len() {
        Err(SignatureError::MissingClosingParenthesis)
    } else if start >= end {
        Err(SignatureError::MalformedParentheses)
    } else {
        types_from(signature.subrange(start + 1, end), 0)
    }
}

/// The texts of a list of strings, in order.
pub open spec fn texts(strings: Seq<String>) -> Seq<Seq<char>> {
    strings.map_values(|s: String| s@)
}

/// Copies `v[from..to]`.
pub fn copy_range(v: &Vec<char>, from: usize, to: usize) -> (out: Vec<char>)
    requires
        from <= to <= v.len(),
    ensures
        out@ == v@.subrange(from as int, to as int),
{
    let mut out: Vec<char> = Vec::new();
    let mut i: usize = from;
    while i < to
        invariant
            from <= i <= to <= v.len(),
            out@ == v@.subrange(from as int, i as int),
        decreases to - i,
    {
        out.push(v[i]);
        i += 1;
        assert(v@.subrange(from as int, i as int) == v@.subrange(from as int, i - 1).push(
            v@[i - 1],
        ));
    }
    out
}

/// Finds where the object type that runs through `from` ends.
fn find_object_end(v: &Vec<char>, from: usize) -> (end: usize)
    requires
        from <= v.len(),
    ensures
        end as int == object_end(v@, from as int),
        from <= end <= v.len(),
        from < v.len() ==> from < end,
{
    let semicolon = find_from(v, ';', from);
    if semicolon < v.len() {
        semicolon + 1
    } else {
        v.len()
    }
}

/// Reads the parameter types that stand in `params`.
pub fn read_types(params: &Vec<char>) -> (types: Result<Vec<String>, SignatureError>)
    ensures
        match types {
            Ok(list) => types_from(params@, 0) == Ok::<Seq<Seq<char>>, SignatureError>(
                texts(list@),
            ),
            Err(error) => types_from(params@, 0) == Err::<Seq<Seq<char>>, SignatureError>(error),
        },
{
    let mut types: Vec<String> = Vec::new();
    let mut i: usize = 0;
    let n = params.len();
    assert(texts(types@) =~= Seq::<Seq<char>>::empty());
    assert(prepend(Seq::empty(), types_from(params@, 0)) == types_from(params@, 0)) by {
        match types_from(params@, 0) {
            Ok(more) => {
                assert(Seq::<Seq<char>>::empty() + more =~= more);
            },
            Err(_) => {},
        }
    }
    while i < n
        invariant
            i <= n == params.len(),
            types_from(params@, 0) == prepend(texts(types@), types_from(params@, i as int)),
        decreases n - i,
    {
        let c = params[i];
        let ghost before = texts(types@);
        let end: usize;
        if is_primitive_letter(c) {
            end = i + 1;
        } else if c == 'L' {
            end = find_object_end(params, i + 1);
        } else if c == '[' {
            if i + 1 >= n {
                end = i + 1;
            } else if is_primitive_letter(params[i + 1]) {
                end = i + 2;
            } else if params[i + 1] == 'L' {
                end = find_object_end(params, i + 1);
            } else {
                return Err(SignatureError::InvalidArrayType);
            }
        } else {
            return Err(SignatureError::UnknownTypeCharacter);
        }
        let token = from_chars(params, i, end);
        types.push(token);
        proof {
            let tok = params@.subrange(i as int, end as int);
            assert(texts(types@) =~= before.push(tok));
            let rest = types_from(params@, end as int);
            assert(types_from(params@, i as int) == prepend(seq![tok], rest));
            match rest {
                Ok(more) => {
                    assert(before + (seq![tok] + more) =~= before.push(tok) + more);
                },
                Err(_) => {},
            }
        }
        i = end;
    }
    proof {
        assert(texts(types@) + Seq::<Seq<char>>::empty() =~= texts(types@));
    }
    Ok(types)
}

impl MinecraftClass {
    /// Reads the parameter types of a method signature: `(ILjava/lang/String;)V`
    /// gives `I` and `Ljava/lang/String;`.
    pub fn extract_parameter_types(&self, signature: &str) -> (types: Result<
        Vec<String>,
        SignatureError,
    >)
        ensures
            match types {
                Ok(list) => parameter_types(signature@) == Ok::<Seq<Seq<char>>, SignatureError>(
                    texts(list@),
                ),
                Err(error) => parameter_types(signature@) == Err::<Seq<Seq<char>>, SignatureError>(
                    error,
                ),
            },
    {
        let v = to_chars(signature);
        let start = find_from(&v, '(', 0);
        if start >= v.len() {
            return Err(SignatureError::MissingOpeningParenthesis);
        }
        let end = find_from(&v, ')', 0);
        if end >= v.len() {
            return Err(SignatureError::MissingClosingParenthesis);
        }
        if start >= end {
            return Err(SignatureError::MalformedParentheses);
        }
        let params = copy_range(&v, start + 1, end);
        read_types(&params)
    }
}

} // verus!

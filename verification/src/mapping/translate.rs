//! Readable renderings of JNI type descriptors and method signatures, for
//! messages: `(ILjava/lang/String;)V` reads `(int, java/lang/String) -> void`,
//! with obfuscated class names replaced by their readable names.

use crate::mapping::signature::texts;
use crate::mapping::Mapping;
use crate::text::{
    find_from, from_chars, next_index_of, next_index_of_is_first, push_str_chars, to_chars,
};
use vstd::prelude::*;

verus! {

/// How many `[` stand at the start of `d`.
pub open spec fn leading_brackets(d: Seq<char>) -> nat
    decreases d.len(),
{
    if d.len() > 0 && d[0] == '[' {
        1 + leading_brackets(d.drop_first())
    } else {
        0
    }
}

/// `[]`, `depth` times.
pub open spec fn array_suffix(depth: nat) -> Seq<char>
    decreases depth,
{
    if depth == 0 {
        Seq::empty()
    } else {
        array_suffix((depth - 1) as nat) + "[]"@
    }
}

/// The readable name of the primitive type with the letter `c`; a
/// character that is no such letter stands for itself.
pub open spec fn primitive_name(c: char) -> Seq<char> {
    if c == 'Z' {
        "boolean"@
    } else if c == 'B' {
        "byte"@
    } else if c == 'C' {
        "char"@
    } else if c == 'S' {
        "short"@
    } else if c == 'I' {
        "int"@
    } else if c == 'J' {
        "long"@
    } else if c == 'F' {
        "float"@
    } else if c == 'D' {
        "double"@
    } else if c == 'V' {
        "void"@
    } else {
        seq![c]
    }
}

/// How many characters the type descriptor at the start of `d` takes:
/// the brackets, and then an object type through its `;`, or one
/// character. An object type without `;` takes all that is left.
pub open spec fn descriptor_len(d: Seq<char>) -> int {
    let depth = leading_brackets(d) as int;
    let rest = d.skip(depth);
    if rest.len() == 0 {
        d.len() as int
    } else if rest[0] == 'L' {
        let end = next_index_of(rest, ';', 1);
        if end < rest.len() {
            depth + end + 1
        } else {
            d.len() as int
        }
    } else {
        depth + 1
    }
}

/// `parts` with `separator` between each two of them.
pub open spec fn joined(parts: Seq<Seq<char>>, separator: Seq<char>) -> Seq<char>
    decreases parts.len(),
{
    if parts.len() == 0 {
        Seq::empty()
    } else if parts.len() == 1 {
        parts[0]
    } else {
        joined(parts.drop_last(), separator) + separator + parts.last()
    }
}

/// The brackets of a descriptor lie within it, and every character before
/// the end of them is a bracket.
pub proof fn leading_brackets_bounds(d: Seq<char>)
    ensures
        leading_brackets(d) <= d.len(),
        forall|j: int| 0 <= j < leading_brackets(d) ==> d[j] == '[',
        leading_brackets(d) < d.len() ==> d[leading_brackets(d) as int] != '[',
    decreases d.len(),
{
    if d.len() > 0 && d[0] == '[' {
        let rest = d.drop_first();
        leading_brackets_bounds(rest);
        assert forall|j: int| 0 <= j < leading_brackets(d) implies d[j] == '[' by {
            if j > 0 {
                assert(rest[j - 1] == d[j]);
            }
        }
        if leading_brackets(d) < d.len() {
            assert(rest[leading_brackets(rest) as int] == d[leading_brackets(d) as int]);
        }
    }
}

proof fn leading_brackets_found(d: Seq<char>, k: int)
    requires
        0 <= k <= d.len(),
        forall|j: int| 0 <= j < k ==> d[j] == '[',
        k < d.len() ==> d[k] != '[',
    ensures
        leading_brackets(d) == k,
{
    leading_brackets_bounds(d);
    let g = leading_brackets(d) as int;
    if g < k {
        assert(d[g] == '[');
    }
    if g > k {
        assert(d[k] == '[');
    }
}

/// A descriptor takes at least one character of a text that is not
/// empty, and never more than there are.
pub proof fn descriptor_len_bounds(d: Seq<char>)
    ensures
        descriptor_len(d) <= d.len(),
        d.len() > 0 ==> descriptor_len(d) > 0,
{
    leading_brackets_bounds(d);
    let depth = leading_brackets(d) as int;
    let rest = d.skip(depth);
    if rest.len() > 0 && rest[0] == 'L' {
        next_index_of_is_first(rest, ';', 1);
    }
}

impl Mapping {
    /// The readable text of the type descriptor at the start of `d`: the
    /// name of the type, then `[]` for each bracket. An object type reads
    /// as the readable name of its class where the mapping lists the
    /// class, else as the class name it holds; one without `;` reads as
    /// it stands.
    pub open spec fn type_text(&self, d: Seq<char>) -> Seq<char> {
        let depth = leading_brackets(d);
        let rest = d.skip(depth as int);
        let name = if rest.len() == 0 {
            Seq::empty()
        } else if rest[0] == 'L' {
            let end = next_index_of(rest, ';', 1);
            if end < rest.len() {
                match self.readable_name(rest.subrange(1, end)) {
                    Some(readable) => readable,
                    None => rest.subrange(1, end),
                }
            } else {
                rest
            }
        } else {
            primitive_name(rest[0])
        };
        name + array_suffix(depth)
    }

    /// The readable texts of the type descriptors that `p` is made of,
    /// one after the other.
    pub open spec fn types_text(&self, p: Seq<char>) -> Seq<Seq<char>>
        decreases p.len(),
        via Self::types_text_terminates
    {
        if p.len() == 0 {
            Seq::empty()
        } else {
            seq![self.type_text(p)] + self.types_text(p.skip(descriptor_len(p)))
        }
    }

    #[via_fn]
    proof fn types_text_terminates(&self, p: Seq<char>) {
        descriptor_len_bounds(p);
    }

    /// The readable text of a method signature: the parameter types in
    /// parentheses, separated by commas, then ` -> ` and the return type.
    /// A text in which no `(` comes before the first `)` is no signature
    /// and reads as it stands.
    pub open spec fn signature_text(&self, signature: Seq<char>) -> Seq<char> {
        let open = next_index_of(signature, '(', 0);
        let close = next_index_of(signature, ')', 0);
        if open < close < signature.len() {
            "("@ + joined(self.types_text(signature.subrange(open + 1, close)), ", "@) + ") -> "@
                + self.type_text(signature.skip(close + 1))
        } else {
            signature
        }
    }

    /// Renders the type descriptor at the start of `descriptor`, and
    /// moves `descriptor` past it.
    pub fn translate_type_descriptor<'a>(&self, descriptor: &mut &'a str) -> (text: String)
        ensures
            text@ == self.type_text(old(descriptor)@),
            final(descriptor)@ == old(descriptor)@.skip(descriptor_len(old(descriptor)@)),
    {
        let whole: &'a str = *descriptor;
        let v = to_chars(whole);
        let n = v.len();
        let mut depth: usize = 0;
        while depth < n && v[depth] == '['
            invariant
                depth <= n == v.len(),
                forall|j: int| 0 <= j < depth ==> v@[j] == '[',
            decreases n - depth,
        {
            depth += 1;
        }
        proof {
            leading_brackets_found(v@, depth as int);
        }
        let ghost rest = v@.skip(depth as int);
        let mut out: Vec<char> = Vec::new();
        let used: usize;
        if depth == n {
            used = n;
        } else if v[depth] == 'L' {
            let end = find_from(&v, ';', depth + 1);
            proof {
                next_index_of_is_first(v@, ';', depth + 1);
                next_index_of_is_first(rest, ';', 1);
                let e = next_index_of(rest, ';', 1);
                assert forall|j: int| 0 <= j < rest.len() implies rest[j] == v@[depth + j] by {}
                if e < end - depth {
                    assert(rest[e] == ';');
                    assert(v@[depth + e] == ';');
                }
                if end - depth < e {
                    assert(rest[end - depth] != ';');
                }
                assert(e == end - depth);
            }
            if end < n {
                let obfuscated = from_chars(&v, depth + 1, end);
                assert(obfuscated@ =~= rest.subrange(1, end - depth));
                match self.find_class_by_obfuscated_name(obfuscated.as_str()) {
                    Some(readable) => {
                        push_str_chars(&mut out, readable);
                    },
                    None => {
                        push_str_chars(&mut out, obfuscated.as_str());
                    },
                }
                used = end + 1;
            } else {
                let mut i: usize = depth;
                while i < n
                    invariant
                        depth <= i <= n == v.len(),
                        out@ == v@.subrange(depth as int, i as int),
                    decreases n - i,
                {
                    out.push(v[i]);
                    i += 1;
                    assert(v@.subrange(depth as int, i as int) == v@.subrange(
                        depth as int,
                        i - 1,
                    ).push(v@[i - 1]));
                }
                assert(out@ =~= rest);
                used = n;
            }
        } else {
            let c = v[depth];
            assert(c == rest[0]);
            if c == 'Z' {
                push_str_chars(&mut out, "boolean");
            } else if c == 'B' {
                push_str_chars(&mut out, "byte");
            } else if c == 'C' {
                push_str_chars(&mut out, "char");
            } else if c == 'S' {
                push_str_chars(&mut out, "short");
            } else if c == 'I' {
                push_str_chars(&mut out, "int");
            } else if c == 'J' {
                push_str_chars(&mut out, "long");
            } else if c == 'F' {
                push_str_chars(&mut out, "float");
            } else if c == 'D' {
                push_str_chars(&mut out, "double");
            } else if c == 'V' {
                push_str_chars(&mut out, "void");
            } else {
                out.push(c);
            }
            assert(out@ =~= primitive_name(c));
            used = depth + 1;
        }
        let ghost name = out@;
        let mut k: usize = 0;
        while k < depth
            invariant
                k <= depth,
                out@ == name + array_suffix(k as nat),
            decreases depth - k,
        {
            push_str_chars(&mut out, "[]");
            k += 1;
            assert(out@ =~= name + array_suffix(k as nat));
        }
        let m = out.len();
        let text = from_chars(&out, 0, m);
        assert(out@.subrange(0, m as int) == out@);
        *descriptor = whole.substring_char(used, n);
        assert(v@.subrange(used as int, n as int) =~= v@.skip(used as int));
        text
    }

    /// Renders a method signature for a message.
    pub fn translate_signature(&self, signature: &str) -> (text: String)
        ensures
            text@ == self.signature_text(signature@),
    {
        let v = to_chars(signature);
        let n = v.len();
        let open = find_from(&v, '(', 0);
        let close = find_from(&v, ')', 0);
        if !(open < close && close < n) {
            return signature.to_owned();
        }
        let mut params_str = signature.substring_char(open + 1, close);
        let mut return_type_str = signature.substring_char(close + 1, n);
        assert(v@.subrange(close + 1, n as int) =~= v@.skip(close + 1));
        let ghost params = params_str@;
        let mut translated: Vec<String> = Vec::new();
        assert(texts(translated@) =~= Seq::<Seq<char>>::empty());
        assert(Seq::<Seq<char>>::empty() + self.types_text(params) =~= self.types_text(params));
        while !params_str.is_empty()
            invariant
                self.types_text(params) == texts(translated@) + self.types_text(params_str@),
            decreases params_str@.len(),
        {
            let ghost before = texts(translated@);
            let ghost p = params_str@;
            proof {
                descriptor_len_bounds(p);
            }
            let part = self.translate_type_descriptor(&mut params_str);
            translated.push(part);
            proof {
                assert(texts(translated@) =~= before.push(self.type_text(p)));
                assert(before + (seq![self.type_text(p)] + self.types_text(params_str@))
                    =~= before.push(self.type_text(p)) + self.types_text(params_str@));
            }
        }
        assert(texts(translated@) + Seq::<Seq<char>>::empty() =~= texts(translated@));
        let translated_return = self.translate_type_descriptor(&mut return_type_str);
        let ghost parts = texts(translated@);
        let mut out: Vec<char> = Vec::new();
        push_str_chars(&mut out, "(");
        let mut i: usize = 0;
        assert(parts.take(0) =~= Seq::<Seq<char>>::empty());
        while i < translated.len()
            invariant
                i <= translated.len(),
                parts == texts(translated@),
                out@ == "("@ + joined(parts.take(i as int), ", "@),
            decreases translated.len() - i,
        {
            if i > 0 {
                push_str_chars(&mut out, ", ");
            }
            push_str_chars(&mut out, translated[i].as_str());
            proof {
                let upto = parts.take(i + 1);
                assert(upto.drop_last() =~= parts.take(i as int));
                assert(upto.last() == parts[i as int]);
                assert(out@ =~= "("@ + joined(upto, ", "@));
            }
            i += 1;
        }
        assert(parts.take(translated.len() as int) =~= parts);
        push_str_chars(&mut out, ") -> ");
        push_str_chars(&mut out, translated_return.as_str());
        let m = out.len();
        let text = from_chars(&out, 0, m);
        assert(out@.subrange(0, m as int) == out@);
        text
    }
}

} // verus!

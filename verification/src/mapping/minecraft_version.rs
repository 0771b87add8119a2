//! Game versions: three numbers, written `major.minor.patch`.

use crate::text::{
    decimal, find_from, from_chars, next_index_of, push_decimal, push_str_chars, to_chars,
};
use vstd::prelude::*;

verus! {

/// A version of the game. Versions are ordered by major, then minor, then
/// patch number.
#[derive(Debug, Clone, Copy, PartialEq, Eq, Ord)]
pub struct MinecraftVersion {
    pub major: u32,
    pub minor: u32,
    pub patch: u32,
}

/// Why a text is not a version.
#[derive(Debug, Clone, Copy, PartialEq, Eq)]
pub enum VersionError {
    /// The text is not made of three parts separated by dots.
    InvalidFormat,
    /// The first part is not a number that fits 32 bits.
    InvalidMajor,
    /// The second part is not a number that fits 32 bits.
    InvalidMinor,
    /// The third part is not a number that fits 32 bits.
    InvalidPatch,
}

/// The text that `VersionError::message` gives for a failure to read
/// `text`: a wrong format is reported with the text, a wrong part by its
/// place alone.
pub open spec fn version_error_text(error: VersionError, text: Seq<char>) -> Seq<char> {
    match error {
        VersionError::InvalidFormat => "Invalid version format: "@ + text
            + " (expected major.minor.patch)"@,
        VersionError::InvalidMajor => "Invalid major version"@,
        VersionError::InvalidMinor => "Invalid minor version"@,
        VersionError::InvalidPatch => "Invalid patch version"@,
    }
}

impl VersionError {
    /// A line that says what is wrong with `text` as a version.
    pub fn message(&self, text: &str) -> (line: String)
        ensures
            line@ == version_error_text(*self, text@),
    {
        let mut out: Vec<char> = Vec::new();
        match self {
            VersionError::InvalidFormat => {
                push_str_chars(&mut out, "Invalid version format: ");
                push_str_chars(&mut out, text);
                push_str_chars(&mut out, " (expected major.minor.patch)");
            },
            VersionError::InvalidMajor => {
                push_str_chars(&mut out, "Invalid major version");
            },
            VersionError::InvalidMinor => {
                push_str_chars(&mut out, "Invalid minor version");
            },
            VersionError::InvalidPatch => {
                push_str_chars(&mut out, "Invalid patch version");
            },
        }
        let n = out.len();
        let line = from_chars(&out, 0, n);
        assert(out@.subrange(0, n as int) == out@);
        assert(out@ =~= version_error_text(*self, text@));
        line
    }
}

/// Whether `c` is one of the ten decimal digits.
pub open spec fn is_digit(c: char) -> bool {
    '0' <= c <= '9'
}

/// The number that a sequence of decimal digits stands for.
pub open spec fn digits_value(s: Seq<char>) -> nat
    decreases s.len(),
{
    if s.len() == 0 {
        0
    } else {
        digits_value(s.drop_last()) * 10 + (s.last() as u32 - '0' as u32) as nat
    }
}

/// Whether `s` is made of decimal digits only.
pub open spec fn all_digits(s: Seq<char>) -> bool {
    forall|i: int| 0 <= i < s.len() ==> is_digit(#[trigger] s[i])
}

/// `s` without one leading `+`, if it has one.
pub open spec fn without_plus(s: Seq<char>) -> Seq<char> {
    if s.len() > 0 && s[0] == '+' {
        s.skip(1)
    } else {
        s
    }
}

/// The number that a part of a version stands for: decimal digits, at
/// least one, after an optional `+`, with a value that fits 32 bits.
pub open spec fn parse_number(s: Seq<char>) -> Option<u32> {
    let digits = without_plus(s);
    if digits.len() > 0 && all_digits(digits) && digits_value(digits) <= u32::MAX {
        Some(digits_value(digits) as u32)
    } else {
        None
    }
}

/// The version that a text stands for.
///
/// The text must hold exactly two dots. The three parts around them are
/// read as numbers; of several parts that fail, the first is reported.
pub open spec fn parse_version(s: Seq<char>) -> Result<MinecraftVersion, VersionError> {
    let first = next_index_of(s, '.', 0);
    let second = next_index_of(s, '.', first + 1);
    let third = next_index_of(s, '.', second + 1);
    if first >= s.len() || second >= s.len() || third < s.len() {
        Err(VersionError::InvalidFormat)
    } else {
        match (
            parse_number(s.subrange(0, first)),
            parse_number(s.subrange(first + 1, second)),
            parse_number(s.subrange(second + 1, s.len() as int)),
        ) {
            (None, _, _) => Err(VersionError::InvalidMajor),
            (Some(_), None, _) => Err(VersionError::InvalidMinor),
            (Some(_), Some(_), None) => Err(VersionError::InvalidPatch),
            (Some(major), Some(minor), Some(patch)) => Ok(MinecraftVersion { major, minor, patch }),
        }
    }
}

proof fn digits_value_grows(s: Seq<char>, i: int)
    requires
        0 <= i <= s.len(),
        all_digits(s),
    ensures
        digits_value(s.take(i)) <= digits_value(s),
    decreases s.len() - i,
{
    if i == s.len() {
        assert(s.take(i) =~= s);
    } else {
        digits_value_grows(s, i + 1);
        assert(s.take(i + 1).drop_last() =~= s.take(i));
        assert(is_digit(s[i]));
        assert(s.take(i + 1).last() == s[i]);
    }
}

/// Reads `v[from..to]` as a number.
fn read_number(v: &Vec<char>, from: usize, to: usize) -> (number: Option<u32>)
    requires
        from <= to <= v.len(),
    ensures
        number == parse_number(v@.subrange(from as int, to as int)),
{
    let ghost s = v@.subrange(from as int, to as int);
    let start: usize = if from < to && v[from] == '+' {
        from + 1
    } else {
        from
    };
    let ghost digits = v@.subrange(start as int, to as int);
    assert(digits =~= without_plus(s));
    if start == to {
        return None;
    }
    let mut value: u64 = 0;
    let mut i: usize = start;
    while i < to
        invariant
            from <= start <= i <= to <= v.len(),
            s == v@.subrange(from as int, to as int),
            digits == v@.subrange(start as int, to as int),
            digits.len() > 0,
            digits == without_plus(s),
            forall|j: int| 0 <= j < i - start ==> is_digit(#[trigger] digits[j]),
            value == digits_value(digits.take(i - start)),
            value <= u32::MAX,
        decreases to - i,
    {
        let c = v[i];
        assert(c == digits[i - start]);
        if !('0' <= c && c <= '9') {
            assert(!is_digit(digits[i - start]));
            return None;
        }
        let d: u64 = (c as u32 - '0' as u32) as u64;
        let next: u64 = value * 10 + d;
        proof {
            assert(digits.take(i - start + 1).drop_last() =~= digits.take(i - start));
            assert(digits.take(i - start + 1).last() == c);
            assert(next == digits_value(digits.take(i - start + 1)));
        }
        if next > 0xFFFF_FFFF {
            proof {
                // Every later character either is no digit or makes the value larger.
                if all_digits(digits) {
                    digits_value_grows(digits, i - start + 1);
                }
            }
            return None;
        }
        value = next;
        i += 1;
    }
    assert(digits.take(to - start) =~= digits);
    Some(value as u32)
}

impl MinecraftVersion {
    /// The version `major.minor.patch`.
    pub fn new(major: u32, minor: u32, patch: u32) -> (version: MinecraftVersion)
        ensures
            version == (MinecraftVersion { major, minor, patch }),
    {
        MinecraftVersion { major, minor, patch }
    }

    /// The text of the version: its three numbers in decimal, with dots
    /// between them.
    pub open spec fn text(self) -> Seq<char> {
        decimal(self.major as nat) + "."@ + decimal(self.minor as nat) + "."@ + decimal(
            self.patch as nat,
        )
    }

    /// Writes the version as `major.minor.patch`.
    pub fn to_string(&self) -> (text: String)
        ensures
            text@ == self.text(),
    {
        let mut out: Vec<char> = Vec::new();
        push_decimal(&mut out, self.major as u64);
        push_str_chars(&mut out, ".");
        push_decimal(&mut out, self.minor as u64);
        push_str_chars(&mut out, ".");
        push_decimal(&mut out, self.patch as u64);
        let n = out.len();
        let text = from_chars(&out, 0, n);
        assert(out@.subrange(0, n as int) == out@);
        assert(out@ =~= self.text());
        text
    }

    /// Whether `self` is an earlier version than `other`.
    pub open spec fn earlier_than(self, other: MinecraftVersion) -> bool {
        self.major < other.major || (self.major == other.major && (self.minor < other.minor || (
        self.minor == other.minor && self.patch < other.patch)))
    }

    /// Whether this version comes before `other`.
    pub fn precedes(&self, other: &MinecraftVersion) -> (earlier: bool)
        ensures
            earlier == self.earlier_than(*other),
    {
        self.major < other.major || (self.major == other.major && (self.minor < other.minor || (
        self.minor == other.minor && self.patch < other.patch)))
    }

    /// Reads a version from its text.
    pub fn parse(text: &str) -> (version: Result<MinecraftVersion, VersionError>)
        ensures
            version == parse_version(text@),
    {
        let v = to_chars(text);
        let n = v.len();
        let first = find_from(&v, '.', 0);
        if first >= n {
            return Err(VersionError::InvalidFormat);
        }
        let second = find_from(&v, '.', first + 1);
        if second >= n {
            return Err(VersionError::InvalidFormat);
        }
        let third = find_from(&v, '.', second + 1);
        if third < n {
            return Err(VersionError::InvalidFormat);
        }
        let major = match read_number(&v, 0, first) {
            Some(number) => number,
            None => {
                return Err(VersionError::InvalidMajor);
            },
        };
        let minor = match read_number(&v, first + 1, second) {
            Some(number) => number,
            None => {
                return Err(VersionError::InvalidMinor);
            },
        };
        let patch = match read_number(&v, second + 1, n) {
            Some(number) => number,
            None => {
                return Err(VersionError::InvalidPatch);
            },
        };
        Ok(MinecraftVersion { major, minor, patch })
    }
}

} // verus!

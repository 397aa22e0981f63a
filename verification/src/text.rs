//! Field names as the intermediate form writes them, and their decoding.

use vstd::prelude::*;
use vstd::string::StrSliceExecFns;
use vstd::std_specs::iter::IteratorSpec;
use vstd::utf8::*;

verus! {

/// The byte that a character is narrowed to: the low eight bits of its
/// code point.
pub open spec fn narrow_char(c: char) -> u8 {
    (c as u32 & 0xff) as u8
}

/// Every character of `s` narrowed to one byte, in order.
pub open spec fn narrow(s: Seq<char>) -> Seq<u8> {
    Seq::new(s.len(), |i: int| narrow_char(s[i]))
}

/// The text a field name stands for: its characters narrowed to bytes and
/// those bytes read as UTF-8. `None` where the bytes are not UTF-8.
pub open spec fn decoded_field(s: Seq<char>) -> Option<Seq<char>> {
    if valid_utf8(narrow(s)) {
        Some(decode_utf8(narrow(s)))
    } else {
        None
    }
}

/// Narrows each character of `s` to one byte.
pub fn narrow_bytes(s: &str) -> (bytes: Vec<u8>)
    ensures
        bytes@ == narrow(s@),
{
    let mut bytes: Vec<u8> = Vec::new();
    let mut it = s.chars();
    let ghost mut done: int = 0;
    loop
        invariant
            0 <= done <= s@.len(),
            it.remaining() == s@.subrange(done, s@.len() as int),
            bytes@ == narrow(s@.subrange(0, done)),
        decreases s@.len() - done,
    {
        broadcast use vstd::string::group_string_axioms;
        match it.next() {
            Some(c) => {
                let b: u8 = (c as u32 & 0xff) as u8;
                bytes.push(b);
                proof {
                    assert(c == s@[done]);
                    done = done + 1;
                    assert(bytes@ =~= narrow(s@.subrange(0, done)));
                }
            },
            None => {
                assert(s@.subrange(0, done) =~= s@);
                return bytes;
            },
        }
    }
}

/// Whether two strings hold the same characters.
pub fn same_text(a: &str, b: &str) -> (r: bool)
    ensures
        r == (a@ == b@),
{
    let mut ia = a.chars();
    let mut ib = b.chars();
    let ghost mut done: int = 0;
    loop
        invariant
            0 <= done <= a@.len(),
            done <= b@.len(),
            ia.remaining() == a@.subrange(done, a@.len() as int),
            ib.remaining() == b@.subrange(done, b@.len() as int),
            a@.subrange(0, done) == b@.subrange(0, done),
        decreases a@.len() - done,
    {
        broadcast use vstd::string::group_string_axioms;
        let ca = ia.next();
        let cb = ib.next();
        match (ca, cb) {
            (Some(x), Some(y)) => {
                if x != y {
                    assert(a@[done] != b@[done]);
                    return false;
                }
                proof {
                    assert(a@.subrange(0, done + 1) =~= a@.subrange(0, done).push(x));
                    assert(b@.subrange(0, done + 1) =~= b@.subrange(0, done).push(y));
                    done = done + 1;
                }
            },
            (None, None) => {
                assert(a@.subrange(0, done) =~= a@);
                assert(b@.subrange(0, done) =~= b@);
                return true;
            },
            _ => {
                assert(a@.len() != b@.len());
                return false;
            },
        }
    }
}

/// Whether `s` ends in `suffix`.
pub open spec fn has_suffix(s: Seq<char>, suffix: Seq<char>) -> bool {
    s.len() >= suffix.len() && s.subrange(s.len() - suffix.len(), s.len() as int) == suffix
}

/// Whether `s` ends in `suffix`.
pub fn ends_with(s: &str, suffix: &str) -> (r: bool)
    ensures
        r == has_suffix(s@, suffix@),
{
    let n: usize = s.unicode_len();
    let m: usize = suffix.unicode_len();
    if n < m {
        return false;
    }
    let start: usize = n - m;
    let ghost tail = s@.subrange(start as int, n as int);
    let mut i: usize = 0;
    while i < m
        invariant
            i <= m,
            n == s@.len(),
            m == suffix@.len(),
            start == n - m,
            tail == s@.subrange(start as int, n as int),
            forall|j: int| 0 <= j < i ==> tail[j] == suffix@[j],
        decreases m - i,
    {
        if s.get_char(start + i) != suffix.get_char(i) {
            assert(tail[i as int] != suffix@[i as int]);
            return false;
        }
        i = i + 1;
    }
    assert(tail =~= suffix@);
    true
}

/// Whether the character `c` occurs in `s`.
pub fn contains_char(s: &str, c: char) -> (r: bool)
    ensures
        r == s@.contains(c),
{
    let mut it = s.chars();
    let ghost mut done: int = 0;
    loop
        invariant
            0 <= done <= s@.len(),
            it.remaining() == s@.subrange(done, s@.len() as int),
            forall|j: int| 0 <= j < done ==> s@[j] != c,
        decreases s@.len() - done,
    {
        broadcast use vstd::string::group_string_axioms;
        match it.next() {
            Some(x) => {
                if x == c {
                    assert(s@[done] == c);
                    return true;
                }
                proof {
                    done = done + 1;
                }
            },
            None => {
                return false;
            },
        }
    }
}

/// `String::from_utf8` of the standard library, with its error dropped.
///
/// Trusted: the call succeeds exactly on well-formed UTF-8, and the string
/// it then returns holds the characters that the bytes encode.
#[verifier::external_body]
pub(crate) fn string_from_utf8(bytes: Vec<u8>) -> (r: Option<String>)
    ensures
        r is Some <==> valid_utf8(bytes@),
        r is Some ==> r->Some_0@ == decode_utf8(bytes@),
{
    String::from_utf8(bytes).ok()
}

/// Decodes a field name of the intermediate form.
///
/// The intermediate form writes each byte of a name's UTF-8 encoding as a
/// character of its own, so the name is recovered by narrowing every
/// character to a byte and reading the bytes as UTF-8. Characters above
/// `U+00FF` lose their upper bits on the way; that is part of the format as
/// it is consumed today. `None` where the bytes are not UTF-8.
pub fn jstring_to_rstring(jstring: &str) -> (r: Option<String>)
    ensures
        r is Some <==> decoded_field(jstring@) is Some,
        r is Some ==> Some(r->Some_0@) == decoded_field(jstring@),
{
    let bytes = narrow_bytes(jstring);
    string_from_utf8(bytes)
}

} // verus!

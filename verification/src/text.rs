//! ASCII case-insensitive text comparison.

use vstd::prelude::*;
use vstd::string::StringSliceAdditionalSpecFns;

verus! {

/// The ASCII lower-case form of a byte; every other byte is unchanged.
pub open spec fn ascii_lower(b: u8) -> u8 {
    if 65 <= b <= 90 {
        (b + 32) as u8
    } else {
        b
    }
}

/// Two byte strings are equal once ASCII letters are folded to lower case.
pub open spec fn ascii_eq_ignore_case_bytes(a: Seq<u8>, b: Seq<u8>) -> bool {
    &&& a.len() == b.len()
    &&& forall|i: int| 0 <= i < a.len() ==> #[trigger] ascii_lower(a[i]) == ascii_lower(b[i])
}

/// Two strings are an ASCII case-insensitive match: their UTF-8 encodings are
/// equal once ASCII letters are folded to lower case.
pub open spec fn ascii_eq_ignore_case(a: Seq<char>, b: Seq<char>) -> bool {
    ascii_eq_ignore_case_bytes(vstd::utf8::encode_utf8(a), vstd::utf8::encode_utf8(b))
}

fn lower_byte(b: u8) -> (r: u8)
    ensures
        r == ascii_lower(b),
{
    if 65 <= b && b <= 90 {
        b + 32
    } else {
        b
    }
}

/// Compares two strings, ignoring the case of ASCII letters.
pub fn eq_ignore_ascii_case(a: &str, b: &str) -> (r: bool)
    ensures
        r == ascii_eq_ignore_case(a@, b@),
{
    let ab = a.as_bytes();
    let bb = b.as_bytes();
    if ab.len() != bb.len() {
        return false;
    }
    let n = ab.len();
    let mut i: usize = 0;
    while i < n
        invariant
            n == ab@.len(),
            n == bb@.len(),
            ab@ == a.spec_bytes(),
            bb@ == b.spec_bytes(),
            i <= n,
            forall|j: int| 0 <= j < i ==> #[trigger] ascii_lower(ab@[j]) == ascii_lower(bb@[j]),
        decreases n - i,
    {
        if lower_byte(ab[i]) != lower_byte(bb[i]) {
            return false;
        }
        i = i + 1;
    }
    true
}

/// ASCII case-insensitive equality is symmetric.
pub proof fn lemma_ascii_eq_ignore_case_symmetric(a: Seq<char>, b: Seq<char>)
    requires
        ascii_eq_ignore_case(a, b),
    ensures
        ascii_eq_ignore_case(b, a),
{
}

/// ASCII case-insensitive equality is transitive.
pub proof fn lemma_ascii_eq_ignore_case_transitive(a: Seq<char>, b: Seq<char>, c: Seq<char>)
    requires
        ascii_eq_ignore_case(a, b),
        ascii_eq_ignore_case(b, c),
    ensures
        ascii_eq_ignore_case(a, c),
{
    let ea = vstd::utf8::encode_utf8(a);
    let eb = vstd::utf8::encode_utf8(b);
    let ec = vstd::utf8::encode_utf8(c);
    assert forall|i: int| 0 <= i < ea.len() implies #[trigger] ascii_lower(ea[i]) == ascii_lower(
        ec[i],
    ) by {
        assert(ascii_lower(ea[i]) == ascii_lower(eb[i]));
        assert(ascii_lower(eb[i]) == ascii_lower(ec[i]));
    }
}

/// The ASCII lower-case form of a character; every other character is
/// unchanged.
pub open spec fn char_ascii_lower(c: char) -> int {
    if 'A' <= c <= 'Z' {
        (c as int) + 32
    } else {
        c as int
    }
}

/// On ASCII text, two strings are an ASCII case-insensitive match exactly
/// when they have the same length and agree character by character once
/// upper-case letters are lowered: `"LOGITECH"` matches `"logitech"`, while a
/// different letter, a missing or an extra character breaks the match.
pub proof fn lemma_ascii_eq_ignore_case_on_ascii_text(a: Seq<char>, b: Seq<char>)
    requires
        vstd::utf8::is_ascii_chars(a),
        vstd::utf8::is_ascii_chars(b),
    ensures
        ascii_eq_ignore_case(a, b) <==> (a.len() == b.len() && forall|i: int|
            0 <= i < a.len() ==> #[trigger] char_ascii_lower(a[i]) == char_ascii_lower(b[i])),
{
    vstd::utf8::is_ascii_chars_encode_utf8(a);
    vstd::utf8::is_ascii_chars_encode_utf8(b);
    let ea = vstd::utf8::encode_utf8(a);
    let eb = vstd::utf8::encode_utf8(b);
    assert forall|i: int| 0 <= i < a.len() && i < b.len() implies (ascii_lower(ea[i])
        == ascii_lower(eb[i])) == (char_ascii_lower(a[i]) == char_ascii_lower(b[i])) by {
        let x = a[i];
        let y = b[i];
        assert(x as u8 == ea[i]);
        assert(y as u8 == eb[i]);
        assert('\0' <= x <= '\u{7f}');
        assert('\0' <= y <= '\u{7f}');
        assert((x as u32) < 128 ==> (x as u8) as u32 == x as u32);
        assert((y as u32) < 128 ==> (y as u8) as u32 == y as u32);
    }
    if a.len() == b.len() {
        if ascii_eq_ignore_case(a, b) {
            assert forall|i: int| 0 <= i < a.len() implies #[trigger] char_ascii_lower(a[i])
                == char_ascii_lower(b[i]) by {
                assert(ascii_lower(ea[i]) == ascii_lower(eb[i]));
            }
        } else {
            let i = choose|i: int| 0 <= i < ea.len() && #[trigger] ascii_lower(ea[i]) != ascii_lower(eb[i]);
            assert(char_ascii_lower(a[i]) != char_ascii_lower(b[i]));
        }
    }
}

} // verus!

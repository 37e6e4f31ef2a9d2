//! Choice of the G513's primary evdev keyboard endpoint among the entries of
//! `/dev/input/by-id`.

use vstd::prelude::*;
use vstd::string::StringSliceAdditionalSpecFns;

verus! {

/// `pattern` occurs in `text` at byte offset `at`.
pub open spec fn occurs_at(text: Seq<u8>, pattern: Seq<u8>, at: int) -> bool {
    &&& 0 <= at
    &&& at + pattern.len() <= text.len()
    &&& text.subrange(at, at + pattern.len()) == pattern
}

/// `text` starts with `pattern`.
pub open spec fn has_prefix(text: Seq<u8>, pattern: Seq<u8>) -> bool {
    occurs_at(text, pattern, 0)
}

/// `text` ends with `pattern`.
pub open spec fn has_suffix(text: Seq<u8>, pattern: Seq<u8>) -> bool {
    occurs_at(text, pattern, text.len() - pattern.len())
}

/// `pattern` occurs somewhere in `text`.
pub open spec fn has_infix(text: Seq<u8>, pattern: Seq<u8>) -> bool {
    exists|at: int| #[trigger] occurs_at(text, pattern, at)
}

/// The by-id name of the G513's primary keyboard event endpoint: a
/// `usb-Logitech_G513_Carbon_…-event-kbd` link that is not the `if01`
/// interface.
pub open spec fn is_keyboard_input_spec(name: Seq<char>) -> bool {
    let b = vstd::utf8::encode_utf8(name);
    &&& has_prefix(b, vstd::utf8::encode_utf8("usb-Logitech_G513_Carbon_"@))
    &&& has_suffix(b, vstd::utf8::encode_utf8("-event-kbd"@))
    &&& !has_infix(b, vstd::utf8::encode_utf8("-if01-"@))
}

fn occurs_at_exec(text: &[u8], pattern: &[u8], at: usize) -> (r: bool)
    ensures
        r == occurs_at(text@, pattern@, at as int),
{
    if at > text.len() || pattern.len() > text.len() - at {
        return false;
    }
    let n = pattern.len();
    let mut i: usize = 0;
    while i < n
        invariant
            n == pattern@.len(),
            at + n <= text.len(),
            text.len() == text@.len(),
            i <= n,
            forall|j: int| 0 <= j < i ==> text@[at + j] == #[trigger] pattern@[j],
        decreases n - i,
    {
        if text[at + i] != pattern[i] {
            assert(text@.subrange(at as int, at + n)[i as int] != pattern@[i as int]);
            return false;
        }
        i = i + 1;
    }
    assert(text@.subrange(at as int, at + n) =~= pattern@);
    true
}

fn starts_with(text: &str, pattern: &str) -> (r: bool)
    ensures
        r == has_prefix(text.spec_bytes(), pattern.spec_bytes()),
{
    occurs_at_exec(text.as_bytes(), pattern.as_bytes(), 0)
}

fn ends_with(text: &str, pattern: &str) -> (r: bool)
    ensures
        r == has_suffix(text.spec_bytes(), pattern.spec_bytes()),
{
    let t = text.as_bytes();
    let p = pattern.as_bytes();
    if p.len() > t.len() {
        return false;
    }
    occurs_at_exec(t, p, t.len() - p.len())
}

fn contains(text: &str, pattern: &str) -> (r: bool)
    ensures
        r == has_infix(text.spec_bytes(), pattern.spec_bytes()),
{
    let t = text.as_bytes();
    let p = pattern.as_bytes();
    if p.len() > t.len() {
        return false;
    }
    let last = t.len() - p.len();
    let mut at: usize = 0;
    while at < last
        invariant
            t@ == text.spec_bytes(),
            p@ == pattern.spec_bytes(),
            last == t@.len() - p@.len(),
            at <= last,
            forall|k: int| 0 <= k < at ==> !#[trigger] occurs_at(t@, p@, k),
        decreases last - at,
    {
        if occurs_at_exec(t, p, at) {
            return true;
        }
        at = at + 1;
    }
    if occurs_at_exec(t, p, last) {
        return true;
    }
    assert forall|k: int| !#[trigger] occurs_at(t@, p@, k) by {
        if 0 <= k < at {
        }
    }
    false
}

/// Whether a `/dev/input/by-id` entry name is the G513's primary keyboard
/// event endpoint; the `if01` keyboard endpoint is deliberately not used.
pub fn is_keyboard_input_name(name: &str) -> (r: bool)
    ensures
        r == is_keyboard_input_spec(name@),
{
    starts_with(name, "usb-Logitech_G513_Carbon_") && ends_with(name, "-event-kbd") && !contains(
        name,
        "-if01-",
    )
}

/// The position of the first entry name, in the order given, that is the
/// G513's primary keyboard event endpoint.
pub fn select_keyboard_input(names: &[String]) -> (r: Option<usize>)
    ensures
        match r {
            Some(i) => {
                &&& i < names@.len()
                &&& is_keyboard_input_spec(names@[i as int]@)
                &&& forall|j: int| 0 <= j < i ==> !is_keyboard_input_spec(#[trigger] names@[j]@)
            },
            None => forall|j: int|
                0 <= j < names@.len() ==> !is_keyboard_input_spec(#[trigger] names@[j]@),
        },
{
    let n = names.len();
    let mut i: usize = 0;
    while i < n
        invariant
            n == names@.len(),
            i <= n,
            forall|j: int| 0 <= j < i ==> !is_keyboard_input_spec(#[trigger] names@[j]@),
        decreases n - i,
    {
        if is_keyboard_input_name(names[i].as_str()) {
            return Some(i);
        }
        i = i + 1;
    }
    None
}

/// `pattern` occurs in `text` at character position `at`.
pub open spec fn chars_occur_at(text: Seq<char>, pattern: Seq<char>, at: int) -> bool {
    &&& 0 <= at
    &&& at + pattern.len() <= text.len()
    &&& text.subrange(at, at + pattern.len()) == pattern
}

proof fn lemma_ascii_occurs_at(text: Seq<char>, pattern: Seq<char>, at: int)
    requires
        vstd::utf8::is_ascii_chars(text),
        vstd::utf8::is_ascii_chars(pattern),
    ensures
        occurs_at(vstd::utf8::encode_utf8(text), vstd::utf8::encode_utf8(pattern), at)
            <==> chars_occur_at(text, pattern, at),
{
    vstd::utf8::is_ascii_chars_encode_utf8(text);
    vstd::utf8::is_ascii_chars_encode_utf8(pattern);
    let t = vstd::utf8::encode_utf8(text);
    let p = vstd::utf8::encode_utf8(pattern);
    if 0 <= at && at + pattern.len() <= text.len() {
        if t.subrange(at, at + p.len()) == p {
            assert forall|i: int| 0 <= i < pattern.len() implies #[trigger] text.subrange(
                at,
                at + pattern.len(),
            )[i] == pattern[i] by {
                let x = text[at + i];
                let y = pattern[i];
                assert(t.subrange(at, at + p.len())[i] == p[i]);
                assert(x as u8 == t[at + i]);
                assert(y as u8 == p[i]);
                assert('\0' <= x <= '\u{7f}');
                assert('\0' <= y <= '\u{7f}');
                assert((x as u32) < 128 ==> (x as u8) as u32 == x as u32);
                assert((y as u32) < 128 ==> (y as u8) as u32 == y as u32);
            }
            assert(text.subrange(at, at + pattern.len()) =~= pattern);
        }
        if text.subrange(at, at + pattern.len()) == pattern {
            assert forall|i: int| 0 <= i < p.len() implies #[trigger] t.subrange(at, at + p.len())[i]
                == p[i] by {
                assert(text.subrange(at, at + pattern.len())[i] == pattern[i]);
                assert(text[at + i] as u8 == t[at + i]);
                assert(pattern[i] as u8 == p[i]);
            }
            assert(t.subrange(at, at + p.len()) =~= p);
        }
    }
}

/// On ASCII names, the keyboard endpoint is recognised character by
/// character: the name starts with "usb-Logitech_G513_Carbon_", ends with
/// "-event-kbd", and nowhere holds "-if01-".
pub proof fn lemma_keyboard_input_name_on_ascii(name: Seq<char>)
    requires
        vstd::utf8::is_ascii_chars(name),
    ensures
        is_keyboard_input_spec(name) <==> {
            &&& chars_occur_at(name, "usb-Logitech_G513_Carbon_"@, 0)
            &&& chars_occur_at(name, "-event-kbd"@, name.len() - 10)
            &&& !exists|at: int| #[trigger] chars_occur_at(name, "-if01-"@, at)
        },
{
    reveal_strlit("usb-Logitech_G513_Carbon_");
    reveal_strlit("-event-kbd");
    reveal_strlit("-if01-");
    let prefix = "usb-Logitech_G513_Carbon_"@;
    let suffix = "-event-kbd"@;
    let infix = "-if01-"@;
    assert(vstd::utf8::is_ascii_chars(prefix));
    assert(vstd::utf8::is_ascii_chars(suffix));
    assert(vstd::utf8::is_ascii_chars(infix));
    vstd::utf8::is_ascii_chars_encode_utf8(name);
    vstd::utf8::is_ascii_chars_encode_utf8(suffix);
    let b = vstd::utf8::encode_utf8(name);
    lemma_ascii_occurs_at(name, prefix, 0);
    lemma_ascii_occurs_at(name, suffix, name.len() - 10);
    assert(b.len() - vstd::utf8::encode_utf8(suffix).len() == name.len() - 10);
    assert forall|at: int| #[trigger] occurs_at(b, vstd::utf8::encode_utf8(infix), at) <==> chars_occur_at(
        name,
        infix,
        at,
    ) by {
        lemma_ascii_occurs_at(name, infix, at);
    }
    if has_infix(b, vstd::utf8::encode_utf8(infix)) {
        let at = choose|at: int| #[trigger] occurs_at(b, vstd::utf8::encode_utf8(infix), at);
        assert(chars_occur_at(name, infix, at));
    }
    if exists|at: int| #[trigger] chars_occur_at(name, infix, at) {
        let at = choose|at: int| #[trigger] chars_occur_at(name, infix, at);
        assert(occurs_at(b, vstd::utf8::encode_utf8(infix), at));
    }
}

} // verus!

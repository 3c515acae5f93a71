//! What a caller's text must look like to be admitted.
use vstd::utf8::encode_utf8;
use vstd::utf8::is_ascii_chars;
use vstd::utf8::is_ascii_chars_encode_utf8;
use vstd::prelude::*;
use crate::value::Text;

verus! {

broadcast use vstd::string::group_string_axioms;

/// The characters with the Unicode property `White_Space`.
pub open spec fn is_space(c: char) -> bool {
    ||| '\u{9}' <= c <= '\u{d}'
    ||| c == '\u{20}'
    ||| c == '\u{85}'
    ||| c == '\u{a0}'
    ||| c == '\u{1680}'
    ||| '\u{2000}' <= c <= '\u{200a}'
    ||| c == '\u{2028}'
    ||| c == '\u{2029}'
    ||| c == '\u{202f}'
    ||| c == '\u{205f}'
    ||| c == '\u{3000}'
}

fn space(c: char) -> (res: bool)
    ensures
        res == is_space(c),
{
    ('\u{9}' <= c && c <= '\u{d}') || c == '\u{20}' || c == '\u{85}' || c == '\u{a0}' || c
        == '\u{1680}' || ('\u{2000}' <= c && c <= '\u{200a}') || c == '\u{2028}' || c == '\u{2029}'
        || c == '\u{202f}' || c == '\u{205f}' || c == '\u{3000}'
}

/// The control characters: the Unicode category `Cc`.
pub open spec fn is_control(c: char) -> bool {
    c <= '\u{1f}' || '\u{7f}' <= c <= '\u{9f}'
}

pub fn control(c: char) -> (res: bool)
    ensures
        res == is_control(c),
{
    c <= '\u{1f}' || ('\u{7f}' <= c && c <= '\u{9f}')
}

/// The length of a text in UTF-8 bytes.
pub open spec fn byte_len(text: Text) -> nat {
    encode_utf8(text).len()
}

/// The length of a string in bytes.
pub fn bytes_in(s: &str) -> (res: usize)
    ensures
        res == byte_len(s@),
{
    s.as_bytes().len()
}

/// A text that says something, fits and holds no NUL.
pub open spec fn is_bounded(s: Text, max: nat) -> bool {
    &&& exists|i: int| 0 <= i < s.len() && !is_space(#[trigger] s[i])
    &&& byte_len(s) <= max
    &&& !s.contains('\0')
}

/// Whether a text is not blank, is at most `max` bytes long and holds no NUL.
pub fn bounded(s: &str, max: usize) -> (res: bool)
    ensures
        res == is_bounded(s@, max as nat),
{
    let mut solid = false;
    let mut nul = false;
    for c in it: s.chars()
        invariant
            it.seq() == s@,
            solid == exists|i: int| 0 <= i < it.index() && !is_space(#[trigger] s@[i]),
            nul == exists|i: int| 0 <= i < it.index() && #[trigger] s@[i] == '\0',
    {
        assert(c == s@[it.index() as int]);
        if !space(c) {
            solid = true;
        }
        if c == '\0' {
            nul = true;
        }
    }
    solid && !nul && bytes_in(s) <= max
}

/// A text that says something and holds no NUL.
pub open spec fn is_said(s: Text) -> bool {
    &&& exists|i: int| 0 <= i < s.len() && !is_space(#[trigger] s[i])
    &&& !s.contains('\0')
}

/// Whether a text is not blank and holds no NUL.
pub fn said(s: &str) -> (res: bool)
    ensures
        res == is_said(s@),
{
    let mut solid = false;
    for c in it: s.chars()
        invariant
            it.seq() == s@,
            solid == exists|i: int| 0 <= i < it.index() && !is_space(#[trigger] s@[i]),
    {
        assert(c == s@[it.index() as int]);
        if !space(c) {
            solid = true;
        }
    }
    solid && !has_nul(s)
}

/// A text without control characters.
pub open spec fn is_printable(s: Text) -> bool {
    forall|i: int| 0 <= i < s.len() ==> !is_control(#[trigger] s[i])
}

pub fn printable(s: &str) -> (res: bool)
    ensures
        res == is_printable(s@),
{
    let mut ok = true;
    for c in it: s.chars()
        invariant
            it.seq() == s@,
            ok == forall|i: int| 0 <= i < it.index() ==> !is_control(#[trigger] s@[i]),
    {
        assert(c == s@[it.index() as int]);
        if control(c) {
            ok = false;
        }
    }
    ok
}

/// A native identity: one to 256 bytes without control characters.
pub open spec fn is_native_identity(s: Text) -> bool {
    s.len() > 0 && byte_len(s) <= 256 && is_printable(s)
}

pub fn native_identity(s: &str) -> (res: bool)
    ensures
        res == is_native_identity(s@),
{
    !s.is_empty() && bytes_in(s) <= 256 && printable(s)
}

/// A lower-case hexadecimal digit.
pub open spec fn is_lower_hex(b: u8) -> bool {
    (0x30 <= b <= 0x39) || (0x61 <= b <= 0x66)
}

/// A hexadecimal digit of either case.
pub open spec fn is_hex(b: u8) -> bool {
    is_lower_hex(b) || (0x41 <= b <= 0x46)
}

/// Sixty-four lower-case hexadecimal digits.
pub open spec fn is_digest(s: Text) -> bool {
    let bytes = encode_utf8(s);
    bytes.len() == 64 && forall|i: int| 0 <= i < 64 ==> is_lower_hex(#[trigger] bytes[i])
}

/// Sixty-four hexadecimal digits of either case.
pub open spec fn is_hex_digest(s: Text) -> bool {
    let bytes = encode_utf8(s);
    bytes.len() == 64 && forall|i: int| 0 <= i < 64 ==> is_hex(#[trigger] bytes[i])
}

/// Whether a text is a digest as this library writes them.
pub fn valid_digest(s: &str) -> (res: bool)
    ensures
        res == is_digest(s@),
{
    let bytes = s.as_bytes();
    if bytes.len() != 64 {
        return false;
    }
    let mut i: usize = 0;
    while i < 64
        invariant
            i <= 64,
            bytes.len() == 64,
            bytes@ == encode_utf8(s@),
            forall|k: int| 0 <= k < i ==> is_lower_hex(#[trigger] bytes@[k]),
        decreases 64 - i,
    {
        let b: u8 = bytes[i];
        if !((0x30 <= b && b <= 0x39) || (0x61 <= b && b <= 0x66)) {
            assert(!is_lower_hex(bytes@[i as int]));
            return false;
        }
        i += 1;
    }
    true
}

/// Whether a text is a digest in either case.
pub fn hex_digest(s: &str) -> (res: bool)
    ensures
        res == is_hex_digest(s@),
{
    let bytes = s.as_bytes();
    if bytes.len() != 64 {
        return false;
    }
    let mut i: usize = 0;
    while i < 64
        invariant
            i <= 64,
            bytes.len() == 64,
            bytes@ == encode_utf8(s@),
            forall|k: int| 0 <= k < i ==> is_hex(#[trigger] bytes@[k]),
        decreases 64 - i,
    {
        let b: u8 = bytes[i];
        if !((0x30 <= b && b <= 0x39) || (0x61 <= b && b <= 0x66) || (0x41 <= b && b <= 0x46)) {
            assert(!is_hex(bytes@[i as int]));
            return false;
        }
        i += 1;
    }
    true
}

/// A path that starts at the root.
pub open spec fn is_absolute(path: Text) -> bool {
    path.len() > 0 && path[0] == '/'
}

pub fn absolute(path: &str) -> (res: bool)
    ensures
        res == is_absolute(path@),
{
    let mut chars = path.chars();
    match chars.next() {
        Some(c) => c == '/',
        None => false,
    }
}

/// A file name of one to 120 characters that names no directory.
pub open spec fn is_file_name(s: Text) -> bool {
    &&& 0 < s.len() <= 120
    &&& forall|i: int|
        0 <= i < s.len() ==> !is_control(#[trigger] s[i]) && s[i] != '/' && s[i] != '\\'
}

pub fn file_name(s: &str) -> (res: bool)
    ensures
        res == is_file_name(s@),
{
    let mut count: usize = 0;
    let mut ok = true;
    for c in it: s.chars()
        invariant
            it.seq() == s@,
            count == (if it.index() <= 121 { it.index() } else { 121 }),
            ok == forall|i: int|
                0 <= i < it.index() ==> !is_control(#[trigger] s@[i]) && s@[i] != '/' && s@[i]
                    != '\\',
    {
        assert(c == s@[it.index() as int]);
        if control(c) || c == '/' || c == '\\' {
            ok = false;
        }
        if count < 121 {
            count += 1;
        }
    }
    0 < count && count <= 120 && ok
}

/// Whether two strings hold the same text.
pub fn text_eq(a: &str, b: &str) -> (res: bool)
    ensures
        res == (a@ == b@),
{
    let x = a.as_bytes();
    let y = b.as_bytes();
    if x.len() != y.len() {
        return false;
    }
    let mut i: usize = 0;
    while i < x.len()
        invariant
            i <= x.len(),
            x.len() == y.len(),
            x@ == encode_utf8(a@),
            y@ == encode_utf8(b@),
            forall|k: int| 0 <= k < i ==> x@[k] == y@[k],
        decreases x.len() - i,
    {
        if x[i] != y[i] {
            assert(x@[i as int] != y@[i as int]);
            return false;
        }
        i += 1;
    }
    proof {
        assert(x@ =~= y@);
        vstd::utf8::encode_utf8_decode_utf8(a@);
        vstd::utf8::encode_utf8_decode_utf8(b@);
    }
    true
}

/// The bytes agree up to `n`, where the first ends or holds the smaller byte.
pub open spec fn parts_at(a: Seq<u8>, b: Seq<u8>, n: int) -> bool {
    &&& 0 <= n <= a.len()
    &&& n < b.len()
    &&& forall|k: int| 0 <= k < n ==> a[k] == b[k]
    &&& n == a.len() || a[n] < b[n]
}

/// The order of texts by their UTF-8 bytes.
pub open spec fn precedes(a: Text, b: Text) -> bool {
    exists|n: int| parts_at(encode_utf8(a), encode_utf8(b), n)
}

/// Whether one text comes before another by its bytes.
pub fn text_before(a: &str, b: &str) -> (res: bool)
    ensures
        res == precedes(a@, b@),
{
    let x = a.as_bytes();
    let y = b.as_bytes();
    let mut i: usize = 0;
    while i < x.len() && i < y.len() && x[i] == y[i]
        invariant
            i <= x.len(),
            i <= y.len(),
            forall|k: int| 0 <= k < i ==> x@[k] == y@[k],
        decreases x.len() - i,
    {
        i += 1;
    }
    if i < y.len() && (i == x.len() || x[i] < y[i]) {
        assert(parts_at(x@, y@, i as int));
        true
    } else {
        assert forall|n: int| !parts_at(x@, y@, n) by {
            if parts_at(x@, y@, n) {
                if n < i {
                    assert(x@[n] == y@[n]);
                } else if n > i {
                    assert(x@[i as int] == y@[i as int]);
                }
            }
        }
        false
    }
}

/// No text comes before itself.
pub proof fn order_is_strict(a: Text)
    ensures
        !precedes(a, a),
{
    assert forall|n: int| !parts_at(encode_utf8(a), encode_utf8(a), n) by {
    }
}

/// The order carries over from one pair to the next.
pub proof fn order_is_transitive(a: Text, b: Text, c: Text)
    requires
        precedes(a, b),
        precedes(b, c),
    ensures
        precedes(a, c),
{
    let (x, y, z) = (encode_utf8(a), encode_utf8(b), encode_utf8(c));
    let m = choose|n: int| parts_at(x, y, n);
    let n = choose|n: int| parts_at(y, z, n);
    let least = if m <= n {
        m
    } else {
        n
    };
    assert(parts_at(x, z, least));
}

/// Of two texts that differ, one comes before the other.
pub proof fn order_is_total(a: Text, b: Text)
    requires
        a != b,
    ensures
        precedes(a, b) || precedes(b, a),
{
    let (x, y) = (encode_utf8(a), encode_utf8(b));
    if !precedes(a, b) && !precedes(b, a) {
        let n = if x.len() <= y.len() {
            x.len() as int
        } else {
            y.len() as int
        };
        agreement(x, y, n);
        if x.len() < y.len() {
            assert(parts_at(x, y, n));
        } else if y.len() < x.len() {
            assert(parts_at(y, x, n));
        } else {
            assert(x =~= y);
            vstd::utf8::encode_utf8_decode_utf8(a);
            vstd::utf8::encode_utf8_decode_utf8(b);
        }
    }
}

proof fn agreement(x: Seq<u8>, y: Seq<u8>, n: int)
    requires
        0 <= n <= x.len(),
        n <= y.len(),
        forall|m: int| !parts_at(x, y, m),
        forall|m: int| !parts_at(y, x, m),
    ensures
        forall|k: int| 0 <= k < n ==> x[k] == y[k],
    decreases n,
{
    if n > 0 {
        agreement(x, y, n - 1);
        assert(!parts_at(x, y, n - 1));
        assert(!parts_at(y, x, n - 1));
    }
}

/// Whether a text holds a NUL.
pub fn has_nul(s: &str) -> (res: bool)
    ensures
        res == s@.contains('\0'),
{
    let mut nul = false;
    for c in it: s.chars()
        invariant
            it.seq() == s@,
            nul == exists|i: int| 0 <= i < it.index() && #[trigger] s@[i] == '\0',
    {
        assert(c == s@[it.index() as int]);
        if c == '\0' {
            nul = true;
        }
    }
    nul
}

/// The empty text comes before every other.
pub proof fn nothing_precedes_empty(id: Text)
    requires
        id.len() > 0,
    ensures
        precedes(""@, id),
{
    reveal_strlit("");
    order_is_total(""@, id);
    assert(encode_utf8(""@).len() == 0);
}

/// A native identity is a text of 1 to 256 bytes without control characters.
pub proof fn identities_have_bounds(s: Text)
    ensures
        is_native_identity(s) <==> {
            &&& s.len() > 0
            &&& encode_utf8(s).len() <= 256
            &&& forall|i: int|
                0 <= i < s.len() ==> (#[trigger] s[i]) > '\u{1f}' && (s[i] < '\u{7f}' || s[i]
                    > '\u{9f}')
        },
{
}

/// A file name has 1 to 120 characters, none of them a control character or a slash of either kind.
pub proof fn file_names_have_bounds(s: Text)
    ensures
        is_file_name(s) <==> {
            &&& 1 <= s.len() <= 120
            &&& forall|i: int|
                0 <= i < s.len() ==> (#[trigger] s[i]) > '\u{1f}' && (s[i] < '\u{7f}' || s[i]
                    > '\u{9f}') && s[i] != '/' && s[i] != '\\'
        },
{
}

/// A digest is a text of sixty-four lower-case hexadecimal digits, and every such text is one.
/// Where the case does not count, every digest counts.
pub proof fn digests_are_hexadecimal(s: Text)
    ensures
        is_digest(s) ==> is_hex_digest(s),
        is_digest(s) ==> forall|i: int|
            0 <= i < 64 ==> {
                let b = #[trigger] encode_utf8(s)[i];
                b == '0' as u8 || b == '1' as u8 || b == '2' as u8 || b == '3' as u8 || b == '4' as u8
                    || b == '5' as u8 || b == '6' as u8 || b == '7' as u8 || b == '8' as u8 || b
                    == '9' as u8 || b == 'a' as u8 || b == 'b' as u8 || b == 'c' as u8 || b
                    == 'd' as u8 || b == 'e' as u8 || b == 'f' as u8
            },
        is_hex_digest(s) ==> encode_utf8(s).len() == 64,
        is_ascii_chars(s) && s.len() == 64 && (forall|i: int|
            0 <= i < 64 ==> '0' <= (#[trigger] s[i]) <= '9' || 'a' <= s[i] <= 'f') ==> is_digest(s),
        is_ascii_chars(s) && s.len() == 64 && (forall|i: int|
            0 <= i < 64 ==> '0' <= (#[trigger] s[i]) <= '9' || 'a' <= s[i] <= 'f' || 'A' <= s[i]
                <= 'F') ==> is_hex_digest(s),
{
    if is_ascii_chars(s) {
        is_ascii_chars_encode_utf8(s);
    }
}

/// A text is bounded exactly where it is said and has no more bytes than allowed.
pub proof fn bounded_texts_are_said(s: Text, max: nat)
    ensures
        is_bounded(s, max) <==> is_said(s) && encode_utf8(s).len() <= max,
        is_said(s) <==> !s.contains('\0') && !(forall|i: int|
            0 <= i < s.len() ==> is_space(#[trigger] s[i])),
{
}

} // verus!

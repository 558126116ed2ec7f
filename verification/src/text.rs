//! Text primitives used by the routing heuristics: substring search, ASCII
//! case folding, Unicode trimming and the token-count estimate.
//!
//! Substring relations are stated over the UTF-8 encoding of a string's
//! characters, which is how `str::contains` matches a `&str` pattern.
use vstd::prelude::*;
use vstd::string::StringSliceAdditionalSpecFns;
use vstd::utf8::{decode_utf8, encode_utf8, valid_utf8};

verus! {

broadcast use vstd::utf8::encode_utf8_decode_utf8;

/// `needle` occurs in `hay` starting at byte `i`.
pub open spec fn occurs_at(hay: Seq<u8>, needle: Seq<u8>, i: int) -> bool {
    &&& 0 <= i
    &&& i + needle.len() <= hay.len()
    &&& hay.subrange(i, i + needle.len()) == needle
}

/// `needle` occurs somewhere in `hay`.
pub open spec fn seq_contains(hay: Seq<u8>, needle: Seq<u8>) -> bool {
    exists|i: int| occurs_at(hay, needle, i)
}

/// The text `hay` contains the text `needle` (matched on their UTF-8 encodings).
pub open spec fn text_has(hay: Seq<char>, needle: Seq<char>) -> bool {
    seq_contains(encode_utf8(hay), encode_utf8(needle))
}

/// ASCII lower-casing of one byte; every other byte is left as it is.
pub open spec fn ascii_lower(b: u8) -> u8 {
    if 65 <= b <= 90 {
        (b + 32) as u8
    } else {
        b
    }
}

/// ASCII lower-casing of a byte string.
pub open spec fn lower_bytes(s: Seq<u8>) -> Seq<u8> {
    s.map_values(|b: u8| ascii_lower(b))
}

/// The text `hay`, ASCII-lower-cased, contains the text `needle`.
pub open spec fn lowered_text_has(hay: Seq<char>, needle: Seq<char>) -> bool {
    seq_contains(lower_bytes(encode_utf8(hay)), encode_utf8(needle))
}

/// The text `s`, ASCII-lower-cased, is exactly the text `lit`.
pub open spec fn lowered_text_is(s: Seq<char>, lit: Seq<char>) -> bool {
    lower_bytes(encode_utf8(s)) == encode_utf8(lit)
}

fn byte_lower(b: u8) -> (r: u8)
    ensures
        r == ascii_lower(b),
{
    if 65 <= b && b <= 90 {
        b + 32
    } else {
        b
    }
}

/// Does `needle` match `hay` at position `i`, comparing `hay` lower-cased when `fold` is set?
fn matches_at(hay: &[u8], needle: &[u8], i: usize, fold: bool) -> (r: bool)
    requires
        i + needle@.len() <= hay@.len(),
    ensures
        r == (if fold {
            lower_bytes(hay@).subrange(i as int, i + needle@.len()) == needle@
        } else {
            hay@.subrange(i as int, i + needle@.len()) == needle@
        }),
{
    let ghost h = if fold { lower_bytes(hay@) } else { hay@ };
    let mut j: usize = 0;
    while j < needle.len()
        invariant
            i + needle@.len() <= hay@.len(),
            hay@.len() == hay.len(),
            needle@.len() == needle.len(),
            j <= needle@.len(),
            h == (if fold { lower_bytes(hay@) } else { hay@ }),
            h.len() == hay@.len(),
            forall|k: int| 0 <= k < j ==> h[i + k] == needle@[k],
        decreases needle@.len() - j,
    {
        let b = if fold { byte_lower(hay[i + j]) } else { hay[i + j] };
        if b != needle[j] {
            assert(h.subrange(i as int, i + needle@.len())[j as int] != needle@[j as int]);
            return false;
        }
        j += 1;
    }
    assert(h.subrange(i as int, i + needle@.len()) =~= needle@);
    true
}

/// Substring search over byte strings, optionally lower-casing `hay` first.
fn bytes_search(hay: &[u8], needle: &[u8], fold: bool) -> (r: bool)
    ensures
        r == seq_contains(if fold { lower_bytes(hay@) } else { hay@ }, needle@),
{
    let ghost h = if fold { lower_bytes(hay@) } else { hay@ };
    if needle.len() > hay.len() {
        assert forall|i: int| !occurs_at(h, needle@, i) by {}
        return false;
    }
    let last = hay.len() - needle.len();
    let mut i: usize = 0;
    while i <= last
        invariant
            last == hay@.len() - needle@.len(),
            h == (if fold { lower_bytes(hay@) } else { hay@ }),
            h.len() == hay@.len(),
            i <= last + 1,
            forall|k: int| 0 <= k < i ==> !occurs_at(h, needle@, k),
        decreases last + 1 - i,
    {
        if matches_at(hay, needle, i, fold) {
            assert(occurs_at(h, needle@, i as int));
            return true;
        }
        if i == last {
            assert forall|k: int| !occurs_at(h, needle@, k) by {}
            return false;
        }
        i += 1;
    }
    assert forall|k: int| !occurs_at(h, needle@, k) by {}
    false
}

/// `str::contains` with a string pattern.
pub fn str_contains(hay: &str, needle: &str) -> (r: bool)
    ensures
        r == text_has(hay@, needle@),
{
    bytes_search(hay.as_bytes(), needle.as_bytes(), false)
}

/// Whether the ASCII-lower-cased `hay` contains `needle`.
pub fn str_contains_lowered(hay: &str, needle: &str) -> (r: bool)
    ensures
        r == lowered_text_has(hay@, needle@),
{
    bytes_search(hay.as_bytes(), needle.as_bytes(), true)
}

fn bytes_equal(a: &[u8], b: &[u8], fold: bool) -> (r: bool)
    ensures
        r == ((if fold { lower_bytes(a@) } else { a@ }) == b@),
{
    let ghost h = if fold { lower_bytes(a@) } else { a@ };
    if a.len() != b.len() {
        assert(h.len() != b@.len());
        return false;
    }
    let r = matches_at(a, b, 0, fold);
    assert(h.subrange(0, b@.len() as int) =~= h);
    r
}

/// String equality by characters.
pub fn str_eq(a: &str, b: &str) -> (r: bool)
    ensures
        r == (a@ == b@),
{
    let r = bytes_equal(a.as_bytes(), b.as_bytes(), false);
    proof {
        if r {
            assert(decode_utf8(encode_utf8(a@)) == decode_utf8(encode_utf8(b@)));
        }
    }
    r
}

/// Whether the ASCII-lower-cased `s` equals `lit`.
pub fn str_lowered_is(s: &str, lit: &str) -> (r: bool)
    ensures
        r == lowered_text_is(s@, lit@),
{
    bytes_equal(s.as_bytes(), lit.as_bytes(), true)
}

/// The Unicode `White_Space` property, the set that `char::is_whitespace` tests.
pub open spec fn is_white_space(c: char) -> bool {
    let u = c as u32;
    ||| 0x09 <= u <= 0x0D
    ||| u == 0x20
    ||| u == 0x85
    ||| u == 0xA0
    ||| u == 0x1680
    ||| 0x2000 <= u <= 0x200A
    ||| u == 0x2028
    ||| u == 0x2029
    ||| u == 0x202F
    ||| u == 0x205F
    ||| u == 0x3000
}

/// `s` without its leading white space.
pub open spec fn trim_start_seq(s: Seq<char>) -> Seq<char>
    decreases s.len(),
{
    if s.len() > 0 && is_white_space(s[0]) {
        trim_start_seq(s.drop_first())
    } else {
        s
    }
}

/// `s` without its trailing white space.
pub open spec fn trim_end_seq(s: Seq<char>) -> Seq<char>
    decreases s.len(),
{
    if s.len() > 0 && is_white_space(s.last()) {
        trim_end_seq(s.drop_last())
    } else {
        s
    }
}

/// `s` without leading and trailing white space.
pub open spec fn trim_seq(s: Seq<char>) -> Seq<char> {
    trim_end_seq(trim_start_seq(s))
}

/// Calls `str::trim`, which removes leading and trailing characters that have the
/// Unicode `White_Space` property. The contract states that result exactly.
#[verifier::external_body]
pub(crate) fn trim(s: &str) -> (r: &str)
    ensures
        r@ == trim_seq(s@),
{
    s.trim()
}

/// The token estimate for `n` bytes of text: `ceil(n / 4)`, saturated at `u32::MAX`.
pub open spec fn est_tokens(n: int) -> u32 {
    if (n + 3) / 4 > u32::MAX {
        u32::MAX
    } else {
        ((n + 3) / 4) as u32
    }
}

/// `ceil(n / 4)`, saturated at `u32::MAX`: the heuristic of about four bytes per token.
pub fn est_tokens_len(n: usize) -> (r: u32)
    ensures
        r == est_tokens(n as int),
{
    let q = n / 4 + if n % 4 == 0 { 0 } else { 1 };
    assert(q == (n + 3) / 4);
    if q > 4294967295 {
        4294967295
    } else {
        q as u32
    }
}

/// The UTF-8 byte length of a text.
pub open spec fn byte_len(s: Seq<char>) -> int {
    encode_utf8(s).len() as int
}

/// Token estimate of a text from its byte length.
pub fn estimate_text_tokens(text: &str) -> (r: u32)
    ensures
        r == est_tokens(byte_len(text@)),
{
    est_tokens_len(text.as_bytes().len())
}

/// `trim_start_seq` leaves nothing or a text that starts with a non-space.
proof fn lemma_trim_start_shape(s: Seq<char>)
    ensures
        trim_start_seq(s).len() == 0 || !is_white_space(trim_start_seq(s)[0]),
        trim_start_seq(s).len() <= s.len(),
        s.len() > 0 && !is_white_space(s.last()) ==> trim_start_seq(s).len() > 0
            && trim_start_seq(s).last() == s.last(),
    decreases s.len(),
{
    if s.len() > 0 && is_white_space(s[0]) {
        lemma_trim_start_shape(s.drop_first());
    }
}

/// `trim_end_seq` leaves nothing or a text that ends with a non-space, and it
/// keeps a non-space first character.
proof fn lemma_trim_end_shape(s: Seq<char>)
    ensures
        trim_end_seq(s).len() == 0 || !is_white_space(trim_end_seq(s).last()),
        s.len() > 0 && !is_white_space(s[0]) ==> trim_end_seq(s).len() > 0 && trim_end_seq(s)[0]
            == s[0],
    decreases s.len(),
{
    if s.len() > 0 && is_white_space(s.last()) {
        lemma_trim_end_shape(s.drop_last());
    }
}

/// Trimming twice is trimming once.
pub proof fn lemma_trim_idempotent(s: Seq<char>)
    ensures
        trim_seq(trim_seq(s)) == trim_seq(s),
{
    let a = trim_start_seq(s);
    let t = trim_end_seq(a);
    lemma_trim_start_shape(s);
    lemma_trim_end_shape(a);
    // t starts and ends with a non-space (or is empty), so neither trim changes it.
    assert(trim_start_seq(t) == t);
    assert(trim_end_seq(t) == t);
}

/// `s` starts with `p`.
pub open spec fn starts_with_text(s: Seq<char>, p: Seq<char>) -> bool {
    p.len() <= s.len() && s.take(p.len() as int) == p
}

/// Calls `str::strip_prefix`, which returns the rest of `s` after `prefix` when
/// `s` starts with it, and `None` otherwise.
#[verifier::external_body]
pub(crate) fn strip_prefix<'a>(s: &'a str, prefix: &str) -> (r: Option<&'a str>)
    ensures
        r is Some <==> starts_with_text(s@, prefix@),
        r matches Some(t) ==> t@ == s@.skip(prefix@.len() as int),
{
    s.strip_prefix(prefix)
}

/// Calls `std::str::from_utf8`, which accepts exactly the valid UTF-8 byte
/// strings and reads their characters.
#[verifier::external_body]
pub(crate) fn utf8_str(bytes: &[u8]) -> (r: Option<&str>)
    ensures
        r is Some <==> valid_utf8(bytes@),
        r matches Some(s) ==> s@ == decode_utf8(bytes@),
{
    std::str::from_utf8(bytes).ok()
}

/// Length of the first line of `s`: the index of its first line feed, or its length.
pub open spec fn line_end(s: Seq<char>) -> int
    decreases s.len(),
{
    if s.len() == 0 {
        0
    } else if s[0] == '\n' {
        0
    } else {
        1 + line_end(s.drop_first())
    }
}

/// The first line ends within the text, at a line feed when it ends before the
/// end of the text, and holds no line feed.
pub proof fn lemma_line_end_bounds(s: Seq<char>)
    ensures
        0 <= line_end(s) <= s.len(),
        line_end(s) < s.len() ==> s[line_end(s)] == '\n',
        forall|k: int| 0 <= k < line_end(s) ==> s[k] != '\n',
    decreases s.len(),
{
    if s.len() > 0 && s[0] != '\n' {
        lemma_line_end_bounds(s.drop_first());
        assert forall|k: int| 0 <= k < line_end(s) implies s[k] != '\n' by {
            if k > 0 {
                assert(s[k] == s.drop_first()[k - 1]);
            }
        }
    }
}

/// The lines of `s` as `str::lines` yields them: split at each line feed, a
/// carriage return just before a line feed removed, no line after a final line
/// feed, and no lines at all for an empty text.
pub open spec fn lines_spec(s: Seq<char>) -> Seq<Seq<char>>
    decreases s.len(),
{
    if s.len() == 0 {
        Seq::empty()
    } else {
        let i = line_end(s);
        proof {
            lemma_line_end_bounds(s);
        }
        if i >= s.len() {
            seq![s]
        } else {
            let raw = s.take(i);
            let line = if raw.len() > 0 && raw.last() == '\r' {
                raw.drop_last()
            } else {
                raw
            };
            seq![line] + lines_spec(s.skip(i + 1))
        }
    }
}

/// Calls `str::lines` and collects the lines it yields.
#[verifier::external_body]
pub(crate) fn str_lines(s: &str) -> (r: Vec<&str>)
    ensures
        r@.map_values(|x: &str| x@) == lines_spec(s@),
{
    s.lines().collect()
}

/// A text of lower-case ASCII letters reads the same after ASCII lower-casing.
pub proof fn lemma_lowercase_text_is_itself(s: Seq<char>)
    requires
        forall|i: int| 0 <= i < s.len() ==> 'a' <= #[trigger] s[i] <= 'z',
    ensures
        lowered_text_is(s, s),
{
    assert(vstd::utf8::is_ascii_chars(s));
    vstd::utf8::is_ascii_chars_encode_utf8(s);
    let e = encode_utf8(s);
    assert forall|i: int| 0 <= i < e.len() implies #[trigger] lower_bytes(e)[i] == e[i] by {
        assert(s[i] as u8 == e[i]);
        assert(97 <= e[i] <= 122);
    }
    assert(lower_bytes(e) =~= e);
}

} // verus!

//! Colours and their hexadecimal texts: `#rrggbb` and `#rrggbbaa`.

use vstd::prelude::*;
use vstd::utf8::{encode_utf8, is_ascii_chars, is_ascii_chars_encode_utf8, is_continuation_byte};

verus! {

/// A colour as egui paints it: red, green, blue and alpha, the colour
/// channels already multiplied by alpha.
#[derive(Clone, Copy, Debug, PartialEq, Eq, Structural)]
pub struct Rgba {
    pub r: u8,
    pub g: u8,
    pub b: u8,
    pub a: u8,
}

impl Rgba {
    /// An opaque colour.
    pub open spec fn rgb(r: u8, g: u8, b: u8) -> Rgba {
        Rgba { r, g, b, a: 255 }
    }

    pub open spec fn is_opaque(self) -> bool {
        self.a == 255
    }

    pub fn from_rgb(r: u8, g: u8, b: u8) -> (c: Rgba)
        ensures
            c == Rgba::rgb(r, g, b),
    {
        Rgba { r, g, b, a: 255 }
    }

    pub fn from_rgba_premultiplied(r: u8, g: u8, b: u8, a: u8) -> (c: Rgba)
        ensures
            c == (Rgba { r, g, b, a }),
    {
        Rgba { r, g, b, a }
    }

    /// Black at the given opacity.
    pub fn from_black_alpha(a: u8) -> (c: Rgba)
        ensures
            c == (Rgba { r: 0, g: 0, b: 0, a }),
    {
        Rgba { r: 0, g: 0, b: 0, a }
    }

    pub fn white() -> (c: Rgba)
        ensures
            c == Rgba::rgb(255, 255, 255),
    {
        Rgba { r: 255, g: 255, b: 255, a: 255 }
    }

    pub fn black() -> (c: Rgba)
        ensures
            c == Rgba::rgb(0, 0, 0),
    {
        Rgba { r: 0, g: 0, b: 0, a: 255 }
    }
}

// ---------------------------------------------------------------------------
// Writing colours

/// The lower-case hexadecimal digit of `n`, which is below 16.
pub open spec fn hex_digit(n: u8) -> char {
    if n < 10 {
        (0x30 + n) as char
    } else {
        (0x61 + n - 10) as char
    }
}

/// The two digits of a byte, high nibble first.
pub open spec fn hex_byte(v: u8) -> Seq<char> {
    seq![hex_digit(v / 16), hex_digit(v % 16)]
}

/// `#rrggbb`: the colour channels, alpha left out.
pub open spec fn hex_rgb(c: Rgba) -> Seq<char> {
    seq!['#'] + hex_byte(c.r) + hex_byte(c.g) + hex_byte(c.b)
}

/// `#rrggbbaa`: the colour channels and alpha.
pub open spec fn hex_rgba(c: Rgba) -> Seq<char> {
    hex_rgb(c) + hex_byte(c.a)
}

fn digit_char(n: u8) -> (c: char)
    requires
        n < 16,
    ensures
        c == hex_digit(n),
{
    if n < 10 {
        (0x30 + n) as char
    } else {
        (0x61 + n - 10) as char
    }
}

fn push_byte(s: &mut String, v: u8)
    ensures
        final(s)@ == old(s)@ + hex_byte(v),
{
    s.push(digit_char(v / 16));
    s.push(digit_char(v % 16));
    assert(final(s)@ =~= old(s)@ + hex_byte(v));
}

/// The `#rrggbb` text of a colour; alpha is not written.
pub fn hex(c: Rgba) -> (s: String)
    ensures
        s@ == hex_rgb(c),
{
    let mut s = String::new();
    s.push('#');
    push_byte(&mut s, c.r);
    push_byte(&mut s, c.g);
    push_byte(&mut s, c.b);
    assert(s@ =~= hex_rgb(c));
    s
}

/// The `#rrggbbaa` text of a colour, alpha included.
pub fn hex_shadow(c: Rgba) -> (s: String)
    ensures
        s@ == hex_rgba(c),
{
    let mut s = hex(c);
    push_byte(&mut s, c.a);
    s
}

// ---------------------------------------------------------------------------
// Reading colours

/// The text with its leading `#` bytes removed (`trim_start_matches('#')`).
pub open spec fn trim_hashes(b: Seq<u8>) -> Seq<u8>
    decreases b.len(),
{
    if b.len() > 0 && b[0] == 0x23 {
        trim_hashes(b.drop_first())
    } else {
        b
    }
}

/// The value of a hexadecimal digit, in either case.
pub open spec fn digit_value(x: u8) -> Option<u8> {
    if 0x30 <= x <= 0x39 {
        Some((x - 0x30) as u8)
    } else if 0x61 <= x <= 0x66 {
        Some((x - 0x61 + 10) as u8)
    } else if 0x41 <= x <= 0x46 {
        Some((x - 0x41 + 10) as u8)
    } else {
        None
    }
}

/// `u8::from_str_radix(text, 16)` on a two-byte text: an optional `+`
/// followed by one or two digits.
pub open spec fn hex_pair(x: u8, y: u8) -> Option<u8> {
    if x == 0x2b {
        digit_value(y)
    } else {
        match (digit_value(x), digit_value(y)) {
            (Some(h), Some(l)) => Some((16 * h + l) as u8),
            _ => None,
        }
    }
}

/// The byte that the two bytes at `i` give, or `missing` where they are not
/// a hexadecimal number.
pub open spec fn channel(t: Seq<u8>, i: int, missing: u8) -> u8 {
    match hex_pair(t[i], t[i + 1]) {
        Some(v) => v,
        None => missing,
    }
}

/// The colour that a text gives, taken as UTF-8 bytes: after the leading
/// `#`s, six bytes are an opaque colour (a bad pair reads as 0), eight bytes
/// are a colour with alpha (a bad alpha pair reads as 255), and anything else
/// is opaque black.
pub open spec fn color_of_bytes(b: Seq<u8>) -> Rgba {
    let t = trim_hashes(b);
    if t.len() == 6 {
        Rgba::rgb(channel(t, 0, 0), channel(t, 2, 0), channel(t, 4, 0))
    } else if t.len() == 8 {
        Rgba { r: channel(t, 0, 0), g: channel(t, 2, 0), b: channel(t, 4, 0), a: channel(t, 6, 255) }
    } else {
        Rgba::rgb(0, 0, 0)
    }
}

pub open spec fn color_of_text(s: Seq<char>) -> Rgba {
    color_of_bytes(encode_utf8(s))
}

/// The pairs of a six- or eight-byte text are cut at byte offsets 2, 4 and 6;
/// cutting a text inside a character panics, so each cut must fall where no
/// continuation byte stands.
pub open spec fn cuts_on_char_boundaries(b: Seq<u8>) -> bool {
    let t = trim_hashes(b);
    &&& t.len() == 6 ==> !is_continuation_byte(t[2]) && !is_continuation_byte(t[4])
    &&& t.len() == 8 ==> !is_continuation_byte(t[2]) && !is_continuation_byte(t[4])
        && !is_continuation_byte(t[6])
}

/// Texts that can be read as a colour without panicking.
pub open spec fn color_text_reads(s: Seq<char>) -> bool {
    cuts_on_char_boundaries(encode_utf8(s))
}

fn digit_of(x: u8) -> (d: Option<u8>)
    ensures
        d == digit_value(x),
{
    if 0x30 <= x && x <= 0x39 {
        Some(x - 0x30)
    } else if 0x61 <= x && x <= 0x66 {
        Some(x - 0x61 + 10)
    } else if 0x41 <= x && x <= 0x46 {
        Some(x - 0x41 + 10)
    } else {
        None
    }
}

fn pair_of(x: u8, y: u8) -> (v: Option<u8>)
    ensures
        v == hex_pair(x, y),
{
    if x == 0x2b {
        digit_of(y)
    } else {
        match (digit_of(x), digit_of(y)) {
            (Some(h), Some(l)) => Some(16 * h + l),
            _ => None,
        }
    }
}

fn channel_at(t: &[u8], i: usize, missing: u8) -> (v: u8)
    requires
        i + 1 < t@.len(),
    ensures
        v == channel(t@, i as int, missing),
{
    match pair_of(t[i], t[i + 1]) {
        Some(v) => v,
        None => missing,
    }
}

/// The number of leading `#` bytes.
fn leading_hashes(b: &[u8]) -> (k: usize)
    ensures
        k <= b@.len(),
        trim_hashes(b@) == b@.subrange(k as int, b@.len() as int),
{
    let mut k: usize = 0;
    assert(b@.subrange(0, b@.len() as int) =~= b@);
    while k < b.len() && b[k] == 0x23
        invariant
            k <= b@.len(),
            trim_hashes(b@) == trim_hashes(b@.subrange(k as int, b@.len() as int)),
        decreases b@.len() - k,
    {
        assert(b@.subrange(k as int, b@.len() as int).drop_first() =~= b@.subrange(
            k + 1,
            b@.len() as int,
        ));
        k = k + 1;
    }
    k
}

/// Reads the colour of the bytes after the leading `#`s.
fn color_of_slice(b: &[u8]) -> (c: Rgba)
    ensures
        c == color_of_bytes(b@),
{
    let k = leading_hashes(b);
    let n = b.len() - k;
    let ghost t = trim_hashes(b@);
    if n == 6 || n == 8 {
        let r = channel_at(b, k, 0);
        let g = channel_at(b, k + 2, 0);
        let bl = channel_at(b, k + 4, 0);
        assert(r == channel(t, 0, 0) && g == channel(t, 2, 0) && bl == channel(t, 4, 0));
        if n == 6 {
            Rgba { r, g, b: bl, a: 255 }
        } else {
            let a = channel_at(b, k + 6, 255);
            assert(a == channel(t, 6, 255));
            Rgba { r, g, b: bl, a }
        }
    } else {
        Rgba { r: 0, g: 0, b: 0, a: 255 }
    }
}

/// Whether `s` can be read as a colour: the original reading cuts the text
/// into byte pairs and panics where a cut falls inside a character.
pub fn color_text_ok(s: &str) -> (ok: bool)
    ensures
        ok == color_text_reads(s@),
{
    let b = s.as_bytes();
    let k = leading_hashes(b);
    let n = b.len() - k;
    let ghost t = trim_hashes(b@);
    let cont = |x: u8| -> (c: bool)
        ensures
            c == is_continuation_byte(x),
        { 0x80 <= x && x <= 0xbf };
    if n == 6 {
        assert(t[2] == b@[k + 2] && t[4] == b@[k + 4]);
        !cont(b[k + 2]) && !cont(b[k + 4])
    } else if n == 8 {
        assert(t[2] == b@[k + 2] && t[4] == b@[k + 4] && t[6] == b@[k + 6]);
        !cont(b[k + 2]) && !cont(b[k + 4]) && !cont(b[k + 6])
    } else {
        true
    }
}

/// Reads a `#rrggbb` or `#rrggbbaa` text; see [`color_of_bytes`].
pub fn parse_color(s: &str) -> (c: Rgba)
    requires
        color_text_reads(s@),
    ensures
        c == color_of_text(s@),
{
    color_of_slice(s.as_bytes())
}

/// Reads a `#rrggbbaa` or `#rrggbb` text; gives the same colour as
/// [`parse_color`] for every text.
pub fn parse_color_alpha(s: &str) -> (c: Rgba)
    requires
        color_text_reads(s@),
    ensures
        c == color_of_text(s@),
{
    color_of_slice(s.as_bytes())
}

/// The fallback where the text is empty, its colour otherwise.
pub open spec fn color_or(s: Seq<char>, fallback: Rgba) -> Rgba {
    if s.len() == 0 {
        fallback
    } else {
        color_of_text(s)
    }
}

pub fn parse_color_or(s: &str, fallback: Rgba) -> (c: Rgba)
    requires
        color_text_reads(s@),
    ensures
        c == color_or(s@, fallback),
{
    if s.is_empty() {
        fallback
    } else {
        parse_color(s)
    }
}

pub fn parse_color_alpha_or(s: &str, fallback: Rgba) -> (c: Rgba)
    requires
        color_text_reads(s@),
    ensures
        c == color_or(s@, fallback),
{
    if s.is_empty() {
        fallback
    } else {
        parse_color_alpha(s)
    }
}

// ---------------------------------------------------------------------------
// Written colours read back

proof fn lemma_digit_reads_back(n: u8)
    requires
        n < 16,
    ensures
        '\0' <= hex_digit(n) <= '\u{7f}',
        hex_digit(n) as u8 != 0x23,
        hex_digit(n) as u8 != 0x2b,
        !is_continuation_byte(hex_digit(n) as u8),
        digit_value(hex_digit(n) as u8) == Some(n),
{
}

proof fn lemma_byte_reads_back(v: u8)
    ensures
        '\0' <= hex_byte(v)[0] <= '\u{7f}',
        '\0' <= hex_byte(v)[1] <= '\u{7f}',
        hex_byte(v)[0] as u8 != 0x23,
        hex_byte(v)[0] as u8 != 0x2b,
        !is_continuation_byte(hex_byte(v)[0] as u8),
        hex_pair(hex_byte(v)[0] as u8, hex_byte(v)[1] as u8) == Some(v),
{
    lemma_digit_reads_back(v / 16);
    lemma_digit_reads_back(v % 16);
    assert(16 * (v / 16) + v % 16 == v);
}

/// A `#rrggbb` text reads back as the opaque colour it was written from.
pub proof fn lemma_hex_rgb_reads_back(c: Rgba)
    ensures
        color_text_reads(hex_rgb(c)),
        color_of_text(hex_rgb(c)) == Rgba::rgb(c.r, c.g, c.b),
{
    let s = hex_rgb(c);
    lemma_byte_reads_back(c.r);
    lemma_byte_reads_back(c.g);
    lemma_byte_reads_back(c.b);
    assert(s.len() == 7);
    assert(is_ascii_chars(s));
    is_ascii_chars_encode_utf8(s);
    let b = encode_utf8(s);
    assert(b[0] == 0x23);
    let t = b.drop_first();
    assert(trim_hashes(t) == t);
    assert(trim_hashes(b) == t);
    assert(t[0] == s[1] as u8 && t[1] == s[2] as u8 && t[2] == s[3] as u8);
    assert(t[3] == s[4] as u8 && t[4] == s[5] as u8 && t[5] == s[6] as u8);
}

/// A `#rrggbbaa` text reads back as the colour it was written from.
pub proof fn lemma_hex_rgba_reads_back(c: Rgba)
    ensures
        color_text_reads(hex_rgba(c)),
        color_of_text(hex_rgba(c)) == c,
{
    let s = hex_rgba(c);
    lemma_byte_reads_back(c.r);
    lemma_byte_reads_back(c.g);
    lemma_byte_reads_back(c.b);
    lemma_byte_reads_back(c.a);
    assert(s.len() == 9);
    assert(is_ascii_chars(s));
    is_ascii_chars_encode_utf8(s);
    let b = encode_utf8(s);
    assert(b[0] == 0x23);
    let t = b.drop_first();
    assert(trim_hashes(t) == t);
    assert(trim_hashes(b) == t);
    assert(t[0] == s[1] as u8 && t[1] == s[2] as u8 && t[2] == s[3] as u8);
    assert(t[3] == s[4] as u8 && t[4] == s[5] as u8 && t[5] == s[6] as u8);
    assert(t[6] == s[7] as u8 && t[7] == s[8] as u8);
}

proof fn lemma_trim_hashes_is_suffix(b: Seq<u8>)
    ensures
        trim_hashes(b).len() <= b.len(),
        forall|i: int|
            0 <= i < trim_hashes(b).len() ==> trim_hashes(b)[i] == b[i + b.len() - trim_hashes(
                b,
            ).len()],
    decreases b.len(),
{
    if b.len() > 0 && b[0] == 0x23 {
        lemma_trim_hashes_is_suffix(b.drop_first());
    }
}

/// Reading a colour never panics on an ASCII text.
pub proof fn lemma_ascii_texts_read(s: Seq<char>)
    requires
        is_ascii_chars(s),
    ensures
        color_text_reads(s),
{
    is_ascii_chars_encode_utf8(s);
    let b = encode_utf8(s);
    lemma_trim_hashes_is_suffix(b);
    assert forall|i: int| 0 <= i < b.len() implies b[i] < 0x80 by {
        assert(s[i] as u8 == b[i]);
    }
}

/// The upper-case hexadecimal digit of `n`, which is below 16.
pub open spec fn upper_hex_digit(n: u8) -> char {
    if n < 10 {
        (0x30 + n) as char
    } else {
        (0x41 + n - 10) as char
    }
}

pub open spec fn upper_hex_byte(v: u8) -> Seq<char> {
    seq![upper_hex_digit(v / 16), upper_hex_digit(v % 16)]
}

/// `#RRGGBBAA` in upper case.
pub open spec fn upper_hex_rgba(c: Rgba) -> Seq<char> {
    seq!['#'] + upper_hex_byte(c.r) + upper_hex_byte(c.g) + upper_hex_byte(c.b) + upper_hex_byte(c.a)
}

/// Every hexadecimal digit, lower or upper case, has its value: `0`..`9` are
/// 0..9, and `a`..`f` and `A`..`F` are 10..15; any other byte is no digit.
pub proof fn lemma_digit_values(n: u8, x: u8)
    requires
        n < 16,
    ensures
        digit_value(hex_digit(n) as u8) == Some(n),
        digit_value(upper_hex_digit(n) as u8) == Some(n),
        !(0x30 <= x <= 0x39 || 0x61 <= x <= 0x66 || 0x41 <= x <= 0x46) ==> digit_value(x) is None,
{
}

/// Two digits read as the number they write, high digit first; a `+` before
/// a single digit reads as that digit.
pub proof fn lemma_pair_values(h: u8, l: u8)
    requires
        h < 16,
        l < 16,
    ensures
        hex_pair(hex_digit(h) as u8, upper_hex_digit(l) as u8) == Some((16 * h + l) as u8),
        hex_pair(upper_hex_digit(h) as u8, hex_digit(l) as u8) == Some((16 * h + l) as u8),
        hex_pair(0x2b, upper_hex_digit(l) as u8) == Some(l),
{
}

proof fn lemma_upper_byte_reads_back(v: u8)
    ensures
        '\0' <= upper_hex_byte(v)[0] <= '\u{7f}',
        '\0' <= upper_hex_byte(v)[1] <= '\u{7f}',
        upper_hex_byte(v)[0] as u8 != 0x23,
        !is_continuation_byte(upper_hex_byte(v)[0] as u8),
        hex_pair(upper_hex_byte(v)[0] as u8, upper_hex_byte(v)[1] as u8) == Some(v),
{
    assert(16 * (v / 16) + v % 16 == v);
}

/// Reading is case-insensitive: an upper-case `#RRGGBB` or `#RRGGBBAA` text
/// reads as the colour it writes.
pub proof fn lemma_upper_case_reads_back(c: Rgba)
    ensures
        color_text_reads(upper_hex_rgba(c)),
        color_of_text(upper_hex_rgba(c)) == c,
        color_text_reads(upper_hex_rgba(c).subrange(0, 7)),
        color_of_text(upper_hex_rgba(c).subrange(0, 7)) == Rgba::rgb(c.r, c.g, c.b),
{
    let s = upper_hex_rgba(c);
    lemma_upper_byte_reads_back(c.r);
    lemma_upper_byte_reads_back(c.g);
    lemma_upper_byte_reads_back(c.b);
    lemma_upper_byte_reads_back(c.a);
    assert(s.len() == 9);
    assert(is_ascii_chars(s));
    is_ascii_chars_encode_utf8(s);
    let b = encode_utf8(s);
    assert(b[0] == 0x23);
    let t = b.drop_first();
    assert(trim_hashes(t) == t);
    assert(trim_hashes(b) == t);
    assert(t[0] == s[1] as u8 && t[1] == s[2] as u8 && t[2] == s[3] as u8);
    assert(t[3] == s[4] as u8 && t[4] == s[5] as u8 && t[5] == s[6] as u8);
    assert(t[6] == s[7] as u8 && t[7] == s[8] as u8);
    let s7 = s.subrange(0, 7);
    assert(is_ascii_chars(s7));
    is_ascii_chars_encode_utf8(s7);
    let b7 = encode_utf8(s7);
    assert(b7[0] == 0x23);
    let t7 = b7.drop_first();
    assert(trim_hashes(t7) == t7);
    assert(trim_hashes(b7) == t7);
    assert(t7[0] == s[1] as u8 && t7[1] == s[2] as u8 && t7[2] == s[3] as u8);
    assert(t7[3] == s[4] as u8 && t7[4] == s[5] as u8 && t7[5] == s[6] as u8);
}

/// Leading `#`s do not change what a text reads as, nor whether it reads.
pub proof fn lemma_leading_hash(b: Seq<u8>)
    ensures
        color_of_bytes(seq![0x23u8] + b) == color_of_bytes(b),
        cuts_on_char_boundaries(seq![0x23u8] + b) == cuts_on_char_boundaries(b),
{
    assert((seq![0x23u8] + b).drop_first() =~= b);
}

/// A text of six bytes (after its `#`s) is opaque and its pairs give red,
/// green and blue, a pair that is no number giving 0; one of eight bytes
/// takes its alpha from its last pair, 255 where that is no number; a text of
/// any other length is opaque black.
pub proof fn lemma_color_reading(b: Seq<u8>)
    ensures
        ({
            let t = trim_hashes(b);
            let c = color_of_bytes(b);
            &&& t.len() == 6 || t.len() == 8 ==> {
                &&& hex_pair(t[0], t[1]) == Some(c.r) || (hex_pair(t[0], t[1]) is None && c.r == 0)
                &&& hex_pair(t[2], t[3]) == Some(c.g) || (hex_pair(t[2], t[3]) is None && c.g == 0)
                &&& hex_pair(t[4], t[5]) == Some(c.b) || (hex_pair(t[4], t[5]) is None && c.b == 0)
            }
            &&& t.len() == 6 ==> c.a == 255
            &&& t.len() == 8 ==> hex_pair(t[6], t[7]) == Some(c.a) || (hex_pair(t[6], t[7]) is None && c.a == 255)
            &&& t.len() != 6 && t.len() != 8 ==> c == Rgba::rgb(0, 0, 0)
        }),
{
}

} // verus!

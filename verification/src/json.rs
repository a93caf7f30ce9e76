//! A verified decoder for the JSON the manager speaks and the configuration
//! channel accepts.  Beyond strict JSON it takes the relaxed forms the
//! configuration payloads use: single-quoted strings, unquoted object keys,
//! and trailing commas; comments are not accepted.  Numbers are lexed as a
//! permissive run of number characters and kept as their raw lexeme;
//! readers validate them where an unsigned integer is expected.

use vstd::prelude::*;

verus! {

use vstd::string::StringSliceAdditionalSpecFns;
use vstd::utf8::valid_utf8;
use vstd::utf8::decode_utf8;
use crate::text::is_ascii_ws;
use crate::text::byte_is_ascii_ws;
use crate::text::bytes_eq;
use crate::text::string_from_utf8;
use crate::num::spec_parse_uint;

/// A decoded JSON value.
#[derive(Debug, PartialEq, Eq)]
pub enum Json {
    Null,
    Bool(bool),
    /// A number, kept as its raw lexeme.
    Num(Vec<u8>),
    Str(String),
    Arr(Vec<Json>),
    Obj(Vec<(String, Json)>),
}

/// The mathematical image of a JSON value.
pub enum SpecJson {
    Null,
    Bool(bool),
    Num(Seq<u8>),
    Str(Seq<char>),
    Arr(Seq<SpecJson>),
    Obj(Seq<(Seq<char>, SpecJson)>),
}

/// The image of a decoded value.
pub open spec fn jview(j: Json) -> SpecJson
    decreases j,
{
    match j {
        Json::Null => SpecJson::Null,
        Json::Bool(b) => SpecJson::Bool(b),
        Json::Num(raw) => SpecJson::Num(raw@),
        Json::Str(s) => SpecJson::Str(s@),
        Json::Arr(items) => SpecJson::Arr(
            Seq::new(
                items@.len(),
                |i: int|
                    if 0 <= i < items@.len() {
                        jview(items@[i])
                    } else {
                        SpecJson::Null
                    },
            ),
        ),
        Json::Obj(fields) => SpecJson::Obj(
            Seq::new(
                fields@.len(),
                |i: int|
                    if 0 <= i < fields@.len() {
                        (fields@[i].0@, jview(fields@[i].1))
                    } else {
                        (Seq::<char>::empty(), SpecJson::Null)
                    },
            ),
        ),
    }
}

/// The images of a list of decoded values.
pub open spec fn jviews(items: Seq<Json>) -> Seq<SpecJson> {
    Seq::new(
        items.len(),
        |i: int|
            if 0 <= i < items.len() {
                jview(items[i])
            } else {
                SpecJson::Null
            },
    )
}

/// The images of a list of decoded fields.
pub open spec fn fviews(fields: Seq<(String, Json)>) -> Seq<(Seq<char>, SpecJson)> {
    Seq::new(
        fields.len(),
        |i: int|
            if 0 <= i < fields.len() {
                (fields[i].0@, jview(fields[i].1))
            } else {
                (Seq::<char>::empty(), SpecJson::Null)
            },
    )
}

/// Position of the first non-whitespace byte at or after `i`.
pub open spec fn spec_skip_ws(s: Seq<u8>, i: int) -> int
    decreases s.len() - i,
{
    if i < 0 || i >= s.len() || !is_ascii_ws(s[i]) {
        i
    } else {
        spec_skip_ws(s, i + 1)
    }
}

fn skip_ws(s: &[u8], i: usize) -> (j: usize)
    requires
        i <= s@.len(),
    ensures
        j == spec_skip_ws(s@, i as int),
        i <= j <= s@.len(),
{
    let mut j: usize = i;
    while j < s.len() && byte_is_ascii_ws(s[j])
        invariant
            i <= j <= s@.len(),
            spec_skip_ws(s@, i as int) == spec_skip_ws(s@, j as int),
        decreases s@.len() - j,
    {
        j += 1;
    }
    j
}

/// Value of one hexadecimal digit.
pub open spec fn spec_hex_digit(b: u8) -> Option<u8> {
    if 0x30 <= b && b <= 0x39 {
        Some((b - 0x30) as u8)
    } else if 0x61 <= b && b <= 0x66 {
        Some((b - 0x57) as u8)
    } else if 0x41 <= b && b <= 0x46 {
        Some((b - 0x37) as u8)
    } else {
        None
    }
}

fn hex_digit(b: u8) -> (r: Option<u8>)
    ensures
        r == spec_hex_digit(b),
{
    if 0x30 <= b && b <= 0x39 {
        Some(b - 0x30)
    } else if 0x61 <= b && b <= 0x66 {
        Some(b - 0x57)
    } else if 0x41 <= b && b <= 0x46 {
        Some(b - 0x37)
    } else {
        None
    }
}

/// Value of the four hexadecimal digits at `j`.
pub open spec fn spec_hex4(s: Seq<u8>, j: int) -> Option<u32> {
    if j < 0 || j + 4 > s.len() {
        None
    } else {
        match spec_hex_digit(s[j]) {
            None => None,
            Some(h0) => match spec_hex_digit(s[j + 1]) {
                None => None,
                Some(h1) => match spec_hex_digit(s[j + 2]) {
                    None => None,
                    Some(h2) => match spec_hex_digit(s[j + 3]) {
                        None => None,
                        Some(h3) => Some(
                            ((h0 as u32) * 0x1000 + (h1 as u32) * 0x100 + (h2 as u32) * 0x10
                                + (h3 as u32)) as u32,
                        ),
                    },
                },
            },
        }
    }
}

fn parse_hex4(s: &[u8], j: usize) -> (r: Option<u32>)
    requires
        j <= s@.len(),
        s@.len() + 16 <= usize::MAX,
    ensures
        r == spec_hex4(s@, j as int),
{
    if j + 4 > s.len() {
        return None;
    }
    match hex_digit(s[j]) {
        None => None,
        Some(h0) => match hex_digit(s[j + 1]) {
            None => None,
            Some(h1) => match hex_digit(s[j + 2]) {
                None => None,
                Some(h2) => match hex_digit(s[j + 3]) {
                    None => None,
                    Some(h3) => Some(
                        (h0 as u32) * 0x1000 + (h1 as u32) * 0x100 + (h2 as u32) * 0x10 + (
                        h3 as u32),
                    ),
                },
            },
        },
    }
}

/// The UTF-8 encoding of a scalar value, by the usual width rules.
pub open spec fn spec_encode_scalar(v: u32) -> Seq<u8> {
    if v < 0x80 {
        seq![v as u8]
    } else if v < 0x800 {
        seq![(0xC0 + v / 0x40) as u8, (0x80 + v % 0x40) as u8]
    } else if v < 0x10000 {
        seq![
            (0xE0 + v / 0x1000) as u8,
            (0x80 + (v / 0x40) % 0x40) as u8,
            (0x80 + v % 0x40) as u8,
        ]
    } else {
        seq![
            (0xF0 + v / 0x40000) as u8,
            (0x80 + (v / 0x1000) % 0x40) as u8,
            (0x80 + (v / 0x40) % 0x40) as u8,
            (0x80 + v % 0x40) as u8,
        ]
    }
}

fn push_encoded_scalar(out: &mut Vec<u8>, v: u32)
    requires
        v <= 0x10FFFF,
    ensures
        final(out)@ == old(out)@ + spec_encode_scalar(v),
{
    if v < 0x80 {
        out.push(v as u8);
        proof {
            assert(out@ =~= old(out)@ + spec_encode_scalar(v));
        }
    } else if v < 0x800 {
        out.push((0xC0 + v / 0x40) as u8);
        out.push((0x80 + v % 0x40) as u8);
        proof {
            assert(out@ =~= old(out)@ + spec_encode_scalar(v));
        }
    } else if v < 0x10000 {
        out.push((0xE0 + v / 0x1000) as u8);
        out.push((0x80 + (v / 0x40) % 0x40) as u8);
        out.push((0x80 + v % 0x40) as u8);
        proof {
            assert(out@ =~= old(out)@ + spec_encode_scalar(v));
        }
    } else {
        out.push((0xF0 + v / 0x40000) as u8);
        out.push((0x80 + (v / 0x1000) % 0x40) as u8);
        out.push((0x80 + (v / 0x40) % 0x40) as u8);
        out.push((0x80 + v % 0x40) as u8);
        proof {
            assert(out@ =~= old(out)@ + spec_encode_scalar(v));
        }
    }
}

/// The byte a simple escape stands for, with both quote characters always
/// accepted.
pub open spec fn spec_simple_escape(e: u8) -> Option<u8> {
    if e == 0x22 {
        Some(0x22u8)
    } else if e == 0x27 {
        Some(0x27u8)
    } else if e == 0x5C {
        Some(0x5Cu8)
    } else if e == 0x2F {
        Some(0x2Fu8)
    } else if e == 0x62 {
        Some(0x08u8)
    } else if e == 0x66 {
        Some(0x0Cu8)
    } else if e == 0x6E {
        Some(0x0Au8)
    } else if e == 0x72 {
        Some(0x0Du8)
    } else if e == 0x74 {
        Some(0x09u8)
    } else {
        None
    }
}

fn simple_escape(e: u8) -> (r: Option<u8>)
    ensures
        r == spec_simple_escape(e),
{
    if e == 0x22 {
        Some(0x22)
    } else if e == 0x27 {
        Some(0x27)
    } else if e == 0x5C {
        Some(0x5C)
    } else if e == 0x2F {
        Some(0x2F)
    } else if e == 0x62 {
        Some(0x08)
    } else if e == 0x66 {
        Some(0x0C)
    } else if e == 0x6E {
        Some(0x0A)
    } else if e == 0x72 {
        Some(0x0D)
    } else if e == 0x74 {
        Some(0x09)
    } else {
        None
    }
}

/// The bytes a string body spells from position `i` up to its closing quote
/// `q`, with escapes replaced, and the position after the quote.  `None` on
/// an unterminated string, an unknown escape, or a bad escaped surrogate.
pub open spec fn spec_unescape(s: Seq<u8>, i: int, q: u8) -> Option<(Seq<u8>, int)>
    decreases s.len() - i,
{
    if i < 0 || i >= s.len() {
        None
    } else {
        let b = s[i];
        if b == q {
            Some((Seq::empty(), i + 1))
        } else if b == 0x5C {
            if i + 1 >= s.len() {
                None
            } else {
                let e = s[i + 1];
                if e == 0x75 {
                    match spec_hex4(s, i + 2) {
                        None => None,
                        Some(v) => if 0xD800 <= v && v <= 0xDBFF {
                            if i + 8 <= s.len() && s[i + 6] == 0x5C && s[i + 7] == 0x75 {
                                match spec_hex4(s, i + 8) {
                                    None => None,
                                    Some(lo) => if 0xDC00 <= lo && lo <= 0xDFFF {
                                        match spec_unescape(s, i + 12, q) {
                                            None => None,
                                            Some(p) => Some(
                                                (
                                                    spec_encode_scalar(
                                                        ((v - 0xD800) * 0x400 + (lo - 0xDC00)
                                                            + 0x10000) as u32,
                                                    ) + p.0,
                                                    p.1,
                                                ),
                                            ),
                                        }
                                    } else {
                                        None
                                    },
                                }
                            } else {
                                None
                            }
                        } else if 0xDC00 <= v && v <= 0xDFFF {
                            None
                        } else {
                            match spec_unescape(s, i + 6, q) {
                                None => None,
                                Some(p) => Some((spec_encode_scalar(v) + p.0, p.1)),
                            }
                        },
                    }
                } else {
                    match spec_simple_escape(e) {
                        None => None,
                        Some(x) => match spec_unescape(s, i + 2, q) {
                            None => None,
                            Some(p) => Some((seq![x] + p.0, p.1)),
                        },
                    }
                }
            }
        } else {
            match spec_unescape(s, i + 1, q) {
                None => None,
                Some(p) => Some((seq![b] + p.0, p.1)),
            }
        }
    }
}

/// `spec_unescape` with the bytes already produced in front.
pub open spec fn spec_unescape_with(s: Seq<u8>, i: int, q: u8, prefix: Seq<u8>) -> Option<
    (Seq<u8>, int),
> {
    match spec_unescape(s, i, q) {
        None => None,
        Some(p) => Some((prefix + p.0, p.1)),
    }
}

proof fn lemma_unescape_shift(s: Seq<u8>, i: int, q: u8, prefix: Seq<u8>, chunk: Seq<u8>, j: int)
    requires
        spec_unescape(s, i, q) == spec_unescape_with(s, j, q, chunk),
    ensures
        spec_unescape_with(s, i, q, prefix) == spec_unescape_with(s, j, q, prefix + chunk),
{
    match spec_unescape(s, j, q) {
        None => {},
        Some(p) => {
            assert(prefix + (chunk + p.0) =~= (prefix + chunk) + p.0);
        },
    }
}

/// Read a string body from just after the opening quote to the closing
/// quote `q`, replacing escapes.
fn parse_string_body(s: &[u8], start: usize, q: u8) -> (r: Option<(Vec<u8>, usize)>)
    requires
        start <= s@.len(),
        s@.len() + 16 <= usize::MAX,
    ensures
        r matches Some((bytes, end)) ==> spec_unescape(s@, start as int, q) == Some(
            (bytes@, end as int),
        ) && end <= s@.len(),
        r is None ==> spec_unescape(s@, start as int, q) is None,
{
    let mut out: Vec<u8> = Vec::new();
    let mut i: usize = start;
    proof {
        assert(out@ =~= Seq::<u8>::empty());
        assert(Seq::<u8>::empty() + Seq::<u8>::empty() =~= Seq::<u8>::empty());
    }
    loop
        invariant
            start <= i <= s@.len(),
            s@.len() + 16 <= usize::MAX,
            spec_unescape_with(s@, start as int, q, Seq::empty()) == spec_unescape_with(
                s@,
                i as int,
                q,
                out@,
            ),
        decreases s@.len() - i,
    {
        if i >= s.len() {
            return None;
        }
        let ghost prev_out = out@;
        let ghost prev_i = i as int;
        let b = s[i];
        if b == q {
            proof {
                let su = spec_unescape(s@, start as int, q);
                assert(spec_unescape(s@, i as int, q) == Some((Seq::<u8>::empty(), i + 1)));
                assert(out@ + Seq::<u8>::empty() =~= out@);
                match su {
                    None => {},
                    Some(p) => {
                        assert(Seq::<u8>::empty() + p.0 =~= p.0);
                    },
                }
            }
            return Some((out, i + 1));
        } else if b == 0x5C {
            if i + 1 >= s.len() {
                return None;
            }
            let e = s[i + 1];
            if e == 0x75 {
                match parse_hex4(s, i + 2) {
                    None => {
                        return None;
                    },
                    Some(v) => {
                        if 0xD800 <= v && v <= 0xDBFF {
                            if i + 8 <= s.len() && s[i + 6] == 0x5C && s[i + 7] == 0x75 {
                                match parse_hex4(s, i + 8) {
                                    None => {
                                        return None;
                                    },
                                    Some(lo) => {
                                        if 0xDC00 <= lo && lo <= 0xDFFF {
                                            let scalar = 0x10000 + (v - 0xD800) * 0x400 + (lo
                                                - 0xDC00);
                                            push_encoded_scalar(&mut out, scalar);
                                            proof {
                                                lemma_unescape_shift(
                                                    s@,
                                                    prev_i,
                                                    q,
                                                    prev_out,
                                                    spec_encode_scalar(scalar),
                                                    prev_i + 12,
                                                );
                                                lemma_unescape_shift(
                                                    s@,
                                                    start as int,
                                                    q,
                                                    Seq::empty(),
                                                    prev_out,
                                                    prev_i,
                                                );
                                            }
                                            i += 12;
                                        } else {
                                            return None;
                                        }
                                    },
                                }
                            } else {
                                return None;
                            }
                        } else if 0xDC00 <= v && v <= 0xDFFF {
                            return None;
                        } else {
                            push_encoded_scalar(&mut out, v);
                            proof {
                                lemma_unescape_shift(
                                    s@,
                                    prev_i,
                                    q,
                                    prev_out,
                                    spec_encode_scalar(v),
                                    prev_i + 6,
                                );
                                lemma_unescape_shift(
                                    s@,
                                    start as int,
                                    q,
                                    Seq::empty(),
                                    prev_out,
                                    prev_i,
                                );
                            }
                            i += 6;
                        }
                    },
                }
            } else {
                match simple_escape(e) {
                    None => {
                        return None;
                    },
                    Some(x) => {
                        out.push(x);
                        proof {
                            assert(out@ =~= prev_out + seq![x]);
                            lemma_unescape_shift(s@, prev_i, q, prev_out, seq![x], prev_i + 2);
                            lemma_unescape_shift(
                                s@,
                                start as int,
                                q,
                                Seq::empty(),
                                prev_out,
                                prev_i,
                            );
                        }
                        i += 2;
                    },
                }
            }
        } else {
            out.push(b);
            proof {
                assert(out@ =~= prev_out + seq![b]);
                lemma_unescape_shift(s@, prev_i, q, prev_out, seq![b], prev_i + 1);
                lemma_unescape_shift(s@, start as int, q, Seq::empty(), prev_out, prev_i);
            }
            i += 1;
        }
    }
}

/// The characters of the quoted string at `i` (either quote kind) and the
/// position after its closing quote.  `None` when the string body is not
/// well formed or does not spell valid UTF-8.
pub open spec fn spec_parse_string(s: Seq<u8>, i: int) -> Option<(Seq<char>, int)> {
    if i < 0 || i >= s.len() || !(s[i] == 0x22 || s[i] == 0x27) {
        None
    } else {
        match spec_unescape(s, i + 1, s[i]) {
            None => None,
            Some(p) => if valid_utf8(p.0) {
                Some((decode_utf8(p.0), p.1))
            } else {
                None
            },
        }
    }
}

fn parse_string(s: &[u8], i: usize) -> (r: Option<(String, usize)>)
    requires
        i <= s@.len(),
        s@.len() + 16 <= usize::MAX,
    ensures
        r matches Some((cs, end)) ==> spec_parse_string(s@, i as int) == Some(
            (cs@, end as int),
        ) && end <= s@.len(),
        r is None ==> spec_parse_string(s@, i as int) is None,
{
    if i >= s.len() || !(s[i] == 0x22 || s[i] == 0x27) {
        return None;
    }
    let q = s[i];
    match parse_string_body(s, i + 1, q) {
        None => None,
        Some((bytes, end)) => match string_from_utf8(bytes.as_slice()) {
            None => None,
            Some(cs) => Some((cs, end)),
        },
    }
}

/// Whether a byte can open a number lexeme.
pub open spec fn is_num_start(b: u8) -> bool {
    (0x30 <= b && b <= 0x39) || b == 0x2D || b == 0x2B
}

/// Whether a byte can continue a number lexeme.
pub open spec fn is_num_byte(b: u8) -> bool {
    (0x30 <= b && b <= 0x39) || b == 0x2D || b == 0x2B || b == 0x2E || b == 0x65 || b == 0x45
}

fn byte_is_num_byte(b: u8) -> (r: bool)
    ensures
        r == is_num_byte(b),
{
    (0x30 <= b && b <= 0x39) || b == 0x2D || b == 0x2B || b == 0x2E || b == 0x65 || b == 0x45
}

/// End of the number lexeme starting at `i`: the first position at or after
/// `i` whose byte is outside the lexeme alphabet.
pub open spec fn spec_num_end(s: Seq<u8>, i: int) -> int
    decreases s.len() - i,
{
    if i < 0 || i >= s.len() || !is_num_byte(s[i]) {
        i
    } else {
        spec_num_end(s, i + 1)
    }
}

fn num_end(s: &[u8], i: usize) -> (j: usize)
    requires
        i <= s@.len(),
    ensures
        j == spec_num_end(s@, i as int),
        i <= j <= s@.len(),
{
    let mut j: usize = i;
    while j < s.len() && byte_is_num_byte(s[j])
        invariant
            i <= j <= s@.len(),
            spec_num_end(s@, i as int) == spec_num_end(s@, j as int),
        decreases s@.len() - j,
    {
        j += 1;
    }
    j
}

/// Whether the literal `lit` stands at position `j` of `s`.
pub open spec fn spec_lit_at(s: Seq<u8>, j: int, lit: Seq<u8>) -> bool {
    0 <= j && j + lit.len() <= s.len() && s.subrange(j, j + lit.len()) == lit
}

fn lit_at(s: &[u8], j: usize, lit: &[u8]) -> (r: Option<usize>)
    requires
        j <= s@.len(),
    ensures
        r matches Some(end) ==> spec_lit_at(s@, j as int, lit@) && end == j + lit@.len()
            && end <= s@.len(),
        r is None ==> !spec_lit_at(s@, j as int, lit@),
{
    if s.len() - j < lit.len() {
        return None;
    }
    let part = vstd::slice::slice_subrange(s, j, j + lit.len());
    if bytes_eq(part, lit) {
        Some(j + lit.len())
    } else {
        None
    }
}

/// Whether a byte can open an unquoted object key.
pub open spec fn is_ident_start(b: u8) -> bool {
    (0x41 <= b && b <= 0x5A) || (0x61 <= b && b <= 0x7A) || b == 0x5F || b == 0x24
}

/// Whether a byte can continue an unquoted object key.
pub open spec fn is_ident_byte(b: u8) -> bool {
    is_ident_start(b) || (0x30 <= b && b <= 0x39)
}

fn byte_is_ident_start(b: u8) -> (r: bool)
    ensures
        r == is_ident_start(b),
{
    (0x41 <= b && b <= 0x5A) || (0x61 <= b && b <= 0x7A) || b == 0x5F || b == 0x24
}

fn byte_is_ident_byte(b: u8) -> (r: bool)
    ensures
        r == is_ident_byte(b),
{
    byte_is_ident_start(b) || (0x30 <= b && b <= 0x39)
}

/// End of the unquoted key starting at `i`.
pub open spec fn spec_ident_end(s: Seq<u8>, i: int) -> int
    decreases s.len() - i,
{
    if i < 0 || i >= s.len() || !is_ident_byte(s[i]) {
        i
    } else {
        spec_ident_end(s, i + 1)
    }
}

fn ident_end(s: &[u8], i: usize) -> (j: usize)
    requires
        i <= s@.len(),
    ensures
        j == spec_ident_end(s@, i as int),
        i <= j <= s@.len(),
{
    let mut j: usize = i;
    while j < s.len() && byte_is_ident_byte(s[j])
        invariant
            i <= j <= s@.len(),
            spec_ident_end(s@, i as int) == spec_ident_end(s@, j as int),
        decreases s@.len() - j,
    {
        j += 1;
    }
    j
}

/// An object key at `j`: a quoted string of either kind, or an unquoted
/// identifier.
pub open spec fn spec_parse_key(s: Seq<u8>, j: int) -> Option<(Seq<char>, int)> {
    if j < 0 || j >= s.len() {
        None
    } else if s[j] == 0x22 || s[j] == 0x27 {
        spec_parse_string(s, j)
    } else if is_ident_start(s[j]) {
        let e = spec_ident_end(s, j);
        let kb = s.subrange(j, e);
        if valid_utf8(kb) {
            Some((decode_utf8(kb), e))
        } else {
            None
        }
    } else {
        None
    }
}

fn parse_key(s: &[u8], j: usize) -> (r: Option<(String, usize)>)
    requires
        j <= s@.len(),
        s@.len() + 16 <= usize::MAX,
    ensures
        r matches Some((cs, end)) ==> spec_parse_key(s@, j as int) == Some((cs@, end as int))
            && end <= s@.len(),
        r is None ==> spec_parse_key(s@, j as int) is None,
{
    if j >= s.len() {
        return None;
    }
    if s[j] == 0x22 || s[j] == 0x27 {
        return parse_string(s, j);
    }
    if !byte_is_ident_start(s[j]) {
        return None;
    }
    let e = ident_end(s, j);
    let kb = vstd::slice::slice_subrange(s, j, e);
    match string_from_utf8(kb) {
        None => None,
        Some(cs) => Some((cs, e)),
    }
}

/// A JSON value at or after `i`, ignoring leading whitespace, and the
/// position just after it.  `fuel` bounds the recursion; the decoder always
/// supplies more fuel than any input could spend.
pub open spec fn spec_parse_value(s: Seq<u8>, i: int, fuel: nat) -> Option<(SpecJson, int)>
    decreases fuel,
{
    if fuel == 0 {
        None
    } else {
        let j = spec_skip_ws(s, i);
        if j >= s.len() {
            None
        } else {
            let b = s[j];
            if b == 0x7B {
                match spec_parse_members(s, j + 1, (fuel - 1) as nat) {
                    None => None,
                    Some(p) => Some((SpecJson::Obj(p.0), p.1)),
                }
            } else if b == 0x5B {
                match spec_parse_elems(s, j + 1, (fuel - 1) as nat) {
                    None => None,
                    Some(p) => Some((SpecJson::Arr(p.0), p.1)),
                }
            } else if b == 0x22 || b == 0x27 {
                match spec_parse_string(s, j) {
                    None => None,
                    Some(p) => Some((SpecJson::Str(p.0), p.1)),
                }
            } else if is_num_start(b) {
                Some((SpecJson::Num(s.subrange(j, spec_num_end(s, j))), spec_num_end(s, j)))
            } else if spec_lit_at(s, j, "true".spec_bytes()) {
                Some((SpecJson::Bool(true), j + "true".spec_bytes().len()))
            } else if spec_lit_at(s, j, "false".spec_bytes()) {
                Some((SpecJson::Bool(false), j + "false".spec_bytes().len()))
            } else if spec_lit_at(s, j, "null".spec_bytes()) {
                Some((SpecJson::Null, j + "null".spec_bytes().len()))
            } else {
                None
            }
        }
    }
}

/// Array elements from `i` up to the closing bracket, commas between them
/// and one trailing comma allowed.
pub open spec fn spec_parse_elems(s: Seq<u8>, i: int, fuel: nat) -> Option<(Seq<SpecJson>, int)>
    decreases fuel,
{
    if fuel == 0 {
        None
    } else {
        let j = spec_skip_ws(s, i);
        if j < s.len() && s[j] == 0x5D {
            Some((Seq::empty(), j + 1))
        } else {
            match spec_parse_value(s, j, (fuel - 1) as nat) {
                None => None,
                Some(p) => {
                    let m = spec_skip_ws(s, p.1);
                    if m < s.len() && s[m] == 0x2C {
                        match spec_parse_elems(s, m + 1, (fuel - 1) as nat) {
                            None => None,
                            Some(q) => Some((seq![p.0] + q.0, q.1)),
                        }
                    } else if m < s.len() && s[m] == 0x5D {
                        Some((seq![p.0], m + 1))
                    } else {
                        None
                    }
                },
            }
        }
    }
}

/// Object members from `i` up to the closing brace, commas between them and
/// one trailing comma allowed.
pub open spec fn spec_parse_members(s: Seq<u8>, i: int, fuel: nat) -> Option<
    (Seq<(Seq<char>, SpecJson)>, int),
>
    decreases fuel,
{
    if fuel == 0 {
        None
    } else {
        let j = spec_skip_ws(s, i);
        if j < s.len() && s[j] == 0x7D {
            Some((Seq::empty(), j + 1))
        } else {
            match spec_parse_key(s, j) {
                None => None,
                Some(k) => {
                    let c = spec_skip_ws(s, k.1);
                    if c < s.len() && s[c] == 0x3A {
                        match spec_parse_value(s, c + 1, (fuel - 1) as nat) {
                            None => None,
                            Some(p) => {
                                let m = spec_skip_ws(s, p.1);
                                if m < s.len() && s[m] == 0x2C {
                                    match spec_parse_members(s, m + 1, (fuel - 1) as nat) {
                                        None => None,
                                        Some(q) => Some((seq![(k.0, p.0)] + q.0, q.1)),
                                    }
                                } else if m < s.len() && s[m] == 0x7D {
                                    Some((seq![(k.0, p.0)], m + 1))
                                } else {
                                    None
                                }
                            },
                        }
                    } else {
                        None
                    }
                },
            }
        }
    }
}

fn parse_value(s: &[u8], i: usize, fuel: usize) -> (r: Option<(Json, usize)>)
    requires
        i <= s@.len(),
        s@.len() + 16 <= usize::MAX,
    ensures
        r matches Some((v, end)) ==> spec_parse_value(s@, i as int, fuel as nat) == Some(
            (jview(v), end as int),
        ) && end <= s@.len(),
        r is None ==> spec_parse_value(s@, i as int, fuel as nat) is None,
    decreases fuel,
{
    if fuel == 0 {
        return None;
    }
    let j = skip_ws(s, i);
    if j >= s.len() {
        return None;
    }
    let b = s[j];
    if b == 0x7B {
        match parse_members(s, j + 1, fuel - 1) {
            None => None,
            Some((fields, end)) => {
                let ghost fvs = fviews(fields@);
                let v = Json::Obj(fields);
                proof {
                    assert(jview(v)->Obj_0 =~= fvs);
                    assert(jview(v) == SpecJson::Obj(fvs));
                }
                Some((v, end))
            },
        }
    } else if b == 0x5B {
        match parse_elems(s, j + 1, fuel - 1) {
            None => None,
            Some((items, end)) => {
                let ghost ivs = jviews(items@);
                let v = Json::Arr(items);
                proof {
                    assert(jview(v)->Arr_0 =~= ivs);
                    assert(jview(v) == SpecJson::Arr(ivs));
                }
                Some((v, end))
            },
        }
    } else if b == 0x22 || b == 0x27 {
        match parse_string(s, j) {
            None => None,
            Some((cs, end)) => Some((Json::Str(cs), end)),
        }
    } else if (0x30 <= b && b <= 0x39) || b == 0x2D || b == 0x2B {
        let e = num_end(s, j);
        let raw = vstd::slice::slice_to_vec(vstd::slice::slice_subrange(s, j, e));
        Some((Json::Num(raw), e))
    } else if let Some(end) = lit_at(s, j, "true".as_bytes()) {
        Some((Json::Bool(true), end))
    } else if let Some(end) = lit_at(s, j, "false".as_bytes()) {
        Some((Json::Bool(false), end))
    } else if let Some(end) = lit_at(s, j, "null".as_bytes()) {
        Some((Json::Null, end))
    } else {
        None
    }
}

fn parse_elems(s: &[u8], i: usize, fuel: usize) -> (r: Option<(Vec<Json>, usize)>)
    requires
        i <= s@.len(),
        s@.len() + 16 <= usize::MAX,
    ensures
        r matches Some((items, end)) ==> spec_parse_elems(s@, i as int, fuel as nat) == Some(
            (jviews(items@), end as int),
        ) && end <= s@.len(),
        r is None ==> spec_parse_elems(s@, i as int, fuel as nat) is None,
    decreases fuel,
{
    if fuel == 0 {
        return None;
    }
    let j = skip_ws(s, i);
    if j < s.len() && s[j] == 0x5D {
        let items: Vec<Json> = Vec::new();
        proof {
            assert(jviews(items@) =~= Seq::<SpecJson>::empty());
        }
        return Some((items, j + 1));
    }
    match parse_value(s, j, fuel - 1) {
        None => None,
        Some((v, k)) => {
            let m = skip_ws(s, k);
            if m < s.len() && s[m] == 0x2C {
                match parse_elems(s, m + 1, fuel - 1) {
                    None => None,
                    Some((rest, end)) => {
                        let ghost rest_views = jviews(rest@);
                        let ghost v_view = jview(v);
                        let mut items = rest;
                        items.insert(0, v);
                        proof {
                            assert(jviews(items@) =~= seq![v_view] + rest_views);
                        }
                        Some((items, end))
                    },
                }
            } else if m < s.len() && s[m] == 0x5D {
                let mut items: Vec<Json> = Vec::new();
                let ghost v_view = jview(v);
                items.push(v);
                proof {
                    assert(jviews(items@) =~= seq![v_view]);
                }
                Some((items, m + 1))
            } else {
                None
            }
        },
    }
}

fn parse_members(s: &[u8], i: usize, fuel: usize) -> (r: Option<(Vec<(String, Json)>, usize)>)
    requires
        i <= s@.len(),
        s@.len() + 16 <= usize::MAX,
    ensures
        r matches Some((fields, end)) ==> spec_parse_members(s@, i as int, fuel as nat)
            == Some((fviews(fields@), end as int)) && end <= s@.len(),
        r is None ==> spec_parse_members(s@, i as int, fuel as nat) is None,
    decreases fuel,
{
    if fuel == 0 {
        return None;
    }
    let j = skip_ws(s, i);
    if j < s.len() && s[j] == 0x7D {
        let fields: Vec<(String, Json)> = Vec::new();
        proof {
            assert(fviews(fields@) =~= Seq::<(Seq<char>, SpecJson)>::empty());
        }
        return Some((fields, j + 1));
    }
    match parse_key(s, j) {
        None => None,
        Some((key, k1)) => {
            let c = skip_ws(s, k1);
            if c < s.len() && s[c] == 0x3A {
                match parse_value(s, c + 1, fuel - 1) {
                    None => None,
                    Some((v, k3)) => {
                        let m = skip_ws(s, k3);
                        if m < s.len() && s[m] == 0x2C {
                            match parse_members(s, m + 1, fuel - 1) {
                                None => None,
                                Some((rest, end)) => {
                                    let ghost rest_views = fviews(rest@);
                                    let ghost kv_view = (key@, jview(v));
                                    let mut fields = rest;
                                    fields.insert(0, (key, v));
                                    proof {
                                        assert(fviews(fields@) =~= seq![kv_view] + rest_views);
                                    }
                                    Some((fields, end))
                                },
                            }
                        } else if m < s.len() && s[m] == 0x7D {
                            let mut fields: Vec<(String, Json)> = Vec::new();
                            let ghost kv_view = (key@, jview(v));
                            fields.push((key, v));
                            proof {
                                assert(fviews(fields@) =~= seq![kv_view]);
                            }
                            Some((fields, m + 1))
                        } else {
                            None
                        }
                    },
                }
            } else {
                None
            }
        },
    }
}

/// One whole JSON document: a single value with nothing but whitespace
/// around it.
pub open spec fn spec_parse_json(s: Seq<u8>) -> Option<SpecJson> {
    match spec_parse_value(s, 0, (s.len() + 2) as nat) {
        None => None,
        Some(p) => if spec_skip_ws(s, p.1) == s.len() {
            Some(p.0)
        } else {
            None
        },
    }
}

/// Decode one whole JSON document.
pub fn parse_json(s: &[u8]) -> (r: Option<Json>)
    requires
        s@.len() + 16 <= usize::MAX,
    ensures
        r matches Some(v) ==> spec_parse_json(s@) == Some(jview(v)),
        r is None ==> spec_parse_json(s@) is None,
{
    match parse_value(s, 0, s.len() + 2) {
        None => None,
        Some((v, end)) => {
            let rest = skip_ws(s, end);
            if rest == s.len() {
                Some(v)
            } else {
                None
            }
        },
    }
}

/// The value of the first field with the given name.
pub open spec fn spec_get_field(fields: Seq<(Seq<char>, SpecJson)>, key: Seq<char>) -> Option<
    SpecJson,
>
    decreases fields.len(),
{
    if fields.len() == 0 {
        None
    } else if fields.first().0 == key {
        Some(fields.first().1)
    } else {
        spec_get_field(fields.drop_first(), key)
    }
}

/// The named field of an object; `None` on any other value or when the
/// field is absent.
pub open spec fn spec_obj_get(j: SpecJson, key: Seq<char>) -> Option<SpecJson> {
    match j {
        SpecJson::Obj(fields) => spec_get_field(fields, key),
        _ => None,
    }
}

/// Look a field up in an object value.
pub fn obj_get<'a>(j: &'a Json, key: &str) -> (r: Option<&'a Json>)
    ensures
        r matches Some(v) ==> spec_obj_get(jview(*j), key@) == Some(jview(*v)),
        r is None ==> spec_obj_get(jview(*j), key@) is None,
{
    match j {
        Json::Obj(fields) => {
            let ghost fs = fviews(fields@);
            proof {
                assert(fs.skip(0) =~= fs);
                assert(fs =~= jview(*j)->Obj_0);
                assert(jview(*j) == SpecJson::Obj(fs));
            }
            let mut i: usize = 0;
            while i < fields.len()
                invariant
                    0 <= i <= fields@.len(),
                    fs == fviews(fields@),
                    jview(*j) == SpecJson::Obj(fs),
                    spec_get_field(fs, key@) == spec_get_field(fs.skip(i as int), key@),
                decreases fields@.len() - i,
            {
                proof {
                    assert(fs.skip(i as int).first() == fs[i as int]);
                    assert(fs.skip(i as int).drop_first() =~= fs.skip(i + 1));
                }
                if crate::text::str_eq(fields[i].0.as_str(), key) {
                    return Some(&fields[i].1);
                }
                i += 1;
            }
            proof {
                assert(fs.skip(fs.len() as int).len() == 0);
            }
            None
        },
        _ => None,
    }
}

/// An unsigned 32-bit integer read from a number value: the raw lexeme must
/// be a plain decimal numeral in range.
pub open spec fn spec_json_u32(j: SpecJson) -> Option<u32> {
    match j {
        SpecJson::Num(raw) => match spec_parse_uint(raw) {
            Some(n) => if n <= u32::MAX {
                Some(n as u32)
            } else {
                None
            },
            None => None,
        },
        _ => None,
    }
}

pub fn json_u32(j: &Json) -> (r: Option<u32>)
    ensures
        r == spec_json_u32(jview(*j)),
{
    match j {
        Json::Num(raw) => crate::num::parse_u32(raw.as_slice()),
        _ => None,
    }
}

/// An unsigned 8-bit integer read from a number value.
pub open spec fn spec_json_u8(j: SpecJson) -> Option<u8> {
    match j {
        SpecJson::Num(raw) => match spec_parse_uint(raw) {
            Some(n) => if n <= u8::MAX {
                Some(n as u8)
            } else {
                None
            },
            None => None,
        },
        _ => None,
    }
}

pub fn json_u8(j: &Json) -> (r: Option<u8>)
    ensures
        r == spec_json_u8(jview(*j)),
{
    match j {
        Json::Num(raw) => crate::num::parse_u8(raw.as_slice()),
        _ => None,
    }
}

/// A boolean read from a JSON value.
pub open spec fn spec_json_bool(j: SpecJson) -> Option<bool> {
    match j {
        SpecJson::Bool(b) => Some(b),
        _ => None,
    }
}

pub fn json_bool(j: &Json) -> (r: Option<bool>)
    ensures
        r == spec_json_bool(jview(*j)),
{
    match j {
        Json::Bool(b) => Some(*b),
        _ => None,
    }
}

/// The characters of a string value.
pub open spec fn spec_json_str(j: SpecJson) -> Option<Seq<char>> {
    match j {
        SpecJson::Str(cs) => Some(cs),
        _ => None,
    }
}

pub fn json_str<'a>(j: &'a Json) -> (r: Option<&'a String>)
    ensures
        r matches Some(cs) ==> spec_json_str(jview(*j)) == Some(cs@),
        r is None ==> spec_json_str(jview(*j)) is None,
{
    match j {
        Json::Str(cs) => Some(cs),
        _ => None,
    }
}

/// The named field of an object read as an unsigned 32-bit integer.
pub open spec fn spec_field_u32(j: SpecJson, key: Seq<char>) -> Option<u32> {
    match spec_obj_get(j, key) {
        None => None,
        Some(v) => spec_json_u32(v),
    }
}

pub fn field_u32(j: &Json, key: &str) -> (r: Option<u32>)
    ensures
        r == spec_field_u32(jview(*j), key@),
{
    match obj_get(j, key) {
        None => None,
        Some(v) => json_u32(v),
    }
}

/// The named field of an object read as a boolean.
pub open spec fn spec_field_bool(j: SpecJson, key: Seq<char>) -> Option<bool> {
    match spec_obj_get(j, key) {
        None => None,
        Some(v) => spec_json_bool(v),
    }
}

pub fn field_bool(j: &Json, key: &str) -> (r: Option<bool>)
    ensures
        r == spec_field_bool(jview(*j), key@),
{
    match obj_get(j, key) {
        None => None,
        Some(v) => json_bool(v),
    }
}

/// The named field of an object read as a string.
pub open spec fn spec_field_str(j: SpecJson, key: Seq<char>) -> Option<Seq<char>> {
    match spec_obj_get(j, key) {
        None => None,
        Some(v) => spec_json_str(v),
    }
}

pub fn field_str(j: &Json, key: &str) -> (r: Option<String>)
    ensures
        r matches Some(cs) ==> spec_field_str(jview(*j), key@) == Some(cs@),
        r is None ==> spec_field_str(jview(*j), key@) is None,
{
    match obj_get(j, key) {
        None => None,
        Some(v) => match json_str(v) {
            None => None,
            Some(cs) => Some(cs.clone()),
        },
    }
}

} // verus!

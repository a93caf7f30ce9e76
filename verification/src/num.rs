//! Verified decimal numerals: parsing unsigned integers and rendering them.

use vstd::prelude::*;

verus! {

use vstd::string::StringSliceAdditionalSpecFns;
use vstd::string::StringExecFns;
use crate::text::bytes_eq;

pub open spec fn is_digit(b: u8) -> bool {
    0x30 <= b <= 0x39
}

pub open spec fn all_digits(s: Seq<u8>) -> bool {
    forall|i: int| 0 <= i < s.len() ==> is_digit(#[trigger] s[i])
}

/// Value of a string of ASCII digits, most significant first.
pub open spec fn digits_val(s: Seq<u8>) -> nat
    decreases s.len(),
{
    if s.len() == 0 {
        0
    } else {
        (digits_val(s.drop_last()) * 10 + s.last() - 0x30) as nat
    }
}

/// The numeral forms `u64::from_str` and friends accept: an optional
/// leading '+', then one or more ASCII digits.
pub open spec fn spec_parse_uint(s: Seq<u8>) -> Option<nat> {
    let d = if s.len() > 0 && s[0] == 0x2B {
        s.subrange(1, s.len() as int)
    } else {
        s
    };
    if d.len() > 0 && all_digits(d) {
        Some(digits_val(d))
    } else {
        None
    }
}

proof fn lemma_digits_val_take_step(s: Seq<u8>, i: int)
    requires
        0 <= i < s.len(),
        is_digit(s[i]),
    ensures
        digits_val(s.take(i + 1)) == digits_val(s.take(i)) * 10 + s[i] - 0x30,
{
    assert(s.take(i + 1).drop_last() =~= s.take(i));
    assert(s.take(i + 1).last() == s[i]);
}

proof fn lemma_digits_val_prefix(s: Seq<u8>, i: int)
    requires
        0 <= i <= s.len(),
        all_digits(s),
    ensures
        digits_val(s.take(i)) <= digits_val(s),
    decreases s.len() - i,
{
    if i < s.len() {
        lemma_digits_val_take_step(s, i);
        lemma_digits_val_prefix(s, i + 1);
    } else {
        assert(s.take(i) =~= s);
    }
}

/// Parse a decimal unsigned integer the way `from_str` does for unsigned
/// types: an optional leading '+', then one or more ASCII digits; anything
/// else, or a value above `u64::MAX`, fails.
pub fn parse_u64(s: &[u8]) -> (r: Option<u64>)
    ensures
        r is Some <==> (spec_parse_uint(s@) is Some && spec_parse_uint(s@).unwrap()
            <= u64::MAX),
        r matches Some(v) ==> spec_parse_uint(s@) == Some(v as nat),
{
    let start: usize = if s.len() > 0 && s[0] == 0x2B {
        1
    } else {
        0
    };
    if s.len() == start {
        return None;
    }
    let ghost d = if start == 1 {
        s@.subrange(1, s@.len() as int)
    } else {
        s@
    };
    assert(d =~= s@.subrange(start as int, s@.len() as int));
    let mut acc: u64 = 0;
    let mut i: usize = start;
    while i < s.len()
        invariant
            start <= i <= s.len(),
            start <= 1,
            (start == 1) == (s@.len() > 0 && s@[0] == 0x2B),
            d == s@.subrange(start as int, s@.len() as int),
            all_digits(d.take(i - start)),
            acc as nat == digits_val(d.take(i - start)),
        decreases s.len() - i,
    {
        let b = s[i];
        if b < 0x30 || b > 0x39 {
            proof {
                assert(d[i - start] == s@[i as int]);
                assert(!is_digit(d[i - start]));
                assert(!all_digits(d));
            }
            return None;
        }
        let dig = (b - 0x30) as u64;
        let next = match acc.checked_mul(10) {
            Some(x) => x.checked_add(dig),
            None => None,
        };
        proof {
            lemma_digits_val_take_step(d, i - start);
            assert(d[i - start] == s@[i as int]);
        }
        match next {
            Some(x) => {
                acc = x;
            },
            None => {
                // The value through this digit already exceeds u64::MAX, and
                // further digits can only grow it.
                proof {
                    if spec_parse_uint(s@) is Some {
                        assert(d =~= (if s@.len() > 0 && s@[0] == 0x2B {
                            s@.subrange(1, s@.len() as int)
                        } else {
                            s@
                        }));
                        assert(all_digits(d));
                        lemma_digits_val_prefix(d, i + 1 - start);
                        assert(digits_val(d.take(i + 1 - start)) == acc * 10 + dig);
                        assert(acc * 10 + dig > u64::MAX);
                        assert(digits_val(d) > u64::MAX);
                        assert(spec_parse_uint(s@).unwrap() == digits_val(d));
                    }
                }
                return None;
            },
        }
        i += 1;
    }
    proof {
        assert(d.take(i - start) =~= d);
    }
    Some(acc)
}

/// `parse_u64` narrowed to `u32`.
pub fn parse_u32(s: &[u8]) -> (r: Option<u32>)
    ensures
        r is Some <==> (spec_parse_uint(s@) is Some && spec_parse_uint(s@).unwrap()
            <= u32::MAX),
        r matches Some(v) ==> spec_parse_uint(s@) == Some(v as nat),
{
    match parse_u64(s) {
        Some(v) if v <= u32::MAX as u64 => Some(v as u32),
        _ => None,
    }
}

/// `parse_u64` narrowed to `u8`.
pub fn parse_u8(s: &[u8]) -> (r: Option<u8>)
    ensures
        r is Some <==> (spec_parse_uint(s@) is Some && spec_parse_uint(s@).unwrap()
            <= u8::MAX),
        r matches Some(v) ==> spec_parse_uint(s@) == Some(v as nat),
{
    match parse_u64(s) {
        Some(v) if v <= u8::MAX as u64 => Some(v as u8),
        _ => None,
    }
}

/// Parse a boolean the way `bool::from_str` does: exactly "true" or "false".
pub fn parse_bool(s: &[u8]) -> (r: Option<bool>)
    ensures
        r == (if s@ == "true".spec_bytes() {
            Some(true)
        } else if s@ == "false".spec_bytes() {
            Some(false)
        } else {
            None::<bool>
        }),
{
    if bytes_eq(s, "true".as_bytes()) {
        Some(true)
    } else if bytes_eq(s, "false".as_bytes()) {
        Some(false)
    } else {
        None
    }
}

pub open spec fn spec_digit_char(d: nat) -> char {
    if d == 0 {
        '0'
    } else if d == 1 {
        '1'
    } else if d == 2 {
        '2'
    } else if d == 3 {
        '3'
    } else if d == 4 {
        '4'
    } else if d == 5 {
        '5'
    } else if d == 6 {
        '6'
    } else if d == 7 {
        '7'
    } else if d == 8 {
        '8'
    } else {
        '9'
    }
}

/// Decimal numeral of `n`, most significant digit first, no sign, no
/// leading zero except for the numeral "0" itself.
pub open spec fn spec_dec(n: nat) -> Seq<char>
    decreases n,
{
    if n < 10 {
        seq![spec_digit_char(n)]
    } else {
        spec_dec(n / 10) + seq![spec_digit_char(n % 10)]
    }
}

fn digit_char_str(d: u32) -> (r: &'static str)
    requires
        d < 10,
    ensures
        r@ == seq![spec_digit_char(d as nat)],
{
    proof {
        reveal_strlit("0");
        reveal_strlit("1");
        reveal_strlit("2");
        reveal_strlit("3");
        reveal_strlit("4");
        reveal_strlit("5");
        reveal_strlit("6");
        reveal_strlit("7");
        reveal_strlit("8");
        reveal_strlit("9");
    }
    if d == 0 {
        "0"
    } else if d == 1 {
        "1"
    } else if d == 2 {
        "2"
    } else if d == 3 {
        "3"
    } else if d == 4 {
        "4"
    } else if d == 5 {
        "5"
    } else if d == 6 {
        "6"
    } else if d == 7 {
        "7"
    } else if d == 8 {
        "8"
    } else {
        "9"
    }
}

/// Render `n` as its decimal numeral.
pub fn u32_to_string(n: u32) -> (s: String)
    ensures
        s@ == spec_dec(n as nat),
    decreases n,
{
    if n < 10 {
        digit_char_str(n).to_owned()
    } else {
        let mut s = u32_to_string(n / 10);
        s.append(digit_char_str(n % 10));
        s
    }
}

} // verus!

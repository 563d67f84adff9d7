//! Text building blocks: decimal rendering, identifier quoting and byte decoding.

use vstd::prelude::*;
use vstd::string::{StrSliceExecFns, StringExecFns};
use vstd::utf8::{decode_utf8, valid_utf8};

verus! {

/// The character of a decimal digit.
pub open spec fn digit_char(d: nat) -> char
    recommends
        d < 10,
{
    ((d + 48) as u8) as char
}

/// The decimal digits of `n`, most significant first, with no leading zeros.
pub open spec fn decimal(n: nat) -> Seq<char>
    decreases n,
{
    if n < 10 {
        seq![digit_char(n)]
    } else {
        decimal(n / 10).push(digit_char(n % 10))
    }
}

/// `c` repeated `k` times.
pub open spec fn repeat_char(c: char, k: nat) -> Seq<char> {
    Seq::new(k, |_i: int| c)
}

/// The decimal digits of `n`, left-filled with zeros to at least `width` characters.
pub open spec fn zero_padded(n: nat, width: nat) -> Seq<char> {
    let d = decimal(n);
    if d.len() >= width {
        d
    } else {
        repeat_char('0', (width - d.len()) as nat) + d
    }
}

/// `s` with every backtick doubled.
pub open spec fn double_backticks(s: Seq<char>) -> Seq<char>
    decreases s.len(),
{
    if s.len() == 0 {
        seq![]
    } else if s.last() == '`' {
        double_backticks(s.drop_last()) + seq!['`', '`']
    } else {
        double_backticks(s.drop_last()).push(s.last())
    }
}

/// A name as a backtick-quoted identifier.
pub open spec fn backtick_quoted(s: Seq<char>) -> Seq<char> {
    seq!['`'] + double_backticks(s) + seq!['`']
}

/// What `String::from_utf8_lossy` makes of a byte sequence.
pub uninterp spec fn lossy_utf8(b: Seq<u8>) -> Seq<char>;

/// Relies on `String::push`: appends one character.
#[verifier::external_body]
pub(crate) fn push_char(s: &mut String, c: char)
    ensures
        final(s)@ == old(s)@.push(c),
{
    s.push(c)
}

/// Relies on `String::from_utf8_lossy`: valid UTF-8 is decoded as it stands,
/// and each invalid sequence becomes U+FFFD.
#[verifier::external_body]
pub(crate) fn utf8_lossy(b: &Vec<u8>) -> (r: String)
    ensures
        r@ == lossy_utf8(b@),
        valid_utf8(b@) ==> r@ == decode_utf8(b@),
{
    String::from_utf8_lossy(b.as_slice()).into_owned()
}

/// Appends the decimal digits of `n`.
pub fn push_decimal(s: &mut String, n: u64)
    ensures
        final(s)@ == old(s)@ + decimal(n as nat),
    decreases n,
{
    if n >= 10 {
        push_decimal(s, n / 10);
    }
    let d: u8 = (n % 10) as u8;
    push_char(s, (d + 48) as char);
    proof {
        if n >= 10 {
            assert(s@ =~= old(s)@ + decimal(n as nat));
        } else {
            assert(s@ =~= old(s)@ + decimal(n as nat));
        }
    }
}

/// Appends the decimal digits of `n`, left-filled with zeros to `width` characters.
pub fn push_zero_padded(s: &mut String, n: u64, width: usize)
    ensures
        final(s)@ == old(s)@ + zero_padded(n as nat, width as nat),
{
    let mut digits = String::new();
    push_decimal(&mut digits, n);
    let len = digits.as_str().unicode_len();
    if len < width {
        let fill: usize = width - len;
        let mut i: usize = 0;
        while i < fill
            invariant
                i <= fill,
                s@ == old(s)@ + repeat_char('0', i as nat),
            decreases fill - i,
        {
            push_char(s, '0');
            i += 1;
            proof {
                assert(s@ =~= old(s)@ + repeat_char('0', i as nat));
            }
        }
    }
    s.append(digits.as_str());
    proof {
        assert(digits@ =~= decimal(n as nat));
        assert(s@ =~= old(s)@ + zero_padded(n as nat, width as nat));
    }
}

/// Quotes a name as a backtick identifier, doubling any backtick inside it,
/// so that the name can stand in a statement without ending the identifier.
pub fn quote_identifier(name: &str) -> (r: String)
    ensures
        r@ == backtick_quoted(name@),
{
    let mut out = String::new();
    push_char(&mut out, '`');
    let n = name.unicode_len();
    let mut i: usize = 0;
    while i < n
        invariant
            n == name@.len(),
            i <= n,
            out@ == seq!['`'] + double_backticks(name@.subrange(0, i as int)),
        decreases n - i,
    {
        let c = name.get_char(i);
        if c == '`' {
            push_char(&mut out, '`');
            push_char(&mut out, '`');
        } else {
            push_char(&mut out, c);
        }
        proof {
            let s2 = name@.subrange(0, i + 1);
            assert(s2.drop_last() =~= name@.subrange(0, i as int));
            assert(out@ =~= seq!['`'] + double_backticks(s2));
        }
        i += 1;
    }
    push_char(&mut out, '`');
    proof {
        assert(name@.subrange(0, n as int) =~= name@);
        assert(out@ =~= backtick_quoted(name@));
    }
    out
}


/// An ASCII decimal digit.
pub open spec fn is_digit(b: u8) -> bool {
    48 <= b <= 57
}

/// A non-empty run of ASCII decimal digits.
pub open spec fn all_digits(s: Seq<u8>) -> bool {
    s.len() > 0 && forall|i: int| 0 <= i < s.len() ==> #[trigger] is_digit(s[i])
}

/// The number that a run of decimal digits denotes.
pub open spec fn digits_value(s: Seq<u8>) -> nat
    decreases s.len(),
{
    if s.len() == 0 {
        0
    } else {
        digits_value(s.drop_last()) * 10 + (s.last() as int - 48) as nat
    }
}

/// The value of a decimal integer in text, if it fits an `i64`: digits with
/// an optional leading minus sign.
pub open spec fn signed_text_value(s: Seq<u8>) -> Option<i64> {
    if s.len() > 0 && s[0] == 45u8 {
        let m = s.skip(1);
        if all_digits(m) && digits_value(m) <= 0x8000_0000_0000_0000 {
            Some((-(digits_value(m) as int)) as i64)
        } else {
            None
        }
    } else if all_digits(s) && digits_value(s) <= i64::MAX {
        Some(digits_value(s) as i64)
    } else {
        None
    }
}

/// The value of unsigned decimal digits in text, if it fits a `u64`.
pub open spec fn unsigned_text_value(s: Seq<u8>) -> Option<u64> {
    if all_digits(s) && digits_value(s) <= u64::MAX {
        Some(digits_value(s) as u64)
    } else {
        None
    }
}

/// Appending digits never makes the value smaller.
proof fn lemma_digits_grow(s: Seq<u8>, k: int)
    requires
        0 <= k <= s.len(),
        forall|i: int| 0 <= i < s.len() ==> #[trigger] is_digit(s[i]),
    ensures
        digits_value(s.subrange(0, k)) <= digits_value(s),
    decreases s.len() - k,
{
    if k < s.len() {
        let p = s.subrange(0, k + 1);
        assert(p.drop_last() =~= s.subrange(0, k));
        assert(is_digit(s[k]));
        lemma_digits_grow(s, k + 1);
    } else {
        assert(s.subrange(0, k) =~= s);
    }
}

/// The value of the digits `s[start..]`, if they are all digits, at least one,
/// and the value fits a `u64`.
fn parse_digits(s: &Vec<u8>, start: usize) -> (r: Option<u64>)
    requires
        start <= s@.len(),
    ensures
        r is Some <==> all_digits(s@.skip(start as int)) && digits_value(s@.skip(start as int)) <= u64::MAX,
        r is Some ==> r->Some_0 == digits_value(s@.skip(start as int)),
{
    let ghost t = s@.skip(start as int);
    if start >= s.len() {
        return None;
    }
    let mut acc: u64 = 0;
    let mut i: usize = start;
    while i < s.len()
        invariant
            start <= i <= s@.len(),
            t == s@.skip(start as int),
            forall|k: int| 0 <= k < i - start ==> #[trigger] is_digit(t[k]),
            acc == digits_value(t.subrange(0, i - start)),
        decreases s@.len() - i,
    {
        let b = s[i];
        let ghost pre = t.subrange(0, i - start + 1);
        proof {
            assert(pre.drop_last() =~= t.subrange(0, i - start));
            assert(t[i - start] == b);
        }
        if b < 48 || b > 57 {
            proof {
                assert(!is_digit(t[i - start]));
            }
            return None;
        }
        let d: u64 = (b - 48) as u64;
        match acc.checked_mul(10) {
            Some(m) => match m.checked_add(d) {
                Some(n) => {
                    acc = n;
                },
                None => {
                    proof {
                        if all_digits(t) {
                            lemma_digits_grow(t, i - start + 1);
                        }
                    }
                    return None;
                },
            },
            None => {
                proof {
                    if all_digits(t) {
                        lemma_digits_grow(t, i - start + 1);
                        assert(pre.last() == b);
                        assert(digits_value(pre) == acc * 10 + (b as int - 48));
                        assert(digits_value(pre) >= acc * 10);
                    }
                }
                return None;
            },
        }
        i += 1;
    }
    proof {
        assert(t.subrange(0, i - start) =~= t);
    }
    Some(acc)
}

/// Reads unsigned decimal digits.
pub fn parse_unsigned_text(s: &Vec<u8>) -> (r: Option<u64>)
    ensures
        r == unsigned_text_value(s@),
{
    proof {
        assert(s@.skip(0) =~= s@);
    }
    parse_digits(s, 0)
}

/// Reads a decimal integer with an optional leading minus sign.
pub fn parse_signed_text(s: &Vec<u8>) -> (r: Option<i64>)
    ensures
        r == signed_text_value(s@),
{
    if s.len() > 0 && s[0] == 45u8 {
        match parse_digits(s, 1) {
            Some(m) => {
                if m <= 0x8000_0000_0000_0000u64 {
                    if m == 0x8000_0000_0000_0000u64 {
                        Some(i64::MIN)
                    } else {
                        Some(-(m as i64))
                    }
                } else {
                    None
                }
            },
            None => None,
        }
    } else {
        proof {
            assert(s@.skip(0) =~= s@);
        }
        match parse_digits(s, 0) {
            Some(m) => {
                if m <= i64::MAX as u64 {
                    Some(m as i64)
                } else {
                    None
                }
            },
            None => None,
        }
    }
}

} // verus!

//! Verified helpers on byte slices and strings.

use vstd::prelude::*;
use vstd::string::StringExecFns;
use vstd::utf8::{encode_utf8, encode_utf8_decode_utf8, is_ascii_chars, is_ascii_chars_encode_utf8};

verus! {

broadcast use vstd::string::group_string_axioms;

/// Element-wise equality of two byte slices.
pub fn bytes_eq(a: &[u8], b: &[u8]) -> (r: bool)
    ensures
        r == (a@ == b@),
{
    if a.len() != b.len() {
        return false;
    }
    let n = a.len();
    let mut i: usize = 0;
    while i < n
        invariant
            0 <= i <= n,
            n == a@.len(),
            n == b@.len(),
            forall|j: int| 0 <= j < i ==> a@[j] == b@[j],
        decreases n - i,
    {
        if a[i] != b[i] {
            return false;
        }
        i += 1;
    }
    proof {
        assert(a@ =~= b@);
    }
    true
}

/// Byte-exact equality of two strings: true exactly when their character
/// sequences agree.
pub fn str_eq(a: &str, b: &str) -> (r: bool)
    ensures
        r == (a@ == b@),
{
    let r = bytes_eq(a.as_bytes(), b.as_bytes());
    proof {
        encode_utf8_decode_utf8(a@);
        encode_utf8_decode_utf8(b@);
    }
    r
}

/// True when `c` is a decimal digit.
pub open spec fn is_digit(c: char) -> bool {
    '0' <= c && c <= '9'
}

/// The numeric value of a digit character.
pub open spec fn digit_val(c: char) -> int {
    c as int - '0' as int
}

/// True when every character of `s` is a decimal digit.
pub open spec fn all_digits(s: Seq<char>) -> bool {
    forall|i: int| 0 <= i < s.len() ==> is_digit(#[trigger] s[i])
}

/// The value denoted by a string of decimal digits.
pub open spec fn dec_val(s: Seq<char>) -> int
    decreases s.len(),
{
    if s.len() == 0 {
        0
    } else {
        dec_val(s.drop_last()) * 10 + digit_val(s.last())
    }
}

/// The integer denoted by `s` in the form the standard decimal parsers
/// accept: an optional sign followed by at least one digit.
pub open spec fn int_of_str(s: Seq<char>) -> Option<int> {
    if s.len() >= 2 && (s[0] == '+' || s[0] == '-') {
        if all_digits(s.skip(1)) {
            Some(
                if s[0] == '-' {
                    -dec_val(s.skip(1))
                } else {
                    dec_val(s.skip(1))
                },
            )
        } else {
            None
        }
    } else if s.len() >= 1 && s[0] != '+' && s[0] != '-' && all_digits(s) {
        Some(dec_val(s))
    } else {
        None
    }
}

/// A string of digits denotes a non-negative value.
proof fn lemma_dec_val_nonneg(s: Seq<char>)
    requires
        all_digits(s),
    ensures
        dec_val(s) >= 0,
    decreases s.len(),
{
    if s.len() > 0 {
        assert(all_digits(s.drop_last()));
        lemma_dec_val_nonneg(s.drop_last());
    }
}

/// A digit string is worth at least as much as any of its prefixes.
proof fn lemma_dec_val_prefix(s: Seq<char>, i: int)
    requires
        all_digits(s),
        0 <= i <= s.len(),
    ensures
        dec_val(s.take(i)) <= dec_val(s),
    decreases s.len() - i,
{
    if i < s.len() {
        assert(all_digits(s.take(i))) by {
            assert(forall|j: int| 0 <= j < i ==> s.take(i)[j] == s[j]);
        }
        lemma_dec_val_nonneg(s.take(i));
        assert(s.take(i + 1).drop_last() =~= s.take(i));
        assert(s.take(i + 1).last() == s[i]);
        assert(dec_val(s.take(i + 1)) == dec_val(s.take(i)) * 10 + digit_val(s[i]));
        lemma_dec_val_prefix(s, i + 1);
    } else {
        assert(s.take(i) =~= s);
    }
}

/// Parses a decimal integer the way the standard library's fixed-width
/// integer parsers do (an optional sign, then at least one digit), accepting
/// exactly the denoted values that lie within `[min, max]`.
pub fn parse_int_in(s: &str, min: i64, max: i64) -> (r: Option<i64>)
    requires
        is_ascii_chars(s@),
        -2147483648 <= min <= 0,
        0 <= max <= 2147483647,
    ensures
        match int_of_str(s@) {
            Some(n) => if min <= n <= max {
                r == Some(n as i64)
            } else {
                r is None
            },
            None => r is None,
        },
{
    proof {
        is_ascii_chars_encode_utf8(s@);
    }
    let b = s.as_bytes();
    let ghost cs = s@;
    let n = b.len();
    if n == 0 {
        return None;
    }
    let first = b[0];
    let has_sign = first == 43 || first == 45;
    let neg = first == 45;
    let start: usize = if has_sign {
        1
    } else {
        0
    };
    proof {
        assert(cs[0] as u8 == b@[0]);
        assert(has_sign == (cs[0] == '+' || cs[0] == '-'));
        assert(neg == (cs[0] == '-'));
    }
    if n == start {
        return None;
    }
    let mut i: usize = start;
    let mut acc: i64 = 0;
    proof {
        assert(cs.subrange(start as int, start as int) =~= Seq::<char>::empty());
    }
    while i < n
        invariant
            is_ascii_chars(cs),
            cs == s@,
            b@ == encode_utf8(cs),
            b@.len() == cs.len(),
            forall|j: int| 0 <= j < cs.len() ==> cs[j] as u8 == #[trigger] b@[j],
            n == b@.len(),
            start <= i <= n,
            start == 0 || start == 1,
            n > start,
            has_sign == (cs[0] == '+' || cs[0] == '-'),
            neg == (cs[0] == '-'),
            start == 1 <==> has_sign,
            all_digits(cs.subrange(start as int, i as int)),
            acc == dec_val(cs.subrange(start as int, i as int)),
            0 <= acc <= 20_000_000_000_000,
            -2147483648 <= min <= 0,
            0 <= max <= 2147483647,
        decreases n - i,
    {
        let ghost prefix = cs.subrange(start as int, i as int);
        let d = b[i];
        proof {
            assert(cs[i as int] as u8 == b@[i as int]);
        }
        if d < 48 || d > 57 {
            proof {
                assert(!is_digit(cs[i as int]));
                if has_sign {
                    assert(cs.skip(1)[i as int - 1] == cs[i as int]);
                    assert(!all_digits(cs.skip(1)));
                } else {
                    assert(!all_digits(cs));
                }
                assert(int_of_str(cs) is None);
            }
            return None;
        }
        if acc > 1_000_000_000_000 {
            proof {
                let digits = cs.skip(start as int);
                match int_of_str(cs) {
                    Some(nv) => {
                        if has_sign {
                            assert(digits == cs.skip(1));
                            assert(all_digits(digits));
                            assert(nv == if cs[0] == '-' {
                                -dec_val(digits)
                            } else {
                                dec_val(digits)
                            });
                        } else {
                            assert(digits =~= cs);
                            assert(all_digits(digits));
                            assert(nv == dec_val(digits));
                        }
                        assert(prefix =~= digits.take(i as int - start as int));
                        lemma_dec_val_prefix(digits, i as int - start as int);
                        assert(dec_val(digits) >= acc);
                        assert(!(min <= nv <= max));
                    },
                    None => {},
                }
            }
            return None;
        }
        let dv = (d - 48) as i64;
        acc = acc * 10 + dv;
        proof {
            let prefix2 = cs.subrange(start as int, i as int + 1);
            assert(prefix2.drop_last() =~= prefix);
            assert(prefix2.last() == cs[i as int]);
            assert(is_digit(cs[i as int]));
            assert(digit_val(cs[i as int]) == d - 48);
            assert(all_digits(prefix2));
        }
        i = i + 1;
    }
    let ghost digits = cs.skip(start as int);
    proof {
        assert(cs.subrange(start as int, n as int) =~= digits);
        assert(all_digits(digits));
        assert(acc == dec_val(digits));
        lemma_dec_val_nonneg(digits);
        if has_sign {
            assert(cs.len() >= 2);
            assert(int_of_str(cs) == Some(
                if cs[0] == '-' {
                    -dec_val(cs.skip(1))
                } else {
                    dec_val(cs.skip(1))
                },
            ));
        } else {
            assert(digits =~= cs);
            assert(int_of_str(cs) == Some(dec_val(cs)));
        }
    }
    let v: i64 = if neg {
        -acc
    } else {
        acc
    };
    if v < min || v > max {
        return None;
    }
    Some(v)
}

/// The decimal digit character for `d` (0 to 9).
pub open spec fn digit_char(d: int) -> char {
    ((48 + d) as u8) as char
}

/// The decimal rendering of a non-negative integer.
pub open spec fn dec_chars(n: int) -> Seq<char>
    decreases n,
{
    if 0 <= n < 10 {
        seq![digit_char(n)]
    } else if n >= 10 {
        dec_chars(n / 10).push(digit_char(n % 10))
    } else {
        Seq::empty()
    }
}

/// The decimal rendering of an integer, with a leading minus sign when it
/// is negative.
pub open spec fn sdec_chars(n: int) -> Seq<char> {
    if n < 0 {
        seq!['-'] + dec_chars(-n)
    } else {
        dec_chars(n)
    }
}

/// Appends the digit character for `d`.
fn push_digit(s: &mut String, d: u8)
    requires
        d <= 9,
    ensures
        final(s)@ == old(s)@ + seq![digit_char(d as int)],
{
    proof {
        reveal_strlit("0");
        reveal_strlit("1");
        reveal_strlit("2");
        reveal_strlit("3");
        reveal_strlit("4");
        reveal_strlit("5");
        reveal_strlit("6");
        reveal_strlit("7");
        reveal_strlit("8");
        reveal_strlit("9");
    }
    match d {
        0 => s.append("0"),
        1 => s.append("1"),
        2 => s.append("2"),
        3 => s.append("3"),
        4 => s.append("4"),
        5 => s.append("5"),
        6 => s.append("6"),
        7 => s.append("7"),
        8 => s.append("8"),
        _ => s.append("9"),
    }
    proof {
        assert(final(s)@ =~= old(s)@ + seq![digit_char(d as int)]);
    }
}

/// The digit characters of a little-endian digit sequence, read most
/// significant first.
spec fn rev_chars(ds: Seq<u8>) -> Seq<char> {
    Seq::new(ds.len(), |i: int| digit_char(ds[ds.len() - 1 - i] as int))
}

/// Renders an unsigned integer in decimal.
pub fn u64_to_string(n: u64) -> (r: String)
    ensures
        r@ == dec_chars(n as int),
{
    let mut m: u64 = n;
    let mut digits: Vec<u8> = Vec::new();
    proof {
        assert(rev_chars(digits@) =~= Seq::<char>::empty());
        assert(dec_chars(n as int) =~= dec_chars(m as int) + rev_chars(digits@));
    }
    while m >= 10
        invariant
            dec_chars(n as int) == dec_chars(m as int) + rev_chars(digits@),
            forall|j: int| 0 <= j < digits@.len() ==> #[trigger] digits@[j] <= 9,
        decreases m,
    {
        let ghost m0 = m as int;
        let ghost ds0 = digits@;
        let d = (m % 10) as u8;
        digits.push(d);
        m = m / 10;
        proof {
            assert(dec_chars(m0) =~= dec_chars(m0 / 10) + seq![digit_char(m0 % 10)]);
            assert(rev_chars(ds0.push(d)) =~= seq![digit_char(d as int)] + rev_chars(ds0));
            assert(dec_chars(m as int) + rev_chars(digits@) =~= (dec_chars(m0 / 10) + seq![
                digit_char(m0 % 10),
            ]) + rev_chars(ds0));
        }
    }
    let ghost target = dec_chars(n as int);
    proof {
        assert(target == seq![digit_char(m as int)] + rev_chars(digits@));
    }
    let mut out = String::new();
    push_digit(&mut out, m as u8);
    proof {
        assert(out@ =~= target.take(1));
    }
    let mut i: usize = digits.len();
    while i > 0
        invariant
            0 <= i <= digits@.len(),
            target == dec_chars(n as int),
            target == seq![digit_char(m as int)] + rev_chars(digits@),
            forall|j: int| 0 <= j < digits@.len() ==> #[trigger] digits@[j] <= 9,
            out@ == target.take(1 + digits@.len() - i),
        decreases i,
    {
        let ghost p = 1 + digits@.len() - i;
        i = i - 1;
        push_digit(&mut out, digits[i]);
        proof {
            assert(target[p] == rev_chars(digits@)[p - 1]);
            assert(rev_chars(digits@)[p - 1] == digit_char(digits@[i as int] as int));
            assert(target.take(p + 1) =~= target.take(p).push(target[p]));
        }
    }
    proof {
        assert(out@ =~= target);
    }
    out
}

/// Renders a signed integer in decimal, with a minus sign when negative.
pub fn i64_to_string(n: i64) -> (r: String)
    requires
        n > i64::MIN,
    ensures
        r@ == sdec_chars(n as int),
{
    if n < 0 {
        let mut out = "-".to_owned();
        let rest = u64_to_string((-n) as u64);
        out.append(rest.as_str());
        proof {
            reveal_strlit("-");
            assert(out@ =~= seq!['-'] + dec_chars(-n as int));
        }
        out
    } else {
        u64_to_string(n as u64)
    }
}

} // verus!

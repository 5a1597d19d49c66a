//! Fixed-width decimal encoding and parsing of unsigned values, used for
//! the textual form of session tokens and verification-artifact tokens.

use vstd::prelude::*;

verus! {

/// `c` is one of `'0'` ... `'9'`.
pub open spec fn is_digit_char(c: char) -> bool {
    48 <= c as int <= 57
}

/// Numeric value of a digit character; zero for anything else.
pub open spec fn digit_of(c: char) -> nat {
    if is_digit_char(c) {
        (c as int - 48) as nat
    } else {
        0
    }
}

/// Every character of `s` is a decimal digit.
pub open spec fn all_digits(s: Seq<char>) -> bool {
    forall|i: int| 0 <= i < s.len() ==> is_digit_char(#[trigger] s[i])
}

/// Value of a digit string, most significant digit first.
pub open spec fn dec_val(s: Seq<char>) -> nat
    decreases s.len(),
{
    if s.len() == 0 {
        0
    } else {
        dec_val(s.drop_last()) * 10 + digit_of(s.last())
    }
}

/// Powers of ten.
pub open spec fn pow10(w: nat) -> nat
    decreases w,
{
    if w == 0 {
        1
    } else {
        10 * pow10((w - 1) as nat)
    }
}

/// Digit character for a value below ten.
pub open spec fn digit_char(d: nat) -> char {
    if d == 0 {
        '0'
    } else if d == 1 {
        '1'
    } else if d == 2 {
        '2'
    } else if d == 3 {
        '3'
    } else if d == 4 {
        '4'
    } else if d == 5 {
        '5'
    } else if d == 6 {
        '6'
    } else if d == 7 {
        '7'
    } else if d == 8 {
        '8'
    } else {
        '9'
    }
}

/// Canonical `w`-digit encoding of `n`, leading zeros included.
pub open spec fn enc_spec(n: nat, w: nat) -> Seq<char>
    decreases w,
{
    if w == 0 {
        Seq::empty()
    } else {
        enc_spec(n / 10, (w - 1) as nat) + seq![digit_char(n % 10)]
    }
}

/// The canonical encoding has the requested width, consists of digits, and
/// evaluates back to the encoded value.
pub proof fn lemma_enc_spec_ok(n: nat, w: nat)
    requires
        n < pow10(w),
    ensures
        enc_spec(n, w).len() == w,
        all_digits(enc_spec(n, w)),
        dec_val(enc_spec(n, w)) == n,
    decreases w,
{
    if w == 0 {
    } else {
        let rest = enc_spec(n / 10, (w - 1) as nat);
        let whole = enc_spec(n, w);
        assert(n / 10 < pow10((w - 1) as nat)) by {
            lemma_pow10_pos((w - 1) as nat);
            assert(n < 10 * pow10((w - 1) as nat));
            assert(n / 10 < pow10((w - 1) as nat)) by (nonlinear_arith)
                requires
                    n < 10 * pow10((w - 1) as nat),
                    pow10((w - 1) as nat) > 0,
            ;
        }
        lemma_enc_spec_ok(n / 10, (w - 1) as nat);
        assert(whole.drop_last() =~= rest);
        assert(whole.last() == digit_char(n % 10));
        assert(digit_of(digit_char(n % 10)) == n % 10);
        assert(dec_val(whole) == dec_val(rest) * 10 + n % 10);
        assert((n / 10) * 10 + n % 10 == n) by (nonlinear_arith);
        assert(forall|i: int|
            0 <= i < whole.len() ==> is_digit_char(#[trigger] whole[i])) by {
            assert(forall|i: int| 0 <= i < rest.len() ==> is_digit_char(#[trigger] rest[i]));
            assert(is_digit_char(digit_char(n % 10)));
            assert(forall|i: int| 0 <= i < whole.len() ==> whole[i] == (if i < rest.len() {
                rest[i]
            } else {
                digit_char(n % 10)
            }));
        }
    }
}

/// Powers of ten are positive.
pub proof fn lemma_pow10_pos(w: nat)
    ensures
        pow10(w) >= 1,
    decreases w,
{
    if w > 0 {
        lemma_pow10_pos((w - 1) as nat);
    }
}

/// Twenty decimal digits are enough for every `u64`.
pub proof fn lemma_pow10_20()
    ensures
        pow10(20) == 100000000000000000000nat,
{
    reveal_with_fuel(pow10, 21);
}

/// A longer digit string never evaluates to less than a prefix of it.
pub proof fn lemma_dec_val_take_mono(s: Seq<char>, i: int, j: int)
    requires
        0 <= i <= j <= s.len(),
    ensures
        dec_val(s.take(i)) <= dec_val(s.take(j)),
    decreases j - i,
{
    if i < j {
        lemma_dec_val_take_mono(s, i, j - 1);
        lemma_dec_val_step(s, j - 1);
        assert(dec_val(s.take(j - 1)) * 10 >= dec_val(s.take(j - 1))) by (nonlinear_arith);
    }
}

/// Unfolding of `dec_val` along a left-to-right scan.
pub proof fn lemma_dec_val_step(s: Seq<char>, i: int)
    requires
        0 <= i < s.len(),
    ensures
        dec_val(s.take(i + 1)) == dec_val(s.take(i)) * 10 + digit_of(s[i]),
{
    assert(s.take(i + 1).drop_last() =~= s.take(i));
    assert(s.take(i + 1).last() == s[i]);
}

/// Result of parsing the `w` characters of `s` starting at `lo` as a
/// fixed-width decimal field.
pub open spec fn field_spec(s: Seq<char>, lo: int, w: int) -> Option<u64> {
    let f = s.subrange(lo, lo + w);
    if all_digits(f) && dec_val(f) <= u64::MAX {
        Some(dec_val(f) as u64)
    } else {
        None
    }
}

/// Parses a fixed-width decimal field out of `s`, rejecting non-digits and
/// values that do not fit in a `u64`.
pub fn parse_field(s: &str, lo: usize, w: usize) -> (r: Option<u64>)
    requires
        lo + w <= s@.len(),
        lo + w <= usize::MAX,
    ensures
        r == field_spec(s@, lo as int, w as int),
{
    let ghost f = s@.subrange(lo as int, lo as int + w as int);
    let mut acc: u64 = 0;
    let mut i: usize = 0;
    while i < w
        invariant
            lo + w <= s@.len(),
            lo + w <= usize::MAX,
            0 <= i <= w,
            f == s@.subrange(lo as int, lo as int + w as int),
            all_digits(f.take(i as int)),
            acc == dec_val(f.take(i as int)),
        decreases w - i,
    {
        let c = s.get_char(lo + i);
        proof {
            assert(f[i as int] == s@[lo + i as int]);
        }
        let v = c as u32;
        if v < 48 || v > 57 {
            proof {
                assert(!is_digit_char(f[i as int]));
            }
            return None;
        }
        let d: u64 = (v - 48) as u64;
        proof {
            assert(is_digit_char(f[i as int]));
            assert(digit_of(f[i as int]) == d);
            lemma_dec_val_step(f, i as int);
        }
        if acc > (u64::MAX - d) / 10 {
            proof {
                assert(acc * 10 + d > u64::MAX) by (nonlinear_arith)
                    requires
                        acc > (u64::MAX - d) / 10,
                        d <= 9,
                ;
                assert(dec_val(f.take(i as int + 1)) > u64::MAX);
                lemma_dec_val_take_mono(f, i as int + 1, f.len() as int);
                assert(f.take(f.len() as int) =~= f);
                assert(dec_val(f) > u64::MAX);
            }
            return None;
        }
        acc = acc * 10 + d;
        i = i + 1;
    }
    proof {
        assert(f.take(w as int) =~= f);
    }
    Some(acc)
}

/// Appends the canonical `w`-digit encoding of `n` to `out`.
pub fn push_decimal(out: &mut String, n: u64, w: usize)
    requires
        (n as nat) < pow10(w as nat),
    ensures
        final(out)@ == old(out)@ + enc_spec(n as nat, w as nat),
    decreases w,
{
    if w == 0 {
        proof {
            assert(old(out)@ + enc_spec(n as nat, 0) =~= old(out)@);
        }
    } else {
        proof {
            lemma_pow10_pos((w - 1) as nat);
            assert((n as nat) / 10 < pow10((w - 1) as nat)) by (nonlinear_arith)
                requires
                    (n as nat) < 10 * pow10((w - 1) as nat),
                    pow10((w - 1) as nat) > 0,
            ;
        }
        push_decimal(out, n / 10, w - 1);
        let d = digit_str(n % 10);
        out.append(d);
        proof {
            assert(d@ =~= seq![digit_char((n % 10) as nat)]);
            assert(final(out)@ =~= old(out)@ + enc_spec(n as nat, w as nat));
        }
    }
}

/// Single-character string for a digit value.
pub fn digit_str(d: u64) -> (s: &'static str)
    requires
        d <= 9,
    ensures
        s@ =~= seq![digit_char(d as nat)],
{
    proof {
        reveal_strlit("0");
        reveal_strlit("1");
        reveal_strlit("2");
        reveal_strlit("3");
        reveal_strlit("4");
        reveal_strlit("5");
        reveal_strlit("6");
        reveal_strlit("7");
        reveal_strlit("8");
        reveal_strlit("9");
    }
    if d == 0 {
        "0"
    } else if d == 1 {
        "1"
    } else if d == 2 {
        "2"
    } else if d == 3 {
        "3"
    } else if d == 4 {
        "4"
    } else if d == 5 {
        "5"
    } else if d == 6 {
        "6"
    } else if d == 7 {
        "7"
    } else if d == 8 {
        "8"
    } else {
        "9"
    }
}

/// Renders `n` as exactly twenty decimal digits; the textual form of a
/// verification-artifact token.
pub fn encode_u64(n: u64) -> (s: String)
    ensures
        s@ == enc_spec(n as nat, 20),
        s@.len() == 20,
        all_digits(s@),
        dec_val(s@) == n,
{
    proof {
        lemma_pow10_20();
        lemma_enc_spec_ok(n as nat, 20);
    }
    let mut s = String::new();
    push_decimal(&mut s, n, 20);
    proof {
        assert(s@ =~= enc_spec(n as nat, 20));
    }
    s
}

/// Parses a string that must consist of exactly twenty decimal digits.
pub fn parse_u64(s: &str) -> (r: Option<u64>)
    ensures
        r == spec_parse_u64(s@),
{
    let n = s.unicode_len();
    if n != 20 {
        return None;
    }
    let r = parse_field(s, 0, 20);
    proof {
        assert(s@.subrange(0, 20) =~= s@);
    }
    r
}

/// A twenty-digit string and its value, if it has that exact shape.
pub open spec fn spec_parse_u64(s: Seq<char>) -> Option<u64> {
    if s.len() == 20 {
        field_spec(s, 0, 20)
    } else {
        None
    }
}

/// Round trip: parsing the canonical encoding gives the value back.
pub proof fn lemma_u64_round_trip(n: u64)
    ensures
        spec_parse_u64(enc_spec(n as nat, 20)) == Some(n),
{
    lemma_pow10_20();
    lemma_enc_spec_ok(n as nat, 20);
    assert(enc_spec(n as nat, 20).subrange(0, 20) =~= enc_spec(n as nat, 20));
}

} // verus!

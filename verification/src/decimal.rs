//! Decimal notation of unsigned integers, as bytes and as text.

use vstd::prelude::*;

verus! {

/// The ASCII byte of the decimal digit `d`.
pub open spec fn digit_byte(d: nat) -> u8
    recommends
        d < 10,
{
    (48 + d) as u8
}

/// The decimal notation of `n` as ASCII bytes, without leading zeros.
pub open spec fn decimal_bytes(n: nat) -> Seq<u8>
    decreases n,
{
    if n < 10 {
        seq![digit_byte(n)]
    } else {
        decimal_bytes(n / 10).push(digit_byte(n % 10))
    }
}

/// The character of the decimal digit `d`.
pub open spec fn digit_char(d: nat) -> char
    recommends
        d < 10,
{
    if d == 0 {
        '0'
    } else if d == 1 {
        '1'
    } else if d == 2 {
        '2'
    } else if d == 3 {
        '3'
    } else if d == 4 {
        '4'
    } else if d == 5 {
        '5'
    } else if d == 6 {
        '6'
    } else if d == 7 {
        '7'
    } else if d == 8 {
        '8'
    } else {
        '9'
    }
}

/// The decimal notation of `n` as text, without leading zeros.
pub open spec fn decimal_chars(n: nat) -> Seq<char>
    decreases n,
{
    if n < 10 {
        seq![digit_char(n)]
    } else {
        decimal_chars(n / 10).push(digit_char(n % 10))
    }
}

/// Ten to the power `k`.
pub open spec fn ten_pow(k: nat) -> nat
    decreases k,
{
    if k == 0 {
        1
    } else {
        10 * ten_pow((k - 1) as nat)
    }
}

/// A number below `10^k` has at most `k` digits.
pub proof fn lemma_decimal_len(n: nat, k: nat)
    requires
        1 <= k,
        n < ten_pow(k),
    ensures
        decimal_bytes(n).len() <= k,
    decreases k,
{
    if n >= 10 {
        assert(k >= 2) by {
            if k == 1 {
                assert(ten_pow(1) == 10) by {
                    reveal_with_fuel(ten_pow, 2);
                }
            }
        }
        assert(n / 10 < ten_pow((k - 1) as nat));
        lemma_decimal_len(n / 10, (k - 1) as nat);
    }
}

/// An unsigned 64-bit number has at most 20 digits.
pub proof fn lemma_decimal_len_u64(n: u64)
    ensures
        decimal_bytes(n as nat).len() <= 20,
{
    assert(ten_pow(20) == 100000000000000000000) by {
        reveal_with_fuel(ten_pow, 21);
    }
    lemma_decimal_len(n as nat, 20);
}

/// Appends the decimal notation of `n` to `out`.
pub fn push_decimal(out: &mut Vec<u8>, n: u64)
    ensures
        final(out)@ == old(out)@ + decimal_bytes(n as nat),
    decreases n,
{
    if n >= 10 {
        push_decimal(out, n / 10);
    }
    let d: u8 = (n % 10) as u8;
    out.push(48 + d);
    assert(out@ =~= old(out)@ + decimal_bytes(n as nat));
}

/// The decimal notation of `n` as bytes.
pub fn decimal(n: u64) -> (r: Vec<u8>)
    ensures
        r@ == decimal_bytes(n as nat),
{
    let mut r: Vec<u8> = Vec::new();
    push_decimal(&mut r, n);
    assert(r@ =~= decimal_bytes(n as nat));
    r
}

/// Appends the decimal digit `d` to `s`.
fn append_digit(s: &mut String, d: u64)
    requires
        d < 10,
    ensures
        final(s)@ == old(s)@.push(digit_char(d as nat)),
{
    proof {
        reveal_strlit("0");
        reveal_strlit("1");
        reveal_strlit("2");
        reveal_strlit("3");
        reveal_strlit("4");
        reveal_strlit("5");
        reveal_strlit("6");
        reveal_strlit("7");
        reveal_strlit("8");
        reveal_strlit("9");
    }
    let lit = if d == 0 {
        "0"
    } else if d == 1 {
        "1"
    } else if d == 2 {
        "2"
    } else if d == 3 {
        "3"
    } else if d == 4 {
        "4"
    } else if d == 5 {
        "5"
    } else if d == 6 {
        "6"
    } else if d == 7 {
        "7"
    } else if d == 8 {
        "8"
    } else {
        "9"
    };
    s.append(lit);
    assert(s@ =~= old(s)@.push(digit_char(d as nat)));
}

/// Appends the decimal notation of `n` to the text `s`.
pub fn append_decimal(s: &mut String, n: u64)
    ensures
        final(s)@ == old(s)@ + decimal_chars(n as nat),
    decreases n,
{
    if n >= 10 {
        append_decimal(s, n / 10);
    }
    append_digit(s, n % 10);
    assert(s@ =~= old(s)@ + decimal_chars(n as nat));
}

/// The number that a run of ASCII digit bytes denotes, read left to right.
pub open spec fn bytes_value(s: Seq<u8>) -> int
    decreases s.len(),
{
    if s.len() == 0 {
        0
    } else {
        bytes_value(s.drop_last()) * 10 + (s.last() as int - 48)
    }
}

/// `s` is a decimal numeral in bytes: one or more of the digits `0` to `9`,
/// beginning with `0` only where it is `0` itself.
pub open spec fn is_numeral_bytes(s: Seq<u8>) -> bool {
    &&& s.len() >= 1
    &&& forall|i: int| 0 <= i < s.len() ==> 48 <= #[trigger] s[i] <= 57
    &&& s.len() > 1 ==> s[0] != 48
}

/// The decimal notation of `n` is a numeral that reads back as `n`.
pub proof fn lemma_decimal_bytes_read_back(n: nat)
    ensures
        is_numeral_bytes(decimal_bytes(n)),
        bytes_value(decimal_bytes(n)) == n,
    decreases n,
{
    let s = decimal_bytes(n);
    if n < 10 {
        assert(s.drop_last() =~= Seq::<u8>::empty());
        assert(s.last() as int - 48 == n);
        assert(bytes_value(s.drop_last()) == 0);
        assert(bytes_value(s) == bytes_value(s.drop_last()) * 10 + (s.last() as int - 48));
    } else {
        let t = decimal_bytes(n / 10);
        lemma_decimal_bytes_read_back(n / 10);
        assert(s.drop_last() =~= t);
        assert(s.last() as int - 48 == n % 10);
        assert(bytes_value(s) == bytes_value(s.drop_last()) * 10 + (s.last() as int - 48));
        assert((n / 10) * 10 + n % 10 == n) by (nonlinear_arith);
        assert(s[0] == t[0]);
        if t.len() == 1 {
            assert(n / 10 < 10) by {
                if n / 10 >= 10 {
                    assert(decimal_bytes(n / 10).len() == decimal_bytes(n / 10 / 10).len() + 1);
                    lemma_decimal_bytes_read_back(n / 10 / 10);
                }
            }
        }
        assert forall|i: int| 0 <= i < s.len() implies 48 <= #[trigger] s[i] <= 57 by {
            if i < t.len() {
                assert(s[i] == t[i]);
            }
        }
    }
}

/// The number that a run of digit characters denotes, read left to right.
pub open spec fn chars_value(s: Seq<char>) -> int
    decreases s.len(),
{
    if s.len() == 0 {
        0
    } else {
        chars_value(s.drop_last()) * 10 + (s.last() as u32 as int - 48)
    }
}

/// `s` is a decimal numeral in text: one or more of the digits `0` to `9`,
/// beginning with `0` only where it is `0` itself.
pub open spec fn is_numeral_chars(s: Seq<char>) -> bool {
    &&& s.len() >= 1
    &&& forall|i: int| 0 <= i < s.len() ==> '0' <= #[trigger] s[i] <= '9'
    &&& s.len() > 1 ==> s[0] != '0'
}

/// The character of a digit is the digit's ASCII character.
proof fn lemma_digit_char_value(d: nat)
    requires
        d < 10,
    ensures
        digit_char(d) as u32 as int - 48 == d,
        '0' <= digit_char(d) <= '9',
{
}

/// The decimal notation of `n` as text is a numeral that reads back as `n`.
pub proof fn lemma_decimal_chars_read_back(n: nat)
    ensures
        is_numeral_chars(decimal_chars(n)),
        chars_value(decimal_chars(n)) == n,
    decreases n,
{
    let s = decimal_chars(n);
    if n < 10 {
        assert(s.drop_last() =~= Seq::<char>::empty());
        lemma_digit_char_value(n);
        assert(chars_value(s.drop_last()) == 0);
        assert(chars_value(s) == chars_value(s.drop_last()) * 10 + (s.last() as u32 as int - 48));
    } else {
        let t = decimal_chars(n / 10);
        lemma_decimal_chars_read_back(n / 10);
        assert(s.drop_last() =~= t);
        lemma_digit_char_value(n % 10);
        assert(chars_value(s) == chars_value(s.drop_last()) * 10 + (s.last() as u32 as int - 48));
        assert((n / 10) * 10 + n % 10 == n) by (nonlinear_arith);
        assert(s[0] == t[0]);
        if t.len() == 1 {
            assert(n / 10 < 10) by {
                if n / 10 >= 10 {
                    assert(decimal_chars(n / 10).len() == decimal_chars(n / 10 / 10).len() + 1);
                    lemma_decimal_chars_read_back(n / 10 / 10);
                }
            }
        }
        assert forall|i: int| 0 <= i < s.len() implies '0' <= #[trigger] s[i] <= '9' by {
            if i < t.len() {
                assert(s[i] == t[i]);
            }
        }
    }
}

} // verus!

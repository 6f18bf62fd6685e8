//! Decimal formatting and parsing over character sequences.

use vstd::prelude::*;

verus! {

/// The decimal digit character for `d`.
pub open spec fn digit_char(d: int) -> char {
    if d == 0 {
        '0'
    } else if d == 1 {
        '1'
    } else if d == 2 {
        '2'
    } else if d == 3 {
        '3'
    } else if d == 4 {
        '4'
    } else if d == 5 {
        '5'
    } else if d == 6 {
        '6'
    } else if d == 7 {
        '7'
    } else if d == 8 {
        '8'
    } else {
        '9'
    }
}

/// The decimal rendering of a natural number, most significant digit first.
pub open spec fn dec_str(n: nat) -> Seq<char>
    decreases n,
{
    if n < 10 {
        seq![digit_char(n as int)]
    } else {
        dec_str(n / 10).push(digit_char((n % 10) as int))
    }
}

/// The decimal rendering of an integer: a leading `-` for negatives.
pub open spec fn int_str(n: int) -> Seq<char> {
    if n < 0 {
        seq!['-'] + dec_str((-n) as nat)
    } else {
        dec_str(n as nat)
    }
}

fn digit_char_exec(d: u64) -> (c: char)
    requires
        d < 10,
    ensures
        c == digit_char(d as int),
{
    if d == 0 {
        '0'
    } else if d == 1 {
        '1'
    } else if d == 2 {
        '2'
    } else if d == 3 {
        '3'
    } else if d == 4 {
        '4'
    } else if d == 5 {
        '5'
    } else if d == 6 {
        '6'
    } else if d == 7 {
        '7'
    } else if d == 8 {
        '8'
    } else {
        '9'
    }
}

/// Renders `n` in decimal.
pub fn u64_to_chars(n: u64) -> (v: Vec<char>)
    ensures
        v@ == dec_str(n as nat),
{
    let mut digits: Vec<char> = Vec::new();
    let mut m: u64 = n;
    if m == 0 {
        digits.push('0');
        proof {
            assert(digits@ =~= dec_str(0));
        }
        return digits;
    }
    proof {
        assert(dec_str(n as nat) =~= dec_str(m as nat) + digits@);
    }
    while m > 0
        invariant
            m > 0 ==> dec_str(n as nat) == dec_str(m as nat) + digits@,
            m == 0 ==> dec_str(n as nat) == digits@,
        decreases m,
    {
        let ghost m0 = m as nat;
        let ghost d0 = digits@;
        let c = digit_char_exec(m % 10);
        digits.insert(0, c);
        m = m / 10;
        proof {
            assert(digits@ =~= seq![digit_char((m0 % 10) as int)] + d0);
            if m0 < 10 {
                assert(dec_str(m0) =~= seq![digit_char(m0 as int)]);
                assert(m0 % 10 == m0);
                assert(dec_str(n as nat) =~= digits@);
            } else {
                assert(dec_str(m0) == dec_str(m0 / 10).push(digit_char((m0 % 10) as int)));
                assert(dec_str(m0) =~= dec_str(m0 / 10) + seq![digit_char((m0 % 10) as int)]);
                assert(dec_str(n as nat) =~= dec_str(m as nat) + digits@);
            }
        }
    }
    digits
}

/// Renders `n` in decimal, with a sign when negative.
pub fn i64_to_chars(n: i64) -> (v: Vec<char>)
    ensures
        v@ == int_str(n as int),
{
    if n >= 0 {
        u64_to_chars(n as u64)
    } else {
        let mag: u64 = if n == i64::MIN {
            9223372036854775808u64
        } else {
            (-n) as u64
        };
        let tail = u64_to_chars(mag);
        let mut v: Vec<char> = Vec::new();
        v.push('-');
        let mut i: usize = 0;
        while i < tail.len()
            invariant
                i <= tail.len(),
                tail@ == dec_str((-(n as int)) as nat),
                v@ == seq!['-'] + tail@.take(i as int),
            decreases tail.len() - i,
        {
            v.push(tail[i]);
            proof {
                assert(v@ =~= seq!['-'] + tail@.take(i + 1));
            }
            i = i + 1;
        }
        proof {
            assert(tail@.take(tail@.len() as int) =~= tail@);
            assert(v@ =~= int_str(n as int));
        }
        v
    }
}

/// A decimal rendering has at least one digit, and at least two from 10 on.
pub proof fn lemma_dec_str_len(n: nat)
    ensures
        dec_str(n).len() >= 1,
        n >= 10 ==> dec_str(n).len() >= 2,
    decreases n,
{
    if n >= 10 {
        lemma_dec_str_len(n / 10);
    }
}

/// Decimal rendering is injective: different numbers render differently.
pub proof fn lemma_dec_str_injective(m: nat, n: nat)
    requires
        dec_str(m) == dec_str(n),
    ensures
        m == n,
    decreases m,
{
    if m < 10 && n < 10 {
        assert(dec_str(m)[0] == digit_char(m as int));
        assert(dec_str(n)[0] == digit_char(n as int));
        assert(m == n);
    } else if m < 10 {
        lemma_dec_str_len(n);
        assert(dec_str(m).len() == 1);
        assert(false);
    } else if n < 10 {
        lemma_dec_str_len(m);
        assert(dec_str(n).len() == 1);
        assert(false);
    } else {
        assert(dec_str(m) == dec_str(m / 10).push(digit_char((m % 10) as int)));
        assert(dec_str(n) == dec_str(n / 10).push(digit_char((n % 10) as int)));
        assert(dec_str(m).last() == digit_char((m % 10) as int));
        assert(dec_str(n).last() == digit_char((n % 10) as int));
        assert(m % 10 == n % 10);
        assert(dec_str(m).drop_last() =~= dec_str(m / 10));
        assert(dec_str(n).drop_last() =~= dec_str(n / 10));
        lemma_dec_str_injective(m / 10, n / 10);
        assert(m == n);
    }
}

/// Whether `c` is a decimal digit.
pub open spec fn is_digit(c: char) -> bool {
    '0' <= c && c <= '9'
}

/// The numeric value of a digit character.
pub open spec fn digit_val(c: char) -> int {
    c as int - '0' as int
}

/// Whether every character of `s` is a decimal digit.
pub open spec fn all_digits(s: Seq<char>) -> bool {
    forall|i: int| 0 <= i < s.len() ==> is_digit(#[trigger] s[i])
}

/// The value of an unsigned decimal numeral.
pub open spec fn dec_val(s: Seq<char>) -> int
    decreases s.len(),
{
    if s.len() == 0 {
        0
    } else {
        dec_val(s.drop_last()) * 10 + digit_val(s.last())
    }
}

/// A digit string has a non-negative value.
pub proof fn lemma_dec_val_nonneg(s: Seq<char>)
    requires
        all_digits(s),
    ensures
        dec_val(s) >= 0,
    decreases s.len(),
{
    if s.len() > 0 {
        assert(all_digits(s.drop_last())) by {
            assert(forall|i: int|
                0 <= i < s.drop_last().len() ==> #[trigger] s.drop_last()[i] == s[i]);
        }
        lemma_dec_val_nonneg(s.drop_last());
        assert(is_digit(s.last()));
    }
}

/// Extending a digit string never shrinks its value.
pub proof fn lemma_dec_val_prefix(s: Seq<char>, i: int)
    requires
        all_digits(s),
        0 <= i <= s.len(),
    ensures
        dec_val(s.take(i)) <= dec_val(s),
    decreases s.len() - i,
{
    if i == s.len() {
        assert(s.take(i) =~= s);
    } else {
        let t = s.take(i + 1);
        assert(t.drop_last() =~= s.take(i));
        assert(t.last() == s[i]);
        assert(all_digits(s.take(i))) by {
            assert(forall|j: int| 0 <= j < i ==> #[trigger] s.take(i)[j] == s[j]);
        }
        lemma_dec_val_nonneg(s.take(i));
        assert(is_digit(s[i]));
        assert(dec_val(t) == dec_val(s.take(i)) * 10 + digit_val(s[i]));
        assert(dec_val(s.take(i)) * 10 >= dec_val(s.take(i))) by (nonlinear_arith)
            requires
                dec_val(s.take(i)) >= 0,
        ;
        lemma_dec_val_prefix(s, i + 1);
    }
}

/// Parses an unsigned decimal numeral; `None` when `v` is empty, holds a
/// non-digit, or denotes a value above `u64::MAX`.
pub fn parse_u64(v: &Vec<char>) -> (r: Option<u64>)
    ensures
        r is Some <==> (v@.len() > 0 && all_digits(v@) && dec_val(v@) <= u64::MAX),
        r is Some ==> r->0 as int == dec_val(v@),
{
    if v.len() == 0 {
        return None;
    }
    let mut acc: u64 = 0;
    let mut i: usize = 0;
    while i < v.len()
        invariant
            i <= v@.len(),
            all_digits(v@.take(i as int)),
            acc as int == dec_val(v@.take(i as int)),
        decreases v@.len() - i,
    {
        let c = v[i];
        if c < '0' || c > '9' {
            assert(!is_digit(v@[i as int]));
            return None;
        }
        let d: u64 = (c as u32 as u64) - 48;
        assert(d == digit_val(c) && d < 10);
        proof {
            let t = v@.take(i + 1);
            assert(t.drop_last() =~= v@.take(i as int));
            assert(t.last() == v@[i as int]);
            assert(all_digits(t)) by {
                assert(forall|j: int| 0 <= j < i ==> #[trigger] t[j] == v@.take(i as int)[j]);
            }
        }
        if acc > (u64::MAX - d) / 10 {
            proof {
                assert(dec_val(v@.take(i + 1)) > u64::MAX) by (nonlinear_arith)
                    requires
                        dec_val(v@.take(i + 1)) == acc as int * 10 + d,
                        acc > (u64::MAX - d) / 10,
                        d < 10,
                ;
                if all_digits(v@) {
                    lemma_dec_val_prefix(v@, i + 1);
                }
            }
            return None;
        }
        assert(acc * 10 + d <= u64::MAX) by (nonlinear_arith)
            requires
                acc <= (u64::MAX - d) / 10,
                d < 10,
        ;
        acc = acc * 10 + d;
        i = i + 1;
    }
    proof {
        assert(v@.take(v@.len() as int) =~= v@);
    }
    Some(acc)
}

/// The value of a decimal numeral with an optional leading sign.
pub open spec fn signed_val(s: Seq<char>) -> int {
    if s.len() > 0 && s[0] == '-' {
        -dec_val(s.skip(1))
    } else {
        dec_val(s)
    }
}

/// Whether `s` is a well-formed signed decimal numeral.
pub open spec fn is_signed_numeral(s: Seq<char>) -> bool {
    if s.len() > 0 && s[0] == '-' {
        s.len() > 1 && all_digits(s.skip(1))
    } else {
        s.len() > 0 && all_digits(s)
    }
}

/// Parses a signed decimal numeral; `None` when `v` is not a well-formed
/// numeral or its value is outside the range of `i64`.
pub fn parse_i64(v: &Vec<char>) -> (r: Option<i64>)
    ensures
        r is Some <==> (is_signed_numeral(v@) && i64::MIN <= signed_val(v@) <= i64::MAX),
        r is Some ==> r->0 as int == signed_val(v@),
{
    if v.len() > 0 && v[0] == '-' {
        let mut tail: Vec<char> = Vec::new();
        let mut i: usize = 1;
        while i < v.len()
            invariant
                1 <= i <= v@.len(),
                tail@ == v@.skip(1).take(i - 1),
            decreases v@.len() - i,
        {
            tail.push(v[i]);
            proof {
                assert(tail@ =~= v@.skip(1).take(i as int));
            }
            i = i + 1;
        }
        proof {
            assert(tail@ =~= v@.skip(1));
        }
        match parse_u64(&tail) {
            None => None,
            Some(mag) => {
                if mag <= 9223372036854775807u64 {
                    Some(-(mag as i64))
                } else if mag == 9223372036854775808u64 {
                    Some(i64::MIN)
                } else {
                    None
                }
            },
        }
    } else {
        match parse_u64(v) {
            None => None,
            Some(mag) => {
                if mag <= 9223372036854775807u64 {
                    Some(mag as i64)
                } else {
                    None
                }
            },
        }
    }
}

} // verus!

use vstd::prelude::*;

verus! {

/// The decimal digit character for a value below ten.
pub open spec fn digit_char(d: nat) -> char
    recommends
        d < 10,
{
    ((d + 48) as u8) as char
}

/// The decimal representation of `n`: most significant digit first, no
/// sign, no leading zeros (zero is rendered as a single `'0'`).
pub open spec fn dec_rep(n: nat) -> Seq<char>
    decreases n,
{
    if n < 10 {
        seq![digit_char(n)]
    } else {
        dec_rep(n / 10).push(digit_char(n % 10))
    }
}

/// Whether `c` is a decimal digit.
pub open spec fn is_dec_digit(c: char) -> bool {
    48 <= c as int <= 57
}

/// The numeric value of a decimal digit character.
pub open spec fn digit_val(c: char) -> nat
    recommends
        is_dec_digit(c),
{
    (c as int - 48) as nat
}

/// Whether every character of `s` is a decimal digit.
pub open spec fn all_dec_digits(s: Seq<char>) -> bool {
    forall|i: int| 0 <= i < s.len() ==> is_dec_digit(s[i])
}

/// The numeric value of a string of decimal digits (zero when empty).
pub open spec fn dec_val(s: Seq<char>) -> nat
    recommends
        all_dec_digits(s),
    decreases s.len(),
{
    if s.len() == 0 {
        0
    } else {
        dec_val(s.drop_last()) * 10 + digit_val(s.last())
    }
}

/// A decimal rendering is never empty and holds digits only.
pub proof fn lemma_dec_rep_digits(n: nat)
    ensures
        all_dec_digits(dec_rep(n)),
        dec_rep(n).len() >= 1,
    decreases n,
{
    if n < 10 {
        assert(is_dec_digit(dec_rep(n)[0]));
    } else {
        lemma_dec_rep_digits(n / 10);
        let whole = dec_rep(n);
        let high = dec_rep(n / 10);
        assert(whole == high.push(digit_char(n % 10)));
        assert forall|i: int| 0 <= i < whole.len() implies is_dec_digit(whole[i]) by {
            if i < high.len() {
                assert(whole[i] == high[i]);
            } else {
                assert(whole[i] == digit_char(n % 10));
            }
        }
    }
}

/// Relies on String::push: appends exactly the given character.
#[verifier::external_body]
pub(crate) fn push_char(s: &mut String, c: char)
    ensures
        final(s)@ == old(s)@.push(c),
{
    s.push(c);
}

/// Renders `n` in decimal.
pub fn u64_to_string(n: u64) -> (r: String)
    ensures
        r@ == dec_rep(n as nat),
{
    let mut digits: Vec<char> = Vec::new();
    if n == 0 {
        digits.push('0');
        proof {
            assert(digits@ =~= dec_rep(0));
        }
    } else {
        let mut m: u64 = n;
        while m > 0
            invariant
                m > 0 ==> dec_rep(n as nat) =~= dec_rep(m as nat) + digits@,
                m == 0 ==> dec_rep(n as nat) =~= digits@,
            decreases m,
        {
            let ghost before: Seq<char> = digits@;
            let ghost m_before: nat = m as nat;
            let d: u8 = (m % 10) as u8;
            let c: char = (48 + d) as char;
            digits.insert(0, c);
            m = m / 10;
            proof {
                assert(c == digit_char(m_before % 10));
                if m > 0 {
                    assert(dec_rep(m_before) =~= dec_rep(m as nat).push(digit_char(m_before % 10)));
                    assert(dec_rep(m as nat).push(c) + before =~= dec_rep(m as nat) + digits@);
                } else {
                    assert(m_before < 10);
                    assert(m_before % 10 == m_before);
                    assert(dec_rep(m_before) =~= seq![c]);
                    assert(seq![c] + before =~= digits@);
                }
            }
        }
    }
    let mut r = String::new();
    let mut i: usize = 0;
    while i < digits.len()
        invariant
            i <= digits@.len(),
            r@ =~= digits@.take(i as int),
        decreases digits@.len() - i,
    {
        push_char(&mut r, digits[i]);
        i = i + 1;
        proof {
            assert(digits@.take(i as int) =~= digits@.take(i - 1).push(digits@[i - 1]));
        }
    }
    proof {
        assert(digits@.take(digits@.len() as int) =~= digits@);
    }
    r
}

/// A digit appended on the right can only grow the value of a digit
/// string: the value of any prefix is at most the value of the whole.
proof fn lemma_dec_val_prefix_le(s: Seq<char>, i: int)
    requires
        0 <= i <= s.len(),
    ensures
        dec_val(s.take(i)) <= dec_val(s),
    decreases s.len() - i,
{
    if i < s.len() {
        lemma_dec_val_prefix_le(s, i + 1);
        assert(s.take(i + 1).drop_last() =~= s.take(i));
        assert(dec_val(s.take(i + 1)) == dec_val(s.take(i)) * 10 + digit_val(s.take(i + 1).last()));
    } else {
        assert(s.take(i) =~= s);
    }
}

/// Reads a non-empty string of decimal digits as a `u64`. Returns
/// `None` exactly when the string is empty, holds a non-digit, or names
/// a value above `u64::MAX`.
pub fn parse_u64(s: &str) -> (r: Option<u64>)
    ensures
        r matches Some(n) ==> s@.len() > 0 && all_dec_digits(s@) && dec_val(s@) == n,
        r is None ==> s@.len() == 0 || !all_dec_digits(s@) || dec_val(s@) > u64::MAX,
{
    let len = s.unicode_len();
    if len == 0 {
        return None;
    }
    let mut acc: u64 = 0;
    let mut i: usize = 0;
    while i < len
        invariant
            i <= len,
            len == s@.len(),
            all_dec_digits(s@.take(i as int)),
            acc == dec_val(s@.take(i as int)),
        decreases len - i,
    {
        let c = s.get_char(i);
        let v: u32 = c as u32;
        if v < 48 || v > 57 {
            assert(!is_dec_digit(s@[i as int]));
            return None;
        }
        let d: u64 = (v - 48) as u64;
        proof {
            assert(s@.take(i + 1).drop_last() =~= s@.take(i as int));
            assert(s@.take(i + 1).last() == s@[i as int]);
            assert(dec_val(s@.take(i + 1)) == dec_val(s@.take(i as int)) * 10 + digit_val(
                s@[i as int],
            ));
        }
        if acc > (u64::MAX - d) / 10 {
            proof {
                lemma_dec_val_prefix_le(s@, i + 1);
                assert(acc * 10 + d > u64::MAX) by (nonlinear_arith)
                    requires
                        acc > (u64::MAX - d) / 10,
                        d <= u64::MAX,
                ;
            }
            return None;
        }
        proof {
            assert(acc * 10 + d <= u64::MAX) by (nonlinear_arith)
                requires
                    acc <= (u64::MAX - d) / 10,
                    d <= 9,
            ;
        }
        acc = acc * 10 + d;
        i = i + 1;
    }
    proof {
        assert(s@.take(len as int) =~= s@);
    }
    Some(acc)
}

} // verus!

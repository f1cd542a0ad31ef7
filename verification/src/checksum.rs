//! The NUBAN check-digit algorithm, as a mathematical model.
//!
//! A NUBAN is checked over a twelve-digit window: the three digits of the
//! bank code followed by the nine serial digits of the account number.
//! Each digit is multiplied by a positional weight drawn from the repeating
//! pattern 3, 7, 3; the check digit is derived from the weighted sum
//! modulo ten.

use vstd::prelude::*;

verus! {

/// A decimal digit character, `'0'` through `'9'`.
pub open spec fn is_digit_char(c: char) -> bool {
    48 <= c as u32 && c as u32 <= 57
}

/// Every character of `s` is a decimal digit.
pub open spec fn all_digits(s: Seq<char>) -> bool {
    forall|i: int| 0 <= i < s.len() ==> is_digit_char(#[trigger] s[i])
}

/// Numeric value of a digit character.
pub open spec fn digit_val(c: char) -> int {
    c as u32 - 48
}

/// The weight applied at position `i` of the twelve-digit window:
/// 3, 7, 3, 3, 7, 3, 3, 7, 3, 3, 7, 3.
pub open spec fn weight(i: int) -> int {
    if i % 3 == 1 {
        7
    } else {
        3
    }
}

/// The sum of each digit of `s` multiplied by its positional weight.
pub open spec fn weighted_sum(s: Seq<char>) -> int
    decreases s.len(),
{
    if s.len() == 0 {
        0
    } else {
        weighted_sum(s.drop_last()) + weight(s.len() - 1) * digit_val(s.last())
    }
}

/// The check digit prescribed for the twelve-digit window `s`:
/// `(10 - weighted_sum mod 10) mod 10`.
pub open spec fn spec_check_digit(s: Seq<char>) -> int {
    (10 - weighted_sum(s) % 10) % 10
}

/// The check digit is always a single decimal digit, whatever the window.
pub proof fn lemma_check_digit_range(s: Seq<char>)
    ensures
        0 <= spec_check_digit(s) <= 9,
{
}

/// The check digit is a pure function of the window: equal windows give
/// equal check digits.
pub proof fn lemma_check_digit_deterministic(s1: Seq<char>, s2: Seq<char>)
    requires
        s1 == s2,
    ensures
        spec_check_digit(s1) == spec_check_digit(s2),
{
}

/// The two statements of the final step agree for every sum: taking
/// `10 - (sum mod 10)` and mapping 10 to 0 gives the same digit as
/// reducing `10 - (sum mod 10)` modulo ten again.
pub proof fn lemma_final_step_formulations(sum: int)
    ensures
        (10 - sum % 10) % 10 == if 10 - sum % 10 == 10 {
            0int
        } else {
            10 - sum % 10
        },
{
}

/// Replacing the digit at position `i` moves the weighted sum by the
/// weight at `i` times the change in digit value.
pub proof fn lemma_weighted_sum_update(s: Seq<char>, i: int, c: char)
    requires
        0 <= i < s.len(),
    ensures
        weighted_sum(s.update(i, c)) == weighted_sum(s) + weight(i) * (digit_val(c) - digit_val(
            s[i],
        )),
    decreases s.len(),
{
    let t = s.update(i, c);
    assert(weight(i) * (digit_val(c) - digit_val(s[i])) == weight(i) * digit_val(c) - weight(i)
        * digit_val(s[i])) by {
        assert(weight(i) == 3 || weight(i) == 7);
    }
    if i == s.len() - 1 {
        assert(t.drop_last() =~= s.drop_last());
        assert(t.last() == c && s.last() == s[i]);
        assert(weighted_sum(t) == weighted_sum(s.drop_last()) + weight(i) * digit_val(c));
        assert(weighted_sum(s) == weighted_sum(s.drop_last()) + weight(i) * digit_val(s[i]));
    } else {
        assert(t.drop_last() =~= s.drop_last().update(i, c));
        lemma_weighted_sum_update(s.drop_last(), i, c);
        assert(t.last() == s.last());
        assert(s.drop_last()[i] == s[i]);
        assert(weighted_sum(t) == weighted_sum(s.drop_last().update(i, c)) + weight(t.len() - 1)
            * digit_val(s.last()));
    }
}

/// Two windows whose weighted sums differ by a single weighted digit
/// change have different check digits: the weights 3 and 7 are coprime
/// with 10, so no nonzero digit change can leave the sum unchanged
/// modulo ten.
pub proof fn lemma_check_digit_update(s: Seq<char>, i: int, c: char)
    requires
        0 <= i < s.len(),
        is_digit_char(s[i]),
        is_digit_char(c),
        c != s[i],
    ensures
        spec_check_digit(s.update(i, c)) != spec_check_digit(s),
{
    lemma_weighted_sum_update(s, i, c);
    let delta = digit_val(c) - digit_val(s[i]);
    let w = weight(i);
    let ws = weighted_sum(s);
    let ws2 = weighted_sum(s.update(i, c));
    assert(ws2 == ws + w * delta);
    assert(delta != 0) by {
        if digit_val(c) == digit_val(s[i]) {
            vstd::utf8::char_u32_cast(c, c as u32);
            vstd::utf8::char_u32_cast(s[i], s[i] as u32);
        }
    }
    assert(-9 <= delta <= 9);
    assert(w == 3 || w == 7);
    assert((ws + w * delta) % 10 != ws % 10) by {
        vstd::arithmetic::div_mod::lemma_add_mod_noop(ws, w * delta, 10);
        assert((w * delta) % 10 != 0);
    }
}

} // verus!

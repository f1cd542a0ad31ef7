//! Validation of Nigerian Uniform Bank Account Numbers (NUBAN).
//!
//! A NUBAN consists of a 3-digit bank code and a 10-digit account number
//! whose last digit is a checksum over the preceding twelve digits: the
//! three bank-code digits followed by the nine serial digits. A [`Nuban`]
//! value can only be obtained through the validating constructor, so every
//! instance holds a registered bank code and a checksum-correct account
//! number.

use vstd::prelude::*;

pub mod checksum;
pub mod registry;

use crate::checksum::{all_digits, digit_val, is_digit_char, spec_check_digit, weighted_sum};
use crate::registry::{code_value, spec_bank_name_of, spec_banks, spec_valid_bank_code};

verus! {

/// Why a bank code and account number were rejected.
#[derive(Eq, Copy, Clone, Debug, PartialEq, Structural)]
pub enum Error {
    /// The bank code is not three digits, or is not a registered code.
    InvalidBankCode,
    /// The account number is not ten digits, or its check digit is wrong.
    InvalidAccountNumber,
}

impl Error {
    /// A short description of the rejection.
    pub fn message(&self) -> (r: &'static str)
        ensures
            *self is InvalidBankCode ==> r@ == "invalid bank code"@,
            *self is InvalidAccountNumber ==> r@ == "invalid account number"@,
    {
        match self {
            Error::InvalidBankCode => "invalid bank code",
            Error::InvalidAccountNumber => "invalid account number",
        }
    }
}

/// A well-formed account number for the bank code `code`: exactly ten
/// decimal digits whose last digit is the check digit of the twelve-digit
/// window formed by `code` and the first nine digits.
pub open spec fn spec_valid_account_number(code: Seq<char>, number: Seq<char>) -> bool {
    &&& number.len() == 10
    &&& all_digits(number)
    &&& digit_val(number[9]) == spec_check_digit(code + number.take(9))
}

/// A (bank code, account number) pair that the validating constructor
/// accepts.
pub open spec fn spec_is_valid(code: Seq<char>, number: Seq<char>) -> bool {
    &&& spec_valid_bank_code(code)
    &&& spec_valid_account_number(code, number)
}

/// A validated NUBAN: a registered 3-digit bank code together with a
/// 10-digit account number whose check digit is correct.
#[derive(Eq, Debug, PartialEq)]
pub struct Nuban {
    bank_code: String,
    account_number: String,
}

impl Clone for Nuban {
    fn clone(&self) -> (r: Self)
        ensures
            r == *self,
    {
        proof {
            use_type_invariant(&*self);
        }
        Nuban { bank_code: self.bank_code.clone(), account_number: self.account_number.clone() }
    }
}

impl Nuban {
    #[verifier::type_invariant]
    spec fn wf(self) -> bool {
        spec_is_valid(self.bank_code@, self.account_number@)
    }

    /// The stored bank code, as a sequence of characters.
    pub closed spec fn spec_bank_code(&self) -> Seq<char> {
        self.bank_code@
    }

    /// The stored account number, as a sequence of characters.
    pub closed spec fn spec_account_number(&self) -> Seq<char> {
        self.account_number@
    }

    /// Validates `bank_code` and `account_number` and constructs the NUBAN.
    ///
    /// Checks the bank code first: it must be three digits and registered.
    /// Then the account number: it must be ten digits and its last digit
    /// must equal the check digit computed over the bank code and the first
    /// nine digits.
    pub fn new(bank_code: &str, account_number: &str) -> (r: Result<Nuban, Error>)
        ensures
            r is Ok <==> spec_is_valid(bank_code@, account_number@),
            !spec_valid_bank_code(bank_code@) ==> r == Err::<Nuban, Error>(Error::InvalidBankCode),
            spec_valid_bank_code(bank_code@) && !spec_valid_account_number(
                bank_code@,
                account_number@,
            ) ==> r == Err::<Nuban, Error>(Error::InvalidAccountNumber),
            r matches Ok(n) ==> n.spec_bank_code() == bank_code@ && n.spec_account_number()
                == account_number@,
    {
        if !Self::is_valid_bank(bank_code) {
            return Err(Error::InvalidBankCode);
        }
        if account_number.unicode_len() != 10 {
            return Err(Error::InvalidAccountNumber);
        }
        let mut i: usize = 0;
        while i < 10
            invariant
                spec_valid_bank_code(bank_code@),
                account_number@.len() == 10,
                i <= 10,
                forall|j: int| 0 <= j < i ==> is_digit_char(#[trigger] account_number@[j]),
            decreases 10 - i,
        {
            let c = account_number.get_char(i);
            let u = c as u32;
            if u < 48 || u > 57 {
                proof {
                    assert(!is_digit_char(account_number@[i as int]));
                }
                return Err(Error::InvalidAccountNumber);
            }
            i += 1;
        }
        proof {
            assert forall|j: int|
                0 <= j < account_number@.take(9).len() implies is_digit_char(
                #[trigger] account_number@.take(9)[j],
            ) by {
                assert(account_number@.take(9)[j] == account_number@[j]);
            }
        }
        let expected = Self::calculate_check_digit(bank_code, account_number);
        let last = account_number.get_char(9);
        let actual = (last as u32) - 48;
        if actual != expected {
            return Err(Error::InvalidAccountNumber);
        }
        Ok(Nuban { bank_code: bank_code.to_owned(), account_number: account_number.to_owned() })
    }

    /// True exactly when `bank_code` is three decimal digits registered in
    /// the bank registry.
    pub fn is_valid_bank(bank_code: &str) -> (r: bool)
        ensures
            r == spec_valid_bank_code(bank_code@),
    {
        registry::lookup_bank_name(bank_code).is_some()
    }

    /// True exactly when [`Nuban::new`] would accept the pair.
    pub fn is_valid_account(bank_code: &str, account_number: &str) -> (r: bool)
        ensures
            r == spec_is_valid(bank_code@, account_number@),
    {
        Nuban::new(bank_code, account_number).is_ok()
    }

    /// The validated bank code.
    pub fn bank_code(&self) -> (r: &str)
        ensures
            r@ == self.spec_bank_code(),
            spec_valid_bank_code(r@),
    {
        proof {
            use_type_invariant(&*self);
        }
        self.bank_code.as_str()
    }

    /// The name registered for this NUBAN's bank code. Always succeeds,
    /// since the bank code was validated at construction.
    pub fn bank_name(&self) -> (r: &str)
        ensures
            Some(r@) == spec_bank_name_of(code_value(self.spec_bank_code())),
    {
        proof {
            use_type_invariant(&*self);
        }
        let name = registry::lookup_bank_name(self.bank_code.as_str());
        name.unwrap()
    }

    /// The validated ten-digit account number.
    pub fn account_number(&self) -> (r: &str)
        ensures
            r@ == self.spec_account_number(),
            spec_is_valid(self.spec_bank_code(), r@),
    {
        proof {
            use_type_invariant(&*self);
        }
        self.account_number.as_str()
    }

    /// The check digit: the last character of the account number, as a
    /// one-character string.
    pub fn check_digit(&self) -> (r: &str)
        ensures
            r@ == self.spec_account_number().subrange(9, 10),
            r@.len() == 1,
            digit_val(r@[0]) == spec_check_digit(
                self.spec_bank_code() + self.spec_account_number().take(9),
            ),
    {
        proof {
            use_type_invariant(&*self);
        }
        self.account_number.as_str().substring_char(9, 10)
    }

    /// The NUBAN check digit of `bank_code` followed by the first nine
    /// digits of `account_number`: each of the twelve digits is multiplied
    /// by its weight from the repeating pattern 3, 7, 3 and the products
    /// are summed; the check digit is `(10 - sum mod 10) mod 10`.
    pub fn calculate_check_digit(bank_code: &str, account_number: &str) -> (r: u32)
        requires
            bank_code@.len() == 3,
            all_digits(bank_code@),
            account_number@.len() >= 9,
            all_digits(account_number@.take(9)),
        ensures
            r == spec_check_digit(bank_code@ + account_number@.take(9)),
            r <= 9,
    {
        let ghost window: Seq<char> = bank_code@ + account_number@.take(9);
        let mut sum: u32 = 0;
        let mut i: usize = 0;
        while i < 12
            invariant
                bank_code@.len() == 3,
                all_digits(bank_code@),
                account_number@.len() >= 9,
                all_digits(account_number@.take(9)),
                window == bank_code@ + account_number@.take(9),
                i <= 12,
                sum == weighted_sum(window.take(i as int)),
                sum <= 63 * i,
            decreases 12 - i,
        {
            let c = if i < 3 {
                bank_code.get_char(i)
            } else {
                account_number.get_char(i - 3)
            };
            proof {
                if i >= 3 {
                    assert(window[i as int] == account_number@.take(9)[i - 3]);
                }
                assert(c == window[i as int]);
                assert(is_digit_char(window[i as int]));
                assert(window.take(i as int + 1).drop_last() =~= window.take(i as int));
            }
            let d = (c as u32) - 48;
            let w: u32 = if i % 3 == 1 {
                7
            } else {
                3
            };
            sum = sum + w * d;
            i += 1;
        }
        proof {
            assert(window.take(12) =~= window);
        }
        match 10 - (sum % 10) {
            10 => 0,
            x => x,
        }
    }

    /// The bank registry as a table of (code, bank name) pairs.
    pub fn banks() -> (r: Vec<(&'static str, &'static str)>)
        ensures
            r@.len() == spec_banks().len(),
            forall|i: int|
                0 <= i < r@.len() ==> (#[trigger] r@[i]).0@ == spec_banks()[i].0 && r@[i].1@
                    == spec_banks()[i].1,
    {
        registry::bank_table()
    }
}

/// Law: completing any nine-digit serial with its computed check digit
/// yields an account number that the validating constructor accepts for
/// that bank code.
pub proof fn lemma_round_trip(code: Seq<char>, prefix: Seq<char>, last: char)
    requires
        spec_valid_bank_code(code),
        prefix.len() == 9,
        all_digits(prefix),
        is_digit_char(last),
        digit_val(last) == spec_check_digit(code + prefix),
    ensures
        spec_is_valid(code, prefix.push(last)),
{
    let number = prefix.push(last);
    assert(number.take(9) =~= prefix);
    assert(number[9] == last);
    assert forall|i: int| 0 <= i < number.len() implies is_digit_char(#[trigger] number[i]) by {
        if i < 9 {
            assert(number[i] == prefix[i]);
        }
    }
}

/// Law: changing any single digit of a valid account number yields a pair
/// that the validating constructor rejects, and rejects as an invalid
/// account number. Each weight is coprime with ten, so no change of a
/// single digit can preserve the check digit.
pub proof fn lemma_single_digit_change_detected(
    code: Seq<char>,
    number: Seq<char>,
    i: int,
    c: char,
)
    requires
        spec_is_valid(code, number),
        0 <= i < 10,
        is_digit_char(c),
        c != number[i],
    ensures
        !spec_is_valid(code, number.update(i, c)),
        !spec_valid_account_number(code, number.update(i, c)),
{
    let number2 = number.update(i, c);
    if i == 9 {
        assert(number2.take(9) =~= number.take(9));
        assert(number2[9] == c);
        if digit_val(c) == digit_val(number[9]) {
            vstd::utf8::char_u32_cast(c, c as u32);
            vstd::utf8::char_u32_cast(number[9], number[9] as u32);
        }
    } else {
        let window = code + number.take(9);
        let window2 = code + number2.take(9);
        assert(window2 =~= window.update(3 + i, c));
        assert(window[3 + i] == number[i]);
        checksum::lemma_check_digit_update(window, 3 + i, c);
        assert(number2[9] == number[9]);
    }
}

} // verus!

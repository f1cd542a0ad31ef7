//! The registry of Nigerian bank codes and bank names.
//!
//! The registry is a fixed table: no entry is ever added, removed or
//! changed at run time. A bank code is valid exactly when it consists of
//! three decimal digits whose numeric value is one of the registered
//! codes. Because a code is always exactly three digits, its numeric
//! value identifies it without losing leading zeros.

use vstd::prelude::*;

use crate::checksum::{all_digits, digit_val, is_digit_char};

verus! {

/// Numeric value of a three-digit code sequence.
pub open spec fn code_value(code: Seq<char>) -> int {
    100 * digit_val(code[0]) + 10 * digit_val(code[1]) + digit_val(code[2])
}

/// The bank name registered under the code with numeric value `v`,
/// or `None` when no bank is registered under it.
pub open spec fn spec_bank_name_of(v: int) -> Option<Seq<char>> {
    if v == 44 {
        Some("Access Bank"@)
    } else if v == 14 {
        Some("Afribank"@)
    } else if v == 23 {
        Some("Citibank"@)
    } else if v == 63 {
        Some("Diamond Bank"@)
    } else if v == 50 {
        Some("Ecobank"@)
    } else if v == 40 {
        Some("Equitorial Trust Bank"@)
    } else if v == 11 {
        Some("First Bank"@)
    } else if v == 214 {
        Some("FCMB"@)
    } else if v == 70 {
        Some("Fidelity"@)
    } else if v == 85 {
        Some("FinBank"@)
    } else if v == 58 {
        Some("Guaranty Trust Bank"@)
    } else if v == 69 {
        Some("Intercontinentl Bank"@)
    } else if v == 56 {
        Some("Oceanic Bank"@)
    } else if v == 82 {
        Some("BankPhb"@)
    } else if v == 76 {
        Some("Skye Bank"@)
    } else if v == 84 {
        Some("SpringBank"@)
    } else if v == 221 {
        Some("StanbicIBTC"@)
    } else if v == 68 {
        Some("Standard Chartered Bank"@)
    } else if v == 232 {
        Some("Sterling Bank"@)
    } else if v == 33 {
        Some("United Bank For Africa"@)
    } else if v == 32 {
        Some("Union Bank"@)
    } else if v == 35 {
        Some("Wema Bank"@)
    } else if v == 57 {
        Some("Zenith Bank"@)
    } else if v == 215 {
        Some("Unity Bank"@)
    } else {
        None
    }
}

/// A valid bank code: exactly three decimal digits, registered in the table.
pub open spec fn spec_valid_bank_code(code: Seq<char>) -> bool {
    &&& code.len() == 3
    &&& all_digits(code)
    &&& spec_bank_name_of(code_value(code)) is Some
}

/// The registry as a sequence of (code, bank name) pairs, in table order.
pub open spec fn spec_banks() -> Seq<(Seq<char>, Seq<char>)> {
    seq![
        ("044"@, "Access Bank"@),
        ("014"@, "Afribank"@),
        ("023"@, "Citibank"@),
        ("063"@, "Diamond Bank"@),
        ("050"@, "Ecobank"@),
        ("040"@, "Equitorial Trust Bank"@),
        ("011"@, "First Bank"@),
        ("214"@, "FCMB"@),
        ("070"@, "Fidelity"@),
        ("085"@, "FinBank"@),
        ("058"@, "Guaranty Trust Bank"@),
        ("069"@, "Intercontinentl Bank"@),
        ("056"@, "Oceanic Bank"@),
        ("082"@, "BankPhb"@),
        ("076"@, "Skye Bank"@),
        ("084"@, "SpringBank"@),
        ("221"@, "StanbicIBTC"@),
        ("068"@, "Standard Chartered Bank"@),
        ("232"@, "Sterling Bank"@),
        ("033"@, "United Bank For Africa"@),
        ("032"@, "Union Bank"@),
        ("035"@, "Wema Bank"@),
        ("057"@, "Zenith Bank"@),
        ("215"@, "Unity Bank"@),
    ]
}

/// Law: every entry of the table pairs a valid bank code with the name
/// registered under it.
#[verifier::rlimit(60)]
pub proof fn lemma_banks_well_formed()
    ensures
        forall|i: int|
            0 <= i < spec_banks().len() ==> spec_valid_bank_code(#[trigger] spec_banks()[i].0)
                && spec_bank_name_of(code_value(spec_banks()[i].0)) == Some(spec_banks()[i].1),
{
    reveal_strlit("044");
    reveal_strlit("014");
    reveal_strlit("023");
    reveal_strlit("063");
    reveal_strlit("050");
    reveal_strlit("040");
    reveal_strlit("011");
    reveal_strlit("214");
    reveal_strlit("070");
    reveal_strlit("085");
    reveal_strlit("058");
    reveal_strlit("069");
    reveal_strlit("056");
    reveal_strlit("082");
    reveal_strlit("076");
    reveal_strlit("084");
    reveal_strlit("221");
    reveal_strlit("068");
    reveal_strlit("232");
    reveal_strlit("033");
    reveal_strlit("032");
    reveal_strlit("035");
    reveal_strlit("057");
    reveal_strlit("215");
    assert forall|i: int| 0 <= i < spec_banks().len() implies spec_valid_bank_code(
        #[trigger] spec_banks()[i].0,
    ) && spec_bank_name_of(code_value(spec_banks()[i].0)) == Some(spec_banks()[i].1) by {
        let code = spec_banks()[i].0;
        assert(code.len() == 3);
        assert(is_digit_char(code[0]) && is_digit_char(code[1]) && is_digit_char(code[2]));
        assert(all_digits(code)) by {
            assert forall|j: int| 0 <= j < code.len() implies is_digit_char(
                #[trigger] code[j],
            ) by {
                assert(j == 0 || j == 1 || j == 2);
            }
        }
    }
}

/// Numeric value of `code`, when `code` is exactly three decimal digits.
fn try_code_value(code: &str) -> (r: Option<u32>)
    ensures
        r is Some <==> code@.len() == 3 && all_digits(code@),
        r is Some ==> r->0 == code_value(code@),
{
    if code.unicode_len() != 3 {
        return None;
    }
    let c0 = code.get_char(0);
    let c1 = code.get_char(1);
    let c2 = code.get_char(2);
    let u0 = c0 as u32;
    let u1 = c1 as u32;
    let u2 = c2 as u32;
    if u0 < 48 || u0 > 57 || u1 < 48 || u1 > 57 || u2 < 48 || u2 > 57 {
        proof {
            assert(!all_digits(code@)) by {
                if !is_digit_char(c0) {
                    assert(!is_digit_char(code@[0]));
                } else if !is_digit_char(c1) {
                    assert(!is_digit_char(code@[1]));
                } else {
                    assert(!is_digit_char(code@[2]));
                }
            }
        }
        return None;
    }
    proof {
        assert forall|i: int| 0 <= i < code@.len() implies is_digit_char(#[trigger] code@[i]) by {
            assert(code@[i] == c0 || code@[i] == c1 || code@[i] == c2);
        }
    }
    Some(100 * (u0 - 48) + 10 * (u1 - 48) + (u2 - 48))
}

/// Looks up the bank registered under `code`. Returns the bank's name
/// exactly when `code` is a valid registered bank code.
pub fn lookup_bank_name(code: &str) -> (r: Option<&'static str>)
    ensures
        r is Some <==> spec_valid_bank_code(code@),
        r is Some ==> Some(r->0@) == spec_bank_name_of(code_value(code@)),
{
    let v = match try_code_value(code) {
        Some(v) => v,
        None => {
            return None;
        },
    };
    if v == 44 {
        Some("Access Bank")
    } else if v == 14 {
        Some("Afribank")
    } else if v == 23 {
        Some("Citibank")
    } else if v == 63 {
        Some("Diamond Bank")
    } else if v == 50 {
        Some("Ecobank")
    } else if v == 40 {
        Some("Equitorial Trust Bank")
    } else if v == 11 {
        Some("First Bank")
    } else if v == 214 {
        Some("FCMB")
    } else if v == 70 {
        Some("Fidelity")
    } else if v == 85 {
        Some("FinBank")
    } else if v == 58 {
        Some("Guaranty Trust Bank")
    } else if v == 69 {
        Some("Intercontinentl Bank")
    } else if v == 56 {
        Some("Oceanic Bank")
    } else if v == 82 {
        Some("BankPhb")
    } else if v == 76 {
        Some("Skye Bank")
    } else if v == 84 {
        Some("SpringBank")
    } else if v == 221 {
        Some("StanbicIBTC")
    } else if v == 68 {
        Some("Standard Chartered Bank")
    } else if v == 232 {
        Some("Sterling Bank")
    } else if v == 33 {
        Some("United Bank For Africa")
    } else if v == 32 {
        Some("Union Bank")
    } else if v == 35 {
        Some("Wema Bank")
    } else if v == 57 {
        Some("Zenith Bank")
    } else if v == 215 {
        Some("Unity Bank")
    } else {
        None
    }
}

/// The registry as a table of (code, bank name) pairs, in table order.
pub fn bank_table() -> (r: Vec<(&'static str, &'static str)>)
    ensures
        r@.len() == spec_banks().len(),
        forall|i: int|
            0 <= i < r@.len() ==> (#[trigger] r@[i]).0@ == spec_banks()[i].0 && r@[i].1@
                == spec_banks()[i].1,
{
    let mut r: Vec<(&'static str, &'static str)> = Vec::new();
    r.push(("044", "Access Bank"));
    r.push(("014", "Afribank"));
    r.push(("023", "Citibank"));
    r.push(("063", "Diamond Bank"));
    r.push(("050", "Ecobank"));
    r.push(("040", "Equitorial Trust Bank"));
    r.push(("011", "First Bank"));
    r.push(("214", "FCMB"));
    r.push(("070", "Fidelity"));
    r.push(("085", "FinBank"));
    r.push(("058", "Guaranty Trust Bank"));
    r.push(("069", "Intercontinentl Bank"));
    r.push(("056", "Oceanic Bank"));
    r.push(("082", "BankPhb"));
    r.push(("076", "Skye Bank"));
    r.push(("084", "SpringBank"));
    r.push(("221", "StanbicIBTC"));
    r.push(("068", "Standard Chartered Bank"));
    r.push(("232", "Sterling Bank"));
    r.push(("033", "United Bank For Africa"));
    r.push(("032", "Union Bank"));
    r.push(("035", "Wema Bank"));
    r.push(("057", "Zenith Bank"));
    r.push(("215", "Unity Bank"));
    r
}

} // verus!

use nuban::{Error, Nuban};

#[test]
fn test_returns_new_nuban_instance() {
    let account = Nuban::new("058", "0152792740").unwrap();
    assert!(
        account.bank_code() == "058"
            && account.account_number() == "0152792740"
            && account.check_digit() == "0"
    );
}

#[test]
fn test_returns_false_for_invalid_account() {
    let account = Nuban::new("058", "0982736625");
    assert!(account.is_err());
}

#[test]
fn test_returns_true_for_valid_account() {
    let account = Nuban::new("058", "0152792740");
    assert!(account.is_ok());
}

#[test]
fn test_calculate_check_digit() {
    let correct_check_digit = Nuban::calculate_check_digit("058", "0152792740");
    assert_eq!(correct_check_digit, 0);
}

#[test]
fn test_get_bank_name() {
    let account = Nuban::new("058", "0152792740").unwrap();
    assert_eq!(account.bank_name(), String::from("Guaranty Trust Bank"));
}

#[test]
fn checksum_mismatch_reports_invalid_account_number() {
    assert_eq!(
        Nuban::new("058", "0982736625"),
        Err(Error::InvalidAccountNumber)
    );
}

#[test]
fn unregistered_code_reports_invalid_bank_code() {
    assert_eq!(
        Nuban::new("999", "0152792740"),
        Err(Error::InvalidBankCode)
    );
}

#[test]
fn short_code_reports_invalid_bank_code() {
    assert_eq!(Nuban::new("05", "0152792740"), Err(Error::InvalidBankCode));
}

#[test]
fn short_account_number_reports_invalid_account_number() {
    assert_eq!(
        Nuban::new("058", "01527927"),
        Err(Error::InvalidAccountNumber)
    );
}

#[test]
fn non_digit_account_number_reports_invalid_account_number() {
    assert_eq!(
        Nuban::new("058", "015279274x"),
        Err(Error::InvalidAccountNumber)
    );
}

#[test]
fn non_digit_bank_code_reports_invalid_bank_code() {
    assert_eq!(Nuban::new("0a8", "0152792740"), Err(Error::InvalidBankCode));
}

#[test]
fn empty_inputs_report_invalid_bank_code_first() {
    assert_eq!(Nuban::new("", ""), Err(Error::InvalidBankCode));
}

#[test]
fn bank_code_checked_before_account_number() {
    // Both parts invalid: the bank code is reported first.
    assert_eq!(Nuban::new("999", "01"), Err(Error::InvalidBankCode));
}

#[test]
fn is_valid_bank_matches_registry() {
    assert!(Nuban::is_valid_bank("058"));
    assert!(!Nuban::is_valid_bank("999"));
}

#[test]
fn is_valid_account_agrees_with_new() {
    let cases = [
        ("058", "0152792740"),
        ("058", "0982736625"),
        ("999", "0152792740"),
        ("05", "0152792740"),
        ("058", "01527927"),
        ("", ""),
    ];
    for (code, number) in cases {
        assert_eq!(
            Nuban::is_valid_account(code, number),
            Nuban::new(code, number).is_ok()
        );
    }
}

#[test]
fn check_digit_is_deterministic() {
    let first = Nuban::calculate_check_digit("058", "0152792740");
    let second = Nuban::calculate_check_digit("058", "0152792740");
    assert_eq!(first, second);
}

#[test]
fn check_digit_is_always_a_single_digit() {
    let serials = [
        "000000000",
        "999999999",
        "015279274",
        "098273662",
        "123456789",
        "555000111",
    ];
    for serial in serials {
        for code in ["044", "058", "232", "011"] {
            assert!(Nuban::calculate_check_digit(code, serial) <= 9);
        }
    }
}

#[test]
fn completed_serial_round_trips() {
    let serials = ["015279274", "098273662", "000000000", "123456789"];
    for serial in serials {
        for code in ["044", "058", "215"] {
            let digit = Nuban::calculate_check_digit(code, serial);
            let number = format!("{}{}", serial, digit);
            let account = Nuban::new(code, &number).unwrap();
            assert_eq!(account.account_number(), number);
            assert_eq!(account.bank_code(), code);
        }
    }
}

#[test]
fn single_digit_change_is_detected() {
    let number = "0152792740";
    for position in 0..number.len() {
        for replacement in "0123456789".chars() {
            if replacement == number.as_bytes()[position] as char {
                continue;
            }
            let mut changed: Vec<char> = number.chars().collect();
            changed[position] = replacement;
            let changed: String = changed.into_iter().collect();
            assert_eq!(
                Nuban::new("058", &changed),
                Err(Error::InvalidAccountNumber)
            );
        }
    }
}

#[test]
fn check_digit_agrees_with_weighted_sum_formula() {
    let cases = [
        ("058", "015279274"),
        ("044", "123456789"),
        ("215", "000000000"),
        ("232", "999999999"),
    ];
    for (code, serial) in cases {
        let digits: Vec<u32> = code
            .chars()
            .chain(serial.chars())
            .map(|c| c.to_digit(10).unwrap())
            .collect();
        let weights = [3, 7, 3, 3, 7, 3, 3, 7, 3, 3, 7, 3];
        let sum: u32 = digits.iter().zip(weights.iter()).map(|(d, w)| d * w).sum();
        let by_match = match 10 - (sum % 10) {
            10 => 0,
            x => x,
        };
        let by_mod = (10 - (sum % 10)) % 10;
        assert_eq!(by_match, by_mod);
        assert_eq!(Nuban::calculate_check_digit(code, serial), by_mod);
    }
}

#[test]
fn check_digit_exact_values() {
    // 0*3 + 5*7 + 8*3 + 0*3 + 1*7 + 5*3 + 2*3 + 7*7 + 9*3 + 2*3 + 7*7 + 4*3
    // = 230, and (10 - 230 mod 10) mod 10 = 0.
    assert_eq!(Nuban::calculate_check_digit("058", "015279274"), 0);
    // 0*3 + 4*7 + 4*3 + 1*3 + 2*7 + 3*3 + 4*3 + 5*7 + 6*3 + 7*3 + 8*7 + 9*3
    // = 235, and (10 - 235 mod 10) mod 10 = 5.
    assert_eq!(Nuban::calculate_check_digit("044", "123456789"), 5);
}

#[test]
fn error_messages_name_the_rejected_part() {
    assert_eq!(Error::InvalidBankCode.message(), "invalid bank code");
    assert_eq!(Error::InvalidAccountNumber.message(), "invalid account number");
}

#[test]
fn nuban_can_be_cloned_and_compared() {
    let account = Nuban::new("058", "0152792740").unwrap();
    let copy = account.clone();
    assert_eq!(account, copy);
}

use nuban::Nuban;

#[test]
fn bank_table_lists_every_registered_bank() {
    let banks = Nuban::banks();
    assert_eq!(banks.len(), 24);
    assert_eq!(banks[0], ("044", "Access Bank"));
    assert!(banks.contains(&("058", "Guaranty Trust Bank")));
    assert!(banks.contains(&("215", "Unity Bank")));
}

#[test]
fn every_listed_code_is_a_valid_bank() {
    for (code, _) in Nuban::banks() {
        assert!(Nuban::is_valid_bank(code));
    }
}

#[test]
fn bank_name_matches_table_entry() {
    for (code, name) in Nuban::banks() {
        let digit = Nuban::calculate_check_digit(code, "000000000");
        let number = format!("000000000{}", digit);
        let account = Nuban::new(code, &number).unwrap();
        assert_eq!(account.bank_name(), name);
    }
}

use swedish_iban_tool::{generate_iban, BankAccount, Iban, IbanGenerationError};

#[test]
fn method_one_works() {
    let account_number = "1274 0235 305";
    assert_eq!(generate_iban(&account_number.parse().unwrap()).unwrap(), Iban::new("SE4112000000012740235305"));
}

#[test]
fn method_two_works() {
    let account_number = "6114 5171 82351";
    assert_eq!(generate_iban(&account_number.parse().unwrap()).unwrap(), Iban::new("SE5860000000000517182351"));
}

#[test]
fn method_three_works() {
    let account_number = "8327-9, 014 725 892-5";
    assert_eq!(generate_iban(&account_number.parse().unwrap()).unwrap(), Iban::new("SE5580000832790147258925"));
}

#[test]
fn prefix_0999_is_unclassified() {
    let account: BankAccount = "0999 1234567".parse().unwrap();
    assert_eq!(account.clearing_number(), 999);
    assert_eq!(generate_iban(&account), Err(IbanGenerationError::InvalidClearingNumber));
}

#[test]
fn short_text_without_comma_is_rejected() {
    assert!("12".parse::<BankAccount>().is_err());
    assert!("1234".parse::<BankAccount>().is_err());
    assert!("".parse::<BankAccount>().is_err());
    assert!(" 1 2-3 4 ".parse::<BankAccount>().is_err());
}

#[test]
fn five_characters_without_comma_are_enough() {
    let account: BankAccount = "12345".parse().unwrap();
    assert_eq!(account.clearing_number(), 1234);
    assert_eq!(account.account_number(), "5");
    assert_eq!(generate_iban(&account).unwrap().to_string(), "SE4512000000000000012345");
}

#[test]
fn iban_has_twenty_four_characters_and_digits_after_the_country() {
    for text in [
        "1274 0235 305",
        "6114 5171 82351",
        "8327-9, 014 725 892-5",
        "1274,",
        "4294967295,1",
        "9960,0",
        "1100 1",
    ] {
        let iban = generate_iban(&text.parse().unwrap()).unwrap().to_string();
        assert_eq!(iban.chars().count(), 24);
        assert!(iban.starts_with("SE"));
        assert!(iban[2..].chars().all(|c| c.is_ascii_digit()));
    }
}

#[test]
fn same_normalized_text_gives_same_iban() {
    let plain = generate_iban(&"12740235305".parse().unwrap()).unwrap();
    let spaced = generate_iban(&"1274 0235 305".parse().unwrap()).unwrap();
    let hyphened = generate_iban(&"12-74-02-35-305".parse().unwrap()).unwrap();
    assert_eq!(plain, spaced);
    assert_eq!(plain, hyphened);
    let account: BankAccount = "1274 0235 305".parse().unwrap();
    assert_eq!(generate_iban(&account), generate_iban(&account));
}

#[test]
fn comma_and_four_character_forms_agree() {
    let with_comma = generate_iban(&"1274,0235305".parse().unwrap()).unwrap();
    let without = generate_iban(&"12740235305".parse().unwrap()).unwrap();
    assert_eq!(with_comma, without);
    assert_eq!(with_comma.as_str(), "SE4112000000012740235305");
}

#[test]
fn check_digits_below_ten_keep_their_zero() {
    assert_eq!(generate_iban(&"1274,10".parse().unwrap()).unwrap().as_str(), "SE0612000000000000127410");
    assert_eq!(generate_iban(&"1274,82".parse().unwrap()).unwrap().as_str(), "SE0212000000000000127482");
    assert_eq!(generate_iban(&"1274,".parse().unwrap()).unwrap().as_str(), "SE0812000000000000001274");
}

#[test]
fn check_digits_reach_ninety_eight() {
    assert_eq!(generate_iban(&"1274,9".parse().unwrap()).unwrap().as_str(), "SE9812000000000000012749");
}

#[test]
fn each_error_has_an_input() {
    assert_eq!(
        generate_iban(&"12,34".parse().unwrap()),
        Err(IbanGenerationError::InvalidClearingNumber)
    );
    assert_eq!(
        generate_iban(&"1274,12345678901234".parse().unwrap()),
        Err(IbanGenerationError::IdentifierTooLong)
    );
    assert_eq!(
        generate_iban(&"1274,02a5".parse().unwrap()),
        Err(IbanGenerationError::InvalidResultingIban)
    );
}

#[test]
fn first_failing_stage_decides() {
    // Unclassified, too long and not a digit at once.
    assert_eq!(
        generate_iban(&"1000,x2345678901234567890".parse().unwrap()),
        Err(IbanGenerationError::InvalidClearingNumber)
    );
    // Too long and not a digit.
    assert_eq!(
        generate_iban(&"1274,x2345678901234567890".parse().unwrap()),
        Err(IbanGenerationError::IdentifierTooLong)
    );
}

#[test]
fn iban_new_keeps_the_text() {
    let iban = Iban::new("anything at all");
    assert_eq!(iban.as_str(), "anything at all");
    assert_eq!(iban.to_string(), String::from("anything at all"));
    assert_ne!(iban, Iban::new("SE4112000000012740235305"));
}

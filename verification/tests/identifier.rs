use swedish_iban_tool::{
    assemble_iban, build_identifier, generate_iban, BankAccount, Iban, IbanGenerationError, Method,
};

fn account(text: &str) -> BankAccount {
    text.parse().unwrap()
}

#[test]
fn method_one_joins_clearing_and_account_number() {
    assert_eq!(
        build_identifier(Method::One, &account("1274 0235 305")),
        Ok(String::from("00000012740235305"))
    );
    assert_eq!(
        build_identifier(Method::One, &account("83279,0147258925")),
        Ok(String::from("00832790147258925"))
    );
}

#[test]
fn method_two_leaves_the_clearing_number_out() {
    assert_eq!(
        build_identifier(Method::Two, &account("6114 5171 82351")),
        Ok(String::from("00000000517182351"))
    );
}

#[test]
fn method_three_fills_the_account_number_to_ten() {
    assert_eq!(
        build_identifier(Method::Three, &account("8327,1")),
        Ok(String::from("00083270000000001"))
    );
    assert_eq!(
        build_identifier(Method::Three, &account("8327-9, 014 725 892-5")),
        Ok(String::from("00832790147258925"))
    );
    assert_eq!(
        build_identifier(Method::Three, &account("8327,12345678901")),
        Ok(String::from("00832712345678901"))
    );
}

#[test]
fn identifier_of_exactly_seventeen_digits_fits() {
    assert_eq!(
        build_identifier(Method::One, &account("1274,1234567890123")),
        Ok(String::from("12741234567890123"))
    );
    assert_eq!(
        build_identifier(Method::Two, &account("6114,12345678901234567")),
        Ok(String::from("12345678901234567"))
    );
    assert_eq!(
        build_identifier(Method::Three, &account("8327,1234567890123")),
        Ok(String::from("83271234567890123"))
    );
}

#[test]
fn identifier_of_eighteen_digits_is_refused() {
    assert_eq!(
        build_identifier(Method::One, &account("1274,12345678901234")),
        Err(IbanGenerationError::IdentifierTooLong)
    );
    assert_eq!(
        build_identifier(Method::Two, &account("6114,123456789012345678")),
        Err(IbanGenerationError::IdentifierTooLong)
    );
    assert_eq!(
        build_identifier(Method::Three, &account("8327,12345678901234")),
        Err(IbanGenerationError::IdentifierTooLong)
    );
    assert_eq!(
        build_identifier(Method::Three, &account("12345678,1")),
        Err(IbanGenerationError::IdentifierTooLong)
    );
}

#[test]
fn identifier_is_seventeen_digits_for_digit_accounts() {
    for text in ["1274,", "1274,0", "12745,000000000001", "4294967295,1234567"] {
        for method in [Method::One, Method::Two, Method::Three] {
            if let Ok(identifier) = build_identifier(method, &account(text)) {
                assert_eq!(identifier.len(), 17);
                assert!(identifier.chars().all(|c| c.is_ascii_digit()));
            }
        }
    }
}

#[test]
fn identifier_keeps_what_is_no_digit() {
    assert_eq!(
        build_identifier(Method::Two, &account("6114,12x")),
        Ok(String::from("0000000000000012x"))
    );
}

#[test]
fn generated_ibans_at_the_limits() {
    assert_eq!(
        generate_iban(&account("1274,1234567890123")).unwrap().as_str(),
        "SE4712012741234567890123"
    );
    assert_eq!(
        generate_iban(&account("6114,12345678901234567")).unwrap().as_str(),
        "SE8960012345678901234567"
    );
    assert_eq!(
        generate_iban(&account("8327,1234567890123")).unwrap().as_str(),
        "SE7980083271234567890123"
    );
    assert_eq!(
        generate_iban(&account("8327,12345678901")).unwrap().as_str(),
        "SE1580000832712345678901"
    );
    assert_eq!(generate_iban(&account("8327,1")).unwrap().as_str(), "SE4280000083270000000001");
    assert_eq!(
        generate_iban(&account("4294967295,1")).unwrap().as_str(),
        "SE8430000000042949672951"
    );
    assert_eq!(
        generate_iban(&account("832791,0123456789")).unwrap().as_str(),
        "SE8480008327910123456789"
    );
    assert_eq!(generate_iban(&account("9969-7")).unwrap().as_str(), "SE5695000000000000000007");
    assert_eq!(generate_iban(&account("9960,0")).unwrap().as_str(), "SE5195000000000000000000");
    assert_eq!(generate_iban(&account("1100 1")).unwrap().as_str(), "SE6330000000000000011001");
}

#[test]
fn generation_refuses_over_long_accounts_in_every_method() {
    for text in ["1274,12345678901234", "6114,123456789012345678", "8327,12345678901234"] {
        assert_eq!(generate_iban(&account(text)), Err(IbanGenerationError::IdentifierTooLong));
    }
}

#[test]
fn generation_refuses_a_second_comma() {
    assert_eq!(
        generate_iban(&account("1274,02,35")),
        Err(IbanGenerationError::InvalidResultingIban)
    );
}

#[test]
fn assemble_puts_the_parts_in_order() {
    assert_eq!(
        assemble_iban(41, 120, "00000012740235305"),
        Iban::new("SE4112000000012740235305")
    );
    assert_eq!(assemble_iban(5, 600, "00000000000000001"), Iban::new("SE0560000000000000000001"));
    assert_eq!(assemble_iban(0, 9, "x"), Iban::new("SE009x"));
}

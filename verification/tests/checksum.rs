use swedish_iban_tool::{mod97, remainder_mod_97};

#[test]
fn mod97_of_the_first_example() {
    assert_eq!(mod97(String::from("12000000012740235305")), Ok(41));
}

#[test]
fn mod97_of_the_other_examples() {
    assert_eq!(mod97(String::from("60000000000517182351")), Ok(58));
    assert_eq!(mod97(String::from("80000832790147258925")), Ok(55));
}

#[test]
fn mod97_of_short_bodies() {
    assert_eq!(mod97(String::new()), Ok(95));
    assert_eq!(mod97(String::from("0")), Ok(95));
    assert_eq!(mod97(String::from("1")), Ok(68));
    assert_eq!(mod97(String::from("96")), Ok(25));
    assert_eq!(mod97(String::from("97")), Ok(95));
}

#[test]
fn mod97_takes_a_body_of_any_length() {
    let body = "1234567890123456789012345678901234567890123456789012345678901234567890";
    assert_eq!(mod97(String::from(body)), Ok(3));
}

#[test]
fn mod97_rejects_what_is_no_digit() {
    assert_eq!(mod97(String::from("12a")), Err(()));
    assert_eq!(mod97(String::from("+12")), Err(()));
    assert_eq!(mod97(String::from("1 2")), Err(()));
    assert_eq!(mod97(String::from("１２")), Err(()));
}

#[test]
fn remainder_is_that_of_the_number() {
    assert_eq!(remainder_mod_97(""), Some(0));
    assert_eq!(remainder_mod_97("0"), Some(0));
    assert_eq!(remainder_mod_97("96"), Some(96));
    assert_eq!(remainder_mod_97("97"), Some(0));
    assert_eq!(remainder_mod_97("000098"), Some(1));
    assert_eq!(remainder_mod_97("12000000012740235305"), Some(2));
    assert_eq!(
        remainder_mod_97("1234567890123456789012345678901234567890123456789012345678901234567890"),
        Some(7)
    );
    assert_eq!(remainder_mod_97("12x"), None);
}

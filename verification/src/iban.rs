//! From an account to its IBAN: the national identifier, the check digits and
//! the assembled text.

use crate::account::{normalize, BankAccount, BankAccountView};
use crate::checksum::{check_digits, mod97};
use crate::clearingnumber_lookup::{
    classify, clearing_prefix, lemma_classified_bank_code, lookup, Method,
};
use crate::numeral::{
    all_digits, decimal, decimal_string, lemma_all_digits_concat, lemma_decimal,
    lemma_decimal_len, pad_left, pad_left_zeros, zeros,
};
use vstd::prelude::*;
use vstd::string::*;

verus! {

/// Why an account has no IBAN.
#[derive(Clone, Copy, PartialEq, Eq, Debug, Structural)]
pub enum IbanGenerationError {
    /// No line of the table covers the first four digits of the clearing
    /// number.
    InvalidClearingNumber,
    /// Clearing number and account number together do not fit into the
    /// seventeen digits of the identifier. Nothing is cut off to make them fit.
    IdentifierTooLong,
    /// The account number holds a character that is no digit, so that no check
    /// digits can be computed.
    InvalidResultingIban,
}

/// An IBAN, as text.
#[derive(PartialEq, Eq, Debug)]
pub struct Iban(String);

impl View for Iban {
    type V = Seq<char>;

    closed spec fn view(&self) -> Seq<char> {
        self.0@
    }
}

impl Iban {
    /// Wraps a text as it stands; nothing about it is checked.
    pub fn new(str: &str) -> (r: Iban)
        ensures
            r@ == str@,
    {
        Iban(String::from_str(str))
    }

    /// The text of the IBAN.
    pub fn as_str(&self) -> (r: &str)
        ensures
            r@ == self@,
    {
        self.0.as_str()
    }

    /// The text of the IBAN, as a value of its own.
    pub fn to_string(&self) -> (r: String)
        ensures
            r@ == self@,
    {
        self.0.clone()
    }
}

/// The width of the national identifier.
pub open spec fn identifier_width() -> nat {
    17
}

/// What a layout puts into the identifier, before it is filled to its width.
pub open spec fn identifier_digits(
    method: Method,
    clearing_number: nat,
    account_number: Seq<char>,
) -> Seq<char> {
    match method {
        Method::One => decimal(clearing_number) + account_number,
        Method::Two => account_number,
        Method::Three => decimal(clearing_number) + pad_left(account_number, 10),
    }
}

/// The national identifier: the digits of the layout with zeros in front, up
/// to seventeen characters. There is none where the digits are more than
/// that.
pub open spec fn identifier(
    method: Method,
    clearing_number: nat,
    account_number: Seq<char>,
) -> Option<Seq<char>> {
    let digits = identifier_digits(method, clearing_number, account_number);
    if digits.len() > identifier_width() {
        None
    } else {
        Some(pad_left(digits, identifier_width()))
    }
}

/// The parts of an IBAN in their order: "SE", the check number in two digits,
/// the bank code, the identifier.
pub open spec fn iban_from_parts(check: nat, iban_code: nat, identifier: Seq<char>) -> Seq<char> {
    seq!['S', 'E'] + pad_left(decimal(check), 2) + decimal(iban_code) + identifier
}

/// The IBAN of a bank code and an identifier of digits, with the check digits
/// that belong to them.
pub open spec fn iban_text(iban_code: nat, identifier: Seq<char>) -> Seq<char> {
    iban_from_parts(check_digits(decimal(iban_code) + identifier) as nat, iban_code, identifier)
}

/// The IBAN of an account, or the reason why it has none. The stages are
/// taken in order, and the first that fails decides.
pub open spec fn iban_of(account: BankAccountView) -> Result<Seq<char>, IbanGenerationError> {
    match classify(clearing_prefix(account.clearing_number)) {
        None => Err(IbanGenerationError::InvalidClearingNumber),
        Some(rule) => match identifier(
            rule.method,
            account.clearing_number,
            account.account_number,
        ) {
            None => Err(IbanGenerationError::IdentifierTooLong),
            Some(identifier) => if all_digits(account.account_number) {
                Ok(iban_text(rule.iban_code as nat, identifier))
            } else {
                Err(IbanGenerationError::InvalidResultingIban)
            },
        },
    }
}

/// The shape of a Swedish IBAN: twenty-four characters, "SE" and then digits
/// only.
pub open spec fn is_swedish_iban(text: Seq<char>) -> bool {
    &&& text.len() == 24
    &&& text[0] == 'S'
    &&& text[1] == 'E'
    &&& all_digits(text.skip(2))
}

/// Zeros are digits.
pub proof fn lemma_zeros_are_digits(count: nat)
    ensures
        all_digits(zeros(count)),
        zeros(count).len() == count,
{
}

/// Filling a text with zeros keeps it a run of digits, or keeps it from being
/// one; the result is at least as wide as asked.
pub proof fn lemma_pad_left(s: Seq<char>, width: nat)
    ensures
        all_digits(pad_left(s, width)) <==> all_digits(s),
        pad_left(s, width).len() == if s.len() >= width {
            s.len()
        } else {
            width
        },
{
    if s.len() < width {
        lemma_zeros_are_digits((width - s.len()) as nat);
        lemma_all_digits_concat(zeros((width - s.len()) as nat), s);
    }
}

/// An identifier is exactly seventeen characters long, and it consists of
/// digits exactly where the account number does.
pub proof fn lemma_identifier_shape(method: Method, clearing_number: nat, account_number: Seq<char>)
    ensures
        identifier(method, clearing_number, account_number) matches Some(text) ==> text.len() == 17
            && (all_digits(text) <==> all_digits(account_number)),
{
    let digits = identifier_digits(method, clearing_number, account_number);
    lemma_pad_left(digits, identifier_width());
    lemma_decimal(clearing_number);
    match method {
        Method::One => {
            lemma_all_digits_concat(decimal(clearing_number), account_number);
        },
        Method::Two => {},
        Method::Three => {
            lemma_pad_left(account_number, 10);
            lemma_all_digits_concat(decimal(clearing_number), pad_left(account_number, 10));
        },
    }
}

/// The parts of an IBAN, where the check number has at most two digits, the
/// bank code has three and the identifier is seventeen digits, make a Swedish
/// IBAN.
pub proof fn lemma_iban_from_parts_shape(check: nat, iban_code: nat, identifier: Seq<char>)
    requires
        check <= 99,
        100 <= iban_code <= 999,
        identifier.len() == 17,
        all_digits(identifier),
    ensures
        is_swedish_iban(iban_from_parts(check, iban_code, identifier)),
{
    let checks = pad_left(decimal(check), 2);
    let code = decimal(iban_code);
    lemma_decimal(check);
    lemma_decimal_len(check);
    lemma_pad_left(decimal(check), 2);
    lemma_decimal(iban_code);
    lemma_decimal_len(iban_code);
    let text = iban_from_parts(check, iban_code, identifier);
    assert(text.skip(2) =~= checks + code + identifier);
    lemma_all_digits_concat(checks + code, identifier);
    lemma_all_digits_concat(checks, code);
}

/// Whenever an account has an IBAN, it is twenty-four characters long, begins
/// with "SE", and the twenty-two characters after that are digits.
pub proof fn lemma_iban_shape(account: BankAccountView)
    ensures
        iban_of(account) matches Ok(text) ==> is_swedish_iban(text),
{
    if let Ok(text) = iban_of(account) {
        let prefix = clearing_prefix(account.clearing_number);
        let rule = classify(prefix).unwrap();
        let id = identifier(rule.method, account.clearing_number, account.account_number).unwrap();
        lemma_classified_bank_code(prefix);
        lemma_identifier_shape(rule.method, account.clearing_number, account.account_number);
        lemma_iban_from_parts_shape(
            check_digits(decimal(rule.iban_code as nat) + id) as nat,
            rule.iban_code as nat,
            id,
        );
    }
}

/// Two readings of texts that are the same once spaces and hyphens are gone
/// agree: both fail, or both give accounts that hold the same.
pub proof fn lemma_reading_is_deterministic(
    first: &str,
    second: &str,
    first_account: Result<BankAccount, ()>,
    second_account: Result<BankAccount, ()>,
)
    requires
        normalize(first@) == normalize(second@),
        call_ensures(BankAccount::new, (first,), first_account),
        call_ensures(BankAccount::new, (second,), second_account),
    ensures
        match (first_account, second_account) {
            (Ok(a), Ok(b)) => a@ == b@,
            (Err(_), Err(_)) => true,
            _ => false,
        },
{
}

/// Two runs of [`generate_iban`] on accounts that hold the same agree: both
/// give the same IBAN, or both fail for the same reason.
pub proof fn lemma_generation_is_deterministic(
    first: &BankAccount,
    second: &BankAccount,
    first_result: Result<Iban, IbanGenerationError>,
    second_result: Result<Iban, IbanGenerationError>,
)
    requires
        first@ == second@,
        call_ensures(generate_iban, (first,), first_result),
        call_ensures(generate_iban, (second,), second_result),
    ensures
        match (first_result, second_result) {
            (Ok(a), Ok(b)) => a@ == b@,
            (Err(e), Err(f)) => e == f,
            _ => false,
        },
{
}

/// Builds the national identifier of an account in the given layout. Fails
/// exactly where the digits of the layout are more than seventeen.
pub fn build_identifier(method: Method, bank_account: &BankAccount) -> (r: Result<
    String,
    IbanGenerationError,
>)
    ensures
        match r {
            Ok(text) => identifier(
                method,
                bank_account@.clearing_number,
                bank_account@.account_number,
            ) == Some(text@) && text@.len() == 17 && (all_digits(text@) <==> all_digits(
                bank_account@.account_number,
            )),
            Err(e) => e == IbanGenerationError::IdentifierTooLong && identifier(
                method,
                bank_account@.clearing_number,
                bank_account@.account_number,
            ) is None,
        },
{
    let account_number = bank_account.account_number();
    let digits = match method {
        Method::One => {
            let mut digits = decimal_string(bank_account.clearing_number());
            digits.append(account_number);
            digits
        },
        Method::Two => String::from_str(account_number),
        Method::Three => {
            let mut digits = decimal_string(bank_account.clearing_number());
            let filled = pad_left_zeros(account_number, 10);
            digits.append(filled.as_str());
            digits
        },
    };
    proof {
        lemma_identifier_shape(
            method,
            bank_account@.clearing_number,
            bank_account@.account_number,
        );
    }
    if digits.as_str().unicode_len() > 17 {
        Err(IbanGenerationError::IdentifierTooLong)
    } else {
        Ok(pad_left_zeros(digits.as_str(), 17))
    }
}

/// Puts the parts of an IBAN together: "SE", the check number in two digits,
/// the bank code, the identifier.
pub fn assemble_iban(check: i16, iban_code: u16, identifier: &str) -> (r: Iban)
    requires
        check >= 0,
    ensures
        r@ == iban_from_parts(check as nat, iban_code as nat, identifier@),
{
    let check_text = decimal_string(check as u32);
    let check_digits = pad_left_zeros(check_text.as_str(), 2);
    let code = decimal_string(iban_code as u32);
    let mut text = String::from_str("SE");
    text.append(check_digits.as_str());
    text.append(code.as_str());
    text.append(identifier);
    proof {
        reveal_strlit("SE");
        assert("SE"@ =~= seq!['S', 'E']);
    }
    Iban(text)
}

/// The IBAN of an account.
///
/// The first four digits of the clearing number decide the bank code and the
/// layout of the identifier; the check digits are computed over bank code and
/// identifier. The result is [`iban_of`] of the account: the IBAN, or the
/// first reason in the order of the stages why there is none.
pub fn generate_iban(bank_account: &BankAccount) -> (r: Result<Iban, IbanGenerationError>)
    ensures
        match r {
            Ok(iban) => iban_of(bank_account@) == Ok::<Seq<char>, IbanGenerationError>(iban@)
                && is_swedish_iban(iban@),
            Err(e) => iban_of(bank_account@) == Err::<Seq<char>, IbanGenerationError>(e),
        },
{
    proof {
        lemma_iban_shape(bank_account@);
    }
    let rule = match lookup(bank_account) {
        Some(rule) => rule,
        None => {
            return Err(IbanGenerationError::InvalidClearingNumber);
        },
    };
    let identifier = match build_identifier(rule.method, bank_account) {
        Ok(identifier) => identifier,
        Err(e) => {
            return Err(e);
        },
    };
    let mut body = decimal_string(rule.iban_code as u32);
    body.append(identifier.as_str());
    proof {
        lemma_decimal(rule.iban_code as nat);
        lemma_all_digits_concat(decimal(rule.iban_code as nat), identifier@);
    }
    match mod97(body) {
        Ok(check) => Ok(assemble_iban(check, rule.iban_code, identifier.as_str())),
        Err(_) => Err(IbanGenerationError::InvalidResultingIban),
    }
}

} // verus!

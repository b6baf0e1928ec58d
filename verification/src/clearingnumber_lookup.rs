//! The table that maps clearing numbers to bank codes and identifier layouts.

use crate::account::BankAccount;
use crate::numeral::{decimal, lemma_decimal, lemma_decimal_len, numeral_value};
use vstd::prelude::*;

verus! {

/// How the national identifier is laid out.
#[derive(Clone, Copy, PartialEq, Eq, Debug, Structural)]
pub enum Method {
    /// Clearing number, then account number.
    One,
    /// The account number alone.
    Two,
    /// Clearing number, then the account number filled to ten digits.
    Three,
}

/// What the table says of a clearing number.
#[derive(Clone, Copy, PartialEq, Eq, Debug, Structural)]
pub struct LookupResult {
    /// The bank code that follows the check digits in the IBAN.
    pub iban_code: u16,
    pub method: Method,
}

/// One line of the table: the prefixes from `low` to `high`, both included,
/// belong to the bank `iban_code` and are laid out by `method`.
#[derive(Clone, Copy, Debug)]
pub struct ClearingRange {
    pub low: u16,
    pub high: u16,
    pub iban_code: u16,
    pub method: Method,
}

impl ClearingRange {
    /// The line covers `prefix`.
    pub open spec fn covers(&self, prefix: nat) -> bool {
        self.low <= prefix && prefix <= self.high
    }

    /// What the line assigns to the prefixes it covers.
    pub open spec fn rule(&self) -> LookupResult {
        LookupResult { iban_code: self.iban_code, method: self.method }
    }
}

/// The table, in the order in which it is read. Two lines of a single prefix
/// stand before a wider line that covers the same prefix; they assign what the
/// wider line assigns.
pub open spec fn range_table() -> Seq<ClearingRange> {
    seq![
        ClearingRange { low: 1100, high: 1199, iban_code: 300, method: Method::One },
        ClearingRange { low: 1200, high: 1399, iban_code: 120, method: Method::One },
        ClearingRange { low: 1400, high: 2099, iban_code: 300, method: Method::One },
        ClearingRange { low: 2300, high: 2399, iban_code: 230, method: Method::One },
        ClearingRange { low: 2400, high: 2499, iban_code: 120, method: Method::One },
        ClearingRange { low: 3300, high: 3300, iban_code: 300, method: Method::One },
        ClearingRange { low: 3000, high: 3399, iban_code: 300, method: Method::One },
        ClearingRange { low: 3400, high: 3409, iban_code: 902, method: Method::One },
        ClearingRange { low: 3782, high: 3782, iban_code: 300, method: Method::One },
        ClearingRange { low: 3410, high: 4999, iban_code: 300, method: Method::One },
        ClearingRange { low: 5000, high: 5999, iban_code: 500, method: Method::One },
        ClearingRange { low: 6000, high: 6999, iban_code: 600, method: Method::Two },
        ClearingRange { low: 7000, high: 7999, iban_code: 800, method: Method::One },
        ClearingRange { low: 8000, high: 8999, iban_code: 800, method: Method::Three },
        ClearingRange { low: 9020, high: 9029, iban_code: 902, method: Method::One },
        ClearingRange { low: 9040, high: 9049, iban_code: 904, method: Method::One },
        ClearingRange { low: 9060, high: 9069, iban_code: 902, method: Method::One },
        ClearingRange { low: 9070, high: 9079, iban_code: 907, method: Method::One },
        ClearingRange { low: 9100, high: 9109, iban_code: 910, method: Method::One },
        ClearingRange { low: 9120, high: 9124, iban_code: 500, method: Method::One },
        ClearingRange { low: 9130, high: 9149, iban_code: 500, method: Method::One },
        ClearingRange { low: 9150, high: 9169, iban_code: 915, method: Method::One },
        ClearingRange { low: 9170, high: 9179, iban_code: 917, method: Method::One },
        ClearingRange { low: 9190, high: 9199, iban_code: 919, method: Method::One },
        ClearingRange { low: 9230, high: 9239, iban_code: 923, method: Method::One },
        ClearingRange { low: 9250, high: 9259, iban_code: 925, method: Method::One },
        ClearingRange { low: 9270, high: 9279, iban_code: 927, method: Method::One },
        ClearingRange { low: 9300, high: 9349, iban_code: 930, method: Method::One },
        ClearingRange { low: 9280, high: 9289, iban_code: 928, method: Method::One },
        ClearingRange { low: 9390, high: 9399, iban_code: 939, method: Method::One },
        ClearingRange { low: 9400, high: 9449, iban_code: 940, method: Method::One },
        ClearingRange { low: 9460, high: 9469, iban_code: 946, method: Method::One },
        ClearingRange { low: 9470, high: 9479, iban_code: 947, method: Method::One },
        ClearingRange { low: 9500, high: 9549, iban_code: 950, method: Method::Two },
        ClearingRange { low: 9550, high: 9569, iban_code: 955, method: Method::One },
        ClearingRange { low: 9570, high: 9579, iban_code: 957, method: Method::Two },
        ClearingRange { low: 9580, high: 9589, iban_code: 958, method: Method::One },
        ClearingRange { low: 9590, high: 9599, iban_code: 959, method: Method::One },
        ClearingRange { low: 9630, high: 9639, iban_code: 963, method: Method::One },
        ClearingRange { low: 9640, high: 9649, iban_code: 964, method: Method::One },
        ClearingRange { low: 9650, high: 9659, iban_code: 965, method: Method::One },
        ClearingRange { low: 9660, high: 9669, iban_code: 966, method: Method::One },
        ClearingRange { low: 9670, high: 9679, iban_code: 967, method: Method::One },
        ClearingRange { low: 9680, high: 9689, iban_code: 968, method: Method::One },
        ClearingRange { low: 9700, high: 9709, iban_code: 970, method: Method::One },
        ClearingRange { low: 9750, high: 9759, iban_code: 975, method: Method::One },
        ClearingRange { low: 9780, high: 9789, iban_code: 978, method: Method::One },
        ClearingRange { low: 9960, high: 9969, iban_code: 950, method: Method::Two },
    ]
}

/// The first line of `table` at or after `start` that covers `prefix` decides.
pub open spec fn first_match_from(table: Seq<ClearingRange>, prefix: nat, start: int) -> Option<
    LookupResult,
>
    decreases table.len() - start,
{
    if start < 0 || start >= table.len() {
        None
    } else if table[start].covers(prefix) {
        Some(table[start].rule())
    } else {
        first_match_from(table, prefix, start + 1)
    }
}

/// The bank code and layout of a four-digit prefix: those of the first line of
/// the table that covers it, if any does.
pub open spec fn classify(prefix: nat) -> Option<LookupResult> {
    first_match_from(range_table(), prefix, 0)
}

/// The number that the first four digits of a clearing number denote; the
/// clearing number itself where it has at most four digits.
pub open spec fn clearing_prefix(clearing_number: nat) -> nat {
    let text = decimal(clearing_number);
    if text.len() <= 4 {
        numeral_value(text)
    } else {
        numeral_value(text.take(4))
    }
}

/// A clearing number of at most four digits is its own prefix.
pub proof fn lemma_clearing_prefix_short(clearing_number: nat)
    requires
        clearing_number < 10000,
    ensures
        clearing_prefix(clearing_number) == clearing_number,
{
    lemma_decimal(clearing_number);
    lemma_decimal_len(clearing_number);
}

/// Dropping the last digit of a clearing number of five or more digits keeps
/// its prefix.
pub proof fn lemma_clearing_prefix_step(clearing_number: nat)
    requires
        clearing_number >= 10000,
    ensures
        clearing_prefix(clearing_number) == clearing_prefix(clearing_number / 10),
{
    let shorter = decimal(clearing_number / 10);
    lemma_decimal_len(clearing_number);
    lemma_decimal_len(clearing_number / 10);
    assert(shorter.len() >= 4);
    assert(decimal(clearing_number).take(4) =~= shorter.take(4));
    if shorter.len() == 4 {
        assert(shorter.take(4) =~= shorter);
    }
}

/// Where reading from `start` finds nothing, no line from there on covers the
/// prefix; where it finds something, that is what the first such line assigns.
pub proof fn lemma_first_match_from(table: Seq<ClearingRange>, prefix: nat, start: int)
    requires
        0 <= start <= table.len(),
    ensures
        first_match_from(table, prefix, start) is None <==> forall|i: int|
            start <= i < table.len() ==> !(#[trigger] table[i]).covers(prefix),
        first_match_from(table, prefix, start) is Some ==> exists|k: int|
            start <= k < table.len() && (#[trigger] table[k]).covers(prefix)
                && first_match_from(table, prefix, start) == Some(table[k].rule()) && forall|j: int|
                start <= j < k ==> !(#[trigger] table[j]).covers(prefix),
    decreases table.len() - start,
{
    if start < table.len() {
        if table[start].covers(prefix) {
            assert(start <= start < table.len() && table[start].covers(prefix)
                && first_match_from(table, prefix, start) == Some(table[start].rule()));
        } else {
            lemma_first_match_from(table, prefix, start + 1);
            if first_match_from(table, prefix, start) is Some {
                let k = choose|k: int|
                    start + 1 <= k < table.len() && (#[trigger] table[k]).covers(prefix)
                        && first_match_from(table, prefix, start + 1) == Some(table[k].rule())
                        && forall|j: int|
                        start + 1 <= j < k ==> !(#[trigger] table[j]).covers(prefix);
                assert(start <= k < table.len() && table[k].covers(prefix) && first_match_from(
                    table,
                    prefix,
                    start,
                ) == Some(table[k].rule()));
            }
        }
    }
}

/// Two lines of the table that cover one prefix assign the same to it.
pub proof fn lemma_lines_agree(prefix: nat, i: int, j: int)
    requires
        0 <= i < range_table().len(),
        0 <= j < range_table().len(),
        range_table()[i].covers(prefix),
        range_table()[j].covers(prefix),
    ensures
        range_table()[i].rule() == range_table()[j].rule(),
{
}

/// Every bank code in the table has three digits.
pub proof fn lemma_bank_codes_have_three_digits(i: int)
    requires
        0 <= i < range_table().len(),
    ensures
        100 <= range_table()[i].iban_code <= 999,
{
}

/// A prefix that a line of the table covers is classified, and as that line
/// says: the bank code and the layout are those of the line.
pub proof fn lemma_covered_prefix_is_classified(prefix: nat, i: int)
    requires
        0 <= i < range_table().len(),
        range_table()[i].covers(prefix),
    ensures
        classify(prefix) == Some(range_table()[i].rule()),
{
    let table = range_table();
    lemma_first_match_from(table, prefix, 0);
    assert(classify(prefix) is Some);
    let k = choose|k: int|
        0 <= k < table.len() && (#[trigger] table[k]).covers(prefix) && first_match_from(
            table,
            prefix,
            0,
        ) == Some(table[k].rule()) && forall|j: int|
            0 <= j < k ==> !(#[trigger] table[j]).covers(prefix);
    lemma_lines_agree(prefix, k, i);
}

/// A prefix is left unclassified exactly where no line of the table covers
/// it.
pub proof fn lemma_uncovered_prefix_is_unclassified(prefix: nat)
    ensures
        classify(prefix) is None <==> forall|i: int|
            0 <= i < range_table().len() ==> !(#[trigger] range_table()[i]).covers(prefix),
{
    lemma_first_match_from(range_table(), prefix, 0);
}

/// Whatever the table assigns carries a bank code of three digits.
pub proof fn lemma_classified_bank_code(prefix: nat)
    ensures
        classify(prefix) matches Some(rule) ==> 100 <= rule.iban_code <= 999,
{
    let table = range_table();
    lemma_first_match_from(table, prefix, 0);
    if classify(prefix) is Some {
        let k = choose|k: int|
            0 <= k < table.len() && (#[trigger] table[k]).covers(prefix) && first_match_from(
                table,
                prefix,
                0,
            ) == Some(table[k].rule()) && forall|j: int|
                0 <= j < k ==> !(#[trigger] table[j]).covers(prefix);
        lemma_bank_codes_have_three_digits(k);
    }
}

/// The table as a value.
pub fn ranges() -> (table: [ClearingRange; 48])
    ensures
        table@ == range_table(),
{
    [
        ClearingRange { low: 1100, high: 1199, iban_code: 300, method: Method::One },
        ClearingRange { low: 1200, high: 1399, iban_code: 120, method: Method::One },
        ClearingRange { low: 1400, high: 2099, iban_code: 300, method: Method::One },
        ClearingRange { low: 2300, high: 2399, iban_code: 230, method: Method::One },
        ClearingRange { low: 2400, high: 2499, iban_code: 120, method: Method::One },
        ClearingRange { low: 3300, high: 3300, iban_code: 300, method: Method::One },
        ClearingRange { low: 3000, high: 3399, iban_code: 300, method: Method::One },
        ClearingRange { low: 3400, high: 3409, iban_code: 902, method: Method::One },
        ClearingRange { low: 3782, high: 3782, iban_code: 300, method: Method::One },
        ClearingRange { low: 3410, high: 4999, iban_code: 300, method: Method::One },
        ClearingRange { low: 5000, high: 5999, iban_code: 500, method: Method::One },
        ClearingRange { low: 6000, high: 6999, iban_code: 600, method: Method::Two },
        ClearingRange { low: 7000, high: 7999, iban_code: 800, method: Method::One },
        ClearingRange { low: 8000, high: 8999, iban_code: 800, method: Method::Three },
        ClearingRange { low: 9020, high: 9029, iban_code: 902, method: Method::One },
        ClearingRange { low: 9040, high: 9049, iban_code: 904, method: Method::One },
        ClearingRange { low: 9060, high: 9069, iban_code: 902, method: Method::One },
        ClearingRange { low: 9070, high: 9079, iban_code: 907, method: Method::One },
        ClearingRange { low: 9100, high: 9109, iban_code: 910, method: Method::One },
        ClearingRange { low: 9120, high: 9124, iban_code: 500, method: Method::One },
        ClearingRange { low: 9130, high: 9149, iban_code: 500, method: Method::One },
        ClearingRange { low: 9150, high: 9169, iban_code: 915, method: Method::One },
        ClearingRange { low: 9170, high: 9179, iban_code: 917, method: Method::One },
        ClearingRange { low: 9190, high: 9199, iban_code: 919, method: Method::One },
        ClearingRange { low: 9230, high: 9239, iban_code: 923, method: Method::One },
        ClearingRange { low: 9250, high: 9259, iban_code: 925, method: Method::One },
        ClearingRange { low: 9270, high: 9279, iban_code: 927, method: Method::One },
        ClearingRange { low: 9300, high: 9349, iban_code: 930, method: Method::One },
        ClearingRange { low: 9280, high: 9289, iban_code: 928, method: Method::One },
        ClearingRange { low: 9390, high: 9399, iban_code: 939, method: Method::One },
        ClearingRange { low: 9400, high: 9449, iban_code: 940, method: Method::One },
        ClearingRange { low: 9460, high: 9469, iban_code: 946, method: Method::One },
        ClearingRange { low: 9470, high: 9479, iban_code: 947, method: Method::One },
        ClearingRange { low: 9500, high: 9549, iban_code: 950, method: Method::Two },
        ClearingRange { low: 9550, high: 9569, iban_code: 955, method: Method::One },
        ClearingRange { low: 9570, high: 9579, iban_code: 957, method: Method::Two },
        ClearingRange { low: 9580, high: 9589, iban_code: 958, method: Method::One },
        ClearingRange { low: 9590, high: 9599, iban_code: 959, method: Method::One },
        ClearingRange { low: 9630, high: 9639, iban_code: 963, method: Method::One },
        ClearingRange { low: 9640, high: 9649, iban_code: 964, method: Method::One },
        ClearingRange { low: 9650, high: 9659, iban_code: 965, method: Method::One },
        ClearingRange { low: 9660, high: 9669, iban_code: 966, method: Method::One },
        ClearingRange { low: 9670, high: 9679, iban_code: 967, method: Method::One },
        ClearingRange { low: 9680, high: 9689, iban_code: 968, method: Method::One },
        ClearingRange { low: 9700, high: 9709, iban_code: 970, method: Method::One },
        ClearingRange { low: 9750, high: 9759, iban_code: 975, method: Method::One },
        ClearingRange { low: 9780, high: 9789, iban_code: 978, method: Method::One },
        ClearingRange { low: 9960, high: 9969, iban_code: 950, method: Method::Two },
    ]
}

/// The first four digits of a clearing number, as a number.
pub fn leading_four(clearing_number: u32) -> (prefix: u16)
    ensures
        prefix == clearing_prefix(clearing_number as nat),
{
    let mut rest: u32 = clearing_number;
    while rest >= 10000
        invariant
            clearing_prefix(rest as nat) == clearing_prefix(clearing_number as nat),
        decreases rest,
    {
        proof {
            lemma_clearing_prefix_step(rest as nat);
        }
        rest = rest / 10;
    }
    proof {
        lemma_clearing_prefix_short(rest as nat);
    }
    rest as u16
}

/// Looks up the bank code and the layout for an account. Only the first four
/// digits of the clearing number count. `None` where no line of the table
/// covers them.
pub fn lookup(bank_account: &BankAccount) -> (result: Option<LookupResult>)
    ensures
        result == classify(clearing_prefix(bank_account@.clearing_number)),
{
    let prefix = leading_four(bank_account.clearing_number());
    let table = ranges();
    let mut i: usize = 0;
    while i < 48
        invariant
            i <= 48,
            table@ == range_table(),
            table@.len() == 48,
            prefix == clearing_prefix(bank_account@.clearing_number),
            classify(prefix as nat) == first_match_from(range_table(), prefix as nat, i as int),
        decreases 48 - i,
    {
        let line = table[i];
        assert(line == range_table()[i as int]);
        if line.low <= prefix && prefix <= line.high {
            return Some(LookupResult { iban_code: line.iban_code, method: line.method });
        }
        i += 1;
    }
    None
}

} // verus!

//! The check digits of ISO 7064 MOD-97-10, for the country code "SE".

use crate::numeral::{
    all_digits, is_digit, lemma_all_digits_concat, lemma_all_digits_push, numeral_value,
};
use vstd::arithmetic::div_mod::lemma_mod_multiples_vanish;
use vstd::prelude::*;
use vstd::string::*;

verus! {

/// The letters "SE" as numbers, S being 28 and E being 14.
pub open spec fn country_digits() -> Seq<char> {
    seq!['2', '8', '1', '4']
}

/// The two zeros that stand in for the check digits while they are computed.
pub open spec fn placeholder_digits() -> Seq<char> {
    seq!['0', '0']
}

/// The numeral that is divided: bank code and identifier, then the country
/// code as numbers, then two zeros.
pub open spec fn check_numeral(body: Seq<char>) -> Seq<char> {
    body + country_digits() + placeholder_digits()
}

/// The check number of a body of digits: 98 less the remainder that the
/// numeral leaves when divided by 97. It lies between 2 and 98.
pub open spec fn check_digits(body: Seq<char>) -> int
    recommends
        all_digits(body),
{
    98 - (numeral_value(check_numeral(body)) % 97) as int
}

/// The remainder of a numeral can be computed digit by digit: the remainder
/// so far, times ten, plus the next digit, leaves the remainder of the longer
/// numeral.
pub proof fn lemma_remainder_step(s: Seq<char>, c: char)
    requires
        is_digit(c),
    ensures
        numeral_value(s.push(c)) % 97 == ((numeral_value(s) % 97) * 10 + (c as int - '0' as int))
            % 97,
{
    let v = numeral_value(s) as int;
    let d = c as int - '0' as int;
    assert(s.push(c).drop_last() =~= s);
    assert(numeral_value(s.push(c)) == v * 10 + d);
    let q = v / 97;
    let r = v % 97;
    assert(v == 97 * q + r);
    assert(v * 10 + d == 97 * (q * 10) + (r * 10 + d)) by (nonlinear_arith)
        requires
            v == 97 * q + r,
    ;
    lemma_mod_multiples_vanish(q * 10, r * 10 + d, 97);
}

/// The remainder that a numeral of any length leaves when divided by 97;
/// nothing where a character of it is no digit. The empty numeral counts as
/// zero.
pub fn remainder_mod_97(numeral: &str) -> (r: Option<u32>)
    ensures
        all_digits(numeral@) ==> r == Some((numeral_value(numeral@) % 97) as u32),
        !all_digits(numeral@) ==> r is None,
{
    let n = numeral.unicode_len();
    let mut remainder: u32 = 0;
    let mut i: usize = 0;
    while i < n
        invariant
            n == numeral@.len(),
            i <= n,
            all_digits(numeral@.take(i as int)),
            remainder == numeral_value(numeral@.take(i as int)) % 97,
        decreases n - i,
    {
        let c = numeral.get_char(i);
        if !(c >= '0' && c <= '9') {
            return None;
        }
        proof {
            assert(numeral@.take(i + 1) =~= numeral@.take(i as int).push(c));
            lemma_all_digits_push(numeral@.take(i as int), c);
            lemma_remainder_step(numeral@.take(i as int), c);
        }
        remainder = (remainder * 10 + (c as u32 - 48)) % 97;
        i += 1;
    }
    proof {
        assert(numeral@.take(n as int) =~= numeral@);
    }
    Some(remainder)
}

/// The check number for a body of digits, which is the bank code followed by
/// the identifier. Fails exactly where the body holds a character that is no
/// digit; its length does not matter.
pub fn mod97(identifier: String) -> (r: Result<i16, ()>)
    ensures
        match r {
            Ok(check) => all_digits(identifier@) && check == check_digits(identifier@),
            Err(_) => !all_digits(identifier@),
        },
{
    let mut numeral = identifier;
    numeral.append("2814");
    numeral.append("00");
    proof {
        reveal_strlit("2814");
        reveal_strlit("00");
        assert("2814"@ =~= country_digits());
        assert("00"@ =~= placeholder_digits());
        assert(numeral@ == check_numeral(identifier@));
        lemma_all_digits_concat(identifier@ + country_digits(), placeholder_digits());
        lemma_all_digits_concat(identifier@, country_digits());
    }
    match remainder_mod_97(numeral.as_str()) {
        Some(remainder) => Ok(98 - remainder as i16),
        None => Err(()),
    }
}

} // verus!

//! A domestic bank account: the clearing number and the account number, and
//! how both are read from text.

use crate::numeral::{parse_u32, parse_u32_spec};
use vstd::prelude::*;
use vstd::string::*;

verus! {

/// A clearing number with the account number that follows it. The account
/// number is kept as text, so that leading zeros stay.
#[derive(Debug)]
pub struct BankAccount {
    clearing_number: u32,
    account_number: String,
}

/// What a [`BankAccount`] holds.
pub struct BankAccountView {
    pub clearing_number: nat,
    pub account_number: Seq<char>,
}

impl View for BankAccount {
    type V = BankAccountView;

    closed spec fn view(&self) -> BankAccountView {
        BankAccountView {
            clearing_number: self.clearing_number as nat,
            account_number: self.account_number@,
        }
    }
}

/// A character that only decorates an account number: a space or a hyphen.
pub open spec fn is_separator(c: char) -> bool {
    c == ' ' || c == '-'
}

/// The text without its spaces and hyphens; everything else stays, in order.
pub open spec fn normalize(text: Seq<char>) -> Seq<char> {
    text.filter(|c: char| !is_separator(c))
}

/// How many characters stand before the first comma: the length of the text
/// where it has no comma.
pub open spec fn before_comma(text: Seq<char>) -> nat
    decreases text.len(),
{
    if text.len() == 0 || text[0] == ',' {
        0
    } else {
        1 + before_comma(text.drop_first())
    }
}

/// The account that a normalized text denotes, if it denotes one.
///
/// With a comma, the clearing number is what stands before the first comma
/// and the account number is all that follows it. Without one, the text must
/// be longer than four characters: the first four are the clearing number, the
/// rest is the account number. Either way the clearing number must read as a
/// `u32`; the account number is taken as it stands.
pub open spec fn parse_account(text: Seq<char>) -> Option<BankAccountView> {
    let split = before_comma(text) as int;
    if split < text.len() {
        match parse_u32_spec(text.take(split)) {
            Some(clearing_number) => Some(
                BankAccountView {
                    clearing_number: clearing_number as nat,
                    account_number: text.skip(split + 1),
                },
            ),
            None => None,
        }
    } else if text.len() <= 4 {
        None
    } else {
        match parse_u32_spec(text.take(4)) {
            Some(clearing_number) => Some(
                BankAccountView {
                    clearing_number: clearing_number as nat,
                    account_number: text.skip(4),
                },
            ),
            None => None,
        }
    }
}

/// `before_comma` is the place of the first comma: no comma stands before it,
/// and one stands there unless the text ends.
pub proof fn lemma_before_comma(text: Seq<char>, k: int)
    requires
        0 <= k <= text.len(),
        forall|j: int| 0 <= j < k ==> text[j] != ',',
        k < text.len() ==> text[k] == ',',
    ensures
        before_comma(text) == k,
    decreases text.len(),
{
    if k > 0 {
        let rest = text.drop_first();
        assert forall|j: int| 0 <= j < k - 1 implies rest[j] != ',' by {
            assert(rest[j] == text[j + 1]);
        }
        lemma_before_comma(rest, k - 1);
    }
}

/// Removes the spaces and hyphens from a text.
pub fn normalize_bban(str: &str) -> (r: String)
    ensures
        r@ == normalize(str@),
{
    let n = str.unicode_len();
    let mut out = String::new();
    let mut i: usize = 0;
    proof {
        assert(str@.take(0) =~= Seq::<char>::empty());
        reveal(Seq::filter);
    }
    while i < n
        invariant
            n == str@.len(),
            i <= n,
            out@ == normalize(str@.take(i as int)),
        decreases n - i,
    {
        let c = str.get_char(i);
        proof {
            assert(str@.take(i + 1) =~= str@.take(i as int).push(c));
            str@.take(i as int).lemma_filter_push(c, |c: char| !is_separator(c));
        }
        if c != ' ' && c != '-' {
            let piece = str.substring_char(i, i + 1);
            proof {
                assert(piece@ =~= seq![c]);
            }
            out.append(piece);
            proof {
                assert(out@ =~= normalize(str@.take(i as int)).push(c));
            }
        }
        i += 1;
    }
    proof {
        assert(str@.take(n as int) =~= str@);
    }
    out
}

/// Where the first comma of a text stands; the length of the text where it
/// has none.
pub fn find_comma(text: &str) -> (k: usize)
    ensures
        k == before_comma(text@),
        k <= text@.len(),
{
    let n = text.unicode_len();
    let mut i: usize = 0;
    while i < n
        invariant
            n == text@.len(),
            i <= n,
            forall|j: int| 0 <= j < i ==> text@[j] != ',',
        decreases n - i,
    {
        if text.get_char(i) == ',' {
            proof {
                lemma_before_comma(text@, i as int);
            }
            return i;
        }
        i += 1;
    }
    proof {
        lemma_before_comma(text@, n as int);
    }
    n
}

impl BankAccount {
    /// Reads an account from text in one of two forms, after spaces and
    /// hyphens are removed: clearing number, comma, account number; or,
    /// without a comma, four characters of clearing number and then the
    /// account number. Fails where [`parse_account`] gives nothing.
    pub fn new(s: &str) -> (r: Result<BankAccount, ()>)
        ensures
            match r {
                Ok(account) => parse_account(normalize(s@)) == Some(account@),
                Err(_) => parse_account(normalize(s@)) is None,
            },
    {
        let normalized = normalize_bban(s);
        let text = normalized.as_str();
        let n = text.unicode_len();
        let split = find_comma(text);
        let (first_part, second_part) = if split < n {
            (text.substring_char(0, split), text.substring_char(split + 1, n))
        } else {
            if n <= 4 {
                return Err(());
            }
            (text.substring_char(0, 4), text.substring_char(4, n))
        };
        match parse_u32(first_part) {
            Some(clearing_number) => Ok(
                BankAccount { clearing_number, account_number: String::from_str(second_part) },
            ),
            None => Err(()),
        }
    }

    /// The clearing number.
    pub fn clearing_number(&self) -> (r: u32)
        ensures
            r == self@.clearing_number,
    {
        self.clearing_number
    }

    /// The account number, as it was given.
    pub fn account_number(&self) -> (r: &str)
        ensures
            r@ == self@.account_number,
    {
        self.account_number.as_str()
    }
}

impl core::str::FromStr for BankAccount {
    type Err = ();

    /// Reads an account from text, as [`BankAccount::new`] does: `str::parse`
    /// gives the account that [`parse_account`] finds in the text without its
    /// spaces and hyphens, and fails where there is none.
    fn from_str(s: &str) -> (r: Result<Self, ()>)
        ensures
            match r {
                Ok(account) => parse_account(normalize(s@)) == Some(account@),
                Err(_) => parse_account(normalize(s@)) is None,
            },
    {
        BankAccount::new(s)
    }
}

} // verus!

//! Conversion of Swedish domestic bank account numbers into IBANs.
//!
//! A domestic account is a clearing number followed by an account number. The
//! clearing number selects the bank code and one of three layouts of the
//! seventeen-digit national identifier; the check digits follow ISO 7064
//! MOD-97-10. Every function states its result over the mathematical model in
//! [`numeral`], [`clearingnumber_lookup`], [`account`], [`checksum`] and
//! [`iban`].

pub mod account;
pub mod checksum;
pub mod clearingnumber_lookup;
pub mod iban;
pub mod numeral;

pub use account::{find_comma, normalize_bban, BankAccount, BankAccountView};
pub use checksum::{mod97, remainder_mod_97};
pub use clearingnumber_lookup::{lookup, ClearingRange, LookupResult, Method};
pub use iban::{assemble_iban, build_identifier, generate_iban, Iban, IbanGenerationError};
pub use numeral::{decimal_string, pad_left_zeros, parse_u32};

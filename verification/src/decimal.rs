//! Exact base-10 decimals with eighteen fractional digits.
//!
//! A [`Decimal`] holds the number of atomic units (units of `10^-18`) of a
//! value. Text is turned into atomic units, and atomic units into text, by
//! `cosmwasm_std::Decimal`; this module names what those two conversions
//! return and passes the values on unchanged. Text beyond a fixed length is
//! not handed to the reader at all: it is no decimal.

use std::str::FromStr;
use vstd::prelude::*;

verus! {

/// The atomic units that `cosmwasm_std::Decimal` reads from `text`, or `None`
/// where it rejects the text.
pub uninterp spec fn decimal_atomics(text: Seq<char>) -> Option<u128>;

/// The text that `cosmwasm_std::Decimal` prints for a value of `atomics`
/// atomic units.
pub uninterp spec fn decimal_text(atomics: u128) -> Seq<char>;

/// The longest text, in characters, that is read as a decimal. A text within
/// this length takes less than `2^32` bytes, which is as far as the reader of
/// `cosmwasm_std` counts the length of a fractional part.
pub const MAX_DECIMAL_TEXT: usize = 0x3fff_ffff;

/// An exact decimal, held as its atomic units.
#[derive(Clone, Copy, Debug, PartialEq, Eq, Structural)]
pub struct Decimal {
    pub atomics: u128,
}

/// Calls `cosmwasm_std::Decimal::from_str` on `text` and hands back the atomic
/// units of the decimal it returns. The result is not proved: it is named
/// [`decimal_atomics`]. The text must be within [`MAX_DECIMAL_TEXT`]: on a
/// longer fractional part the reader's count of the length can wrap, and the
/// reader can then stop with a panic.
#[verifier::external_body]
fn parse_atomics(text: &str) -> (r: Option<u128>)
    requires
        text@.len() <= MAX_DECIMAL_TEXT,
    ensures
        r == decimal_atomics(text@),
{
    match cosmwasm_std::Decimal::from_str(text) {
        Ok(d) => Some(d.atomics().u128()),
        Err(_) => None,
    }
}

/// Calls `to_string` on the `cosmwasm_std::Decimal` that has `atomics` atomic
/// units. The result is not proved: it is named [`decimal_text`].
#[verifier::external_body]
fn format_atomics(atomics: u128) -> (r: String)
    ensures
        r@ == decimal_text(atomics),
{
    cosmwasm_std::Decimal::new(cosmwasm_std::Uint128::new(atomics)).to_string()
}

impl Decimal {
    /// The decimal with the given atomic units.
    pub fn new(atomics: u128) -> (r: Decimal)
        ensures
            r.atomics == atomics,
    {
        Decimal { atomics }
    }

    /// What reading `text` gives: the decimal that `cosmwasm_std` reads from
    /// it, and nothing where the text is longer than [`MAX_DECIMAL_TEXT`].
    pub open spec fn parsed(text: Seq<char>) -> Option<Decimal> {
        if text.len() <= MAX_DECIMAL_TEXT {
            Decimal::of_atomics(decimal_atomics(text))
        } else {
            None
        }
    }

    /// Reads a decimal from text such as `"1.25"`. Text that is longer than
    /// [`MAX_DECIMAL_TEXT`] is no decimal.
    pub fn from_str(text: &str) -> (r: Option<Decimal>)
        ensures
            r == Decimal::parsed(text@),
    {
        if text.unicode_len() <= MAX_DECIMAL_TEXT {
            Decimal::from_atomics(parse_atomics(text))
        } else {
            None
        }
    }

    /// The decimal that a reading of atomic units stands for.
    pub open spec fn of_atomics(parsed: Option<u128>) -> Option<Decimal> {
        match parsed {
            Some(atomics) => Some(Decimal { atomics }),
            None => None,
        }
    }

    /// Turns the outcome of reading a text into a decimal.
    pub fn from_atomics(parsed: Option<u128>) -> (r: Option<Decimal>)
        ensures
            r == Decimal::of_atomics(parsed),
    {
        match parsed {
            Some(atomics) => Some(Decimal { atomics }),
            None => None,
        }
    }

    /// The text of this decimal, without trailing zeros.
    pub fn to_string(&self) -> (r: String)
        ensures
            r@ == decimal_text(self.atomics),
    {
        format_atomics(self.atomics)
    }
}

} // verus!

//! Unsigned 256-bit token ids: parsed from hexadecimal, printed in decimal.

use ethers_core::abi::ethereum_types::FromStrRadixErr;
use ethers_core::types::U256;
use vstd::prelude::*;

verus! {

#[verifier::external_type_specification]
#[verifier::external_body]
pub struct ExFromStrRadixErr(FromStrRadixErr);

/// Two to the power 64, the weight of one word.
pub open spec fn word_base() -> nat {
    0x1_0000_0000_0000_0000nat
}

/// The number held by four 64-bit words, least significant word first.
pub open spec fn le_words_value(w: [u64; 4]) -> nat {
    w[0] as nat + word_base() * (w[1] as nat + word_base() * (w[2] as nat + word_base()
        * w[3] as nat))
}

pub open spec fn is_hex_digit(c: char) -> bool {
    ('0' <= c && c <= '9') || ('a' <= c && c <= 'f') || ('A' <= c && c <= 'F')
}

pub open spec fn hex_digit_value(c: char) -> nat {
    if '0' <= c && c <= '9' {
        (c as nat - '0' as nat) as nat
    } else if 'a' <= c && c <= 'f' {
        (c as nat - 'a' as nat + 10) as nat
    } else {
        (c as nat - 'A' as nat + 10) as nat
    }
}

/// The number that a string of hex digits spells, most significant digit first.
pub open spec fn hex_value(s: Seq<char>) -> nat
    decreases s.len(),
{
    if s.len() == 0 {
        0
    } else {
        hex_value(s.drop_last()) * 16 + hex_digit_value(s.last())
    }
}

/// The digits of a hex string once an optional `0x` prefix is set aside.
pub open spec fn hex_body(s: Seq<char>) -> Seq<char> {
    if s.len() >= 2 && s[0] == '0' && s[1] == 'x' {
        s.skip(2)
    } else {
        s
    }
}

/// A string that names a 256-bit number in hex: at most 64 digits after the
/// optional `0x`, and nothing but digits.
pub open spec fn is_u256_hex(s: Seq<char>) -> bool {
    let d = hex_body(s);
    d.len() <= 64 && forall|i: int| 0 <= i < d.len() ==> is_hex_digit(#[trigger] d[i])
}

pub open spec fn digit_char(d: nat) -> char {
    seq!['0', '1', '2', '3', '4', '5', '6', '7', '8', '9'][d as int]
}

/// Decimal notation of `n`, without leading zeros (`0` for zero).
pub open spec fn decimal_digits(n: nat) -> Seq<char>
    decreases n,
{
    if n < 10 {
        seq![digit_char(n)]
    } else {
        decimal_digits(n / 10).push(digit_char(n % 10))
    }
}

/// Relies on `U256::from_str_radix` with radix 16: it sets aside one leading
/// `0x`, takes at most 64 hex digits of either case and reads them most
/// significant first; anything else is an error. `U256`'s words come least
/// significant first.
#[verifier::external_body]
fn parse_hex_words(s: &str) -> (r: Result<[u64; 4], FromStrRadixErr>)
    ensures
        r is Ok <==> is_u256_hex(s@),
        r is Ok ==> le_words_value(r->Ok_0) == hex_value(hex_body(s@)),
{
    U256::from_str_radix(s, 16).map(|v| v.0)
}

/// Relies on `U256`'s `Display`: decimal digits without leading zeros.
#[verifier::external_body]
fn decimal_of_words(w: [u64; 4]) -> (r: String)
    ensures
        r@ == decimal_digits(le_words_value(w)),
{
    U256(w).to_string()
}

/// A 256-bit unsigned token id, held as four 64-bit words, most significant
/// first, so that the derived order is the numeric one.
#[derive(Clone, Copy, Debug, PartialEq, Eq, PartialOrd, Ord, Hash)]
pub struct TokenId {
    pub words: [u64; 4],
}

impl TokenId {
    /// The number this id stands for.
    pub open spec fn value(self) -> nat {
        le_words_value([self.words[3], self.words[2], self.words[1], self.words[0]])
    }

    pub fn from_u64(n: u64) -> (r: TokenId)
        ensures
            r.value() == n as nat,
    {
        TokenId { words: [0, 0, 0, n] }
    }

    /// Parses a hex string of at most 64 digits, with an optional `0x`.
    pub fn parse_hex(s: &str) -> (r: Option<TokenId>)
        ensures
            r is Some <==> is_u256_hex(s@),
            r is Some ==> r->Some_0.value() == hex_value(hex_body(s@)),
    {
        match parse_hex_words(s) {
            Ok(w) => Some(TokenId { words: [w[3], w[2], w[1], w[0]] }),
            Err(_) => None,
        }
    }

    /// The id in decimal, as it appears in paths and names.
    pub fn to_decimal(&self) -> (r: String)
        ensures
            r@ == decimal_digits(self.value()),
    {
        decimal_of_words([self.words[3], self.words[2], self.words[1], self.words[0]])
    }
}

} // verus!

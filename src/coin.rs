//! Coin amounts: a quantity of one denomination.
use crate::decimal::{format_u128, is_numeral, numeral_of, numeral_value, parse_u128};
use crate::error::Error;
use cosmos_sdk_proto::cosmos::base::v1beta1::Coin as ProtoCoin;
use vstd::prelude::*;

verus! {

/// The shortest denomination accepted, in characters.
pub const MIN_DENOM_LEN: usize = 3;

/// The longest denomination accepted, in characters.
pub const MAX_DENOM_LEN: usize = 128;

/// A letter of either case.
pub open spec fn is_letter(c: char) -> bool {
    ('a' <= c && c <= 'z') || ('A' <= c && c <= 'Z')
}

/// A character after the first of a denomination: a letter, a digit, or one
/// of `/ : . _ -`.
pub open spec fn is_denom_char(c: char) -> bool {
    is_letter(c) || ('0' <= c && c <= '9') || c == '/' || c == ':' || c == '.' || c == '_'
        || c == '-'
}

/// The denomination syntax: a letter, then two to 127 denomination characters.
pub open spec fn is_denom(s: Seq<char>) -> bool {
    &&& MIN_DENOM_LEN <= s.len() <= MAX_DENOM_LEN
    &&& is_letter(s[0])
    &&& forall|i: int| 1 <= i < s.len() ==> is_denom_char(#[trigger] s[i])
}

/// The name of a denomination, such as `uatom`.
#[derive(Clone, Debug, PartialEq, Eq, PartialOrd, Ord)]
pub struct Denom {
    name: String,
}

impl View for Denom {
    type V = Seq<char>;

    closed spec fn view(&self) -> Seq<char> {
        self.name@
    }
}

impl Denom {
    /// Parses a denomination; fails with `Error::Denom` unless `s` is of the
    /// denomination syntax.
    pub fn new(s: &str) -> (r: Result<Denom, Error>)
        ensures
            is_denom(s@) <==> r is Ok,
            r is Ok ==> r->Ok_0@ == s@,
            r is Err ==> r->Err_0 == Error::Denom,
    {
        let n = s.unicode_len();
        if n < MIN_DENOM_LEN || n > MAX_DENOM_LEN || !is_letter_exec(s.get_char(0)) {
            return Err(Error::Denom);
        }
        let mut i: usize = 1;
        while i < n
            invariant
                n == s@.len(),
                1 <= i <= n,
                forall|m: int| 1 <= m < i ==> is_denom_char(#[trigger] s@[m]),
            decreases n - i,
        {
            let c = s.get_char(i);
            if !(is_letter_exec(c) || ('0' <= c && c <= '9') || c == '/' || c == ':' || c == '.'
                || c == '_' || c == '-') {
                return Err(Error::Denom);
            }
            i = i + 1;
        }
        Ok(Denom { name: s.to_string() })
    }

    /// The denomination as text.
    pub fn as_str(&self) -> (r: &str)
        ensures
            r@ == self@,
    {
        self.name.as_str()
    }

    /// The denomination as an owned string.
    pub fn to_string(&self) -> (r: String)
        ensures
            r@ == self@,
    {
        self.name.clone()
    }
}

fn is_letter_exec(c: char) -> (r: bool)
    ensures
        r == is_letter(c),
{
    ('a' <= c && c <= 'z') || ('A' <= c && c <= 'Z')
}

/// A quantity of one denomination.
#[derive(Clone, Debug, PartialEq, Eq, PartialOrd, Ord)]
pub struct Coin {
    /// The denomination.
    pub denom: Denom,
    /// The quantity, in units of the denomination.
    pub amount: u128,
}

impl View for Coin {
    type V = (Seq<char>, u128);

    open spec fn view(&self) -> (Seq<char>, u128) {
        (self.denom@, self.amount)
    }
}

/// The wire form of a coin: the denomination's text and the shortest numeral
/// of the amount.
pub open spec fn coin_encoded(c: (Seq<char>, u128)) -> (Seq<char>, Seq<char>) {
    (c.0, numeral_of(c.1 as nat))
}

/// The outcome of decoding the coin message with text fields `denom` and
/// `amount`.
pub open spec fn coin_decoded(denom: Seq<char>, amount: Seq<char>) -> Result<(Seq<char>, u128), Error> {
    if !is_denom(denom) {
        Err(Error::Denom)
    } else if !(is_numeral(amount) && numeral_value(amount) <= u128::MAX) {
        Err(Error::Amount)
    } else {
        Ok((denom, numeral_value(amount) as u128))
    }
}

impl Coin {
    /// A coin of `amount` units of the denomination `denom`; fails where
    /// `denom` is not of the denomination syntax.
    pub fn new(denom: &str, amount: u128) -> (r: Result<Coin, Error>)
        ensures
            is_denom(denom@) <==> r is Ok,
            r is Ok ==> r->Ok_0@ == (denom@, amount),
            r is Err ==> r->Err_0 == Error::Denom,
    {
        let d = Denom::new(denom)?;
        Ok(Coin { denom: d, amount })
    }

    /// Encodes the coin as its wire message.
    pub fn to_proto(&self) -> (r: ProtoCoin)
        ensures
            (r.denom@, r.amount@) == coin_encoded(self@),
    {
        ProtoCoin { denom: self.denom.to_string(), amount: format_u128(self.amount) }
    }

    /// Decodes a coin from its wire message: the denomination must be of the
    /// denomination syntax, and the amount a numeral that fits in 128 bits.
    pub fn from_proto(p: &ProtoCoin) -> (r: Result<Coin, Error>)
        ensures
            match coin_decoded(p.denom@, p.amount@) {
                Ok(c) => r is Ok && r->Ok_0@ == c,
                Err(e) => r == Err::<Coin, Error>(e),
            },
    {
        let denom = Denom::new(p.denom.as_str())?;
        match parse_u128(p.amount.as_str()) {
            Some(amount) => Ok(Coin { denom, amount }),
            None => Err(Error::Amount),
        }
    }
}

} // verus!

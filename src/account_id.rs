//! Account identifiers: bech32-shaped addresses such as `cosmos1...`.
//!
//! An address is accepted on its shape: a lowercase human-readable prefix,
//! the separator `1`, and a data part in the bech32 alphabet. The checksum
//! that the data part ends with is carried, not checked.
use crate::error::Error;
use vstd::prelude::*;

verus! {

/// The longest address accepted, in characters.
pub const MAX_ACCOUNT_ID_LEN: usize = 90;

/// The shortest data part after the separator: the checksum alone.
pub const MIN_DATA_LEN: usize = 6;

/// A character of the human-readable prefix: a lowercase letter or a digit.
pub open spec fn is_prefix_char(c: char) -> bool {
    ('a' <= c && c <= 'z') || ('0' <= c && c <= '9')
}

/// A character of the bech32 data alphabet `qpzry9x8gf2tvdw0s3jn54khce6mua7l`:
/// a lowercase letter or a digit, but not `1`, `b`, `i` or `o`.
pub open spec fn is_data_char(c: char) -> bool {
    is_prefix_char(c) && c != '1' && c != 'b' && c != 'i' && c != 'o'
}

/// `s` splits at `k` into a non-empty prefix, the separator `1`, and a data
/// part of at least six data characters.
pub open spec fn splits_at(s: Seq<char>, k: int) -> bool {
    &&& 1 <= k
    &&& k + 1 + MIN_DATA_LEN <= s.len()
    &&& s[k] == '1'
    &&& forall|i: int| 0 <= i < k ==> is_prefix_char(#[trigger] s[i])
    &&& forall|i: int| k < i < s.len() ==> is_data_char(#[trigger] s[i])
}

/// The address syntax: at most ninety characters that split into prefix,
/// separator and data part.
pub open spec fn is_account_id(s: Seq<char>) -> bool {
    &&& s.len() <= MAX_ACCOUNT_ID_LEN
    &&& exists|k: int| splits_at(s, k)
}

/// An account address, held as the text that it was parsed from.
#[derive(Clone, Debug, PartialEq, Eq, PartialOrd, Ord)]
pub struct AccountId {
    id: String,
}

impl View for AccountId {
    type V = Seq<char>;

    closed spec fn view(&self) -> Seq<char> {
        self.id@
    }
}

impl AccountId {
    /// Parses an address; fails with `Error::AccountId` unless `s` is of the
    /// address syntax.
    pub fn new(s: &str) -> (r: Result<AccountId, Error>)
        ensures
            is_account_id(s@) <==> r is Ok,
            r is Ok ==> r->Ok_0@ == s@,
            r is Err ==> r->Err_0 == Error::AccountId,
    {
        if check_account_id(s) {
            Ok(AccountId { id: s.to_string() })
        } else {
            Err(Error::AccountId)
        }
    }

    /// The address as text.
    pub fn as_str(&self) -> (r: &str)
        ensures
            r@ == self@,
    {
        self.id.as_str()
    }

    /// The address as an owned string.
    pub fn to_string(&self) -> (r: String)
        ensures
            r@ == self@,
    {
        self.id.clone()
    }
}

/// Decides the address syntax: scans the data part back from the end, then
/// checks the separator and the prefix before it.
pub fn check_account_id(s: &str) -> (r: bool)
    ensures
        r == is_account_id(s@),
{
    let n = s.unicode_len();
    if n > MAX_ACCOUNT_ID_LEN {
        return false;
    }
    let mut j: usize = n;
    while j > 0 && is_data_char_exec(s.get_char(j - 1))
        invariant
            n == s@.len(),
            j <= n,
            forall|i: int| j <= i < n ==> is_data_char(#[trigger] s@[i]),
        decreases j,
    {
        j = j - 1;
    }
    // `j` is now 0, or `s[j - 1]` is the last character outside the data alphabet.
    if j == 0 || s.get_char(j - 1) != '1' || j - 1 < 1 || n - j < MIN_DATA_LEN {
        proof {
            if exists|k: int| splits_at(s@, k) {
                let k = choose|k: int| splits_at(s@, k);
                lemma_split_is_last_separator(s@, k, j as int);
            }
        }
        return false;
    }
    let k: usize = j - 1;
    let mut i: usize = 0;
    while i < k
        invariant
            k < n,
            n == s@.len(),
            i <= k,
            forall|m: int| 0 <= m < i ==> is_prefix_char(#[trigger] s@[m]),
        decreases k - i,
    {
        if !is_prefix_char_exec(s.get_char(i)) {
            proof {
                if exists|k2: int| splits_at(s@, k2) {
                    let k2 = choose|k2: int| splits_at(s@, k2);
                    lemma_split_is_last_separator(s@, k2, j as int);
                }
            }
            return false;
        }
        i = i + 1;
    }
    assert(splits_at(s@, k as int));
    true
}

/// Where `s` splits at `k` and the data characters at its end begin at `j`
/// (with `s[j - 1]`, if any, outside the data alphabet), the separator is at
/// `j - 1`.
proof fn lemma_split_is_last_separator(s: Seq<char>, k: int, j: int)
    requires
        splits_at(s, k),
        0 <= j <= s.len(),
        forall|i: int| j <= i < s.len() ==> is_data_char(#[trigger] s[i]),
        j > 0 ==> !is_data_char(s[j - 1]),
    ensures
        k == j - 1,
{
    assert(!is_data_char(s[k]));
    if k >= j {
        assert(is_data_char(s[k]));
    }
    if k < j - 1 {
        assert(is_data_char(s[j - 1]));
    }
}

fn is_prefix_char_exec(c: char) -> (r: bool)
    ensures
        r == is_prefix_char(c),
{
    ('a' <= c && c <= 'z') || ('0' <= c && c <= '9')
}

fn is_data_char_exec(c: char) -> (r: bool)
    ensures
        r == is_data_char(c),
{
    is_prefix_char_exec(c) && c != '1' && c != 'b' && c != 'i' && c != 'o'
}

} // verus!

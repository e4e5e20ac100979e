//! Unsigned decimal numerals: the text form of coin amounts on the wire.
use vstd::prelude::*;

verus! {

/// A decimal digit character.
pub open spec fn is_digit(c: char) -> bool {
    '0' <= c && c <= '9'
}

/// The value of a digit character.
pub open spec fn digit_value(c: char) -> int {
    (c as int) - ('0' as int)
}

/// The digit character of a value below ten.
pub open spec fn digit_char(d: nat) -> char {
    seq!['0', '1', '2', '3', '4', '5', '6', '7', '8', '9'][d as int]
}

/// A numeral: one or more digit characters.
pub open spec fn is_numeral(s: Seq<char>) -> bool {
    s.len() > 0 && forall|i: int| 0 <= i < s.len() ==> is_digit(#[trigger] s[i])
}

/// The value of a string of digits, most significant first.
pub open spec fn numeral_value(s: Seq<char>) -> nat
    decreases s.len(),
{
    if s.len() == 0 {
        0
    } else {
        (numeral_value(s.drop_last()) * 10 + digit_value(s.last())) as nat
    }
}

/// The shortest numeral of `n`: no leading zero, `0` for zero.
pub open spec fn numeral_of(n: nat) -> Seq<char>
    decreases n,
{
    if n < 10 {
        seq![digit_char(n)]
    } else {
        numeral_of(n / 10).push(digit_char(n % 10))
    }
}

proof fn lemma_digit_char(d: nat)
    requires
        d < 10,
    ensures
        is_digit(digit_char(d)),
        digit_value(digit_char(d)) == d,
{
    let ds = seq!['0', '1', '2', '3', '4', '5', '6', '7', '8', '9'];
    assert(ds[0] == '0' && ds[1] == '1' && ds[2] == '2' && ds[3] == '3' && ds[4] == '4');
    assert(ds[5] == '5' && ds[6] == '6' && ds[7] == '7' && ds[8] == '8' && ds[9] == '9');
}

/// The shortest numeral of `n` is a numeral, and its value is `n`.
pub proof fn lemma_numeral_of(n: nat)
    ensures
        is_numeral(numeral_of(n)),
        numeral_value(numeral_of(n)) == n,
    decreases n,
{
    if n < 10 {
        lemma_digit_char(n);
        assert(seq![digit_char(n)].drop_last() =~= Seq::<char>::empty());
        assert(numeral_value(Seq::<char>::empty()) == 0);
        assert(numeral_value(seq![digit_char(n)]) == digit_value(digit_char(n)));
    } else {
        lemma_numeral_of(n / 10);
        lemma_digit_char(n % 10);
        let s = numeral_of(n);
        assert(s.drop_last() =~= numeral_of(n / 10));
        assert(s.last() == digit_char(n % 10));
        assert(numeral_value(s) == (n / 10) * 10 + n % 10);
        assert forall|i: int| 0 <= i < s.len() implies is_digit(#[trigger] s[i]) by {
            if i < s.len() - 1 {
                assert(s[i] == numeral_of(n / 10)[i]);
            }
        }
    }
}

/// A numeral is worth at least as much as each of its prefixes.
proof fn lemma_prefix_value(s: Seq<char>, i: int)
    requires
        0 <= i <= s.len(),
        forall|m: int| 0 <= m < s.len() ==> is_digit(#[trigger] s[m]),
    ensures
        numeral_value(s.take(i)) <= numeral_value(s),
    decreases s.len(),
{
    if i == s.len() {
        assert(s.take(i) =~= s);
    } else {
        let t = s.drop_last();
        assert(t.take(i) =~= s.take(i));
        lemma_prefix_value(t, i);
        assert(is_digit(s[s.len() - 1]));
    }
}

/// Reads a numeral that fits in 128 bits; `None` where `s` is empty, holds a
/// character that is no digit, or is worth more than `u128::MAX`.
pub fn parse_u128(s: &str) -> (r: Option<u128>)
    ensures
        r is Some <==> (is_numeral(s@) && numeral_value(s@) <= u128::MAX),
        r is Some ==> r->Some_0 == numeral_value(s@),
{
    let n = s.unicode_len();
    if n == 0 {
        return None;
    }
    let mut v: u128 = 0;
    let mut i: usize = 0;
    while i < n
        invariant
            n == s@.len(),
            i <= n,
            forall|m: int| 0 <= m < i ==> is_digit(#[trigger] s@[m]),
            v == numeral_value(s@.take(i as int)),
        decreases n - i,
    {
        let c = s.get_char(i);
        if !('0' <= c && c <= '9') {
            return None;
        }
        let d: u128 = (c as u32 - '0' as u32) as u128;
        assert(s@.take(i + 1).drop_last() =~= s@.take(i as int));
        if v > (u128::MAX - d) / 10 {
            proof {
                assert(v * 10 + d > u128::MAX) by (nonlinear_arith)
                    requires
                        v > (u128::MAX - d) / 10,
                        d <= 9,
                ;
                if forall|m: int| 0 <= m < s@.len() ==> is_digit(#[trigger] s@[m]) {
                    lemma_prefix_value(s@, i + 1);
                }
            }
            return None;
        }
        assert(v * 10 + d <= u128::MAX) by (nonlinear_arith)
            requires
                v <= (u128::MAX - d) / 10,
                d <= 9,
        ;
        v = v * 10 + d;
        i = i + 1;
    }
    assert(s@.take(n as int) =~= s@);
    Some(v)
}

/// Relies on `String::push`: appends one character at the end.
#[verifier::external_body]
fn push_char(s: &mut String, c: char)
    ensures
        final(s)@ == old(s)@.push(c),
{
    s.push(c)
}

/// Appends the shortest numeral of `n` to `out`.
pub fn write_u128(n: u128, out: &mut String)
    ensures
        final(out)@ == old(out)@ + numeral_of(n as nat),
    decreases n,
{
    if n >= 10 {
        write_u128(n / 10, out);
    }
    let digits = "0123456789";
    proof {
        reveal_strlit("0123456789");
    }
    let c = digits.get_char((n % 10) as usize);
    assert(c == digit_char((n % 10) as nat));
    push_char(out, c);
    assert(final(out)@ =~= old(out)@ + numeral_of(n as nat));
}

/// The shortest numeral of `n`.
pub fn format_u128(n: u128) -> (r: String)
    ensures
        r@ == numeral_of(n as nat),
{
    let mut out = String::new();
    write_u128(n, &mut out);
    assert(out@ =~= numeral_of(n as nat));
    out
}

} // verus!

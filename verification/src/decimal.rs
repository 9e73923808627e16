//! A fully verified codec for unsigned integers: canonical decimal strings.
//!
//! [`DecimalCodec`] writes a `u64` as its usual decimal form — no sign, no
//! leading zeros — and reads exactly those strings back. Both directions are
//! verified against the spec functions below, and the codec proves the
//! round-trip promise: decoding an encoded value gives the value back.

use vstd::prelude::*;

verus! {

use vstd::arithmetic::div_mod::lemma_fundamental_div_mod;

use crate::codec::Codec;
use crate::errors::StorageError;

/// The digit character for a value below ten.
pub open spec fn digit_char(d: nat) -> char {
    if d == 0 {
        '0'
    } else if d == 1 {
        '1'
    } else if d == 2 {
        '2'
    } else if d == 3 {
        '3'
    } else if d == 4 {
        '4'
    } else if d == 5 {
        '5'
    } else if d == 6 {
        '6'
    } else if d == 7 {
        '7'
    } else if d == 8 {
        '8'
    } else {
        '9'
    }
}

/// The value of a digit character; ten marks a character that is no digit.
pub open spec fn digit_val(c: char) -> nat {
    if c == '0' {
        0
    } else if c == '1' {
        1
    } else if c == '2' {
        2
    } else if c == '3' {
        3
    } else if c == '4' {
        4
    } else if c == '5' {
        5
    } else if c == '6' {
        6
    } else if c == '7' {
        7
    } else if c == '8' {
        8
    } else if c == '9' {
        9
    } else {
        10
    }
}

/// The number a digit string denotes, most significant digit first.
pub open spec fn dec_val(s: Seq<char>) -> nat
    decreases s.len(),
{
    if s.len() == 0 {
        0
    } else {
        dec_val(s.drop_last()) * 10 + digit_val(s.last())
    }
}

/// Is every character of `s` a decimal digit?
pub open spec fn all_digits(s: Seq<char>) -> bool {
    forall|i: int| 0 <= i < s.len() ==> digit_val(#[trigger] s[i]) < 10
}

/// Is `s` the canonical decimal form of some `u64`: nonempty, digits only,
/// no leading zero, and within range?
pub open spec fn is_dec_repr(s: Seq<char>) -> bool {
    &&& s.len() > 0
    &&& all_digits(s)
    &&& (s.len() == 1 || digit_val(s[0]) != 0)
    &&& dec_val(s) <= u64::MAX
}

/// The canonical decimal form of a number.
pub open spec fn dec_of(n: nat) -> Seq<char>
    decreases n,
{
    if n < 10 {
        seq![digit_char(n)]
    } else {
        dec_of(n / 10).push(digit_char(n % 10))
    }
}

/// The canonical form is a well-formed representation of its number.
pub proof fn lemma_dec_of_repr(n: nat)
    requires
        n <= u64::MAX,
    ensures
        is_dec_repr(dec_of(n)),
        dec_val(dec_of(n)) == n,
    decreases n,
{
    lemma_dec_of_shape(n);
    lemma_dec_of_val(n);
}

/// The canonical form is nonempty, all digits, and starts with a nonzero
/// digit unless the number itself is below ten.
proof fn lemma_dec_of_shape(n: nat)
    ensures
        dec_of(n).len() >= 1,
        all_digits(dec_of(n)),
        n >= 1 ==> digit_val(dec_of(n)[0]) != 0,
        n < 10 ==> dec_of(n).len() == 1,
    decreases n,
{
    if n < 10 {
        assert(digit_val(digit_char(n)) == n);
    } else {
        lemma_dec_of_shape(n / 10);
        let prefix = dec_of(n / 10);
        let whole = dec_of(n);
        assert(whole == prefix.push(digit_char(n % 10)));
        assert(digit_val(digit_char(n % 10)) == n % 10);
        assert(forall|i: int| 0 <= i < prefix.len() ==> whole[i] == prefix[i]);
        assert(n / 10 >= 1);
        assert(whole[0] == prefix[0]);
    }
}

/// Reading the canonical form back gives the number.
proof fn lemma_dec_of_val(n: nat)
    ensures
        dec_val(dec_of(n)) == n,
    decreases n,
{
    if n < 10 {
        let s = dec_of(n);
        assert(s.len() == 1);
        assert(s.drop_last() =~= Seq::<char>::empty());
        assert(dec_val(s.drop_last()) == 0);
        assert(s.last() == digit_char(n));
        assert(digit_val(digit_char(n)) == n);
        assert(dec_val(s) == 0 * 10 + digit_val(s.last()));
    } else {
        lemma_dec_of_val(n / 10);
        let s = dec_of(n);
        let prefix = dec_of(n / 10);
        assert(s == prefix.push(digit_char(n % 10)));
        assert(s.drop_last() =~= prefix);
        assert(s.last() == digit_char(n % 10));
        assert(digit_val(digit_char(n % 10)) == n % 10);
        assert(dec_val(s) == dec_val(prefix) * 10 + n % 10);
        assert(dec_val(prefix) == n / 10);
        lemma_fundamental_div_mod(n as int, 10);
        assert(n == 10 * (n / 10) + n % 10);
        assert(dec_val(s) == n);
    }
}

/// A longer digit prefix never denotes a smaller number.
proof fn lemma_dec_val_prefix_step(s: Seq<char>, j: int)
    requires
        0 <= j <= s.len(),
    ensures
        dec_val(s.subrange(0, j)) <= dec_val(s),
    decreases s.len() - j,
{
    if j < s.len() {
        let t = s.subrange(0, j + 1);
        assert(t.drop_last() =~= s.subrange(0, j));
        assert(dec_val(s.subrange(0, j)) <= dec_val(s.subrange(0, j)) * 10 + digit_val(t.last()));
        lemma_dec_val_prefix_step(s, j + 1);
    } else {
        assert(s.subrange(0, j) =~= s);
    }
}

/// The digit character for `d`, as a string slice.
fn digit_str(d: u64) -> (s: &'static str)
    requires
        d < 10,
    ensures
        s@ =~= seq![digit_char(d as nat)],
{
    proof {
        reveal_strlit("0");
        reveal_strlit("1");
        reveal_strlit("2");
        reveal_strlit("3");
        reveal_strlit("4");
        reveal_strlit("5");
        reveal_strlit("6");
        reveal_strlit("7");
        reveal_strlit("8");
        reveal_strlit("9");
    }
    match d {
        0 => "0",
        1 => "1",
        2 => "2",
        3 => "3",
        4 => "4",
        5 => "5",
        6 => "6",
        7 => "7",
        8 => "8",
        _ => "9",
    }
}

/// The canonical decimal string of `n`.
fn u64_dec_string(n: u64) -> (s: String)
    ensures
        s@ == dec_of(n as nat),
    decreases n,
{
    if n < 10 {
        String::from_str(digit_str(n))
    } else {
        let mut s = u64_dec_string(n / 10);
        s.append(digit_str(n % 10));
        proof {
            assert(s@ =~= dec_of((n / 10) as nat).push(digit_char((n % 10) as nat)));
        }
        s
    }
}

/// The value of a digit character, or ten for anything else.
fn char_digit(c: char) -> (d: u64)
    ensures
        d == digit_val(c),
{
    if c == '0' {
        0
    } else if c == '1' {
        1
    } else if c == '2' {
        2
    } else if c == '3' {
        3
    } else if c == '4' {
        4
    } else if c == '5' {
        5
    } else if c == '6' {
        6
    } else if c == '7' {
        7
    } else if c == '8' {
        8
    } else if c == '9' {
        9
    } else {
        10
    }
}

/// Parse a canonical decimal string; refuse everything else.
fn parse_u64_dec(s: &str) -> (r: Option<u64>)
    ensures
        match r {
            Some(n) => is_dec_repr(s@) && n == dec_val(s@),
            None => !is_dec_repr(s@),
        },
{
    let len = s.unicode_len();
    if len == 0 {
        return None;
    }
    if len > 1 && s.get_char(0) == '0' {
        return None;
    }
    let mut acc: u64 = 0;
    let mut i: usize = 0;
    while i < len
        invariant
            len == s@.len(),
            0 <= i <= len,
            forall|j: int| 0 <= j < i ==> digit_val(#[trigger] s@[j]) < 10,
            acc == dec_val(s@.subrange(0, i as int)),
        decreases len - i,
    {
        let c = s.get_char(i);
        let d = char_digit(c);
        if d >= 10 {
            return None;
        }
        let wide: u128 = acc as u128 * 10 + d as u128;
        proof {
            assert(s@.subrange(0, i + 1).drop_last() =~= s@.subrange(0, i as int));
            assert(dec_val(s@.subrange(0, i + 1)) == acc * 10 + d);
        }
        if wide > u64::MAX as u128 {
            proof {
                lemma_dec_val_prefix_step(s@, i + 1);
            }
            return None;
        }
        acc = wide as u64;
        i += 1;
    }
    proof {
        assert(s@.subrange(0, len as int) =~= s@);
    }
    Some(acc)
}

/// A codec that stores a `u64` as its canonical decimal string. Encoding
/// never fails; decoding accepts exactly the canonical forms.
#[derive(Clone, Copy, Debug, PartialEq, Eq, Structural)]
pub struct DecimalCodec;

impl Codec<u64> for DecimalCodec {
    open spec fn enc_spec(&self, v: u64) -> Option<Seq<char>> {
        Some(dec_of(v as nat))
    }

    open spec fn dec_spec(&self, s: Seq<char>) -> Option<u64> {
        if is_dec_repr(s) {
            Some(dec_val(s) as u64)
        } else {
            None
        }
    }

    open spec fn round_trips(&self) -> bool {
        true
    }

    proof fn lemma_round_trip(&self, v: u64, s: Seq<char>) {
        lemma_dec_of_repr(v as nat);
    }

    fn encode(&self, v: &u64) -> (r: Result<String, StorageError>) {
        Ok(u64_dec_string(*v))
    }

    fn decode(&self, s: &str) -> (r: Result<u64, StorageError>) {
        match parse_u64_dec(s) {
            Some(n) => Ok(n),
            None => Err(StorageError::DecodeFailure),
        }
    }
}

} // verus!

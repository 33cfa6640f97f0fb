//! Rendering of digests and sizes into response bodies: lowercase
//! hexadecimal for a byte sequence, decimal for a byte count.

use vstd::prelude::*;

verus! {

/// The lowercase hexadecimal digit for a value below sixteen, as its ASCII
/// byte: `0`–`9` then `a`–`f`.
pub open spec fn hex_digit(n: u8) -> u8
    recommends
        n < 16,
{
    if n < 10 {
        (48 + n) as u8
    } else {
        (87 + n) as u8
    }
}

/// The lowercase hexadecimal rendering of a byte sequence: two digits per
/// byte, high nibble first.
pub open spec fn hex_of(bytes: Seq<u8>) -> Seq<u8> {
    Seq::new(
        2 * bytes.len(),
        |i: int|
            if i % 2 == 0 {
                hex_digit(bytes[i / 2] / 16)
            } else {
                hex_digit(bytes[i / 2] % 16)
            },
    )
}

/// The byte is the ASCII code of a lowercase hexadecimal digit.
pub open spec fn is_lower_hex_ascii(b: u8) -> bool {
    (48 <= b <= 57) || (97 <= b <= 102)
}

/// Every hexadecimal rendering is twice as long as its input and holds
/// nothing but lowercase hexadecimal digits.
pub proof fn lemma_hex_of_form(bytes: Seq<u8>)
    ensures
        hex_of(bytes).len() == 2 * bytes.len(),
        forall|i: int| 0 <= i < hex_of(bytes).len() ==> is_lower_hex_ascii(#[trigger] hex_of(bytes)[i]),
{
}

fn hex_digit_exec(n: u8) -> (r: u8)
    requires
        n < 16,
    ensures
        r == hex_digit(n),
{
    if n < 10 {
        48 + n
    } else {
        87 + n
    }
}

/// Renders a byte sequence as lowercase hexadecimal text.
pub fn hex_render(bytes: &Vec<u8>) -> (v: Vec<u8>)
    ensures
        v@ == hex_of(bytes@),
{
    let mut v: Vec<u8> = Vec::new();
    let mut i: usize = 0;
    while i < bytes.len()
        invariant
            i <= bytes.len(),
            v@.len() == 2 * i,
            forall|j: int| 0 <= j < v@.len() ==> v@[j] == hex_of(bytes@)[j],
        decreases bytes.len() - i,
    {
        let b = bytes[i];
        v.push(hex_digit_exec(b / 16));
        v.push(hex_digit_exec(b % 16));
        i += 1;
    }
    proof {
        assert(v@ =~= hex_of(bytes@));
    }
    v
}

/// The decimal rendering of a number as ASCII bytes, with no sign, no
/// leading zero, and `0` itself rendered as the single digit `0`.
pub open spec fn dec_of(n: nat) -> Seq<u8>
    decreases n,
{
    if n < 10 {
        seq![(48 + n) as u8]
    } else {
        dec_of(n / 10).push((48 + n % 10) as u8)
    }
}

/// The byte is the ASCII code of a decimal digit.
pub open spec fn is_dec_ascii(b: u8) -> bool {
    48 <= b <= 57
}

/// Every decimal rendering is nonempty, holds nothing but decimal digits,
/// and starts with `0` only when it is exactly the one-digit rendering of
/// zero.
pub proof fn lemma_dec_of_form(n: nat)
    ensures
        dec_of(n).len() >= 1,
        forall|i: int| 0 <= i < dec_of(n).len() ==> is_dec_ascii(#[trigger] dec_of(n)[i]),
        dec_of(n)[0] == 48 ==> n == 0,
    decreases n,
{
    if n >= 10 {
        lemma_dec_of_form(n / 10);
    }
}

/// Renders a byte count as decimal text.
pub fn dec_render(n: u64) -> (v: Vec<u8>)
    ensures
        v@ == dec_of(n as nat),
    decreases n,
{
    if n < 10 {
        let mut v: Vec<u8> = Vec::new();
        v.push(48 + n as u8);
        proof {
            assert(v@ =~= dec_of(n as nat));
        }
        v
    } else {
        let mut v = dec_render(n / 10);
        v.push(48 + (n % 10) as u8);
        proof {
            assert(v@ =~= dec_of(n as nat));
        }
        v
    }
}

} // verus!

//! Canonical textual renderings of small integers, as byte strings:
//! decimal (for IPv4 octets and ports) and lowercase hexadecimal
//! without leading zeros (for IPv6 groups).

use vstd::prelude::*;

verus! {

/// The decimal digits of `n`, most significant first, as ASCII bytes.
/// No leading zeros; `0` renders as "0".
pub open spec fn dec_of(n: nat) -> Seq<u8>
    decreases n,
{
    if n < 10 {
        seq![(48 + n) as u8]
    } else {
        dec_of(n / 10).push((48 + n % 10) as u8)
    }
}

/// The lowercase hexadecimal digits of `n`, most significant first,
/// as ASCII bytes. No leading zeros; `0` renders as "0".
pub open spec fn hex_of(n: nat) -> Seq<u8>
    decreases n,
{
    if n < 16 {
        seq![hex_digit(n)]
    } else {
        hex_of(n / 16).push(hex_digit(n % 16))
    }
}

/// The ASCII byte for one hexadecimal digit (`0`-`9`, then `a`-`f`).
pub open spec fn hex_digit(d: nat) -> u8 {
    if d < 10 {
        (48 + d) as u8
    } else {
        (87 + d) as u8
    }
}

/// Renders `n` in decimal, appending to `out`.
pub fn push_dec(out: &mut Vec<u8>, n: u16)
    ensures
        final(out)@ == old(out)@ + dec_of(n as nat),
    decreases n,
{
    if n < 10 {
        out.push(48 + n as u8);
        assert(out@ =~= old(out)@ + dec_of(n as nat));
    } else {
        push_dec(out, n / 10);
        out.push(48 + (n % 10) as u8);
        assert(out@ =~= old(out)@ + dec_of(n as nat));
    }
}

/// Renders `n` in lowercase hexadecimal, appending to `out`.
pub fn push_hex(out: &mut Vec<u8>, n: u16)
    ensures
        final(out)@ == old(out)@ + hex_of(n as nat),
    decreases n,
{
    if n < 16 {
        out.push(hex_digit_byte(n as u8));
        assert(out@ =~= old(out)@ + hex_of(n as nat));
    } else {
        push_hex(out, n / 16);
        out.push(hex_digit_byte((n % 16) as u8));
        assert(out@ =~= old(out)@ + hex_of(n as nat));
    }
}

/// One hexadecimal digit as its ASCII byte.
fn hex_digit_byte(d: u8) -> (r: u8)
    requires
        d < 16,
    ensures
        r == hex_digit(d as nat),
{
    if d < 10 {
        48 + d
    } else {
        87 + d
    }
}

/// Renders `n` in decimal as a fresh byte string.
pub fn dec_bytes(n: u16) -> (r: Vec<u8>)
    ensures
        r@ == dec_of(n as nat),
{
    let mut out: Vec<u8> = Vec::new();
    push_dec(&mut out, n);
    assert(out@ =~= dec_of(n as nat));
    out
}

} // verus!

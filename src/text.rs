//! Textual forms of numbers and IP addresses.

use vstd::prelude::*;

verus! {

/// The character of a decimal digit.
pub open spec fn digit_char(d: nat) -> char {
    seq!['0', '1', '2', '3', '4', '5', '6', '7', '8', '9'][d as int]
}

/// The decimal form of `n`, without sign and without leading zeros.
pub open spec fn decimal(n: nat) -> Seq<char>
    decreases n,
{
    if n < 10 {
        seq![digit_char(n)]
    } else {
        decimal(n / 10) + seq![digit_char(n % 10)]
    }
}

/// Dotted-quad form of a four-octet IPv4 address.
pub open spec fn ipv4_text(o: Seq<u8>) -> Seq<char> {
    decimal(o[0] as nat) + seq!['.'] + decimal(o[1] as nat) + seq!['.'] + decimal(o[2] as nat)
        + seq!['.'] + decimal(o[3] as nat)
}

/// Appends the decimal form of `n` to `s`.
pub fn append_decimal(s: &mut String, n: u32)
    ensures
        final(s)@ == old(s)@ + decimal(n as nat),
    decreases n,
{
    if n >= 10 {
        append_decimal(s, n / 10);
    }
    let d: u32 = n % 10;
    let digits = "0123456789";
    proof {
        reveal_strlit("0123456789");
        assert(digits@ =~= seq!['0', '1', '2', '3', '4', '5', '6', '7', '8', '9']);
    }
    let piece = digits.substring_ascii(d as usize, d as usize + 1);
    assert(piece@ =~= seq![digit_char(d as nat)]);
    s.append(piece);
    assert(s@ =~= old(s)@ + decimal(n as nat));
}

/// Appends one character given as a one-character literal.
fn append_dot(s: &mut String)
    ensures
        final(s)@ == old(s)@ + seq!['.'],
{
    let dot = ".";
    proof {
        reveal_strlit(".");
    }
    s.append(dot);
    assert(final(s)@ =~= old(s)@ + seq!['.']);
}

/// The dotted-quad text of an IPv4 address, such as `198.51.100.1`.
pub fn ipv4_to_text(octets: [u8; 4]) -> (r: String)
    ensures
        r@ == ipv4_text(octets@),
{
    let mut s = String::new();
    append_decimal(&mut s, octets[0] as u32);
    append_dot(&mut s);
    append_decimal(&mut s, octets[1] as u32);
    append_dot(&mut s);
    append_decimal(&mut s, octets[2] as u32);
    append_dot(&mut s);
    append_decimal(&mut s, octets[3] as u32);
    assert(s@ =~= ipv4_text(octets@));
    s
}

/// The text form that `core::net::Ipv6Addr` gives sixteen octets.
pub uninterp spec fn ipv6_text(octets: Seq<u8>) -> Seq<char>;

/// Relies on the `Display` impl of `core::net::Ipv6Addr` (the recommended
/// colon-hex form, with the longest run of zero groups shortened to `::`):
/// its text depends on the sixteen octets alone.
#[verifier::external_body]
pub(crate) fn ipv6_to_text(octets: [u8; 16]) -> (r: String)
    ensures
        r@ == ipv6_text(octets@),
{
    core::net::Ipv6Addr::from(octets).to_string()
}

} // verus!

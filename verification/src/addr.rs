//! Network addresses as they stand on the wire.

use crate::text::append_decimal;
use crate::text::append_hex;
use crate::text::decimal_text;
use crate::text::hex_text;
use vstd::prelude::*;

verus! {

/// An IP address: the 32 bits of an IPv4 address or the 128 bits of an IPv6
/// address, the first byte on the wire being the most significant.
#[derive(Copy, Clone, Debug, Eq, PartialEq, Hash, Structural)]
pub enum IpAddress {
    /// An IPv4 address.
    V4(u32),
    /// An IPv6 address.
    V6(u128),
}

/// What a table of peers is keyed by: the family of an address, 4 or 6, and
/// its bits.
pub type PeerKey = (u8, u128);

/// The last `count` bytes of `bits` in decimal, separated by dots.
pub open spec fn dotted_text(bits: nat, count: nat) -> Seq<char>
    decreases count,
{
    if count <= 1 {
        decimal_text(bits % 256)
    } else {
        dotted_text(bits / 256, (count - 1) as nat) + seq!['.'] + decimal_text(bits % 256)
    }
}

/// The last `count` 16-bit groups of `bits` in hexadecimal, separated by
/// colons.
pub open spec fn grouped_text(bits: nat, count: nat) -> Seq<char>
    decreases count,
{
    if count <= 1 {
        hex_text(bits % 65536)
    } else {
        grouped_text(bits / 65536, (count - 1) as nat) + seq![':'] + hex_text(bits % 65536)
    }
}

fn append_dotted(out: &mut String, bits: u32, count: u8)
    ensures
        final(out)@ == old(out)@ + dotted_text(bits as nat, count as nat),
    decreases count,
{
    if count > 1 {
        append_dotted(out, bits / 256, count - 1);
        proof {
            reveal_strlit(".");
        }
        out.append(".");
    }
    append_decimal(out, bits % 256);
    assert(out@ =~= old(out)@ + dotted_text(bits as nat, count as nat));
}

fn append_grouped(out: &mut String, bits: u128, count: u8)
    ensures
        final(out)@ == old(out)@ + grouped_text(bits as nat, count as nat),
    decreases count,
{
    if count > 1 {
        append_grouped(out, bits / 65536, count - 1);
        proof {
            reveal_strlit(":");
        }
        out.append(":");
    }
    append_hex(out, (bits % 65536) as u32);
    assert(out@ =~= old(out)@ + grouped_text(bits as nat, count as nat));
}

impl IpAddress {
    /// The key of this address: its family and its bits.
    pub open spec fn key(self) -> PeerKey {
        match self {
            IpAddress::V4(bits) => (4u8, bits as u128),
            IpAddress::V6(bits) => (6u8, bits),
        }
    }

    /// This address as text: four decimal numbers separated by dots, or eight
    /// hexadecimal groups separated by colons, none of them left out.
    pub open spec fn text(self) -> Seq<char> {
        match self {
            IpAddress::V4(bits) => dotted_text(bits as nat, 4),
            IpAddress::V6(bits) => grouped_text(bits as nat, 8),
        }
    }

    /// The key of this address.
    pub fn to_key(&self) -> (k: PeerKey)
        ensures
            k == self.key(),
    {
        match self {
            IpAddress::V4(bits) => (4u8, *bits as u128),
            IpAddress::V6(bits) => (6u8, *bits),
        }
    }

    /// Appends this address as text to `out`.
    pub fn append_to(&self, out: &mut String)
        ensures
            final(out)@ == old(out)@ + self.text(),
    {
        match self {
            IpAddress::V4(bits) => append_dotted(out, *bits, 4),
            IpAddress::V6(bits) => append_grouped(out, *bits, 8),
        }
    }

    /// This address as text.
    pub fn to_string(&self) -> (s: String)
        ensures
            s@ == self.text(),
    {
        let mut s = String::new();
        self.append_to(&mut s);
        assert(s@ =~= self.text());
        s
    }
}

/// Two addresses have the same key only if they are the same address.
pub proof fn lemma_key_injective(a: IpAddress, b: IpAddress)
    requires
        a.key() == b.key(),
    ensures
        a == b,
{
}

} // verus!

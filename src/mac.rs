//! Six-byte hardware addresses.
use vstd::prelude::*;

verus! {

/// Number of bytes in a hardware address.
pub const ETH_ALEN: usize = 6;

/// A hardware (MAC) address.
#[derive(Clone, Copy, Debug, PartialEq, Eq, Hash)]
pub struct MacAddr(pub [u8; 6]);

/// Lower-case hexadecimal digits, by value.
pub const HEX_DIGITS: [char; 16] = ['0', '1', '2', '3', '4', '5', '6', '7', '8', '9', 'a', 'b', 'c', 'd', 'e', 'f'];

/// Whether every byte of `a` is zero.
pub open spec fn is_zero_addr(a: Seq<u8>) -> bool {
    forall|i: int| 0 <= i < a.len() ==> a[i] == 0
}

/// How a stored address compares against an address read from a frame:
/// the all-zero address stands for any address, any other must be equal.
pub open spec fn addr_matches(stored: Seq<u8>, seen: Seq<u8>) -> bool {
    is_zero_addr(stored) || stored == seen
}

/// The two lower-case hexadecimal digits of a byte.
pub open spec fn octet_text(b: u8) -> Seq<char> {
    seq![HEX_DIGITS@[b as int / 16], HEX_DIGITS@[b as int % 16]]
}

/// Each byte of `a` as two hexadecimal digits, each preceded by a colon.
pub open spec fn colon_octets_text(a: Seq<u8>) -> Seq<char>
    decreases a.len(),
{
    if a.len() == 0 {
        Seq::empty()
    } else {
        seq![':'] + octet_text(a[0]) + colon_octets_text(a.drop_first())
    }
}

/// The usual text form of an address: hexadecimal byte pairs joined by colons.
pub open spec fn mac_text(a: Seq<u8>) -> Seq<char> {
    if a.len() == 0 {
        Seq::empty()
    } else {
        octet_text(a[0]) + colon_octets_text(a.drop_first())
    }
}

/// Relies on `String::from_iter`: the string holds exactly the given characters.
#[verifier::external_body]
pub(crate) fn string_from_chars(chars: Vec<char>) -> (r: String)
    ensures
        r@ == chars@,
{
    String::from_iter(chars)
}

fn push_octet(out: &mut Vec<char>, b: u8)
    ensures
        final(out)@ == old(out)@ + octet_text(b),
{
    out.push(HEX_DIGITS[(b / 16) as usize]);
    out.push(HEX_DIGITS[(b % 16) as usize]);
    proof {
        assert(final(out)@ =~= old(out)@ + octet_text(b));
    }
}

/// Text rendering of hardware addresses.
pub trait MacAddrT {
    /// The address bytes.
    spec fn octets(&self) -> Seq<u8>;

    /// The address as `aa:bb:cc:dd:ee:ff`.
    fn hex(&self) -> (r: String)
        ensures
            r@ == mac_text(self.octets()),
    ;
}

impl MacAddr {
    /// Whether this is the all-zero address.
    pub fn is_wildcard(&self) -> (r: bool)
        ensures
            r == is_zero_addr(self.0@),
    {
        let mut i: usize = 0;
        while i < ETH_ALEN
            invariant
                i <= ETH_ALEN,
                self.0@.len() == ETH_ALEN,
                forall|j: int| 0 <= j < i ==> self.0@[j] == 0,
            decreases ETH_ALEN - i,
        {
            if self.0[i] != 0 {
                return false;
            }
            i = i + 1;
        }
        true
    }
}

impl MacAddrT for MacAddr {
    open spec fn octets(&self) -> Seq<u8> {
        self.0@
    }

    fn hex(&self) -> (r: String) {
        let a = &self.0;
        let mut out: Vec<char> = Vec::new();
        push_octet(&mut out, a[0]);
        let mut i: usize = 1;
        while i < ETH_ALEN
            invariant
                1 <= i <= ETH_ALEN,
                a@.len() == ETH_ALEN,
                out@ + colon_octets_text(a@.skip(i as int)) == mac_text(a@),
            decreases ETH_ALEN - i,
        {
            proof {
                let rest = a@.skip(i as int);
                assert(rest.drop_first() =~= a@.skip(i + 1));
                assert(rest[0] == a@[i as int]);
            }
            out.push(':');
            push_octet(&mut out, a[i]);
            proof {
                assert(out@ + colon_octets_text(a@.skip(i + 1)) =~= mac_text(a@));
            }
            i = i + 1;
        }
        proof {
            assert(a@.skip(ETH_ALEN as int) =~= Seq::<u8>::empty());
        }
        string_from_chars(out)
    }
}

} // verus!

//! Values that the kernel sends over netlink.

pub mod ethtool;
pub mod nl80211;
pub mod routel;

use macaddr::{MacAddr6, MacAddr8};
use vstd::prelude::*;

verus! {

/// `macaddr::MacAddr6`, an EUI-48 address.
#[verifier::external_type_specification]
#[verifier::external_body]
pub struct ExMacAddr6(macaddr::MacAddr6);

/// `macaddr::MacAddr8`, an EUI-64 address.
#[verifier::external_type_specification]
#[verifier::external_body]
pub struct ExMacAddr8(macaddr::MacAddr8);

/// The six bytes of an EUI-48 address, first to last.
pub uninterp spec fn mac6_bytes(addr: MacAddr6) -> Seq<u8>;

/// The eight bytes of an EUI-64 address, first to last.
pub uninterp spec fn mac8_bytes(addr: MacAddr8) -> Seq<u8>;

/// `MacAddr6::new` keeps its six arguments, in their order, as the bytes of
/// the address.
pub assume_specification[ MacAddr6::new ](a: u8, b: u8, c: u8, d: u8, e: u8, f: u8) -> (r:
    MacAddr6)
    ensures
        mac6_bytes(r) == seq![a, b, c, d, e, f],
;

/// `MacAddr8::new` keeps its eight arguments, in their order, as the bytes
/// of the address.
pub assume_specification[ MacAddr8::new ](
    a: u8,
    b: u8,
    c: u8,
    d: u8,
    e: u8,
    f: u8,
    g: u8,
    h: u8,
) -> (r: MacAddr8)
    ensures
        mac8_bytes(r) == seq![a, b, c, d, e, f, g, h],
;

/// `MacAddr6::into_array` gives the bytes of the address.
pub assume_specification[ MacAddr6::into_array ](addr: MacAddr6) -> (r: [u8; 6])
    ensures
        r@ == mac6_bytes(addr),
;

/// `MacAddr8::into_array` gives the bytes of the address.
pub assume_specification[ MacAddr8::into_array ](addr: MacAddr8) -> (r: [u8; 8])
    ensures
        r@ == mac8_bytes(addr),
;

/// The derived `clone` of `MacAddr6` gives an address of the same bytes.
pub assume_specification[ <MacAddr6 as Clone>::clone ](addr: &MacAddr6) -> (r: MacAddr6)
    ensures
        mac6_bytes(r) == mac6_bytes(*addr),
;

/// The derived `clone` of `MacAddr8` gives an address of the same bytes.
pub assume_specification[ <MacAddr8 as Clone>::clone ](addr: &MacAddr8) -> (r: MacAddr8)
    ensures
        mac8_bytes(r) == mac8_bytes(*addr),
;

/// A station that a wireless interface sees.
#[derive(Debug, Clone)]
pub struct WifiStation {
    pub bssid: String,
    pub ssid: String,
    pub signal_strength: i32,
}

/// A hardware address of six or of eight bytes.
#[derive(Debug, Clone)]
pub enum MacAddr {
    Mac6(MacAddr6),
    Mac8(MacAddr8),
}

/// An attribute that should hold a hardware address holds `bytes_read`
/// bytes, which is neither six nor eight.
#[derive(Debug, Clone, Copy, PartialEq, Eq, Structural)]
pub struct InvalidInput {
    pub bytes_read: usize,
}

impl MacAddr {
    /// The bytes of the address, first to last.
    pub open spec fn bytes(self) -> Seq<u8> {
        match self {
            MacAddr::Mac6(addr) => mac6_bytes(addr),
            MacAddr::Mac8(addr) => mac8_bytes(addr),
        }
    }

    /// Reads an address from the bytes that are left of an attribute.
    ///
    /// At most eight bytes are taken. Six give an address of six bytes,
    /// eight or more one of the first eight; any other number is refused
    /// with that number.
    pub fn from_bytes(buffer: &[u8]) -> (r: Result<MacAddr, InvalidInput>)
        ensures
            match r {
                Ok(addr) => {
                    ||| buffer@.len() == 6 && addr is Mac6 && addr.bytes() == buffer@
                    ||| buffer@.len() >= 8 && addr is Mac8 && addr.bytes() == buffer@.take(8)
                },
                Err(e) => buffer@.len() != 6 && buffer@.len() < 8 && e.bytes_read
                    == buffer@.len(),
            },
    {
        let bytes_read: usize = if buffer.len() < 8 {
            buffer.len()
        } else {
            8
        };
        if bytes_read == 6 {
            let addr = MacAddr6::new(
                buffer[0],
                buffer[1],
                buffer[2],
                buffer[3],
                buffer[4],
                buffer[5],
            );
            proof {
                assert(mac6_bytes(addr) =~= buffer@);
            }
            Ok(MacAddr::Mac6(addr))
        } else if bytes_read == 8 {
            let addr = MacAddr8::new(
                buffer[0],
                buffer[1],
                buffer[2],
                buffer[3],
                buffer[4],
                buffer[5],
                buffer[6],
                buffer[7],
            );
            proof {
                assert(mac8_bytes(addr) =~= buffer@.take(8));
            }
            Ok(MacAddr::Mac8(addr))
        } else {
            Err(InvalidInput { bytes_read })
        }
    }

    /// The bytes of the address, first to last.
    pub fn to_bytes(&self) -> (r: Vec<u8>)
        ensures
            r@ == self.bytes(),
    {
        let mut out: Vec<u8> = Vec::new();
        match self {
            MacAddr::Mac6(addr) => {
                let arr: [u8; 6] = addr.into_array();
                let mut i: usize = 0;
                while i < 6
                    invariant
                        i <= 6,
                        out@ == arr@.take(i as int),
                    decreases 6 - i,
                {
                    out.push(arr[i]);
                    proof {
                        assert(out@ =~= arr@.take(i as int + 1));
                    }
                    i = i + 1;
                }
                proof {
                    assert(arr@.take(6) =~= arr@);
                }
            },
            MacAddr::Mac8(addr) => {
                let arr: [u8; 8] = addr.into_array();
                let mut i: usize = 0;
                while i < 8
                    invariant
                        i <= 8,
                        out@ == arr@.take(i as int),
                    decreases 8 - i,
                {
                    out.push(arr[i]);
                    proof {
                        assert(out@ =~= arr@.take(i as int + 1));
                    }
                    i = i + 1;
                }
                proof {
                    assert(arr@.take(8) =~= arr@);
                }
            },
        }
        out
    }
}

} // verus!

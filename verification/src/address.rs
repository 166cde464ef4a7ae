use vstd::prelude::*;
use vstd::arithmetic::power::pow;

verus! {

/// The two kinds of Soroban address.
#[derive(Copy, Clone, Debug, PartialEq, Eq, Structural)]
pub enum AddressKind {
    /// A Stellar account, identified by its ed25519 public key.
    Account,
    /// A contract, identified by its 32-byte contract hash.
    Contract,
}

/// A Soroban address: its kind and its 32-byte key, held as two big-endian
/// halves (`hi` is bytes 0..16, `lo` is bytes 16..32).
#[derive(Copy, Clone, Debug, PartialEq, Eq, Structural)]
pub struct Addr {
    pub kind: AddressKind,
    pub hi: u128,
    pub lo: u128,
}

/// Big-endian bytes of a `u128`.
pub open spec fn be_bytes_u128(v: u128) -> Seq<u8> {
    Seq::new(16, |i: int| ((v as int / pow(256, (15 - i) as nat)) % 256) as u8)
}

/// Big-endian bytes of an XDR enum discriminant or `u32`.
pub open spec fn xdr_u32(v: u32) -> Seq<u8> {
    seq![(v / 0x100_0000) as u8, ((v / 0x1_0000) % 256) as u8, ((v / 256) % 256) as u8, (v % 256) as u8]
}

/// XDR discriminant of `ScVal::Address`.
pub const SCV_ADDRESS: u32 = 18;

impl Addr {
    /// Whether the address is a contract address.
    pub open spec fn is_contract(self) -> bool {
        self.kind == AddressKind::Contract
    }

    /// The 32-byte key: `hi` then `lo`, big-endian.
    pub open spec fn key_bytes(self) -> Seq<u8> {
        be_bytes_u128(self.hi) + be_bytes_u128(self.lo)
    }

    /// The XDR encoding of the address as an `ScVal`: the `ScVal::Address`
    /// discriminant, the `ScAddress` discriminant (0 for an account, 1 for a
    /// contract), for an account the ed25519 public-key discriminant 0, and
    /// the 32 key bytes.
    pub open spec fn xdr(self) -> Seq<u8> {
        xdr_u32(SCV_ADDRESS) + match self.kind {
            AddressKind::Account => xdr_u32(0) + xdr_u32(0) + self.key_bytes(),
            AddressKind::Contract => xdr_u32(1) + self.key_bytes(),
        }
    }
}

} // verus!

//! The few Soroban host services that the verified logic calls directly.
use vstd::prelude::*;
use crate::address::{Addr, AddressKind};
use soroban_sdk::testutils::Address as _;
use soroban_sdk::xdr::ToXdr;
use soroban_sdk::xdr::{AccountId, ContractId, PublicKey, ScAddress, Uint256};

verus! {

#[verifier::external_type_specification]
#[verifier::external_body]
pub struct ExEnv(soroban_sdk::Env);

#[verifier::external_type_specification]
#[verifier::external_body]
#[verifier::reject_recursive_types(K)]
#[verifier::reject_recursive_types(V)]
pub struct ExSorobanMap<K, V>(soroban_sdk::Map<K, V>);

/// The entries of a Soroban map from amount tiers to basis points.
pub uninterp spec fn tier_entries(m: soroban_sdk::Map<i128, u32>) -> Map<i128, u32>;

/// Whether every key and value the host holds in the map converts to
/// `i128` and `u32`.
pub uninterp spec fn tier_entries_typed(m: soroban_sdk::Map<i128, u32>) -> bool;

/// What the Soroban host's SHA-256 returns for the given bytes.
pub uninterp spec fn soroban_sha256(data: Seq<u8>) -> Seq<u8>;

/// Calls `soroban_sdk::crypto::Crypto::sha256` on `data`. Trusted: the digest is
/// 32 bytes and is the host's SHA-256 of `data`, a function of `data` alone.
#[verifier::external_body]
pub fn sha256(env: &soroban_sdk::Env, data: &Vec<u8>) -> (digest: [u8; 32])
    ensures
        digest@ == soroban_sha256(data@),
{
    env.crypto().sha256(&soroban_sdk::Bytes::from_slice(env, data.as_slice())).to_array()
}

/// Calls `soroban_sdk::xdr::ToXdr::to_xdr` on the Soroban address with `addr`'s
/// kind and key. Trusted: the result is the XDR of that address as an
/// `ScVal`, as [`Addr::xdr`] spells it out.
#[verifier::external_body]
pub fn address_xdr(env: &soroban_sdk::Env, addr: Addr) -> (bytes: Vec<u8>)
    ensures
        bytes@ == addr.xdr(),
{
    let mut key = [0u8; 32];
    key[..16].copy_from_slice(&addr.hi.to_be_bytes());
    key[16..].copy_from_slice(&addr.lo.to_be_bytes());
    let sc = match addr.kind {
        AddressKind::Account => ScAddress::Account(AccountId(PublicKey::PublicKeyTypeEd25519(Uint256(key)))),
        AddressKind::Contract => ScAddress::Contract(ContractId(soroban_sdk::xdr::Hash(key))),
    };
    let address: soroban_sdk::Address = soroban_sdk::TryFromVal::try_from_val(env, &sc).unwrap();
    address.to_xdr(env).iter().collect()
}

/// Calls `soroban_sdk::testutils::Address::generate`, which makes up a fresh
/// contract address from the environment's generator. Trusted: the result is
/// a contract address; its key depends on the generator's state and is not
/// claimed.
#[verifier::external_body]
pub fn generate_address(env: &soroban_sdk::Env) -> (addr: Addr)
    ensures
        addr.kind == AddressKind::Contract,
{
    let key = match ScAddress::from(&soroban_sdk::Address::generate(env)) {
        ScAddress::Contract(ContractId(hash)) => Some(hash.0),
        _ => None,
    };
    let key = key.unwrap();
    let (mut hi, mut lo) = ([0u8; 16], [0u8; 16]);
    hi.copy_from_slice(&key[..16]);
    lo.copy_from_slice(&key[16..]);
    Addr { kind: AddressKind::Contract, hi: u128::from_be_bytes(hi), lo: u128::from_be_bytes(lo) }
}

} // verus!

verus! {

/// Calls `soroban_sdk::Map::new`. Trusted: the new map has no entries and all
/// of them (none) are typed.
#[verifier::external_body]
pub fn tier_map_new(env: &soroban_sdk::Env) -> (fresh: soroban_sdk::Map<i128, u32>)
    ensures
        tier_entries(fresh).dom() == Set::<i128>::empty(),
        tier_entries_typed(fresh),
{
    soroban_sdk::Map::new(env)
}

/// Calls `soroban_sdk::Map::set`. Trusted: afterwards the map holds the
/// entries it held before with `tier` mapped to `bp` (replacing an entry for
/// `tier`), and it is typed if it was typed before. (An untyped map may become
/// typed, when its only ill-typed entry was the one at `tier`; that is not
/// claimed either way.)
#[verifier::external_body]
pub fn tier_map_set(m: &mut soroban_sdk::Map<i128, u32>, tier: i128, bp: u32)
    ensures
        tier_entries(*final(m)) == tier_entries(*old(m)).insert(tier, bp),
        tier_entries_typed(*old(m)) ==> tier_entries_typed(*final(m)),
{
    m.set(tier, bp)
}

/// Calls `Clone::clone` on a `soroban_sdk::Map`, which copies the handle of
/// the host's immutable map object. Trusted: the copy holds the same entries.
#[verifier::external_body]
pub fn tier_map_clone(m: &soroban_sdk::Map<i128, u32>) -> (c: soroban_sdk::Map<i128, u32>)
    ensures
        tier_entries(c) == tier_entries(*m),
        tier_entries_typed(c) == tier_entries_typed(*m),
{
    m.clone()
}

/// Calls `soroban_sdk::Map::try_iter` and collects the entries. Trusted: the
/// result is `None` exactly when some key or value does not convert to its
/// declared type; otherwise it lists the map's entries, every entry of the
/// list being one of the map and every key of the map occurring in the list.
#[verifier::external_body]
pub fn tier_map_entries(m: &soroban_sdk::Map<i128, u32>) -> (r: Option<Vec<(i128, u32)>>)
    ensures
        r is Some == tier_entries_typed(*m),
        r matches Some(v) ==> {
            &&& forall|j: int| 0 <= j < v@.len() ==> #[trigger] tier_entries(*m).contains_key(v@[j].0)
                && tier_entries(*m)[v@[j].0] == v@[j].1
            &&& forall|tier: i128| #[trigger] tier_entries(*m).contains_key(tier) ==> exists|j: int|
                0 <= j < v@.len() && v@[j].0 == tier
        },
{
    m.try_iter().collect::<Result<Vec<(i128, u32)>, _>>().ok()
}

} // verus!

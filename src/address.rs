//! Derivation of the base and custody addresses of an Ethereum address.
use solana_program::pubkey::Pubkey;
use vstd::prelude::*;

use crate::error::Error;

verus! {

/// A 32-byte ledger address (a public key or a program-derived address).
#[derive(Clone, Copy, Debug, Eq)]
pub struct Address {
    pub bytes: [u8; 32],
}

impl View for Address {
    type V = Seq<u8>;

    open spec fn view(&self) -> Seq<u8> {
        self.bytes@
    }
}

impl PartialEq for Address {
    fn eq(&self, other: &Address) -> (r: bool) {
        same_bytes(vstd::array::array_as_slice(&self.bytes), vstd::array::array_as_slice(&other.bytes))
    }
}

impl vstd::std_specs::cmp::PartialEqSpecImpl for Address {
    open spec fn obeys_eq_spec() -> bool {
        true
    }

    open spec fn eq_spec(&self, other: &Address) -> bool {
        self@ == other@
    }
}

/// Whether two byte strings are equal.
pub(crate) fn same_bytes(a: &[u8], b: &[u8]) -> (r: bool)
    ensures
        r == (a@ == b@),
{
    if a.len() != b.len() {
        return false;
    }
    let mut i: usize = 0;
    while i < a.len()
        invariant
            i <= a@.len(),
            a@.len() == b@.len(),
            a@.subrange(0, i as int) == b@.subrange(0, i as int),
        decreases a@.len() - i,
    {
        if a[i] != b[i] {
            assert(a@[i as int] != b@[i as int]);
            return false;
        }
        assert(a@.subrange(0, i + 1) =~= a@.subrange(0, i as int).push(a@[i as int]));
        assert(b@.subrange(0, i + 1) =~= b@.subrange(0, i as int).push(b@[i as int]));
        i = i + 1;
    }
    assert(a@ =~= a@.subrange(0, a@.len() as int));
    assert(b@ =~= b@.subrange(0, b@.len() as int));
    true
}

/// The 20 bytes of an Ethereum address.
pub type EthereumAddress = [u8; 20];

/// What `Pubkey::try_find_program_address` returns for these seeds and this
/// program: an address and the bump seed that produced it, or nothing.
pub uninterp spec fn program_address(seeds: Seq<Seq<u8>>, program: Seq<u8>) -> Option<(Seq<u8>, u8)>;

/// Whether these 32 bytes are a point of the ed25519 curve, that is a key that
/// someone could hold the secret of.
pub uninterp spec fn on_curve(key: Seq<u8>) -> bool;

/// Relies on `Pubkey::try_find_program_address`: its result depends on the
/// seeds and the program alone, and an address it returns is one that
/// `create_program_address` accepted, which it does only off the curve.
#[verifier::external_body]
fn find_program_address(seeds: &Vec<Vec<u8>>, program: &Address) -> (r: Option<(Address, u8)>)
    ensures
        program_address(seeds@.map_values(|s: Vec<u8>| s@), program@) == match r {
            Some((a, b)) => Some((a@, b)),
            None => None::<(Seq<u8>, u8)>,
        },
        r matches Some((a, _)) ==> !on_curve(a@),
{
    let slices: Vec<&[u8]> = seeds.iter().map(|s| s.as_slice()).collect();
    Pubkey::try_find_program_address(&slices, &Pubkey::new_from_array(program.bytes)).map(
        |(k, b)| (Address { bytes: k.to_bytes() }, b),
    )
}

/// An address found off the curve, with the bump seed that produced it.
#[derive(Clone, Copy, Debug, PartialEq, Eq)]
pub struct ProgramAddress {
    pub address: Address,
    pub bump: u8,
}

/// The base address of a mint and the custody address of one Ethereum address.
#[derive(Clone, Copy, Debug, PartialEq, Eq)]
pub struct AddressPair {
    pub base: ProgramAddress,
    pub derive: ProgramAddress,
}

/// The seeds of the base address: the mint alone.
pub open spec fn base_seeds(mint: Seq<u8>) -> Seq<Seq<u8>> {
    seq![mint]
}

/// The seeds of the custody address: the base address, then the Ethereum address.
pub open spec fn derive_seeds(base: Seq<u8>, eth_address: Seq<u8>) -> Seq<Seq<u8>> {
    seq![base, eth_address]
}

/// Whether `p` is the program address found for these seeds.
pub open spec fn found_as(p: ProgramAddress, seeds: Seq<Seq<u8>>, program: Seq<u8>) -> bool {
    program_address(seeds, program) == Some((p.address@, p.bump))
}

/// What `derive_pair` returns: the base address of `mint` under `program_id`,
/// then the custody address of `eth_address` under `token_program_id`, or
/// `AddressDerivationExhausted` where either search finds nothing.
pub open spec fn derive_pair_result(
    mint: Seq<u8>,
    eth_address: Seq<u8>,
    program_id: Seq<u8>,
    token_program_id: Seq<u8>,
    r: Result<AddressPair, Error>,
) -> bool {
    match program_address(base_seeds(mint), program_id) {
        None => r == Err::<AddressPair, Error>(Error::AddressDerivationExhausted),
        Some((base, _)) => match program_address(derive_seeds(base, eth_address), token_program_id) {
            None => r == Err::<AddressPair, Error>(Error::AddressDerivationExhausted),
            Some(_) => r matches Ok(pair) && found_as(pair.base, base_seeds(mint), program_id)
                && found_as(pair.derive, derive_seeds(base, eth_address), token_program_id),
        },
    }
}

fn bytes_of<const N: usize>(a: &[u8; N]) -> (r: Vec<u8>)
    ensures
        r@ == a@,
{
    let mut r: Vec<u8> = Vec::new();
    let mut i: usize = 0;
    while i < N
        invariant
            i <= N,
            a@.len() == N,
            r@ == a@.subrange(0, i as int),
        decreases N - i,
    {
        r.push(a[i]);
        i = i + 1;
    }
    assert(r@ =~= a@);
    r
}

/// Derives the base address of `mint` under `program_id` and, from it, the
/// custody address of `eth_address` under `token_program_id`.
pub fn derive_pair(
    mint: &Address,
    eth_address: &EthereumAddress,
    program_id: &Address,
    token_program_id: &Address,
) -> (r: Result<AddressPair, Error>)
    ensures
        derive_pair_result(mint@, eth_address@, program_id@, token_program_id@, r),
        r matches Ok(pair) ==> !on_curve(pair.base.address@) && !on_curve(pair.derive.address@),
{
    let seeds_b = vec![bytes_of(&mint.bytes)];
    assert(seeds_b@.map_values(|s: Vec<u8>| s@) =~= base_seeds(mint@));
    let base = match find_program_address(&seeds_b, program_id) {
        Some((address, bump)) => ProgramAddress { address, bump },
        None => return Err(Error::AddressDerivationExhausted),
    };
    let seeds_d = vec![bytes_of(&base.address.bytes), bytes_of(eth_address)];
    assert(seeds_d@.map_values(|s: Vec<u8>| s@) =~= derive_seeds(base.address@, eth_address@));
    let derive = match find_program_address(&seeds_d, token_program_id) {
        Some((address, bump)) => ProgramAddress { address, bump },
        None => return Err(Error::AddressDerivationExhausted),
    };
    Ok(AddressPair { base, derive })
}

/// Two addresses with the same bytes are the same address.
pub proof fn address_view_injective(a: Address, b: Address)
    requires
        a@ == b@,
    ensures
        a == b,
{
    assert(a.bytes =~= b.bytes);
}

/// Deriving twice from the same mint, Ethereum address and programs gives the
/// same pair both times, or the same error.
pub proof fn derive_pair_is_deterministic(
    mint: Address,
    eth_address: EthereumAddress,
    program_id: Address,
    token_program_id: Address,
    r1: Result<AddressPair, Error>,
    r2: Result<AddressPair, Error>,
)
    requires
        derive_pair_result(mint@, eth_address@, program_id@, token_program_id@, r1),
        derive_pair_result(mint@, eth_address@, program_id@, token_program_id@, r2),
    ensures
        r1 == r2,
{
    if let (Ok(p1), Ok(p2)) = (r1, r2) {
        address_view_injective(p1.base.address, p2.base.address);
        address_view_injective(p1.derive.address, p2.derive.address);
    }
}

} // verus!

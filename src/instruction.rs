//! The program's instructions: their wire format and their builders.
use vstd::bytes::{spec_u64_from_le_bytes, spec_u64_to_le_bytes, u64_from_le_bytes, u64_to_le_bytes};
use vstd::prelude::*;
use vstd::slice::slice_subrange;

use solana_program::{system_program, sysvar};

use crate::address::{
    derive_pair, derive_seeds, base_seeds, on_curve, program_address, Address, EthereumAddress,
};
use crate::error::Error;

verus! {

/// Payload of the instruction that creates the custody account of an Ethereum address.
#[derive(Clone, Copy, Debug, PartialEq, Eq)]
pub struct CreateTokenAccount {
    /// Ethereum address
    pub eth_address: EthereumAddress,
}

/// Payload of the instruction that claims tokens from a custody account.
#[derive(Clone, Copy, Debug, PartialEq, Eq)]
pub struct Claim {
    /// Ethereum address
    pub eth_address: EthereumAddress,
    /// The amount to claim; 0 claims the whole balance.
    pub amount: u64,
}

/// The instructions of the program.
#[derive(Clone, Copy, Debug, PartialEq, Eq)]
pub enum ClaimableProgramInstruction {
    /// Creates the custody account of an Ethereum address.
    ///
    ///   0. `[sw]` Account that pays for the new account
    ///   1. `[r]` Mint account
    ///   2. `[r]` Base address of the mint
    ///   3. `[w]` Custody token account to create
    ///   4. `[r]` Rent sysvar
    ///   5. `[r]` Token program
    ///   6. `[r]` System program
    CreateTokenAccount(CreateTokenAccount),
    /// Claims tokens; must follow the secp256k1 instruction that attests a
    /// signature by the Ethereum address over the receiving account.
    ///
    ///   0. `[w]` Custody token account that pays
    ///   1. `[w]` Receiving token account
    ///   2. `[r]` Authority of the custody account
    ///   3. `[r]` Instructions sysvar
    ///   4. `[r]` Token program
    Claim(Claim),
}

/// Tag byte of `CreateTokenAccount`.
pub const CREATE_TOKEN_ACCOUNT_TAG: u8 = 0;

/// Tag byte of `Claim`.
pub const CLAIM_TAG: u8 = 1;

impl ClaimableProgramInstruction {
    /// The wire form: the tag byte, the 20 bytes of the Ethereum address, and
    /// for a claim the amount as 8 little-endian bytes.
    pub open spec fn spec_encoding(&self) -> Seq<u8> {
        match *self {
            ClaimableProgramInstruction::CreateTokenAccount(c) => seq![CREATE_TOKEN_ACCOUNT_TAG]
                + c.eth_address@,
            ClaimableProgramInstruction::Claim(c) => seq![CLAIM_TAG] + c.eth_address@
                + spec_u64_to_le_bytes(c.amount),
        }
    }

    /// Whether `r` is what `decode` gives for `data`: the one instruction
    /// whose encoding is `data`, and `DecodeError` where there is none.
    pub open spec fn decode_result(data: Seq<u8>, r: Result<Self, Error>) -> bool {
        match r {
            Ok(ix) => ix.spec_encoding() == data,
            Err(e) => e == Error::DecodeError && forall|ix: Self| #[trigger]
                ix.spec_encoding() != data,
        }
    }

    /// Encodes the instruction in its wire form.
    pub fn encode(&self) -> (r: Vec<u8>)
        ensures
            r@ == self.spec_encoding(),
    {
        let mut r: Vec<u8> = Vec::new();
        let eth = match self {
            ClaimableProgramInstruction::CreateTokenAccount(c) => {
                r.push(CREATE_TOKEN_ACCOUNT_TAG);
                &c.eth_address
            },
            ClaimableProgramInstruction::Claim(c) => {
                r.push(CLAIM_TAG);
                &c.eth_address
            },
        };
        let ghost head = r@;
        let mut i: usize = 0;
        while i < 20
            invariant
                i <= 20,
                eth@.len() == 20,
                r@ == head + eth@.subrange(0, i as int),
            decreases 20 - i,
        {
            r.push(eth[i]);
            i = i + 1;
            assert(r@ =~= head + eth@.subrange(0, i as int));
        }
        assert(eth@.subrange(0, 20) =~= eth@);
        if let ClaimableProgramInstruction::Claim(c) = self {
            let mut amount = u64_to_le_bytes(c.amount);
            r.append(&mut amount);
        }
        assert(r@ =~= self.spec_encoding());
        r
    }

    /// Decodes an instruction from its wire form. An unknown tag, a short
    /// buffer and trailing bytes are all refused.
    pub fn decode(data: &[u8]) -> (r: Result<Self, Error>)
        ensures
            Self::decode_result(data@, r),
    {
        if data.len() == 0 || (data[0] != CREATE_TOKEN_ACCOUNT_TAG && data[0] != CLAIM_TAG) {
            proof {
                malformed_has_no_encoding(data@);
            }
            return Err(Error::DecodeError);
        }
        let tag = data[0];
        let len: usize = if tag == CREATE_TOKEN_ACCOUNT_TAG { 21 } else { 29 };
        proof {
            vstd::bytes::lemma_auto_spec_u64_to_from_le_bytes();
        }
        if data.len() != len {
            proof {
                malformed_has_no_encoding(data@);
            }
            return Err(Error::DecodeError);
        }
        let mut eth: EthereumAddress = [0u8; 20];
        let mut i: usize = 0;
        while i < 20
            invariant
                i <= 20,
                data@.len() >= 21,
                eth@.len() == 20,
                eth@.subrange(0, i as int) == data@.subrange(1, i + 1),
            decreases 20 - i,
        {
            eth[i] = data[i + 1];
            assert(eth@.subrange(0, i + 1) =~= data@.subrange(1, i + 2));
            i = i + 1;
        }
        assert(eth@ =~= eth@.subrange(0, 20));
        if tag == CREATE_TOKEN_ACCOUNT_TAG {
            let ix = ClaimableProgramInstruction::CreateTokenAccount(CreateTokenAccount { eth_address: eth });
            assert(ix.spec_encoding() =~= data@);
            Ok(ix)
        } else {
            let amount_bytes = slice_subrange(data, 21, 29);
            let amount = u64_from_le_bytes(amount_bytes);
            assert(amount == spec_u64_from_le_bytes(data@.subrange(21, 29)));
            let ix = ClaimableProgramInstruction::Claim(Claim { eth_address: eth, amount });
            assert(spec_u64_to_le_bytes(amount) == data@.subrange(21, 29));
            assert(ix.spec_encoding() =~= data@);
            Ok(ix)
        }
    }
}

/// A reference to an account in an instruction, with its access mode.
#[derive(Clone, Copy, Debug, PartialEq, Eq)]
pub struct AccountMeta {
    pub pubkey: Address,
    pub is_signer: bool,
    pub is_writable: bool,
}

/// An instruction ready to be put in a transaction: the program that runs
/// it, its accounts in order, and its encoded payload.
#[derive(Clone, Debug, PartialEq, Eq)]
pub struct Instruction {
    pub program_id: Address,
    pub accounts: Vec<AccountMeta>,
    pub data: Vec<u8>,
}

/// Whether `m` references `key` with these flags.
pub open spec fn meta_is(m: AccountMeta, key: Seq<u8>, is_signer: bool, is_writable: bool) -> bool {
    m.pubkey@ == key && m.is_signer == is_signer && m.is_writable == is_writable
}

/// The address of the rent sysvar, `SysvarRent111111111111111111111111111111111`.
pub open spec fn rent_sysvar_key() -> Seq<u8> {
    seq![
        6u8, 167, 213, 23, 25, 44, 92, 81, 33, 140, 201, 76, 61, 74, 241, 127, 88, 218, 238, 8,
        155, 161, 253, 68, 227, 219, 217, 138, 0, 0, 0, 0,
    ]
}

/// The address of the instructions sysvar,
/// `Sysvar1nstructions1111111111111111111111111`.
pub open spec fn instructions_sysvar_key() -> Seq<u8> {
    seq![
        6u8, 167, 213, 23, 24, 123, 209, 102, 53, 218, 212, 4, 85, 253, 194, 192, 193, 36, 198,
        143, 33, 86, 117, 165, 219, 186, 203, 95, 8, 0, 0, 0,
    ]
}

/// The address of the system program, `11111111111111111111111111111111`.
pub open spec fn system_program_key() -> Seq<u8> {
    Seq::new(32, |i: int| 0u8)
}

/// The address of the token program, `TokenkegQfeZyiNwAJbNbGKPFXCWuBvf9Ss623VQ5DA`.
pub open spec fn token_program_key() -> Seq<u8> {
    seq![
        6u8, 221, 246, 225, 215, 101, 161, 147, 217, 203, 225, 70, 206, 235, 121, 172, 28, 180,
        133, 237, 95, 91, 55, 145, 58, 140, 245, 133, 126, 255, 0, 169,
    ]
}

/// Relies on `solana_program::sysvar::rent::id`: the address that
/// `declare_sysvar_id!` gives the rent sysvar.
#[verifier::external_body]
fn rent_sysvar_id() -> (r: Address)
    ensures
        r@ == rent_sysvar_key(),
{
    Address { bytes: sysvar::rent::id().to_bytes() }
}

/// Relies on `solana_program::sysvar::instructions::id`: the address that
/// `declare_sysvar_id!` gives the instructions sysvar.
#[verifier::external_body]
fn instructions_sysvar_id() -> (r: Address)
    ensures
        r@ == instructions_sysvar_key(),
{
    Address { bytes: sysvar::instructions::id().to_bytes() }
}

/// Relies on `solana_program::system_program::id`: the address that
/// `declare_id!` gives the system program.
#[verifier::external_body]
fn system_program_id() -> (r: Address)
    ensures
        r@ == system_program_key(),
{
    Address { bytes: system_program::id().to_bytes() }
}

/// Relies on `spl_token::id`: the address that `declare_id!` gives the token
/// program.
#[verifier::external_body]
fn token_program_id() -> (r: Address)
    ensures
        r@ == token_program_key(),
{
    Address { bytes: spl_token::id().to_bytes() }
}

/// Whether `ix` is the instruction that `init` builds, with `base` the base
/// address of the mint and `custody` the custody address: the payer, the
/// mint, the base address, the custody account, the rent sysvar, the token
/// program and the system program, with the encoded `CreateTokenAccount` as
/// payload.
pub open spec fn is_create_instruction(
    ix: Instruction,
    program_id: Seq<u8>,
    fee_payer: Seq<u8>,
    mint: Seq<u8>,
    base: Seq<u8>,
    custody: Seq<u8>,
    eth_address: EthereumAddress,
) -> bool {
    let a = ix.accounts@;
    &&& ix.program_id@ == program_id
    &&& ix.data@ == ClaimableProgramInstruction::CreateTokenAccount(
        CreateTokenAccount { eth_address },
    ).spec_encoding()
    &&& a.len() == 7
    &&& meta_is(a[0], fee_payer, true, true)
    &&& meta_is(a[1], mint, false, false)
    &&& meta_is(a[2], base, false, false)
    &&& meta_is(a[3], custody, false, true)
    &&& meta_is(a[4], rent_sysvar_key(), false, false)
    &&& meta_is(a[5], token_program_key(), false, false)
    &&& meta_is(a[6], system_program_key(), false, false)
}

/// What `init` returns: the instruction over the base address of the mint
/// under `program_id` and the custody address of the Ethereum address under
/// the token program, or `AddressDerivationExhausted` where either search
/// finds nothing.
pub open spec fn init_result(
    program_id: Seq<u8>,
    fee_payer: Seq<u8>,
    mint: Seq<u8>,
    eth_address: EthereumAddress,
    r: Result<Instruction, Error>,
) -> bool {
    match program_address(base_seeds(mint), program_id) {
        None => r == Err::<Instruction, Error>(Error::AddressDerivationExhausted),
        Some((base, _)) => match program_address(
            derive_seeds(base, eth_address@),
            token_program_key(),
        ) {
            None => r == Err::<Instruction, Error>(Error::AddressDerivationExhausted),
            Some((custody, _)) => r matches Ok(ix) && is_create_instruction(
                ix,
                program_id,
                fee_payer,
                mint,
                base,
                custody,
                eth_address,
            ),
        },
    }
}

/// Builds the `CreateTokenAccount` instruction, which creates the custody
/// account of `ethereum_address.eth_address` for `mint`, paid by `fee_payer`.
pub fn init(
    program_id: &Address,
    fee_payer: &Address,
    mint: &Address,
    ethereum_address: CreateTokenAccount,
) -> (r: Result<Instruction, Error>)
    ensures
        init_result(program_id@, fee_payer@, mint@, ethereum_address.eth_address, r),
        r matches Ok(ix) ==> !on_curve(ix.accounts@[2].pubkey@) && !on_curve(
            ix.accounts@[3].pubkey@,
        ),
{
    let token = token_program_id();
    let pair = match derive_pair(mint, &ethereum_address.eth_address, program_id, &token) {
        Ok(pair) => pair,
        Err(e) => return Err(e),
    };
    let data = ClaimableProgramInstruction::CreateTokenAccount(ethereum_address).encode();
    let accounts = vec![
        AccountMeta { pubkey: *fee_payer, is_signer: true, is_writable: true },
        AccountMeta { pubkey: *mint, is_signer: false, is_writable: false },
        AccountMeta { pubkey: pair.base.address, is_signer: false, is_writable: false },
        AccountMeta { pubkey: pair.derive.address, is_signer: false, is_writable: true },
        AccountMeta { pubkey: rent_sysvar_id(), is_signer: false, is_writable: false },
        AccountMeta { pubkey: token, is_signer: false, is_writable: false },
        AccountMeta { pubkey: system_program_id(), is_signer: false, is_writable: false },
    ];
    Ok(Instruction { program_id: *program_id, accounts, data })
}

/// Whether `ix` is the instruction that `claim` builds: the custody account,
/// the receiving account, the custody authority, then the instructions sysvar
/// and the token program, with the encoded `Claim` as payload.
pub open spec fn is_claim_instruction(
    ix: Instruction,
    program_id: Seq<u8>,
    banks_token_acc: Seq<u8>,
    users_token_acc: Seq<u8>,
    authority: Seq<u8>,
    payload: Claim,
) -> bool {
    let a = ix.accounts@;
    &&& ix.program_id@ == program_id
    &&& ix.data@ == ClaimableProgramInstruction::Claim(payload).spec_encoding()
    &&& a.len() == 5
    &&& meta_is(a[0], banks_token_acc, false, true)
    &&& meta_is(a[1], users_token_acc, false, true)
    &&& meta_is(a[2], authority, false, false)
    &&& meta_is(a[3], instructions_sysvar_key(), false, false)
    &&& meta_is(a[4], token_program_key(), false, false)
}

/// Builds the `Claim` instruction, which moves tokens from the custody
/// account `banks_token_acc` to `users_token_acc`. It must follow, in the
/// same transaction, the secp256k1 instruction in which the Ethereum address
/// signs the receiving account.
pub fn claim(
    program_id: &Address,
    banks_token_acc: &Address,
    users_token_acc: &Address,
    authority: &Address,
    eth_address: Claim,
) -> (r: Result<Instruction, Error>)
    ensures
        r matches Ok(ix) && is_claim_instruction(
            ix,
            program_id@,
            banks_token_acc@,
            users_token_acc@,
            authority@,
            eth_address,
        ),
{
    let data = ClaimableProgramInstruction::Claim(eth_address).encode();
    let accounts = vec![
        AccountMeta { pubkey: *banks_token_acc, is_signer: false, is_writable: true },
        AccountMeta { pubkey: *users_token_acc, is_signer: false, is_writable: true },
        AccountMeta { pubkey: *authority, is_signer: false, is_writable: false },
        AccountMeta { pubkey: instructions_sysvar_id(), is_signer: false, is_writable: false },
        AccountMeta { pubkey: token_program_id(), is_signer: false, is_writable: false },
    ];
    Ok(Instruction { program_id: *program_id, accounts, data })
}

/// Building the `CreateTokenAccount` instruction twice from the same inputs
/// succeeds both times or fails both times with the same error, and two
/// instructions built so name the same program, list the same accounts in the
/// same order and carry the same bytes.
pub proof fn init_is_deterministic(
    program_id: Address,
    fee_payer: Address,
    mint: Address,
    payload: CreateTokenAccount,
    r1: Result<Instruction, Error>,
    r2: Result<Instruction, Error>,
)
    requires
        init_result(program_id@, fee_payer@, mint@, payload.eth_address, r1),
        init_result(program_id@, fee_payer@, mint@, payload.eth_address, r2),
    ensures
        r1 is Ok <==> r2 is Ok,
        r1 matches Err(e1) ==> r2 == Err::<Instruction, Error>(e1),
        r1 matches Ok(a) ==> r2 matches Ok(b) && a.program_id == b.program_id && a.accounts@
            == b.accounts@ && a.data@ == b.data@,
{
    if let (Ok(a), Ok(b)) = (r1, r2) {
        assert forall|i: int| 0 <= i < 7 implies a.accounts@[i] == b.accounts@[i] by {
            crate::address::address_view_injective(a.accounts@[i].pubkey, b.accounts@[i].pubkey);
        }
        assert(a.accounts@ =~= b.accounts@);
        assert(a.data@ =~= b.data@);
        crate::address::address_view_injective(a.program_id, b.program_id);
    }
}

/// Two instructions with the same encoding are the same instruction.
pub proof fn encoding_injective(a: ClaimableProgramInstruction, b: ClaimableProgramInstruction)
    requires
        a.spec_encoding() == b.spec_encoding(),
    ensures
        a == b,
{
    vstd::bytes::lemma_auto_spec_u64_to_from_le_bytes();
    assert(a.spec_encoding()[0] == b.spec_encoding()[0]);
    match (a, b) {
        (
            ClaimableProgramInstruction::CreateTokenAccount(x),
            ClaimableProgramInstruction::CreateTokenAccount(y),
        ) => {
            assert(x.eth_address@ =~= a.spec_encoding().subrange(1, 21));
            assert(y.eth_address@ =~= b.spec_encoding().subrange(1, 21));
            assert(x.eth_address =~= y.eth_address);
        },
        (ClaimableProgramInstruction::Claim(x), ClaimableProgramInstruction::Claim(y)) => {
            assert(x.eth_address@ =~= a.spec_encoding().subrange(1, 21));
            assert(y.eth_address@ =~= b.spec_encoding().subrange(1, 21));
            assert(x.eth_address =~= y.eth_address);
            assert(spec_u64_to_le_bytes(x.amount) =~= a.spec_encoding().subrange(21, 29));
            assert(spec_u64_to_le_bytes(y.amount) =~= b.spec_encoding().subrange(21, 29));
            assert(x == y);
        },
        (ClaimableProgramInstruction::CreateTokenAccount(_), _) => {
            assert(a.spec_encoding()[0] == CREATE_TOKEN_ACCOUNT_TAG);
        },
        (ClaimableProgramInstruction::Claim(_), _) => {
            assert(a.spec_encoding()[0] == CLAIM_TAG);
        },
    }
}

/// Decoding the encoding of an instruction gives that instruction back, for
/// every Ethereum address and every amount from 0 to `u64::MAX`.
pub proof fn decode_encode_round_trip(
    x: ClaimableProgramInstruction,
    r: Result<ClaimableProgramInstruction, Error>,
)
    requires
        ClaimableProgramInstruction::decode_result(x.spec_encoding(), r),
    ensures
        r == Ok::<ClaimableProgramInstruction, Error>(x),
{
    if let Ok(y) = r {
        encoding_injective(x, y);
    }
}

/// Whether `data` is empty, starts with an unknown tag, or is shorter or
/// longer than its tag's payload.
pub open spec fn is_malformed(data: Seq<u8>) -> bool {
    ||| data.len() == 0
    ||| (data[0] != CREATE_TOKEN_ACCOUNT_TAG && data[0] != CLAIM_TAG)
    ||| (data[0] == CREATE_TOKEN_ACCOUNT_TAG && data.len() != 21)
    ||| (data[0] == CLAIM_TAG && data.len() != 29)
}

/// No instruction encodes to a malformed buffer.
pub proof fn malformed_has_no_encoding(data: Seq<u8>)
    requires
        is_malformed(data),
    ensures
        forall|ix: ClaimableProgramInstruction| #[trigger] ix.spec_encoding() != data,
{
    vstd::bytes::lemma_auto_spec_u64_to_from_le_bytes();
    assert forall|ix: ClaimableProgramInstruction| #[trigger] ix.spec_encoding() != data by {
        if ix.spec_encoding() == data {
            assert(ix.spec_encoding()[0] == data[0]);
        }
    }
}

/// Decoding refuses a buffer that is empty, starts with an unknown tag, or is
/// shorter or longer than its tag's payload.
pub proof fn decode_refuses_malformed(data: Seq<u8>, r: Result<ClaimableProgramInstruction, Error>)
    requires
        ClaimableProgramInstruction::decode_result(data, r),
        is_malformed(data),
    ensures
        r == Err::<ClaimableProgramInstruction, Error>(Error::DecodeError),
{
    malformed_has_no_encoding(data);
}

} // verus!

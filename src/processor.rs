//! What the program does with its instructions, on the accounts it is given.
//!
//! The signature attestation that precedes a claim in its transaction is
//! handed in as a value, found and decoded by whoever runs the program.
use vstd::prelude::*;

use crate::address::{
    base_seeds, derive_pair, derive_seeds, on_curve, program_address, same_bytes, Address,
    EthereumAddress,
};
use crate::error::Error;
use crate::instruction::{Claim, CreateTokenAccount};

verus! {

/// The state of a token account.
#[derive(Clone, Copy, Debug, PartialEq, Eq)]
pub struct TokenAccount {
    /// Where the account lives.
    pub address: Address,
    /// The program that owns the account's storage.
    pub program: Address,
    /// The mint of the tokens it holds.
    pub mint: Address,
    /// The key that may move its tokens.
    pub authority: Address,
    /// Its balance.
    pub amount: u64,
    /// Whether the mint's freeze authority has frozen it.
    pub is_frozen: bool,
}

/// A secp256k1 signature that the transaction has verified: the Ethereum
/// address that signed, and the message it signed.
#[derive(Clone, Debug, PartialEq, Eq)]
pub struct Attestation {
    pub eth_address: EthereumAddress,
    pub message: Vec<u8>,
}

/// The custody account that `CreateTokenAccount` makes: at the custody address
/// of the Ethereum address, owned by the token program, holding `mint` with the
/// base address as its authority, empty and not frozen.
pub open spec fn create_result(
    program_id: Seq<u8>,
    token_program_id: Seq<u8>,
    mint: Seq<u8>,
    eth_address: Seq<u8>,
    r: Result<TokenAccount, Error>,
) -> bool {
    match program_address(base_seeds(mint), program_id) {
        None => r == Err::<TokenAccount, Error>(Error::AddressDerivationExhausted),
        Some((base, _)) => match program_address(derive_seeds(base, eth_address), token_program_id) {
            None => r == Err::<TokenAccount, Error>(Error::AddressDerivationExhausted),
            Some((custody, _)) => r matches Ok(acc) && acc.address@ == custody
                && acc.program@ == token_program_id && acc.mint@ == mint
                && acc.authority@ == base && acc.amount == 0 && !acc.is_frozen,
        },
    }
}

/// Creates the custody account of `payload.eth_address` for `mint`.
pub fn process_create_token_account(
    program_id: &Address,
    token_program_id: &Address,
    mint: &Address,
    payload: &CreateTokenAccount,
) -> (r: Result<TokenAccount, Error>)
    ensures
        create_result(program_id@, token_program_id@, mint@, payload.eth_address@, r),
        r matches Ok(acc) ==> !on_curve(acc.address@),
{
    let pair = match derive_pair(mint, &payload.eth_address, program_id, token_program_id) {
        Ok(pair) => pair,
        Err(e) => return Err(e),
    };
    Ok(
        TokenAccount {
            address: pair.derive.address,
            program: *token_program_id,
            mint: *mint,
            authority: pair.base.address,
            amount: 0,
            is_frozen: false,
        },
    )
}

/// The amount a claim moves: the whole balance for 0, else what it asks.
pub open spec fn claimed_amount(balance: u64, requested: u64) -> u64 {
    if requested == 0 {
        balance
    } else {
        requested
    }
}

/// What the token program's transfer of `amount` from `from` to `to`, signed
/// by `authority`, leaves in the two accounts. It fails on a short balance,
/// on a frozen account, on different mints, on a wrong authority and on an
/// overflow of the receiving balance. A transfer to the account itself changes nothing.
pub open spec fn transfer_result(
    from: TokenAccount,
    to: TokenAccount,
    amount: u64,
    authority: Seq<u8>,
) -> Result<(TokenAccount, TokenAccount), Error> {
    if amount > from.amount {
        Err(Error::InsufficientFunds)
    } else if from.is_frozen || to.is_frozen || from.mint@ != to.mint@ || from.authority@
        != authority {
        Err(Error::TransferFailed)
    } else if from.address@ == to.address@ {
        Ok((from, to))
    } else if to.amount + amount > u64::MAX {
        Err(Error::TransferFailed)
    } else {
        Ok(
            (
                TokenAccount { amount: (from.amount - amount) as u64, ..from },
                TokenAccount { amount: (to.amount + amount) as u64, ..to },
            ),
        )
    }
}

/// What a claim gives once the custody address and its authority are known:
/// the custody account must be the expected one, the attestation must be
/// signed by the claimed Ethereum address over the receiving account, and
/// then the claimed amount moves.
pub open spec fn settle_result(
    expected_custody: Seq<u8>,
    authority: Seq<u8>,
    custody: TokenAccount,
    destination: TokenAccount,
    attestation: Attestation,
    payload: Claim,
) -> Result<(TokenAccount, TokenAccount), Error> {
    if custody.address@ != expected_custody {
        Err(Error::CustodyAddressMismatch)
    } else if attestation.eth_address@ != payload.eth_address@ {
        Err(Error::SignatureAddressMismatch)
    } else if attestation.message@ != destination.address@ {
        Err(Error::SignedMessageMismatch)
    } else {
        transfer_result(
            custody,
            destination,
            claimed_amount(custody.amount, payload.amount),
            authority,
        )
    }
}

/// What `process_claim` gives: a missing attestation fails first; then the
/// custody address is derived again from the custody account's mint and the
/// claimed Ethereum address, and the claim is settled against it.
pub open spec fn claim_result(
    program_id: Seq<u8>,
    token_program_id: Seq<u8>,
    custody: TokenAccount,
    destination: TokenAccount,
    attestation: Option<Attestation>,
    payload: Claim,
) -> Result<(TokenAccount, TokenAccount), Error> {
    match attestation {
        None => Err(Error::MissingSignatureAttestation),
        Some(att) => match program_address(base_seeds(custody.mint@), program_id) {
            None => Err(Error::AddressDerivationExhausted),
            Some((base, _)) => match program_address(
                derive_seeds(base, payload.eth_address@),
                token_program_id,
            ) {
                None => Err(Error::AddressDerivationExhausted),
                Some((expected, _)) => settle_result(
                    expected,
                    base,
                    custody,
                    destination,
                    att,
                    payload,
                ),
            },
        },
    }
}

/// Settles a claim against the custody address `expected_custody` and its
/// `authority`, as derived for the claimed Ethereum address.
pub fn settle_claim(
    expected_custody: &Address,
    authority: &Address,
    custody: &TokenAccount,
    destination: &TokenAccount,
    attestation: &Attestation,
    payload: &Claim,
) -> (r: Result<(TokenAccount, TokenAccount), Error>)
    ensures
        r == settle_result(
            expected_custody@,
            authority@,
            *custody,
            *destination,
            *attestation,
            *payload,
        ),
{
    if custody.address != *expected_custody {
        return Err(Error::CustodyAddressMismatch);
    }
    let signer = vstd::array::array_as_slice(&attestation.eth_address);
    let claimed = vstd::array::array_as_slice(&payload.eth_address);
    if !same_bytes(signer, claimed) {
        return Err(Error::SignatureAddressMismatch);
    }
    let receiver = vstd::array::array_as_slice(&destination.address.bytes);
    if !same_bytes(attestation.message.as_slice(), receiver) {
        return Err(Error::SignedMessageMismatch);
    }
    let amount = if payload.amount == 0 {
        custody.amount
    } else {
        payload.amount
    };
    if amount > custody.amount {
        return Err(Error::InsufficientFunds);
    }
    if custody.is_frozen || destination.is_frozen || custody.mint != destination.mint
        || custody.authority != *authority {
        return Err(Error::TransferFailed);
    }
    if custody.address == destination.address {
        return Ok((*custody, *destination));
    }
    if destination.amount > u64::MAX - amount {
        return Err(Error::TransferFailed);
    }
    Ok(
        (
            TokenAccount { amount: custody.amount - amount, ..*custody },
            TokenAccount { amount: destination.amount + amount, ..*destination },
        ),
    )
}

/// Processes a claim of `payload` from `custody` to `destination`, where
/// `attestation` is the signature attested just before it, if any.
pub fn process_claim(
    program_id: &Address,
    token_program_id: &Address,
    custody: &TokenAccount,
    destination: &TokenAccount,
    attestation: &Option<Attestation>,
    payload: &Claim,
) -> (r: Result<(TokenAccount, TokenAccount), Error>)
    ensures
        r == claim_result(
            program_id@,
            token_program_id@,
            *custody,
            *destination,
            *attestation,
            *payload,
        ),
{
    let att = match attestation {
        Some(att) => att,
        None => return Err(Error::MissingSignatureAttestation),
    };
    let pair = match derive_pair(&custody.mint, &payload.eth_address, program_id, token_program_id) {
        Ok(pair) => pair,
        Err(e) => return Err(e),
    };
    settle_claim(&pair.derive.address, &pair.base.address, custody, destination, att, payload)
}

/// A claim with no attestation before it fails with
/// `MissingSignatureAttestation`, whatever the accounts and their balances.
pub proof fn claim_without_attestation_fails(
    program_id: Address,
    token_program_id: Address,
    custody: TokenAccount,
    destination: TokenAccount,
    payload: Claim,
)
    ensures
        claim_result(program_id@, token_program_id@, custody, destination, None, payload) == Err::<
            (TokenAccount, TokenAccount),
            Error,
        >(Error::MissingSignatureAttestation),
{
}

/// Whether `custody` is the custody account of `eth_address`: it lives at the
/// custody address derived from its mint, and the base address of its mint is
/// its authority.
pub open spec fn is_custody_of(
    custody: TokenAccount,
    eth_address: Seq<u8>,
    program_id: Seq<u8>,
    token_program_id: Seq<u8>,
) -> bool {
    match program_address(base_seeds(custody.mint@), program_id) {
        None => false,
        Some((base, _)) => match program_address(derive_seeds(base, eth_address), token_program_id) {
            None => false,
            Some((address, _)) => custody.address@ == address && custody.authority@ == base,
        },
    }
}

/// A claim of 0 by the custody account's own Ethereum address, attested over
/// a distinct receiving account of the same mint that can hold the whole
/// balance, with neither account frozen, empties the custody account into the receiving account: exactly
/// the balance it had moves, and nothing else changes.
pub proof fn claim_of_zero_moves_whole_balance(
    program_id: Address,
    token_program_id: Address,
    custody: TokenAccount,
    destination: TokenAccount,
    attestation: Attestation,
    payload: Claim,
)
    requires
        payload.amount == 0,
        is_custody_of(custody, payload.eth_address@, program_id@, token_program_id@),
        attestation.eth_address@ == payload.eth_address@,
        attestation.message@ == destination.address@,
        custody.mint@ == destination.mint@,
        !custody.is_frozen && !destination.is_frozen,
        custody.address@ != destination.address@,
        destination.amount + custody.amount <= u64::MAX,
    ensures
        claim_result(
            program_id@,
            token_program_id@,
            custody,
            destination,
            Some(attestation),
            payload,
        ) == Ok::<(TokenAccount, TokenAccount), Error>(
            (
                TokenAccount { amount: 0, ..custody },
                TokenAccount { amount: (destination.amount + custody.amount) as u64, ..destination },
            ),
        ),
{
}

/// Whether `e` is one of the checks that come before the balance is read:
/// the attestation is present, the custody address derives and matches, and
/// the attestation was signed by the claimed address over the receiver.
pub open spec fn is_authorization_error(e: Error) -> bool {
    ||| e == Error::MissingSignatureAttestation
    ||| e == Error::AddressDerivationExhausted
    ||| e == Error::CustodyAddressMismatch
    ||| e == Error::SignatureAddressMismatch
    ||| e == Error::SignedMessageMismatch
}

/// A claim of more than the custody balance never succeeds, so it changes no
/// balance; once it is authorized, it fails with `InsufficientFunds`.
pub proof fn claim_over_balance_fails(
    program_id: Address,
    token_program_id: Address,
    custody: TokenAccount,
    destination: TokenAccount,
    attestation: Option<Attestation>,
    payload: Claim,
)
    requires
        payload.amount > custody.amount,
    ensures
        claim_result(program_id@, token_program_id@, custody, destination, attestation, payload) matches Err(e)
            && (e == Error::InsufficientFunds || is_authorization_error(e)),
{
}

} // verus!

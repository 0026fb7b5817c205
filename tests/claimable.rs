use claimable::{
    claim, derive_pair, init, process_claim, process_create_token_account,
    settle_claim, Address, Attestation, Claim, ClaimableProgramInstruction, CreateTokenAccount,
    Error, TokenAccount,
};
use solana_program::pubkey::Pubkey;

const ETH: [u8; 20] = [0x11; 20];
const OTHER_ETH: [u8; 20] = [0x22; 20];

fn program_id() -> Address {
    Address { bytes: [7; 32] }
}

fn mint() -> Address {
    Address { bytes: [9; 32] }
}

fn token_program() -> Address {
    Address { bytes: spl_token::id().to_bytes() }
}

fn pubkey(a: &Address) -> Pubkey {
    Pubkey::new_from_array(a.bytes)
}

fn is_off_curve(a: &Address) -> bool {
    !pubkey(a).is_on_curve()
}

fn receiver(amount: u64) -> TokenAccount {
    TokenAccount {
        address: Address { bytes: [3; 32] },
        program: token_program(),
        mint: mint(),
        authority: Address { bytes: [4; 32] },
        amount,
        is_frozen: false,
    }
}

fn funded_custody(amount: u64) -> TokenAccount {
    let payload = CreateTokenAccount { eth_address: ETH };
    let mut acc =
        process_create_token_account(&program_id(), &token_program(), &mint(), &payload).unwrap();
    acc.amount = amount;
    acc
}

fn attestation_for(eth: [u8; 20], dest: &TokenAccount) -> Option<Attestation> {
    Some(Attestation { eth_address: eth, message: dest.address.bytes.to_vec() })
}

#[test]
fn derive_pair_is_deterministic() {
    let a = derive_pair(&mint(), &ETH, &program_id(), &token_program()).unwrap();
    let b = derive_pair(&mint(), &ETH, &program_id(), &token_program()).unwrap();
    assert_eq!(a, b);
}

#[test]
fn derive_pair_matches_program_address_search() {
    let pair = derive_pair(&mint(), &ETH, &program_id(), &token_program()).unwrap();
    let (base, base_bump) =
        Pubkey::find_program_address(&[&mint().bytes[..]], &pubkey(&program_id()));
    assert_eq!(pair.base.address.bytes, base.to_bytes());
    assert_eq!(pair.base.bump, base_bump);
    let (custody, bump) =
        Pubkey::find_program_address(&[&base.to_bytes()[..], &ETH[..]], &spl_token::id());
    assert_eq!(pair.derive.address.bytes, custody.to_bytes());
    assert_eq!(pair.derive.bump, bump);
}

#[test]
fn derive_pair_differs_per_eth_address() {
    let a = derive_pair(&mint(), &ETH, &program_id(), &token_program()).unwrap();
    let b = derive_pair(&mint(), &OTHER_ETH, &program_id(), &token_program()).unwrap();
    assert_eq!(a.base, b.base);
    assert_ne!(a.derive.address, b.derive.address);
}

#[test]
fn derived_addresses_are_off_curve() {
    for eth in [ETH, OTHER_ETH, [0; 20], [0xff; 20]] {
        let pair = derive_pair(&mint(), &eth, &program_id(), &token_program()).unwrap();
        assert!(is_off_curve(&pair.base.address));
        assert!(is_off_curve(&pair.derive.address));
    }
}

#[test]
fn curve_point_is_not_off_curve() {
    let mut basepoint = [0x66u8; 32];
    basepoint[0] = 0x58;
    assert!(!is_off_curve(&Address { bytes: basepoint }));
}

#[test]
fn encode_create_token_account() {
    let ix = ClaimableProgramInstruction::CreateTokenAccount(CreateTokenAccount { eth_address: ETH });
    let mut expected = vec![0u8];
    expected.extend_from_slice(&ETH);
    assert_eq!(ix.encode(), expected);
    assert_eq!(ix.encode(), borsh::to_vec(&(0u8, ETH)).unwrap());
}

#[test]
fn encode_claim() {
    let ix = ClaimableProgramInstruction::Claim(Claim { eth_address: ETH, amount: 400 });
    let mut expected = vec![1u8];
    expected.extend_from_slice(&ETH);
    expected.extend_from_slice(&[0x90, 0x01, 0, 0, 0, 0, 0, 0]);
    assert_eq!(ix.encode(), expected);
    assert_eq!(ix.encode(), borsh::to_vec(&(1u8, ETH, 400u64)).unwrap());
}

#[test]
fn round_trip_both_variants() {
    let cases = [
        ClaimableProgramInstruction::CreateTokenAccount(CreateTokenAccount { eth_address: ETH }),
        ClaimableProgramInstruction::Claim(Claim { eth_address: ETH, amount: 0 }),
        ClaimableProgramInstruction::Claim(Claim { eth_address: OTHER_ETH, amount: 1 }),
        ClaimableProgramInstruction::Claim(Claim { eth_address: [0xff; 20], amount: u64::MAX }),
    ];
    for ix in cases {
        assert_eq!(ClaimableProgramInstruction::decode(&ix.encode()), Ok(ix));
    }
}

#[test]
fn decode_refuses_unknown_tag() {
    let mut data = vec![2u8];
    data.extend_from_slice(&ETH);
    assert_eq!(ClaimableProgramInstruction::decode(&data), Err(Error::DecodeError));
    assert_eq!(ClaimableProgramInstruction::decode(&[]), Err(Error::DecodeError));
}

#[test]
fn decode_refuses_truncated_and_trailing() {
    let claim = ClaimableProgramInstruction::Claim(Claim { eth_address: ETH, amount: 5 }).encode();
    assert_eq!(ClaimableProgramInstruction::decode(&claim[..28]), Err(Error::DecodeError));
    let mut long = claim.clone();
    long.push(0);
    assert_eq!(ClaimableProgramInstruction::decode(&long), Err(Error::DecodeError));
    let create =
        ClaimableProgramInstruction::CreateTokenAccount(CreateTokenAccount { eth_address: ETH })
            .encode();
    assert_eq!(ClaimableProgramInstruction::decode(&create[..20]), Err(Error::DecodeError));
    let mut long = create.clone();
    long.extend_from_slice(&[0; 8]);
    assert_eq!(ClaimableProgramInstruction::decode(&long), Err(Error::DecodeError));
}

#[test]
fn init_lists_accounts_in_order() {
    let payer = Address { bytes: [5; 32] };
    let ix = init(&program_id(), &payer, &mint(), CreateTokenAccount { eth_address: ETH }).unwrap();
    let pair = derive_pair(&mint(), &ETH, &program_id(), &token_program()).unwrap();
    assert_eq!(ix.program_id, program_id());
    assert_eq!(
        ix.data,
        ClaimableProgramInstruction::CreateTokenAccount(CreateTokenAccount { eth_address: ETH })
            .encode()
    );
    let keys: Vec<[u8; 32]> = ix.accounts.iter().map(|m| m.pubkey.bytes).collect();
    assert_eq!(
        keys,
        vec![
            payer.bytes,
            mint().bytes,
            pair.base.address.bytes,
            pair.derive.address.bytes,
            solana_program::sysvar::rent::id().to_bytes(),
            spl_token::id().to_bytes(),
            solana_program::system_program::id().to_bytes(),
        ]
    );
    let flags: Vec<(bool, bool)> = ix.accounts.iter().map(|m| (m.is_signer, m.is_writable)).collect();
    assert_eq!(
        flags,
        vec![(true, true), (false, false), (false, false), (false, true), (false, false), (false, false), (false, false)]
    );
}

#[test]
fn claim_lists_accounts_in_order() {
    let bank = Address { bytes: [1; 32] };
    let user = Address { bytes: [2; 32] };
    let authority = Address { bytes: [3; 32] };
    let payload = Claim { eth_address: ETH, amount: 7 };
    let ix = claim(&program_id(), &bank, &user, &authority, payload).unwrap();
    assert_eq!(ix.data, ClaimableProgramInstruction::Claim(payload).encode());
    let keys: Vec<[u8; 32]> = ix.accounts.iter().map(|m| m.pubkey.bytes).collect();
    assert_eq!(
        keys,
        vec![
            bank.bytes,
            user.bytes,
            authority.bytes,
            solana_program::sysvar::instructions::id().to_bytes(),
            spl_token::id().to_bytes(),
        ]
    );
    let flags: Vec<(bool, bool)> = ix.accounts.iter().map(|m| (m.is_signer, m.is_writable)).collect();
    assert_eq!(flags, vec![(false, true), (false, true), (false, false), (false, false), (false, false)]);
}

#[test]
fn create_then_claim_part_then_rest() {
    let payload = CreateTokenAccount { eth_address: ETH };
    let created =
        process_create_token_account(&program_id(), &token_program(), &mint(), &payload).unwrap();
    let pair = derive_pair(&mint(), &ETH, &program_id(), &token_program()).unwrap();
    assert_eq!(created.amount, 0);
    assert!(!created.is_frozen);
    assert_eq!(created.program, token_program());
    assert_eq!(created.address, pair.derive.address);
    assert_eq!(created.authority, pair.base.address);

    let custody = TokenAccount { amount: 1000, ..created };
    let dest = receiver(0);
    let att = attestation_for(ETH, &dest);
    let (custody, dest) = process_claim(
        &program_id(),
        &token_program(),
        &custody,
        &dest,
        &att,
        &Claim { eth_address: ETH, amount: 400 },
    )
    .unwrap();
    assert_eq!(custody.amount, 600);
    assert_eq!(dest.amount, 400);

    let (custody, dest) = process_claim(
        &program_id(),
        &token_program(),
        &custody,
        &dest,
        &att,
        &Claim { eth_address: ETH, amount: 0 },
    )
    .unwrap();
    assert_eq!(custody.amount, 0);
    assert_eq!(dest.amount, 1000);
}

#[test]
fn claim_with_other_signer_fails() {
    let custody = funded_custody(1000);
    let dest = receiver(5);
    let r = process_claim(
        &program_id(),
        &token_program(),
        &custody,
        &dest,
        &attestation_for(OTHER_ETH, &dest),
        &Claim { eth_address: ETH, amount: 1 },
    );
    assert_eq!(r, Err(Error::SignatureAddressMismatch));
    assert_eq!(custody.amount, 1000);
    assert_eq!(dest.amount, 5);
}

#[test]
fn claim_without_attestation_fails() {
    let custody = funded_custody(1000);
    let dest = receiver(0);
    let r = process_claim(
        &program_id(),
        &token_program(),
        &custody,
        &dest,
        &None,
        &Claim { eth_address: ETH, amount: 10 },
    );
    assert_eq!(r, Err(Error::MissingSignatureAttestation));
}

#[test]
fn claim_over_balance_fails() {
    let custody = funded_custody(100);
    let dest = receiver(0);
    let r = process_claim(
        &program_id(),
        &token_program(),
        &custody,
        &dest,
        &attestation_for(ETH, &dest),
        &Claim { eth_address: ETH, amount: 101 },
    );
    assert_eq!(r, Err(Error::InsufficientFunds));
}

#[test]
fn claim_of_exact_balance_succeeds() {
    let custody = funded_custody(100);
    let dest = receiver(1);
    let (c, d) = process_claim(
        &program_id(),
        &token_program(),
        &custody,
        &dest,
        &attestation_for(ETH, &dest),
        &Claim { eth_address: ETH, amount: 100 },
    )
    .unwrap();
    assert_eq!((c.amount, d.amount), (0, 101));
}

#[test]
fn claim_from_wrong_custody_fails() {
    let custody = TokenAccount { address: Address { bytes: [8; 32] }, ..funded_custody(100) };
    let dest = receiver(0);
    let r = process_claim(
        &program_id(),
        &token_program(),
        &custody,
        &dest,
        &attestation_for(ETH, &dest),
        &Claim { eth_address: ETH, amount: 1 },
    );
    assert_eq!(r, Err(Error::CustodyAddressMismatch));
}

#[test]
fn claim_attested_for_other_receiver_fails() {
    let custody = funded_custody(100);
    let dest = receiver(0);
    let elsewhere = TokenAccount { address: Address { bytes: [6; 32] }, ..dest };
    let r = process_claim(
        &program_id(),
        &token_program(),
        &custody,
        &dest,
        &attestation_for(ETH, &elsewhere),
        &Claim { eth_address: ETH, amount: 1 },
    );
    assert_eq!(r, Err(Error::SignedMessageMismatch));
}

#[test]
fn claim_into_other_mint_fails() {
    let custody = funded_custody(100);
    let dest = TokenAccount { mint: Address { bytes: [10; 32] }, ..receiver(0) };
    let r = process_claim(
        &program_id(),
        &token_program(),
        &custody,
        &dest,
        &attestation_for(ETH, &dest),
        &Claim { eth_address: ETH, amount: 1 },
    );
    assert_eq!(r, Err(Error::TransferFailed));
}

#[test]
fn claim_overflowing_receiver_fails() {
    let custody = funded_custody(100);
    let dest = receiver(u64::MAX);
    let r = process_claim(
        &program_id(),
        &token_program(),
        &custody,
        &dest,
        &attestation_for(ETH, &dest),
        &Claim { eth_address: ETH, amount: 1 },
    );
    assert_eq!(r, Err(Error::TransferFailed));
}

#[test]
fn settle_claim_against_given_custody() {
    let custody = funded_custody(50);
    let dest = receiver(0);
    let att = Attestation { eth_address: ETH, message: dest.address.bytes.to_vec() };
    let payload = Claim { eth_address: ETH, amount: 20 };
    let (c, d) =
        settle_claim(&custody.address, &custody.authority, &custody, &dest, &att, &payload).unwrap();
    assert_eq!((c.amount, d.amount), (30, 20));
    let wrong = Address { bytes: [0; 32] };
    assert_eq!(
        settle_claim(&wrong, &custody.authority, &custody, &dest, &att, &payload),
        Err(Error::CustodyAddressMismatch)
    );
    assert_eq!(
        settle_claim(&custody.address, &wrong, &custody, &dest, &att, &payload),
        Err(Error::TransferFailed)
    );
}

#[test]
fn claim_into_frozen_account_fails() {
    let custody = funded_custody(100);
    let dest = TokenAccount { is_frozen: true, ..receiver(0) };
    let r = process_claim(
        &program_id(),
        &token_program(),
        &custody,
        &dest,
        &attestation_for(ETH, &dest),
        &Claim { eth_address: ETH, amount: 1 },
    );
    assert_eq!(r, Err(Error::TransferFailed));
}

#[test]
fn init_fixes_well_known_accounts() {
    let payer = Address { bytes: [5; 32] };
    let ix = init(&program_id(), &payer, &mint(), CreateTokenAccount { eth_address: ETH }).unwrap();
    let rent: [u8; 32] = [
        6, 167, 213, 23, 25, 44, 92, 81, 33, 140, 201, 76, 61, 74, 241, 127, 88, 218, 238, 8, 155,
        161, 253, 68, 227, 219, 217, 138, 0, 0, 0, 0,
    ];
    let token: [u8; 32] = [
        6, 221, 246, 225, 215, 101, 161, 147, 217, 203, 225, 70, 206, 235, 121, 172, 28, 180, 133,
        237, 95, 91, 55, 145, 58, 140, 245, 133, 126, 255, 0, 169,
    ];
    assert_eq!(ix.accounts[4].pubkey.bytes, rent);
    assert_eq!(ix.accounts[5].pubkey.bytes, token);
    assert_eq!(ix.accounts[6].pubkey.bytes, [0u8; 32]);
    assert!(is_off_curve(&ix.accounts[2].pubkey));
    assert!(is_off_curve(&ix.accounts[3].pubkey));
}

#[test]
fn claim_fixes_well_known_accounts() {
    let payload = Claim { eth_address: ETH, amount: 0 };
    let ix = claim(&program_id(), &mint(), &mint(), &mint(), payload).unwrap();
    let instructions: [u8; 32] = [
        6, 167, 213, 23, 24, 123, 209, 102, 53, 218, 212, 4, 85, 253, 194, 192, 193, 36, 198, 143,
        33, 86, 117, 165, 219, 186, 203, 95, 8, 0, 0, 0,
    ];
    assert_eq!(ix.accounts[3].pubkey.bytes, instructions);
    assert_eq!(ix.accounts[4].pubkey.bytes, spl_token::id().to_bytes());
}

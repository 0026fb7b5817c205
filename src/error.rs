//! Errors of instruction building and claim processing.
use vstd::prelude::*;

verus! {

/// Everything that can make an operation of this library fail.
#[derive(Clone, Copy, Debug, PartialEq, Eq, Structural)]
pub enum Error {
    /// No bump seed gave an address off the curve.
    AddressDerivationExhausted,
    /// The instruction data is not a valid encoding.
    DecodeError,
    /// No signature attestation precedes the claim.
    MissingSignatureAttestation,
    /// The custody account is not the one derived for the claimed address.
    CustodyAddressMismatch,
    /// The attestation was signed by another Ethereum address.
    SignatureAddressMismatch,
    /// The attested message is not the destination account.
    SignedMessageMismatch,
    /// The custody account holds less than the requested amount.
    InsufficientFunds,
    /// The token program refused the transfer.
    TransferFailed,
}

} // verus!

//! Addresses and keypairs.
//!
//! An address is the 32 bytes of an Ed25519 public key; a keypair is the 64
//! bytes of a secret key followed by its public key. The key arithmetic, the
//! base-58 text of an address and the layout of a keypair file are those of
//! the Solana SDK, which is called for each of them.

use vstd::prelude::*;
use crate::error::{WalletError, WalletErrorView};
use solana_sdk::signer::Signer;
use std::str::FromStr;

verus! {

/// Length of an address in bytes.
pub const ADDRESS_LENGTH: usize = 32;

/// Length of a keypair in bytes.
pub const KEYPAIR_LENGTH: usize = 64;

/// What the SDK's `Pubkey::from_str` makes of a text: the bytes of the public
/// key, or the message of its refusal. The SDK decides; nothing is proved of
/// it here.
pub uninterp spec fn spec_parse_pubkey(text: Seq<char>) -> Result<Seq<u8>, Seq<char>>;

/// The text that the SDK's `Pubkey` shows for the bytes of a public key: their
/// base-58 encoding. The SDK decides; nothing is proved of it here.
pub uninterp spec fn spec_encode_pubkey(bytes: Seq<u8>) -> Seq<char>;

/// Whether the SDK's `Keypair::from_bytes` accepts the bytes as a keypair. The
/// SDK decides; nothing is proved of it here.
pub uninterp spec fn spec_keypair_accepted(bytes: Seq<u8>) -> bool;

/// What the SDK's `read_keypair` makes of the contents of a keypair file: the
/// bytes of the keypair, or the message of its refusal. The SDK decides;
/// nothing is proved of it here.
pub uninterp spec fn spec_read_keypair(contents: Seq<u8>) -> Result<Seq<u8>, Seq<char>>;

/// The transaction that the SDK's `system_instruction::transfer` and
/// `Transaction::new_signed_with_payer` make of a transfer: of `lamports`, from
/// the account of the keypair with the bytes `from` to the account at `to`,
/// paid and signed by that keypair, with `blockhash` as its recent blockhash.
/// The SDK decides; nothing is proved of it here.
pub uninterp spec fn spec_sign_transfer(
    from: Seq<u8>,
    to: Seq<u8>,
    lamports: u64,
    blockhash: Seq<u8>,
) -> solana_sdk::transaction::Transaction;

/// The outcome of a call into the SDK that gives bytes or a message, as
/// sequences.
pub open spec fn spec_outcome<const N: usize>(outcome: Result<[u8; N], String>) -> Result<
    Seq<u8>,
    Seq<char>,
> {
    match outcome {
        Ok(bytes) => Ok(bytes@),
        Err(cause) => Err(cause@),
    }
}

/// The result of a step that can fail, with the error as its view.
pub open spec fn spec_checked<T: View>(result: Result<T, WalletError>) -> Result<
    T::V,
    WalletErrorView,
> {
    match result {
        Ok(value) => Ok(value@),
        Err(error) => Err(error@),
    }
}

/// The SDK's `Transaction`. Nothing is known of a value of it; it is only
/// carried to the caller.
#[verifier::external_type_specification]
#[verifier::external_body]
pub struct ExTransaction(solana_sdk::transaction::Transaction);

/// Calls the SDK's `Pubkey::from_str`, which parses the base-58 text of a
/// public key.
///
/// Believed, not proved: the outcome depends on the text alone, so it is
/// [`spec_parse_pubkey`] of the text. It is the key's 32 bytes, or the text of
/// the SDK's error.
#[verifier::external_body]
fn parse_pubkey(text: &str) -> (parsed: Result<[u8; 32], String>)
    ensures
        spec_outcome(parsed) == spec_parse_pubkey(text@),
{
    match solana_sdk::pubkey::Pubkey::from_str(text) {
        Ok(key) => Ok(key.to_bytes()),
        Err(refusal) => Err(refusal.to_string()),
    }
}

/// Calls the SDK's `Display` for `Pubkey`, which gives the base-58 text of a
/// public key.
///
/// Believed, not proved: the text depends on the bytes alone, so it is
/// [`spec_encode_pubkey`] of the bytes.
#[verifier::external_body]
fn encode_pubkey(bytes: &[u8; 32]) -> (text: String)
    ensures
        text@ == spec_encode_pubkey(bytes@),
{
    solana_sdk::pubkey::Pubkey::new_from_array(*bytes).to_string()
}

/// Calls the SDK's `Keypair::new`, which makes a keypair from the system's
/// random source, and gives the keypair's bytes.
///
/// Believed, not proved: whatever comes out, its bytes are a keypair that the
/// SDK's `Keypair::from_bytes` accepts. Two calls give different keypairs.
#[verifier::external_body]
fn new_keypair() -> (bytes: [u8; 64])
    ensures
        spec_keypair_accepted(bytes@),
{
    solana_sdk::signer::keypair::Keypair::new().to_bytes()
}

/// Calls the SDK's `Keypair::from_bytes`, and says whether it accepted the
/// bytes. It does where the second half is the public key of the first.
///
/// Believed, not proved: the answer depends on the bytes alone, so it is
/// [`spec_keypair_accepted`] of the bytes.
#[verifier::external_body]
fn keypair_accepted(bytes: &[u8; 64]) -> (accepted: bool)
    ensures
        accepted == spec_keypair_accepted(bytes@),
{
    solana_sdk::signer::keypair::Keypair::from_bytes(bytes).is_ok()
}

/// Calls the SDK's `read_keypair` on the contents of a keypair file. The SDK
/// wants a JSON list of 64 numbers that its `Keypair::from_bytes` accepts.
///
/// Believed, not proved: the outcome depends on the contents alone, so it is
/// [`spec_read_keypair`] of the contents: the keypair's bytes, or the text of
/// the SDK's error. Bytes that come out are a keypair that
/// `Keypair::from_bytes` accepts, because `read_keypair` makes its keypair with
/// it.
#[verifier::external_body]
fn read_keypair(contents: &[u8]) -> (parsed: Result<[u8; 64], String>)
    ensures
        spec_outcome(parsed) == spec_read_keypair(contents@),
        parsed matches Ok(bytes) ==> spec_keypair_accepted(bytes@),
{
    let mut reader = contents;
    match solana_sdk::signer::keypair::read_keypair(&mut reader) {
        Ok(keypair) => Ok(keypair.to_bytes()),
        Err(refusal) => Err(refusal.to_string()),
    }
}

/// Calls the SDK's `system_instruction::transfer` and
/// `Transaction::new_signed_with_payer`: makes the instruction that transfers
/// `lamports` from the keypair's account to `to`, and the transaction of that
/// one instruction, paid and signed by the keypair, with `blockhash` as its
/// recent blockhash.
///
/// Believed, not proved: the transaction depends on the four arguments alone,
/// so it is [`spec_sign_transfer`] of them. The SDK orders the accounts by
/// their keys, and an Ed25519 signature is a function of key and message.
/// The bytes of `from` must be a keypair to the SDK, or the call would panic.
/// The SDK also panics where a signer is missing; here the payer is the only
/// signer, and it signs.
#[verifier::external_body]
fn sign_transfer(from: &[u8; 64], to: &[u8; 32], lamports: u64, blockhash: &[u8; 32]) -> (signed:
    solana_sdk::transaction::Transaction)
    requires
        spec_keypair_accepted(from@),
    ensures
        signed == spec_sign_transfer(from@, to@, lamports, blockhash@),
{
    let payer = solana_sdk::signer::keypair::Keypair::from_bytes(from).unwrap();
    let to = solana_sdk::pubkey::Pubkey::new_from_array(*to);
    let transfer = solana_program::system_instruction::transfer(&payer.pubkey(), &to, lamports);
    solana_sdk::transaction::Transaction::new_signed_with_payer(
        &[transfer],
        Some(&payer.pubkey()),
        &[&payer],
        solana_sdk::hash::Hash::new_from_array(*blockhash),
    )
}

/// The address of an account: the bytes of its public key.
#[derive(Clone, Copy, Debug, PartialEq, Eq)]
pub struct Address {
    pub bytes: [u8; 32],
}

impl View for Address {
    type V = Seq<u8>;

    open spec fn view(&self) -> Seq<u8> {
        self.bytes@
    }
}

/// An address parsed from `text`, or the error for a text that is none.
pub open spec fn spec_parse_address(text: Seq<char>) -> Result<Seq<u8>, WalletErrorView> {
    match spec_parse_pubkey(text) {
        Ok(bytes) => Ok(bytes),
        Err(cause) => Err(WalletErrorView::InvalidAddress { address: text, cause }),
    }
}

impl Address {
    /// Parses the base-58 text of an address. A text that is none is refused
    /// as an invalid address, with the text and the reason.
    pub fn parse(text: &str) -> (parsed: Result<Address, WalletError>)
        ensures
            spec_checked(parsed) == spec_parse_address(text@),
    {
        match parse_pubkey(text) {
            Ok(bytes) => Ok(Address { bytes }),
            Err(cause) => Err(
                WalletError::InvalidAddress { address: text.to_owned(), cause },
            ),
        }
    }

    /// The base-58 text of the address.
    pub fn to_text(&self) -> (text: String)
        ensures
            text@ == spec_encode_pubkey(self@),
    {
        encode_pubkey(&self.bytes)
    }
}

/// A keypair: the bytes of a secret key and of its public key.
#[derive(Debug)]
pub struct Keypair {
    bytes: [u8; 64],
}

impl View for Keypair {
    type V = Seq<u8>;

    closed spec fn view(&self) -> Seq<u8> {
        self.bytes@
    }
}

/// A keypair or a message, as sequences.
pub open spec fn spec_keypair_outcome(outcome: Result<Keypair, String>) -> Result<
    Seq<u8>,
    Seq<char>,
> {
    match outcome {
        Ok(keypair) => Ok(keypair@),
        Err(cause) => Err(cause@),
    }
}

/// The address of the account that the keypair with these bytes signs for:
/// the public key, which is the second half of the bytes.
pub open spec fn spec_keypair_address(keypair: Seq<u8>) -> Seq<u8> {
    keypair.subrange(KEYPAIR_LENGTH - ADDRESS_LENGTH, KEYPAIR_LENGTH as int)
}

impl Keypair {
    #[verifier::type_invariant]
    spec fn well_formed(self) -> bool {
        spec_keypair_accepted(self.bytes@)
    }

    /// A new keypair, from the system's random source.
    pub fn generate() -> (keypair: Keypair)
        ensures
            spec_keypair_accepted(keypair@),
            keypair@.len() == KEYPAIR_LENGTH,
    {
        Keypair { bytes: new_keypair() }
    }

    /// The keypair in the contents of a keypair file, or the reason why they
    /// hold none.
    pub fn read(contents: &[u8]) -> (keypair: Result<Keypair, String>)
        ensures
            spec_keypair_outcome(keypair) == spec_read_keypair(contents@),
    {
        match read_keypair(contents) {
            Ok(bytes) => Ok(Keypair { bytes }),
            Err(cause) => Err(cause),
        }
    }

    /// The keypair with the given bytes, where they are one.
    pub fn from_bytes(bytes: [u8; 64]) -> (keypair: Option<Keypair>)
        ensures
            keypair is Some <==> spec_keypair_accepted(bytes@),
            keypair matches Some(k) ==> k@ == bytes@,
    {
        if keypair_accepted(&bytes) {
            Some(Keypair { bytes })
        } else {
            None
        }
    }

    /// The keypair's bytes: the secret key, then the public key.
    pub fn to_bytes(&self) -> (bytes: [u8; 64])
        ensures
            bytes@ == self@,
            spec_keypair_accepted(bytes@),
    {
        proof {
            use_type_invariant(self);
        }
        self.bytes
    }

    /// The address of the account that the keypair signs for: its public
    /// key, which is the second half of its bytes.
    pub fn address(&self) -> (address: Address)
        ensures
            address@ == spec_keypair_address(self@),
    {
        let mut bytes: [u8; 32] = [0u8; 32];
        let mut i: usize = 0;
        while i < ADDRESS_LENGTH
            invariant
                i <= ADDRESS_LENGTH,
                forall|j: int| 0 <= j < i ==> bytes@[j] == self.bytes@[j + ADDRESS_LENGTH],
            decreases ADDRESS_LENGTH - i,
        {
            bytes[i] = self.bytes[i + ADDRESS_LENGTH];
            i = i + 1;
        }
        assert(bytes@ =~= spec_keypair_address(self.bytes@));
        Address { bytes }
    }
}

/// A transfer between two accounts, and the transaction that makes it, signed
/// by the source.
#[derive(Debug)]
pub struct SignedTransfer {
    from: Address,
    to: Address,
    lamports: u64,
    recent_blockhash: [u8; 32],
    transaction: solana_sdk::transaction::Transaction,
}

impl SignedTransfer {
    /// The address of the source.
    pub closed spec fn spec_from(self) -> Seq<u8> {
        self.from@
    }

    /// The address of the destination.
    pub closed spec fn spec_to(self) -> Seq<u8> {
        self.to@
    }

    /// The amount.
    pub closed spec fn spec_lamports(self) -> u64 {
        self.lamports
    }

    /// The blockhash that the transaction names as recent.
    pub closed spec fn spec_recent_blockhash(self) -> Seq<u8> {
        self.recent_blockhash@
    }

    /// The transaction that makes the transfer, as the SDK built and signed
    /// it.
    pub closed spec fn spec_transaction(self) -> solana_sdk::transaction::Transaction {
        self.transaction
    }

    /// Makes and signs the transaction that transfers `lamports` from the
    /// account of `from` to `to`. The account of `from` pays the fee.
    pub fn sign(from: &Keypair, to: Address, lamports: u64, recent_blockhash: [u8; 32]) -> (signed:
        SignedTransfer)
        ensures
            signed.spec_from() == spec_keypair_address(from@),
            signed.spec_to() == to@,
            signed.spec_lamports() == lamports,
            signed.spec_recent_blockhash() == recent_blockhash@,
            signed.spec_transaction() == spec_sign_transfer(
                from@,
                to@,
                lamports,
                recent_blockhash@,
            ),
    {
        proof {
            use_type_invariant(from);
        }
        let transaction = sign_transfer(&from.bytes, &to.bytes, lamports, &recent_blockhash);
        SignedTransfer { from: from.address(), to, lamports, recent_blockhash, transaction }
    }

    /// The address of the source.
    pub fn from(&self) -> (address: Address)
        ensures
            address@ == self.spec_from(),
    {
        self.from
    }

    /// The address of the destination.
    pub fn to(&self) -> (address: Address)
        ensures
            address@ == self.spec_to(),
    {
        self.to
    }

    /// The amount.
    pub fn lamports(&self) -> (lamports: u64)
        ensures
            lamports == self.spec_lamports(),
    {
        self.lamports
    }

    /// The blockhash that the transaction names as recent.
    pub fn recent_blockhash(&self) -> (blockhash: [u8; 32])
        ensures
            blockhash@ == self.spec_recent_blockhash(),
    {
        self.recent_blockhash
    }

    /// The signed transaction: the one that was built and signed when the
    /// transfer was made, unchanged.
    pub fn transaction(&self) -> (transaction: &solana_sdk::transaction::Transaction)
        ensures
            *transaction == self.spec_transaction(),
    {
        &self.transaction
    }
}

} // verus!

//! Token-2022 accounts as the confidential-balance handlers read them, and
//! the trusted crossings into `spl-token-2022`, the associated-token-account
//! program and the authenticated-encryption key of a confidential balance.
use vstd::prelude::*;
use crate::keys::{Address, Signature};
use solana_zk_sdk::encryption::auth_encryption::{AeCiphertext, AeKey};
use solana_zk_sdk::encryption::elgamal::ElGamalPubkey;
use solana_zk_sdk::encryption::pod::auth_encryption::PodAeCiphertext;
use solana_zk_sdk::encryption::pod::elgamal::PodElGamalPubkey;
use spl_token_2022::extension::{BaseStateWithExtensions, StateWithExtensionsOwned};
use spl_token_2022::extension::confidential_transfer::{ConfidentialTransferAccount, ConfidentialTransferMint};

verus! {


/// The parts of a token account's confidential-transfer extension that the
/// handlers read, as the bytes of their encodings.
#[derive(Clone, Copy, Debug, PartialEq, Eq)]
pub struct ConfidentialAccount {
    pub elgamal_pubkey: [u8; 32],
    pub available_balance: [u8; 64],
    pub decryptable_available_balance: [u8; 36],
}

pub struct ConfidentialAccountView {
    pub elgamal_pubkey: Seq<u8>,
    pub available_balance: Seq<u8>,
    pub decryptable_available_balance: Seq<u8>,
}

impl View for ConfidentialAccount {
    type V = ConfidentialAccountView;

    open spec fn view(&self) -> ConfidentialAccountView {
        ConfidentialAccountView {
            elgamal_pubkey: self.elgamal_pubkey@,
            available_balance: self.available_balance@,
            decryptable_available_balance: self.decryptable_available_balance@,
        }
    }
}

/// What the handlers read of a token account: its mint and owner, and its
/// confidential-transfer extension where it has a readable one.
#[derive(Clone, Copy, Debug, PartialEq, Eq)]
pub struct TokenAccount {
    pub mint: Address,
    pub owner: Address,
    pub confidential: Option<ConfidentialAccount>,
}

pub struct TokenAccountView {
    pub mint: Seq<u8>,
    pub owner: Seq<u8>,
    pub confidential: Option<ConfidentialAccountView>,
}

impl View for TokenAccount {
    type V = TokenAccountView;

    open spec fn view(&self) -> TokenAccountView {
        TokenAccountView {
            mint: self.mint@,
            owner: self.owner@,
            confidential: match self.confidential {
                Some(c) => Some(c@),
                None => None,
            },
        }
    }
}

/// What `StateWithExtensionsOwned::<Account>::unpack` reads from account
/// data (with the extension that `get_extension::<ConfidentialTransferAccount>`
/// then finds, if any), or `None` where it refuses the data.
pub uninterp spec fn unpacked_token_account(data: Seq<u8>) -> Option<TokenAccountView>;

/// What mint data gives as its auditor ElGamal key: `None` where it does not
/// unpack as a mint with a confidential-transfer extension, `Some(None)`
/// where the mint has no auditor, else the key's bytes.
pub uninterp spec fn mint_auditor_key(data: Seq<u8>) -> Option<Option<Seq<u8>>>;

/// Whether 32 bytes decode as an ElGamal public key.
pub uninterp spec fn elgamal_pubkey_valid(bytes: Seq<u8>) -> bool;

/// The associated token account address of a wallet for a mint under a
/// token program, as `get_associated_token_address_with_program_id` derives it.
pub uninterp spec fn associated_token_address(wallet: Seq<u8>, mint: Seq<u8>, token_program: Seq<u8>) -> Seq<u8>;

/// The bytes of the authenticated-encryption key that
/// `AeKey::new_from_signature` derives from a signature, or `None` where it
/// reports an error.
pub uninterp spec fn ae_key_of(signature: Seq<u8>) -> Option<Seq<u8>>;

/// What a 36-byte authenticated ciphertext decrypts to under a key; `None`
/// where the ciphertext does not decode or does not decrypt.
pub uninterp spec fn ae_decrypted(key: Seq<u8>, ciphertext: Seq<u8>) -> Option<u64>;

/// Reads a token account and its confidential-transfer extension.
///
/// Trusted: calls `StateWithExtensionsOwned::<spl_token_2022::state::Account>
/// ::unpack`, then `get_extension::<ConfidentialTransferAccount>` (an error of
/// which leaves the extension out), and claims only that the result is the
/// named one.
#[verifier::external_body]
pub fn unpack_token_account(data: Vec<u8>) -> (res: Option<TokenAccount>)
    ensures
        res matches Some(a) ==> unpacked_token_account(data@) == Some(a@),
        res is None ==> unpacked_token_account(data@) is None,
{
    let state = StateWithExtensionsOwned::<spl_token_2022::state::Account>::unpack(data).ok()?;
    let confidential = state.get_extension::<ConfidentialTransferAccount>().ok().map(|ext| ConfidentialAccount {
        elgamal_pubkey: bytemuck::bytes_of(&ext.elgamal_pubkey).try_into().unwrap(),
        available_balance: bytemuck::bytes_of(&ext.available_balance).try_into().unwrap(),
        decryptable_available_balance: bytemuck::bytes_of(&ext.decryptable_available_balance).try_into().unwrap(),
    });
    let (mint, owner) = (state.base.mint.to_bytes(), state.base.owner.to_bytes());
    Some(TokenAccount { mint: Address { bytes: mint }, owner: Address { bytes: owner }, confidential })
}

/// Reads the auditor ElGamal key of a mint.
///
/// Trusted: calls `StateWithExtensionsOwned::<Mint>::unpack`, then
/// `get_extension::<ConfidentialTransferMint>` and
/// `Option::<PodElGamalPubkey>::from` on its auditor key; claims only that
/// the result is the named one.
#[verifier::external_body]
pub fn read_mint_auditor_key(data: Vec<u8>) -> (res: Option<Option<[u8; 32]>>)
    ensures
        match res {
            None => mint_auditor_key(data@) is None,
            Some(None) => mint_auditor_key(data@) == Some(None::<Seq<u8>>),
            Some(Some(k)) => mint_auditor_key(data@) == Some(Some(k@)),
        },
{
    let state = StateWithExtensionsOwned::<spl_token_2022::state::Mint>::unpack(data).ok()?;
    let ext = state.get_extension::<ConfidentialTransferMint>().ok()?;
    let auditor = Option::<PodElGamalPubkey>::from(ext.auditor_elgamal_pubkey);
    Some(auditor.map(|pod| bytemuck::bytes_of(&pod).try_into().unwrap()))
}

/// Checks that 32 bytes decode as an ElGamal public key.
///
/// Trusted: calls `ElGamalPubkey::try_from(PodElGamalPubkey)` and claims only
/// that the answer is the named one.
#[verifier::external_body]
pub fn elgamal_pubkey_decodes(bytes: &[u8; 32]) -> (res: bool)
    ensures
        res == elgamal_pubkey_valid(bytes@),
{
    ElGamalPubkey::try_from(PodElGamalPubkey::from(*bytes)).is_ok()
}

/// The associated token account of a wallet for a mint.
///
/// Trusted: calls `get_associated_token_address_with_program_id` and claims
/// only that the result is the named address.
#[verifier::external_body]
pub fn associated_token_account(wallet: &Address, mint: &Address, token_program: &Address) -> (res: Address)
    ensures
        res@ == associated_token_address(wallet@, mint@, token_program@),
{
    let w = solana_sdk::pubkey::Pubkey::new_from_array(wallet.bytes);
    let m = solana_sdk::pubkey::Pubkey::new_from_array(mint.bytes);
    let p = solana_sdk::pubkey::Pubkey::new_from_array(token_program.bytes);
    let ata = spl_associated_token_account::get_associated_token_address_with_program_id(&w, &m, &p);
    Address { bytes: ata.to_bytes() }
}

/// Derives an authenticated-encryption key from a signature.
///
/// Trusted: calls `AeKey::new_from_signature` and claims only that the key's
/// bytes are the named ones.
#[verifier::external_body]
pub fn ae_key_from_signature(signature: &Signature) -> (res: Option<[u8; 16]>)
    ensures
        res matches Some(k) ==> ae_key_of(signature@) == Some(k@),
        res is None ==> ae_key_of(signature@) is None,
{
    let sig = solana_sdk::signature::Signature::from(signature.bytes);
    AeKey::new_from_signature(&sig).ok().map(<[u8; 16]>::from)
}

/// Decrypts a decryptable balance with an authenticated-encryption key.
///
/// Trusted: reads the key (`AeKey::from`) and the ciphertext
/// (`AeCiphertext::try_from(PodAeCiphertext)`), then calls `AeKey::decrypt`;
/// claims only that the result is the named one.
#[verifier::external_body]
pub fn ae_decrypt(key: &[u8; 16], ciphertext: &[u8; 36]) -> (res: Option<u64>)
    ensures
        res == ae_decrypted(key@, ciphertext@),
{
    let ct = AeCiphertext::try_from(PodAeCiphertext::from(*ciphertext)).ok()?;
    AeKey::from(*key).decrypt(&ct)
}

} // verus!

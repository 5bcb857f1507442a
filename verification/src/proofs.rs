//! Zero-knowledge proof accounts of a split confidential transfer: proof
//! generation, the instructions that create, verify into and close proof
//! context accounts, and the keypairs of those accounts.
use vstd::prelude::*;
use crate::keys::{Address, Signature};
use crate::wire::{AccountMetaView, Instruction, InstructionView, MessageV0, le_bytes, to_sdk_message, to_sdk_pubkey, from_sdk_instruction};
use crate::token::{ae_decrypted, elgamal_pubkey_valid};
use crate::audit::{elgamal_ciphertext_valid, elgamal_decrypted_u32, elgamal_keypair_decodes, elgamal_keypair_of};
use crate::wire::{MessageV0View, message_fits_short_vecs};
use solana_sdk::signer::keypair::Keypair;
use solana_sdk::signer::Signer;
use solana_zk_sdk::encryption::auth_encryption::AeKey;
use solana_zk_sdk::encryption::elgamal::{ElGamalKeypair, ElGamalPubkey};
use solana_zk_sdk::encryption::pod::auth_encryption::PodAeCiphertext;
use solana_zk_sdk::encryption::pod::elgamal::{PodElGamalCiphertext, PodElGamalPubkey};
use solana_zk_sdk::zk_elgamal_proof_program::instruction::{close_context_state, ContextStateInfo, ProofInstruction};
use solana_zk_sdk::zk_elgamal_proof_program::proof_data::{
    BatchedGroupedCiphertext3HandlesValidityProofContext, BatchedGroupedCiphertext3HandlesValidityProofData,
    BatchedRangeProofContext, BatchedRangeProofU128Data, CiphertextCommitmentEqualityProofContext,
    CiphertextCommitmentEqualityProofData,
};
use solana_zk_sdk::zk_elgamal_proof_program::state::ProofContextState;
use spl_token_2022::extension::confidential_transfer::account_info::TransferAccountInfo;
use spl_token_confidential_transfer_proof_generation::transfer::TransferProofData;

verus! {

/// Instruction code (and proof kind) of `VerifyCiphertextCommitmentEquality`.
pub const EQUALITY_PROOF: u8 = 3;

/// Instruction code (and proof kind) of `VerifyBatchedRangeProofU128`.
pub const RANGE_PROOF: u8 = 7;

/// Instruction code (and proof kind) of
/// `VerifyBatchedGroupedCiphertext3HandlesValidity`.
pub const CIPHERTEXT_VALIDITY_PROOF: u8 = 12;

/// Instruction code of `CloseContextState`.
pub const CLOSE_CONTEXT_STATE: u8 = 0;

/// Whether `kind` is one of the three proofs of a split transfer.
pub open spec fn is_transfer_proof_kind(kind: u8) -> bool {
    kind == EQUALITY_PROOF || kind == RANGE_PROOF || kind == CIPHERTEXT_VALIDITY_PROOF
}

/// The bytes of the zk-elgamal-proof program's address
/// (`ZkE1Gama1Proof11111111111111111111111111111`).
pub open spec fn zk_proof_program_id_bytes() -> Seq<u8> {
    seq![8u8, 99, 117, 172, 226, 174, 234, 40, 26, 107, 55, 77, 104, 27, 167, 106,
        83, 204, 246, 56, 192, 116, 85, 147, 108, 5, 208, 101, 64, 0, 0, 0]
}

/// The bytes of the system program's address (all zero).
pub open spec fn system_program_id_bytes() -> Seq<u8> {
    Seq::new(32, |_i: int| 0u8)
}

/// The size of the proof data of a proof kind (its `Pod` proof-data type):
/// the context followed by the proof. Equality: a 128-byte context and a
/// 192-byte proof; ciphertext validity: 352 and 192; range over 128 bits:
/// 264 and 736.
pub open spec fn proof_data_len(kind: u8) -> nat {
    if kind == EQUALITY_PROOF {
        320
    } else if kind == CIPHERTEXT_VALIDITY_PROOF {
        544
    } else if kind == RANGE_PROOF {
        1000
    } else {
        0
    }
}

/// The size of a proof context account of a proof kind:
/// `size_of::<ProofContextState<C>>()` for the kind's context type `C`, that
/// is a 32-byte authority, a one-byte proof type and the context.
pub open spec fn proof_context_space(kind: u8) -> nat {
    if kind == EQUALITY_PROOF {
        161
    } else if kind == CIPHERTEXT_VALIDITY_PROOF {
        385
    } else if kind == RANGE_PROOF {
        297
    } else {
        0
    }
}

/// The size of `ProofContextState<D>` for the kind's proof-data type `D`: a
/// 32-byte authority, a one-byte proof type and the proof data.
pub open spec fn proof_data_context_space(kind: u8) -> nat {
    33 + proof_data_len(kind)
}

/// The size of an equality proof context account.
///
/// Trusted: returns `size_of::<ProofContextState<CiphertextCommitmentEqualityProofContext>>()`.
#[verifier::external_body]
pub fn equality_context_state_size() -> (size: usize)
    ensures
        size as nat == proof_context_space(EQUALITY_PROOF),
{
    std::mem::size_of::<ProofContextState<CiphertextCommitmentEqualityProofContext>>()
}

/// The size of a range proof context account.
///
/// Trusted: returns `size_of::<ProofContextState<BatchedRangeProofContext>>()`.
#[verifier::external_body]
pub fn range_context_state_size() -> (size: usize)
    ensures
        size as nat == proof_context_space(RANGE_PROOF),
{
    std::mem::size_of::<ProofContextState<BatchedRangeProofContext>>()
}

/// The size of a ciphertext-validity proof context account.
///
/// Trusted: returns
/// `size_of::<ProofContextState<BatchedGroupedCiphertext3HandlesValidityProofContext>>()`.
#[verifier::external_body]
pub fn validity_context_state_size() -> (size: usize)
    ensures
        size as nat == proof_context_space(CIPHERTEXT_VALIDITY_PROOF),
{
    std::mem::size_of::<ProofContextState<BatchedGroupedCiphertext3HandlesValidityProofContext>>()
}

/// The size of a proof context state over the range proof's data type.
///
/// Trusted: returns `size_of::<ProofContextState<BatchedRangeProofU128Data>>()`.
#[verifier::external_body]
pub fn range_data_context_state_size() -> (size: usize)
    ensures
        size as nat == proof_data_context_space(RANGE_PROOF),
{
    std::mem::size_of::<ProofContextState<BatchedRangeProofU128Data>>()
}

/// The size of a kind's proof context account.
pub fn proof_context_state_size(kind: u8) -> (size: usize)
    requires
        is_transfer_proof_kind(kind),
    ensures
        size as nat == proof_context_space(kind),
{
    if kind == EQUALITY_PROOF {
        equality_context_state_size()
    } else if kind == RANGE_PROOF {
        range_context_state_size()
    } else {
        validity_context_state_size()
    }
}

/// The system program's `CreateAccount` instruction: the funder and the new
/// account sign and are writable; the data is the bincode encoding of
/// `SystemInstruction::CreateAccount`, variant 0 in four bytes, then lamports
/// and space in eight little-endian bytes each, then the owner.
pub open spec fn create_account_view(from: Seq<u8>, to: Seq<u8>, lamports: u64, space: u64, owner: Seq<u8>) -> InstructionView {
    InstructionView {
        program_id: system_program_id_bytes(),
        accounts: seq![
            AccountMetaView { pubkey: from, is_signer: true, is_writable: true },
            AccountMetaView { pubkey: to, is_signer: true, is_writable: true },
        ],
        data: seq![0u8, 0u8, 0u8, 0u8] + le_bytes(lamports as nat, 8) + le_bytes(space as nat, 8) + owner,
    }
}

/// A verify-proof instruction that stores its context in a context account:
/// the context account (writable) and its authority (read-only), and the
/// data the kind's instruction code followed by the proof data.
pub open spec fn verify_proof_view(kind: u8, context_account: Seq<u8>, authority: Seq<u8>, proof: Seq<u8>) -> InstructionView {
    InstructionView {
        program_id: zk_proof_program_id_bytes(),
        accounts: seq![
            AccountMetaView { pubkey: context_account, is_signer: false, is_writable: true },
            AccountMetaView { pubkey: authority, is_signer: false, is_writable: false },
        ],
        data: seq![kind] + proof,
    }
}

/// The instruction that closes a proof context account: the account and the
/// lamport destination (writable), then the authority (a read-only signer).
pub open spec fn close_context_view(context_account: Seq<u8>, authority: Seq<u8>, destination: Seq<u8>) -> InstructionView {
    InstructionView {
        program_id: zk_proof_program_id_bytes(),
        accounts: seq![
            AccountMetaView { pubkey: context_account, is_signer: false, is_writable: true },
            AccountMetaView { pubkey: destination, is_signer: false, is_writable: true },
            AccountMetaView { pubkey: authority, is_signer: true, is_writable: false },
        ],
        data: seq![CLOSE_CONTEXT_STATE],
    }
}

/// Builds a system `CreateAccount` instruction.
///
/// Trusted: calls `solana_sdk::system_instruction::create_account`, whose
/// source builds the instruction that `create_account_view` states.
#[verifier::external_body]
pub fn create_account_instruction(from: &Address, to: &Address, lamports: u64, space: u64, owner: &Address) -> (ix: Instruction)
    ensures
        ix@ == create_account_view(from@, to@, lamports, space, owner@),
{
    from_sdk_instruction(solana_sdk::system_instruction::create_account(
        &to_sdk_pubkey(from), &to_sdk_pubkey(to), lamports, space, &to_sdk_pubkey(owner)))
}

/// Builds the instruction that verifies equality proof data into a context
/// account.
///
/// Trusted: reads the bytes as `CiphertextCommitmentEqualityProofData` and
/// calls `ProofInstruction::VerifyCiphertextCommitmentEquality
/// .encode_verify_proof` with a context state account, whose source builds
/// the instruction that `verify_proof_view` states.
#[verifier::external_body]
pub fn equality_verify_instruction(context_account: &Address, authority: &Address, proof: &Vec<u8>) -> (ix: Instruction)
    requires
        proof@.len() == proof_data_len(EQUALITY_PROOF),
    ensures
        ix@ == verify_proof_view(EQUALITY_PROOF, context_account@, authority@, proof@),
{
    let (account, auth) = (to_sdk_pubkey(context_account), to_sdk_pubkey(authority));
    let info = Some(ContextStateInfo { context_state_account: &account, context_state_authority: &auth });
    let data = bytemuck::from_bytes::<CiphertextCommitmentEqualityProofData>(proof);
    from_sdk_instruction(ProofInstruction::VerifyCiphertextCommitmentEquality.encode_verify_proof(info, data))
}

/// Builds the instruction that verifies range proof data into a context
/// account.
///
/// Trusted: reads the bytes as `BatchedRangeProofU128Data` and calls
/// `ProofInstruction::VerifyBatchedRangeProofU128.encode_verify_proof` with a
/// context state account, whose source builds the instruction that
/// `verify_proof_view` states.
#[verifier::external_body]
pub fn range_verify_instruction(context_account: &Address, authority: &Address, proof: &Vec<u8>) -> (ix: Instruction)
    requires
        proof@.len() == proof_data_len(RANGE_PROOF),
    ensures
        ix@ == verify_proof_view(RANGE_PROOF, context_account@, authority@, proof@),
{
    let (account, auth) = (to_sdk_pubkey(context_account), to_sdk_pubkey(authority));
    let info = Some(ContextStateInfo { context_state_account: &account, context_state_authority: &auth });
    let data = bytemuck::from_bytes::<BatchedRangeProofU128Data>(proof);
    from_sdk_instruction(ProofInstruction::VerifyBatchedRangeProofU128.encode_verify_proof(info, data))
}

/// Builds the instruction that verifies ciphertext-validity proof data into a
/// context account.
///
/// Trusted: reads the bytes as
/// `BatchedGroupedCiphertext3HandlesValidityProofData` and calls
/// `ProofInstruction::VerifyBatchedGroupedCiphertext3HandlesValidity
/// .encode_verify_proof` with a context state account, whose source builds
/// the instruction that `verify_proof_view` states.
#[verifier::external_body]
pub fn validity_verify_instruction(context_account: &Address, authority: &Address, proof: &Vec<u8>) -> (ix: Instruction)
    requires
        proof@.len() == proof_data_len(CIPHERTEXT_VALIDITY_PROOF),
    ensures
        ix@ == verify_proof_view(CIPHERTEXT_VALIDITY_PROOF, context_account@, authority@, proof@),
{
    let (account, auth) = (to_sdk_pubkey(context_account), to_sdk_pubkey(authority));
    let info = Some(ContextStateInfo { context_state_account: &account, context_state_authority: &auth });
    let data = bytemuck::from_bytes::<BatchedGroupedCiphertext3HandlesValidityProofData>(proof);
    from_sdk_instruction(ProofInstruction::VerifyBatchedGroupedCiphertext3HandlesValidity.encode_verify_proof(info, data))
}

/// Builds the instruction that verifies a kind's proof data into a context
/// account.
pub fn verify_proof_instruction(kind: u8, context_account: &Address, authority: &Address, proof: &Vec<u8>) -> (ix: Instruction)
    requires
        is_transfer_proof_kind(kind),
        proof@.len() == proof_data_len(kind),
    ensures
        ix@ == verify_proof_view(kind, context_account@, authority@, proof@),
{
    if kind == EQUALITY_PROOF {
        equality_verify_instruction(context_account, authority, proof)
    } else if kind == RANGE_PROOF {
        range_verify_instruction(context_account, authority, proof)
    } else {
        validity_verify_instruction(context_account, authority, proof)
    }
}

/// Builds the instruction that closes a proof context account.
///
/// Trusted: calls `zk_elgamal_proof_program::instruction::close_context_state`,
/// whose source builds the instruction that `close_context_view` states.
#[verifier::external_body]
pub fn close_context_instruction(context_account: &Address, authority: &Address, destination: &Address) -> (ix: Instruction)
    ensures
        ix@ == close_context_view(context_account@, authority@, destination@),
{
    let (account, auth) = (to_sdk_pubkey(context_account), to_sdk_pubkey(authority));
    let info = ContextStateInfo { context_state_account: &account, context_state_authority: &auth };
    from_sdk_instruction(close_context_state(info, &to_sdk_pubkey(destination)))
}

/// Builds the two instructions that prepare a proof context account: one
/// that creates it, funded by `payer` with `rent` lamports and sized for the
/// kind's context, owned by the proof program; and one that verifies the
/// proof into it.
pub fn proof_context_state_instructions(
    payer: &Address,
    context_account: &Address,
    authority: &Address,
    kind: u8,
    proof: &Vec<u8>,
    rent: u64,
) -> (res: (Instruction, Instruction))
    requires
        is_transfer_proof_kind(kind),
        proof@.len() == proof_data_len(kind),
    ensures
        res.0@ == create_account_view(payer@, context_account@, rent, proof_context_space(kind) as u64,
            zk_proof_program_id_bytes()),
        res.1@ == verify_proof_view(kind, context_account@, authority@, proof@),
{
    let space = proof_context_state_size(kind) as u64;
    let owner = zk_proof_program_id();
    let create = create_account_instruction(payer, context_account, rent, space, &owner);
    let verify = verify_proof_instruction(kind, context_account, authority, proof);
    (create, verify)
}

/// The zk-elgamal-proof program's address.
///
/// Trusted: calls `zk_elgamal_proof_program::id()`, which the source declares
/// as `ZkE1Gama1Proof11111111111111111111111111111`, whose bytes are stated.
#[verifier::external_body]
pub fn zk_proof_program_id() -> (id: Address)
    ensures
        id@ == zk_proof_program_id_bytes(),
{
    Address { bytes: solana_zk_sdk::zk_elgamal_proof_program::id().to_bytes() }
}

/// The proof data of a split transfer, as the bytes of its `Pod` encodings,
/// with the transfer amount's halves encrypted for the auditor.
#[derive(Clone, Debug, PartialEq, Eq)]
pub struct TransferProofs {
    pub equality: Vec<u8>,
    pub ciphertext_validity: Vec<u8>,
    pub ciphertext_lo: [u8; 64],
    pub ciphertext_hi: [u8; 64],
    pub range: Vec<u8>,
}

/// The SDK's split transfer proof data (a conversion input; opaque).
#[verifier::external_type_specification]
#[verifier::external_body]
pub struct ExTransferProofData(TransferProofData);

/// The SDK's keypair (opaque).
#[verifier::external_type_specification]
#[verifier::external_body]
pub struct ExKeypair(Keypair);

/// Converts generated proof data to its bytes (a conversion; states nothing).
#[verifier::external_body]
pub(crate) fn proofs_from_sdk(p: TransferProofData) -> TransferProofs {
    let validity = &p.ciphertext_validity_proof_data_with_ciphertext;
    TransferProofs {
        equality: bytemuck::bytes_of(&p.equality_proof_data).to_vec(),
        ciphertext_validity: bytemuck::bytes_of(&validity.proof_data).to_vec(),
        ciphertext_lo: bytemuck::bytes_of(&validity.ciphertext_lo).try_into().unwrap(),
        ciphertext_hi: bytemuck::bytes_of(&validity.ciphertext_hi).try_into().unwrap(),
        range: bytemuck::bytes_of(&p.range_proof_data).to_vec(),
    }
}

/// Reads an ElGamal public key that decodes (a conversion; states nothing).
#[verifier::external_body]
pub(crate) fn to_elgamal_pubkey(bytes: &[u8; 32]) -> ElGamalPubkey
    requires
        elgamal_pubkey_valid(bytes@),
{
    ElGamalPubkey::try_from(PodElGamalPubkey::from(*bytes)).unwrap()
}

/// The SDK's ElGamal public key type (opaque).
#[verifier::external_type_specification]
#[verifier::external_body]
pub struct ExElGamalPubkey(ElGamalPubkey);

/// The SDK's split-proof account information (opaque).
#[verifier::external_type_specification]
#[verifier::external_body]
pub struct ExTransferAccountInfo(TransferAccountInfo);

/// Builds the proof-side view of a sender's confidential account (a
/// conversion; states nothing).
#[verifier::external_body]
pub(crate) fn transfer_account_info(available_balance: &[u8; 64], decryptable_available_balance: &[u8; 36]) -> TransferAccountInfo {
    TransferAccountInfo {
        available_balance: PodElGamalCiphertext::from(*available_balance),
        decryptable_available_balance: PodAeCiphertext::from(*decryptable_available_balance),
    }
}

/// Whether a signature derives an ElGamal keypair whose public key has the
/// given bytes.
pub open spec fn derives_keypair_for(signature: Seq<u8>, pubkey: Seq<u8>) -> bool {
    elgamal_keypair_of(signature) matches Some(kp) && kp.subrange(0, 32) == pubkey
}

/// Whether two ciphertexts encrypt the low 16 bits and the higher bits of
/// `amount` for the auditor, when there is one: every keypair derived for the
/// auditor's public key decrypts the low ciphertext to the low bits, and,
/// where the higher bits fit in 32 bits, the high one to the higher bits.
pub open spec fn encrypts_amount_for_auditor(amount: u64, auditor: Option<Seq<u8>>, lo: Seq<u8>, hi: Seq<u8>) -> bool {
    auditor matches Some(k) ==> forall|sig: Seq<u8>| #[trigger] derives_keypair_for(sig, k) ==> {
        &&& elgamal_decrypted_u32(elgamal_keypair_of(sig)->0, lo) == Some((amount % 65536) as u64)
        &&& (amount < 0x1_0000_0000_0000 ==> elgamal_decrypted_u32(elgamal_keypair_of(sig)->0, hi) == Some(
            (amount / 65536) as u64))
    }
}

/// What every proof generation for a transfer of `amount` gives: proof data
/// of the sizes of their types, and two valid auditor ciphertexts that
/// encrypt the amount's halves for the auditor.
pub open spec fn transfer_proofs_fit(
    amount: u64,
    auditor: Option<Seq<u8>>,
    equality: Seq<u8>,
    ciphertext_validity: Seq<u8>,
    ciphertext_lo: Seq<u8>,
    ciphertext_hi: Seq<u8>,
    range: Seq<u8>,
) -> bool {
    &&& equality.len() == proof_data_len(EQUALITY_PROOF)
    &&& ciphertext_validity.len() == proof_data_len(CIPHERTEXT_VALIDITY_PROOF)
    &&& range.len() == proof_data_len(RANGE_PROOF)
    &&& ciphertext_lo.len() == 64
    &&& ciphertext_hi.len() == 64
    &&& elgamal_ciphertext_valid(ciphertext_lo)
    &&& elgamal_ciphertext_valid(ciphertext_hi)
    &&& encrypts_amount_for_auditor(amount, auditor, ciphertext_lo, ciphertext_hi)
}

/// Whether the proofs of a transfer of `amount` can be generated from a
/// sender's account: the available balance is a valid ciphertext, the
/// keypair reads back, and the decryptable balance decrypts to at least the
/// amount.
pub open spec fn transfer_proofs_succeed(
    amount: u64,
    available_balance: Seq<u8>,
    decryptable_available_balance: Seq<u8>,
    elgamal_keypair: Seq<u8>,
    aes_key: Seq<u8>,
) -> bool {
    &&& elgamal_ciphertext_valid(available_balance)
    &&& elgamal_keypair_decodes(elgamal_keypair)
    &&& ae_decrypted(aes_key, decryptable_available_balance) matches Some(c)
    &&& amount <= c
}

/// The auditor key of a transfer as a plain value.
pub open spec fn auditor_view(auditor: Option<[u8; 32]>) -> Option<Seq<u8>> {
    match auditor {
        Some(k) => Some(k@),
        None => None,
    }
}

/// Generates the equality, ciphertext-validity and range proofs of a split
/// transfer of `amount` from a sender's available balance.
///
/// Trusted: reads the keypair (`ElGamalKeypair::try_from`), the key and the
/// public keys, and calls `TransferAccountInfo::
/// generate_split_transfer_proof_data`. Proof generation draws random
/// openings, so the proof bytes are not named. What the source shows of every
/// outcome is stated: it refuses exactly an available balance that is not a
/// ciphertext, a keypair that does not read back, and a decryptable balance
/// that does not decrypt or is below the amount (it splits any `u64` amount
/// without refusing it); each proof has the size of its `Pod` type; the
/// auditor ciphertexts are the auditor's parts of the grouped encryptions of
/// the low 16 and the higher bits of the amount, which decrypt under the
/// auditor's secret key to those bits (`decode_u32` finds values below 2^32).
/// The source also refuses a Pedersen commitment that is the identity point,
/// which a uniformly random opening gives with probability about 2^-252; that
/// outcome is not counted.
#[verifier::external_body]
pub fn generate_transfer_proofs(
    amount: u64,
    available_balance: &[u8; 64],
    decryptable_available_balance: &[u8; 36],
    elgamal_keypair: &[u8; 64],
    aes_key: &[u8; 16],
    recipient_elgamal_pubkey: &[u8; 32],
    auditor_elgamal_pubkey: &Option<[u8; 32]>,
) -> (res: Option<TransferProofs>)
    requires
        elgamal_pubkey_valid(recipient_elgamal_pubkey@),
        auditor_elgamal_pubkey matches Some(k) ==> elgamal_pubkey_valid(k@),
    ensures
        res is Some <==> transfer_proofs_succeed(amount, available_balance@, decryptable_available_balance@,
            elgamal_keypair@, aes_key@),
        res matches Some(p) ==> transfer_proofs_fit(amount, auditor_view(*auditor_elgamal_pubkey), p.equality@,
            p.ciphertext_validity@, p.ciphertext_lo@, p.ciphertext_hi@, p.range@),
{
    let keypair = ElGamalKeypair::try_from(&elgamal_keypair[..]).ok()?;
    let info = transfer_account_info(available_balance, decryptable_available_balance);
    let auditor = auditor_elgamal_pubkey.as_ref().map(to_elgamal_pubkey);
    info.generate_split_transfer_proof_data(amount, &keypair, &AeKey::from(*aes_key),
        &to_elgamal_pubkey(recipient_elgamal_pubkey), auditor.as_ref()).ok().map(proofs_from_sdk)
}

/// The sender's new decryptable available balance after sending `amount`:
/// the current one decrypted, reduced by `amount` and encrypted again.
///
/// Trusted: calls `TransferAccountInfo::new_decryptable_available_balance`
/// with the key. Encryption draws a random nonce,
/// so the bytes are not named; the source fails exactly where the current
/// balance does not decrypt or is below `amount`, and what it returns
/// decrypts to the reduced balance.
#[verifier::external_body]
pub fn new_decryptable_balance(
    amount: u64,
    available_balance: &[u8; 64],
    decryptable_available_balance: &[u8; 36],
    aes_key: &[u8; 16],
) -> (res: Option<[u8; 36]>)
    ensures
        res is Some <==> (ae_decrypted(aes_key@, decryptable_available_balance@) matches Some(c) && c >= amount),
        res matches Some(b) ==> ae_decrypted(aes_key@, b@)
            == Some((ae_decrypted(aes_key@, decryptable_available_balance@)->0 - amount) as u64),
{
    let info = transfer_account_info(available_balance, decryptable_available_balance);
    let balance = info.new_decryptable_available_balance(amount, &AeKey::from(*aes_key)).ok()?;
    Some(bytemuck::bytes_of(&PodAeCiphertext::from(balance)).try_into().unwrap())
}

/// A freshly generated keypair for a proof context account, with its address.
pub struct ContextAccount {
    keypair: Keypair,
    address: Address,
}

impl View for ContextAccount {
    type V = Seq<u8>;

    /// The account's address: its keypair's public key.
    closed spec fn view(&self) -> Seq<u8> {
        self.address@
    }
}

impl ContextAccount {
    /// The account's address.
    pub fn address(&self) -> (a: Address)
        ensures
            a@ == self@,
    {
        self.address
    }
}

/// Generates a keypair for a proof context account.
///
/// Trusted: calls `Keypair::new`, which draws a random key; nothing is
/// promised of it.
#[verifier::external_body]
pub fn new_context_account() -> (account: ContextAccount) {
    let keypair = Keypair::new();
    let address = Address { bytes: keypair.pubkey().to_bytes() };
    ContextAccount { keypair, address }
}

/// Whether signing a message with the payer and three context accounts
/// succeeds: the message asks for exactly four signatures, and each of its
/// first four keys is one of the four signers.
pub open spec fn signing_succeeds(m: MessageV0View, payer: Seq<u8>, range: Seq<u8>, equality: Seq<u8>, validity: Seq<u8>) -> bool {
    &&& m.header.num_required_signatures == 4
    &&& m.account_keys.len() >= 4
    &&& forall|i: int| 0 <= i < 4 ==> {
        let k = #[trigger] m.account_keys[i];
        k == payer || k == range || k == equality || k == validity
    }
}

/// The all-zero signature that `NullSigner` gives.
pub open spec fn null_signature() -> Seq<u8> {
    Seq::new(64, |_i: int| 0u8)
}

/// Whether `signature` is a valid ed25519 signature by `pubkey` of the wire
/// bytes of a version-0 message (`VersionedMessage::serialize`), as
/// `Signature::verify` decides.
pub uninterp spec fn signature_verifies(pubkey: Seq<u8>, message: MessageV0View, signature: Seq<u8>) -> bool;

/// Signs the message that creates the proof context accounts: the payer's
/// signature is left all-zero (its wallet signs later) and the three context
/// accounts sign.
///
/// Trusted: calls `VersionedTransaction::try_new` with a `NullSigner` for the
/// payer and the range, equality and validity keypairs, in that order. The
/// source succeeds exactly when the message requires as many signatures as
/// there are signers (four) and finds each of its required signer keys among
/// them; it then gives one signature per required signer, taken from the
/// first signer with that key, and `NullSigner` signs with all-zero bytes.
/// A keypair's ed25519 signature of the message's wire bytes verifies under
/// its public key; its bytes depend on the random key and are not named.
/// Signing first writes the message with `bincode::serialize(..).unwrap()`,
/// which panics where a list does not fit its short-vector length prefix, so
/// the message is required to fit.
#[verifier::external_body]
pub fn sign_with_context_accounts(
    message: &MessageV0,
    payer: &Address,
    range: &ContextAccount,
    equality: &ContextAccount,
    ciphertext_validity: &ContextAccount,
) -> (res: Option<Vec<Signature>>)
    requires
        message_fits_short_vecs(message@),
    ensures
        res is Some <==> signing_succeeds(message@, payer@, range@, equality@,
            ciphertext_validity@),
        res matches Some(sigs) ==> sigs@.len() == 4 && forall|i: int| 0 <= i < 4 && message@.account_keys[i] == payer@
            ==> (#[trigger] sigs@[i])@ == null_signature(),
        res matches Some(sigs) ==> forall|i: int| 0 <= i < 4 && message@.account_keys[i] != payer@
            ==> signature_verifies(message@.account_keys[i], message@, (#[trigger] sigs@[i])@),
{
    let null = solana_sdk::signer::null_signer::NullSigner::new(&to_sdk_pubkey(payer));
    let signers: [&dyn Signer; 4] = [&null, &range.keypair, &equality.keypair, &ciphertext_validity.keypair];
    let message = solana_sdk::message::VersionedMessage::V0(to_sdk_message(message));
    let tx = solana_sdk::transaction::VersionedTransaction::try_new(message, &signers).ok()?;
    Some(tx.signatures.iter().map(|s| Signature { bytes: (*s).into() }).collect())
}

} // verus!

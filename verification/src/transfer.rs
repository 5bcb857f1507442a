//! Building the five transactions of a confidential transfer with split
//! proofs: proof account setup, range proof, the other two proofs, the
//! transfer itself, and closing the proof accounts.
use vstd::prelude::*;
use vstd::utf8::encode_utf8;
use crate::error::AppError;
use crate::keys::{Address, BlockHash, Signature, hash_from_str, address_text, parse_latest_blockhash, signature_from_bytes};
use crate::codec::{base64_decode, base64_decoded, base64_encode, base64_encoded, parse_u64, u64_from_decimal};
use crate::wire::{
    AccountMetaView, Instruction, InstructionView, MessageV0, MessageV0View, compile_v0_message,
    compiled_v0_message, instructions_view, le_bytes, placeholder_signatures, placeholder_signatures_view,
    serialize_transaction, serialized_transaction, signatures_view, to_sdk_pubkey, from_sdk_instruction,
    DecodedTransactionView, decoded_transaction, compiled_message_for, compiles_instruction, is_signer_key, lemma_key_mentions_bound, lemma_compiled_fits, lemma_le_bytes_len, fits_short_vecs,
};
use crate::audit::{
    token_2022_id_bytes, token_2022_program_id, elgamal_keypair_of, elgamal_keypair_from_signature,
    elgamal_ciphertext_valid, spec_extract_confidential_transfer, TransferCiphertextsView,
    CONFIDENTIAL_TRANSFER_EXTENSION_TAG, elgamal_keypair_decodes, spec_audit_transaction, AuditReportView,
};
use crate::proofs::{
    ContextAccount, TransferProofs, close_context_instruction, close_context_view, create_account_view,
    generate_transfer_proofs, new_context_account, new_decryptable_balance, proof_context_space,
    proof_context_state_instructions, proof_data_len, sign_with_context_accounts, verify_proof_view,
    zk_proof_program_id_bytes, CIPHERTEXT_VALIDITY_PROOF, EQUALITY_PROOF, RANGE_PROOF, auditor_view,
    derives_keypair_for, null_signature, signing_succeeds, signature_verifies, transfer_proofs_fit, transfer_proofs_succeed,
};
use crate::token::{
    ae_decrypted, ConfidentialAccount, ConfidentialAccountView, ae_key_of, ae_key_from_signature,
    associated_token_account, associated_token_address, elgamal_pubkey_decodes,
    elgamal_pubkey_valid, mint_auditor_key, read_mint_auditor_key, TokenAccountView,
    unpack_token_account, unpacked_token_account,
};
use crate::laws::{law_audit_reads_transfer_ciphertexts, law_transfer_audits_to_amount};
use solana_zk_sdk::encryption::pod::auth_encryption::PodAeCiphertext;
use solana_zk_sdk::encryption::pod::elgamal::PodElGamalCiphertext;
use spl_token_confidential_transfer_proof_extraction::instruction::ProofLocation;
use solana_sdk::compute_budget::ComputeBudgetInstruction;

verus! {

/// The confidential-transfer instruction code of `Transfer`.
pub const TRANSFER_INSTRUCTION: u8 = 7;

/// The compute-unit limit requested with a priority fee.
pub const COMPUTE_UNIT_LIMIT: u32 = 200_000;

/// The bytes of the compute-budget program's address
/// (`ComputeBudget111111111111111111111111111111`).
pub open spec fn compute_budget_id_bytes() -> Seq<u8> {
    seq![3u8, 6, 70, 111, 229, 33, 23, 50, 255, 236, 173, 186, 114, 195, 155, 231,
        188, 140, 229, 187, 197, 247, 18, 107, 44, 67, 155, 58, 64, 0, 0, 0]
}

/// `ComputeBudgetInstruction::SetComputeUnitLimit` as borsh encodes it:
/// variant 2, then the limit in four little-endian bytes, with no accounts.
pub open spec fn compute_unit_limit_view(units: u32) -> InstructionView {
    InstructionView {
        program_id: compute_budget_id_bytes(),
        accounts: Seq::empty(),
        data: seq![2u8] + le_bytes(units as nat, 4),
    }
}

/// `ComputeBudgetInstruction::SetComputeUnitPrice` as borsh encodes it:
/// variant 3, then the price in eight little-endian bytes, with no accounts.
pub open spec fn compute_unit_price_view(micro_lamports: u64) -> InstructionView {
    InstructionView {
        program_id: compute_budget_id_bytes(),
        accounts: Seq::empty(),
        data: seq![3u8] + le_bytes(micro_lamports as nat, 8),
    }
}

/// Builds a compute-unit limit instruction.
///
/// Trusted: calls `Instruction::new_with_borsh` on the compute-budget program
/// with `ComputeBudgetInstruction::SetComputeUnitLimit` and no accounts;
/// borsh writes the variant index as one byte and the `u32` little-endian.
#[verifier::external_body]
pub fn compute_unit_limit_instruction(units: u32) -> (ix: Instruction)
    ensures
        ix@ == compute_unit_limit_view(units),
{
    from_sdk_instruction(solana_sdk::instruction::Instruction::new_with_borsh(
        solana_sdk::compute_budget::id(), &ComputeBudgetInstruction::SetComputeUnitLimit(units), vec![]))
}

/// Builds a compute-unit price instruction.
///
/// Trusted: calls `Instruction::new_with_borsh` on the compute-budget program
/// with `ComputeBudgetInstruction::SetComputeUnitPrice` and no accounts;
/// borsh writes the variant index as one byte and the `u64` little-endian.
#[verifier::external_body]
pub fn compute_unit_price_instruction(micro_lamports: u64) -> (ix: Instruction)
    ensures
        ix@ == compute_unit_price_view(micro_lamports),
{
    from_sdk_instruction(solana_sdk::instruction::Instruction::new_with_borsh(
        solana_sdk::compute_budget::id(), &ComputeBudgetInstruction::SetComputeUnitPrice(micro_lamports), vec![]))
}

/// The confidential `Transfer` instruction whose proofs sit in context
/// accounts: source (writable), mint, destination (writable), the equality,
/// ciphertext-validity and range context accounts, and the authority as a
/// read-only signer; the data is `[27, 7]`, the new decryptable balance, the
/// two auditor ciphertexts and three zero proof offsets.
pub open spec fn transfer_instruction_view(
    source: Seq<u8>,
    mint: Seq<u8>,
    destination: Seq<u8>,
    new_balance: Seq<u8>,
    ciphertext_lo: Seq<u8>,
    ciphertext_hi: Seq<u8>,
    authority: Seq<u8>,
    equality_context: Seq<u8>,
    validity_context: Seq<u8>,
    range_context: Seq<u8>,
) -> InstructionView {
    InstructionView {
        program_id: token_2022_id_bytes(),
        accounts: seq![
            AccountMetaView { pubkey: source, is_signer: false, is_writable: true },
            AccountMetaView { pubkey: mint, is_signer: false, is_writable: false },
            AccountMetaView { pubkey: destination, is_signer: false, is_writable: true },
            AccountMetaView { pubkey: equality_context, is_signer: false, is_writable: false },
            AccountMetaView { pubkey: validity_context, is_signer: false, is_writable: false },
            AccountMetaView { pubkey: range_context, is_signer: false, is_writable: false },
            AccountMetaView { pubkey: authority, is_signer: true, is_writable: false },
        ],
        data: seq![CONFIDENTIAL_TRANSFER_EXTENSION_TAG, TRANSFER_INSTRUCTION] + new_balance + ciphertext_lo
            + ciphertext_hi + seq![0u8, 0u8, 0u8],
    }
}

/// Builds the confidential `Transfer` instructions with all three proofs in
/// context accounts and no multisig signers.
///
/// Trusted: calls `spl_token_2022::extension::confidential_transfer::
/// instruction::transfer`, whose source refuses any program but token-2022
/// and, with context-state proof locations, returns the single instruction
/// that `transfer_instruction_view` states.
#[verifier::external_body]
pub fn confidential_transfer_instructions(
    token_program: &Address,
    accounts: &[Address; 4],
    new_balance: &[u8; 36],
    ciphertext_lo: &[u8; 64],
    ciphertext_hi: &[u8; 64],
    contexts: &[Address; 3],
) -> (res: Option<Vec<Instruction>>)
    ensures
        res matches Some(ixs) ==> token_program@ == token_2022_id_bytes()
            && instructions_view(ixs@) == seq![transfer_instruction_view(accounts[0]@, accounts[1]@,
                accounts[2]@, new_balance@, ciphertext_lo@, ciphertext_hi@, accounts[3]@, contexts[0]@,
                contexts[1]@, contexts[2]@)],
        res is None ==> token_program@ != token_2022_id_bytes(),
{
    let [s, m, d, a] = accounts.each_ref().map(to_sdk_pubkey);
    let [e, v, r] = contexts.each_ref().map(to_sdk_pubkey);
    spl_token_2022::extension::confidential_transfer::instruction::transfer(&to_sdk_pubkey(token_program),
        &s, &m, &d, &PodAeCiphertext::from(*new_balance), &PodElGamalCiphertext::from(*ciphertext_lo),
        &PodElGamalCiphertext::from(*ciphertext_hi), &a, &[], ProofLocation::ContextStateAccount(&e),
        ProofLocation::ContextStateAccount(&v), ProofLocation::ContextStateAccount(&r),
    ).ok().map(|ixs| ixs.into_iter().map(from_sdk_instruction).collect())
}

/// A request to build the transactions of a confidential transfer.
#[derive(Clone, Debug, PartialEq, Eq)]
pub struct TransferCbRequest {
    pub amount: String,
    pub equality_proof_rent: String,
    pub ciphertext_validity_proof_rent: String,
    pub range_proof_rent: String,
    pub sender_token_account: String,
    pub recipient_token_account: String,
    pub mint_token_account: String,
    pub elgamal_signature: String,
    pub aes_signature: String,
    pub latest_blockhash: String,
    pub priority_fee: String,
}

/// The fields of a transfer request: decimal fields as text, encoded fields
/// as their bytes.
pub struct TransferCbRequestView {
    pub amount: Seq<char>,
    pub equality_proof_rent: Seq<char>,
    pub ciphertext_validity_proof_rent: Seq<char>,
    pub range_proof_rent: Seq<char>,
    pub sender_token_account: Seq<u8>,
    pub recipient_token_account: Seq<u8>,
    pub mint_token_account: Seq<u8>,
    pub elgamal_signature: Seq<u8>,
    pub aes_signature: Seq<u8>,
    pub latest_blockhash: Seq<u8>,
    pub priority_fee: Seq<char>,
}

impl View for TransferCbRequest {
    type V = TransferCbRequestView;

    open spec fn view(&self) -> TransferCbRequestView {
        TransferCbRequestView {
            amount: self.amount@,
            equality_proof_rent: self.equality_proof_rent@,
            ciphertext_validity_proof_rent: self.ciphertext_validity_proof_rent@,
            range_proof_rent: self.range_proof_rent@,
            sender_token_account: encode_utf8(self.sender_token_account@),
            recipient_token_account: encode_utf8(self.recipient_token_account@),
            mint_token_account: encode_utf8(self.mint_token_account@),
            elgamal_signature: encode_utf8(self.elgamal_signature@),
            aes_signature: encode_utf8(self.aes_signature@),
            latest_blockhash: encode_utf8(self.latest_blockhash@),
            priority_fee: self.priority_fee@,
        }
    }
}

/// Everything a transfer needs that the request determines.
#[derive(Clone, Debug, PartialEq, Eq)]
pub struct TransferSetup {
    pub amount: u64,
    pub equality_proof_rent: u64,
    pub ciphertext_validity_proof_rent: u64,
    pub range_proof_rent: u64,
    pub mint: Address,
    pub sender_authority: Address,
    pub sender_token_account: Address,
    pub recipient_token_account: Address,
    pub sender_confidential: ConfidentialAccount,
    pub recipient_elgamal_pubkey: [u8; 32],
    pub auditor_elgamal_pubkey: Option<[u8; 32]>,
    pub elgamal_keypair: [u8; 64],
    pub aes_key: [u8; 16],
}

pub struct TransferSetupView {
    pub amount: u64,
    pub equality_proof_rent: u64,
    pub ciphertext_validity_proof_rent: u64,
    pub range_proof_rent: u64,
    pub mint: Seq<u8>,
    pub sender_authority: Seq<u8>,
    pub sender_token_account: Seq<u8>,
    pub recipient_token_account: Seq<u8>,
    pub sender_confidential: ConfidentialAccountView,
    pub recipient_elgamal_pubkey: Seq<u8>,
    pub auditor_elgamal_pubkey: Option<Seq<u8>>,
    pub elgamal_keypair: Seq<u8>,
    pub aes_key: Seq<u8>,
}

impl View for TransferSetup {
    type V = TransferSetupView;

    open spec fn view(&self) -> TransferSetupView {
        TransferSetupView {
            amount: self.amount,
            equality_proof_rent: self.equality_proof_rent,
            ciphertext_validity_proof_rent: self.ciphertext_validity_proof_rent,
            range_proof_rent: self.range_proof_rent,
            mint: self.mint@,
            sender_authority: self.sender_authority@,
            sender_token_account: self.sender_token_account@,
            recipient_token_account: self.recipient_token_account@,
            sender_confidential: self.sender_confidential@,
            recipient_elgamal_pubkey: self.recipient_elgamal_pubkey@,
            auditor_elgamal_pubkey: match self.auditor_elgamal_pubkey {
                Some(k) => Some(k@),
                None => None,
            },
            elgamal_keypair: self.elgamal_keypair@,
            aes_key: self.aes_key@,
        }
    }
}

/// The keys a transfer's signatures derive, once the accounts are read: the
/// sender's ElGamal keypair, then its authenticated-encryption key.
pub open spec fn spec_transfer_keys(r: TransferCbRequestView) -> Result<(Seq<u8>, Seq<u8>), AppError> {
    match base64_decoded(r.elgamal_signature) {
        None => Err(AppError::Base64Error),
        Some(es) => if es.len() != 64 {
            Err(AppError::SerializationError)
        } else {
            match elgamal_keypair_of(es) {
                None => Err(AppError::SerializationError),
                Some(keypair) => match base64_decoded(r.aes_signature) {
                    None => Err(AppError::Base64Error),
                    Some(aes) => if aes.len() != 64 {
                        Err(AppError::SerializationError)
                    } else {
                        match ae_key_of(aes) {
                            None => Err(AppError::SerializationError),
                            Some(key) => Ok((keypair, key)),
                        }
                    },
                },
            }
        },
    }
}

/// The confidential parts of a transfer, once the base accounts are read:
/// the sender's extension, the recipient's ElGamal key and the mint's
/// auditor key.
pub open spec fn spec_transfer_confidential(sender: TokenAccountView, recipient: TokenAccountView, r: TransferCbRequestView)
    -> Result<(ConfidentialAccountView, Seq<u8>, Option<Seq<u8>>), AppError>
{
    match sender.confidential {
        None => Err(AppError::ProgramError),
        Some(sender_ext) => match recipient.confidential {
            None => Err(AppError::ProgramError),
            Some(recipient_ext) => if !elgamal_pubkey_valid(recipient_ext.elgamal_pubkey) {
                Err(AppError::ElGamalError)
            } else {
                match base64_decoded(r.mint_token_account) {
                    None => Err(AppError::Base64Error),
                    Some(mint_data) => match mint_auditor_key(mint_data) {
                        None => Err(AppError::ProgramError),
                        Some(auditor) => if auditor matches Some(k) && !elgamal_pubkey_valid(k) {
                            Err(AppError::ElGamalError)
                        } else {
                            Ok((sender_ext, recipient_ext.elgamal_pubkey, auditor))
                        },
                    },
                }
            },
        },
    }
}

/// What reading a transfer request gives, step by step in the order the
/// service checks it: the amount (`InvalidAmount`), the three rents, the two
/// token accounts, that they share a mint (`MintMismatch`), their confidential
/// parts, the mint's auditor key, and the two signatures.
pub open spec fn spec_transfer_setup(r: TransferCbRequestView) -> Result<TransferSetupView, AppError> {
    match u64_from_decimal(r.amount) {
        None => Err(AppError::InvalidAmount),
        Some(amount) => match (u64_from_decimal(r.equality_proof_rent),
            u64_from_decimal(r.ciphertext_validity_proof_rent), u64_from_decimal(r.range_proof_rent)) {
            (Some(eq_rent), Some(cv_rent), Some(range_rent)) => match base64_decoded(r.sender_token_account) {
                None => Err(AppError::Base64Error),
                Some(sender_data) => match unpacked_token_account(sender_data) {
                    None => Err(AppError::ProgramError),
                    Some(sender) => match base64_decoded(r.recipient_token_account) {
                        None => Err(AppError::Base64Error),
                        Some(recipient_data) => match unpacked_token_account(recipient_data) {
                            None => Err(AppError::ProgramError),
                            Some(recipient) => if sender.mint != recipient.mint {
                                Err(AppError::MintMismatch)
                            } else {
                                match spec_transfer_confidential(sender, recipient, r) {
                                    Err(e) => Err(e),
                                    Ok((sender_ext, recipient_key, auditor)) => match spec_transfer_keys(r) {
                                        Err(e) => Err(e),
                                        Ok((keypair, key)) => Ok(TransferSetupView {
                                            amount,
                                            equality_proof_rent: eq_rent,
                                            ciphertext_validity_proof_rent: cv_rent,
                                            range_proof_rent: range_rent,
                                            mint: sender.mint,
                                            sender_authority: sender.owner,
                                            sender_token_account: associated_token_address(
                                                sender.owner, sender.mint, token_2022_id_bytes()),
                                            recipient_token_account: associated_token_address(
                                                recipient.owner, sender.mint, token_2022_id_bytes()),
                                            sender_confidential: sender_ext,
                                            recipient_elgamal_pubkey: recipient_key,
                                            auditor_elgamal_pubkey: auditor,
                                            elgamal_keypair: keypair,
                                            aes_key: key,
                                        }),
                                    },
                                }
                            },
                        },
                    },
                },
            },
            _ => Err(AppError::SerializationError),
        },
    }
}

/// Decodes a base64 field and reads a signature from it; a field that is not
/// base64 is a base64 error, one that is not 64 bytes a serialization error.
fn decode_signature_field(field: &String) -> (res: Result<Signature, AppError>)
    ensures
        match base64_decoded(encode_utf8(field@)) {
            None => res == Err::<Signature, AppError>(AppError::Base64Error),
            Some(b) => if b.len() != 64 {
                res == Err::<Signature, AppError>(AppError::SerializationError)
            } else {
                res matches Ok(s) && s@ == b
            },
        },
{
    let bytes = match base64_decode(field.as_str()) {
        Some(b) => b,
        None => return Err(AppError::Base64Error),
    };
    match signature_from_bytes(bytes.as_slice()) {
        Some(s) => Ok(s),
        None => Err(AppError::SerializationError),
    }
}

/// Reads a transfer request into what the transfer needs, refusing it as
/// [`spec_transfer_setup`] says.
pub fn prepare_transfer(request: &TransferCbRequest) -> (res: Result<TransferSetup, AppError>)
    ensures
        match spec_transfer_setup(request@) {
            Ok(v) => res matches Ok(s) && s@ == v,
            Err(e) => res == Err::<TransferSetup, AppError>(e),
        },
        res matches Ok(s) ==> elgamal_keypair_decodes(s@.elgamal_keypair),
{
    let amount = match parse_u64(request.amount.as_str()) {
        Some(a) => a,
        None => return Err(AppError::InvalidAmount),
    };
    let equality_proof_rent = match parse_u64(request.equality_proof_rent.as_str()) {
        Some(a) => a,
        None => return Err(AppError::SerializationError),
    };
    let ciphertext_validity_proof_rent = match parse_u64(request.ciphertext_validity_proof_rent.as_str()) {
        Some(a) => a,
        None => return Err(AppError::SerializationError),
    };
    let range_proof_rent = match parse_u64(request.range_proof_rent.as_str()) {
        Some(a) => a,
        None => return Err(AppError::SerializationError),
    };
    let sender_data = match base64_decode(request.sender_token_account.as_str()) {
        Some(d) => d,
        None => return Err(AppError::Base64Error),
    };
    let sender = match unpack_token_account(sender_data) {
        Some(a) => a,
        None => return Err(AppError::ProgramError),
    };
    let recipient_data = match base64_decode(request.recipient_token_account.as_str()) {
        Some(d) => d,
        None => return Err(AppError::Base64Error),
    };
    let recipient = match unpack_token_account(recipient_data) {
        Some(a) => a,
        None => return Err(AppError::ProgramError),
    };
    if !sender.mint.equals(&recipient.mint) {
        return Err(AppError::MintMismatch);
    }
    let mint = sender.mint;
    let token_program = token_2022_program_id();
    let sender_token_account = associated_token_account(&sender.owner, &mint, &token_program);
    let recipient_token_account = associated_token_account(&recipient.owner, &mint, &token_program);
    let sender_confidential = match sender.confidential {
        Some(e) => e,
        None => return Err(AppError::ProgramError),
    };
    let recipient_confidential = match recipient.confidential {
        Some(e) => e,
        None => return Err(AppError::ProgramError),
    };
    if !elgamal_pubkey_decodes(&recipient_confidential.elgamal_pubkey) {
        return Err(AppError::ElGamalError);
    }
    let mint_data = match base64_decode(request.mint_token_account.as_str()) {
        Some(d) => d,
        None => return Err(AppError::Base64Error),
    };
    let auditor_elgamal_pubkey = match read_mint_auditor_key(mint_data) {
        Some(a) => a,
        None => return Err(AppError::ProgramError),
    };
    if let Some(k) = &auditor_elgamal_pubkey {
        if !elgamal_pubkey_decodes(k) {
            return Err(AppError::ElGamalError);
        }
    }
    let elgamal_signature = decode_signature_field(&request.elgamal_signature)?;
    let elgamal_keypair = match elgamal_keypair_from_signature(&elgamal_signature) {
        Some(k) => k,
        None => return Err(AppError::SerializationError),
    };
    let aes_signature = decode_signature_field(&request.aes_signature)?;
    let aes_key = match ae_key_from_signature(&aes_signature) {
        Some(k) => k,
        None => return Err(AppError::SerializationError),
    };
    Ok(TransferSetup {
        amount,
        equality_proof_rent,
        ciphertext_validity_proof_rent,
        range_proof_rent,
        mint,
        sender_authority: sender.owner,
        sender_token_account,
        recipient_token_account,
        sender_confidential,
        recipient_elgamal_pubkey: recipient_confidential.elgamal_pubkey,
        auditor_elgamal_pubkey,
        elgamal_keypair,
        aes_key,
    })
}

/// The micro-lamports per compute unit that a priority fee in lamports buys
/// at the requested compute-unit limit: `fee * 1_000_000 / 200_000`.
pub open spec fn compute_unit_price(priority_fee: u64) -> u64 {
    (priority_fee * 1_000_000 / 200_000) as u64
}

/// The largest priority fee whose price computation fits in 64 bits.
pub open spec fn max_priority_fee() -> u64 {
    (u64::MAX / 1_000_000) as u64
}

/// The priority fee of a request: its decimal value, or zero where the text
/// is not a decimal `u64`.
pub open spec fn priority_fee_value(text: Seq<char>) -> u64 {
    match u64_from_decimal(text) {
        Some(fee) => fee,
        None => 0,
    }
}

/// Reads the priority fee of a request; text that is not a decimal `u64`
/// means no priority fee.
pub fn parse_priority_fee(text: &str) -> (fee: u64)
    ensures
        fee == priority_fee_value(text@),
{
    match parse_u64(text) {
        Some(fee) => fee,
        None => 0,
    }
}

/// Converts a priority fee into a compute-unit price.
pub fn priority_fee_price(priority_fee: u64) -> (micro_lamports: u64)
    requires
        priority_fee <= max_priority_fee(),
    ensures
        micro_lamports == compute_unit_price(priority_fee),
{
    priority_fee * 1_000_000 / 200_000
}

/// The instructions of the first transaction: with a priority fee, a
/// compute-unit limit and a compute-unit price first; then the creation of
/// the range, equality and ciphertext-validity proof accounts.
pub open spec fn setup_instructions_view(
    priority_fee: u64,
    range_create: InstructionView,
    equality_create: InstructionView,
    validity_create: InstructionView,
) -> Seq<InstructionView> {
    (if priority_fee > 0 {
        seq![compute_unit_limit_view(COMPUTE_UNIT_LIMIT), compute_unit_price_view(compute_unit_price(priority_fee))]
    } else {
        Seq::empty()
    }) + seq![range_create, equality_create, validity_create]
}

/// Lists the instructions of the first transaction.
pub fn setup_instructions(
    priority_fee: u64,
    range_create: Instruction,
    equality_create: Instruction,
    validity_create: Instruction,
) -> (ixs: Vec<Instruction>)
    requires
        priority_fee <= max_priority_fee(),
    ensures
        instructions_view(ixs@) == setup_instructions_view(priority_fee, range_create@, equality_create@,
            validity_create@),
{
    let mut ixs: Vec<Instruction> = Vec::new();
    if priority_fee > 0 {
        let micro_lamports = priority_fee_price(priority_fee);
        ixs.push(compute_unit_limit_instruction(COMPUTE_UNIT_LIMIT));
        ixs.push(compute_unit_price_instruction(micro_lamports));
    }
    let ghost prefix = instructions_view(ixs@);
    ixs.push(range_create);
    ixs.push(equality_create);
    ixs.push(validity_create);
    assert(instructions_view(ixs@) =~= prefix + seq![range_create@, equality_create@, validity_create@]);
    ixs
}

/// The instructions that close the equality, ciphertext-validity and range
/// proof accounts, returning their lamports to the authority.
pub open spec fn close_instructions_view(authority: Seq<u8>, equality: Seq<u8>, validity: Seq<u8>, range: Seq<u8>)
    -> Seq<InstructionView>
{
    seq![
        close_context_view(equality, authority, authority),
        close_context_view(validity, authority, authority),
        close_context_view(range, authority, authority),
    ]
}

/// The instructions of the first transaction of a transfer: the proof
/// accounts' creation, each funded by the sender's authority with its rent,
/// sized for its proof context and owned by the proof program, after the
/// compute-budget instructions of a priority fee.
pub open spec fn transfer_setup_instructions(
    s: TransferSetupView,
    equality: Seq<u8>,
    validity: Seq<u8>,
    range: Seq<u8>,
    priority_fee: u64,
) -> Seq<InstructionView> {
    let a = s.sender_authority;
    let zk = zk_proof_program_id_bytes();
    let range_create = create_account_view(a, range, s.range_proof_rent, proof_context_space(RANGE_PROOF) as u64, zk);
    let equality_create = create_account_view(a, equality, s.equality_proof_rent,
        proof_context_space(EQUALITY_PROOF) as u64, zk);
    let validity_create = create_account_view(a, validity, s.ciphertext_validity_proof_rent,
        proof_context_space(CIPHERTEXT_VALIDITY_PROOF) as u64, zk);
    setup_instructions_view(priority_fee, range_create, equality_create, validity_create)
}

/// The compiled first transaction of a transfer.
pub open spec fn transfer_setup_message(
    s: TransferSetupView,
    equality: Seq<u8>,
    validity: Seq<u8>,
    range: Seq<u8>,
    blockhash: Seq<u8>,
    priority_fee: u64,
) -> Option<MessageV0View> {
    compiled_v0_message(s.sender_authority, transfer_setup_instructions(s, equality, validity, range, priority_fee),
        blockhash)
}

/// The five wire transactions of a split-proof confidential transfer, for
/// given proof data and context account addresses. `setup_signatures` and
/// `new_balance` are what signing the first transaction and re-encrypting the
/// sender's balance gave, both of which draw random numbers.
pub open spec fn spec_transfer_transactions(
    s: TransferSetupView,
    equality_proof: Seq<u8>,
    validity_proof: Seq<u8>,
    ciphertext_lo: Seq<u8>,
    ciphertext_hi: Seq<u8>,
    range_proof: Seq<u8>,
    equality: Seq<u8>,
    validity: Seq<u8>,
    range: Seq<u8>,
    blockhash: Seq<u8>,
    priority_fee: u64,
    setup_signatures: Option<Seq<Seq<u8>>>,
    new_balance: Option<Seq<u8>>,
) -> Result<Seq<Seq<char>>, AppError> {
    let a = s.sender_authority;
    let range_verify = verify_proof_view(RANGE_PROOF, range, a, range_proof);
    let equality_verify = verify_proof_view(EQUALITY_PROOF, equality, a, equality_proof);
    let validity_verify = verify_proof_view(CIPHERTEXT_VALIDITY_PROOF, validity, a, validity_proof);
    let one = placeholder_signatures_view(1);
    match transfer_setup_message(s, equality, validity, range, blockhash, priority_fee) {
        None => Err(AppError::CompileError),
        Some(m1) => match setup_signatures {
            None => Err(AppError::SignerError),
            Some(sig1) => match compiled_v0_message(a, seq![range_verify], blockhash) {
                None => Err(AppError::CompileError),
                Some(m2) => match compiled_v0_message(a, seq![equality_verify, validity_verify], blockhash) {
                    None => Err(AppError::CompileError),
                    Some(m3) => match new_balance {
                        None => Err(AppError::TokenError),
                        Some(nb) => {
                            let t = transfer_instruction_view(s.sender_token_account, s.mint,
                                s.recipient_token_account, nb, ciphertext_lo, ciphertext_hi, a, equality, validity, range);
                            match compiled_v0_message(a, seq![t], blockhash) {
                                None => Err(AppError::CompileError),
                                Some(m4) => match compiled_v0_message(a, close_instructions_view(a, equality, validity, range), blockhash) {
                                    None => Err(AppError::CompileError),
                                    Some(m5) => match (serialized_transaction(sig1, m1), serialized_transaction(one, m2),
                                        serialized_transaction(one, m3), serialized_transaction(one, m4),
                                        serialized_transaction(one, m5)) {
                                        (Some(b1), Some(b2), Some(b3), Some(b4), Some(b5)) => Ok(seq![
                                            base64_encoded(b1), base64_encoded(b2), base64_encoded(b3),
                                            base64_encoded(b4), base64_encoded(b5)]),
                                        _ => Err(AppError::SerializationError),
                                    },
                                }
                            }
                        },
                    },
                },
            },
        },
    }
}

/// Whether building the transactions gets as far as re-encrypting the
/// sender's balance: the first three messages compile and the first is signed.
pub open spec fn transfer_reaches_balance(
    s: TransferSetupView,
    equality_proof: Seq<u8>,
    validity_proof: Seq<u8>,
    range_proof: Seq<u8>,
    equality: Seq<u8>,
    validity: Seq<u8>,
    range: Seq<u8>,
    blockhash: Seq<u8>,
    priority_fee: u64,
    setup_signatures: Option<Seq<Seq<u8>>>,
) -> bool {
    let a = s.sender_authority;
    &&& transfer_setup_message(s, equality, validity, range, blockhash, priority_fee) is Some
    &&& setup_signatures is Some
    &&& compiled_v0_message(a, seq![verify_proof_view(RANGE_PROOF, range, a, range_proof)], blockhash) is Some
    &&& compiled_v0_message(a, seq![verify_proof_view(EQUALITY_PROOF, equality, a, equality_proof),
        verify_proof_view(CIPHERTEXT_VALIDITY_PROOF, validity, a, validity_proof)], blockhash) is Some
}

/// What every outcome of the random steps satisfies: once the setup
/// message compiles, signing it succeeds exactly as the signer keys allow,
/// with four signatures of which the payer's is all-zero; and, once reached,
/// the re-encrypted balance exists exactly when the current one decrypts to
/// at least the amount, and decrypts to the difference.
pub open spec fn random_outcomes_fit(
    s: TransferSetupView,
    setup_message: Option<MessageV0View>,
    equality: Seq<u8>,
    validity: Seq<u8>,
    range: Seq<u8>,
    reaches_balance: bool,
    setup_signatures: Option<Seq<Seq<u8>>>,
    new_balance: Option<Seq<u8>>,
) -> bool {
    let current = ae_decrypted(s.aes_key, s.sender_confidential.decryptable_available_balance);
    &&& (setup_message matches Some(m) ==> (setup_signatures is Some <==> signing_succeeds(m, s.sender_authority,
        range, equality, validity)))
    &&& (setup_signatures matches Some(sigs) ==> sigs.len() == 4 && sigs[0] == null_signature())
    &&& (reaches_balance ==> (new_balance is Some <==> (current matches Some(c) && c >= s.amount)))
    &&& (reaches_balance ==> (new_balance matches Some(b) ==> ae_decrypted(s.aes_key, b)
        == Some((current->0 - s.amount) as u64)))
}

/// The views of a list of strings.
pub open spec fn strings_view(v: Seq<String>) -> Seq<Seq<char>> {
    v.map_values(|t: String| t@)
}

/// The view of a result that carries strings.
pub open spec fn strings_result_view(res: Result<Vec<String>, AppError>) -> Result<Seq<Seq<char>>, AppError> {
    match res {
        Ok(v) => Ok(strings_view(v@)),
        Err(e) => Err(e),
    }
}

/// Whether a result is what building the transactions gives for some
/// outcome of the random steps that fits them.
pub open spec fn transfer_transactions_outcome(
    s: TransferSetupView,
    equality_proof: Seq<u8>,
    validity_proof: Seq<u8>,
    ciphertext_lo: Seq<u8>,
    ciphertext_hi: Seq<u8>,
    range_proof: Seq<u8>,
    equality: Seq<u8>,
    validity: Seq<u8>,
    range: Seq<u8>,
    blockhash: Seq<u8>,
    priority_fee: u64,
    res: Result<Seq<Seq<char>>, AppError>,
) -> bool {
    exists|sigs: Option<Seq<Seq<u8>>>, nb: Option<Seq<u8>>|
        #[trigger] random_outcomes_fit(s, transfer_setup_message(s, equality, validity, range, blockhash, priority_fee),
            equality, validity, range, transfer_reaches_balance(s, equality_proof, validity_proof, range_proof, equality, validity, range,
                blockhash, priority_fee, sigs), sigs, nb)
        && spec_transfer_transactions(s, equality_proof, validity_proof, ciphertext_lo, ciphertext_hi, range_proof,
            equality, validity, range, blockhash, priority_fee, sigs, nb) == res
}

/// Whether auditing a base64 transaction reads, from its confidential
/// transfer, the given auditor ciphertexts and the source account, mint and
/// destination, in the order the audit reports them: as sender, recipient and
/// mint (or refuses the ciphertexts, where they are not valid ones).
pub open spec fn audits_to(
    text: Seq<char>,
    ciphertext_lo: Seq<u8>,
    ciphertext_hi: Seq<u8>,
    source: Seq<u8>,
    mint: Seq<u8>,
    destination: Seq<u8>,
) -> bool {
    &&& base64_decoded(encode_utf8(text)) is Some
    &&& spec_extract_confidential_transfer(base64_decoded(encode_utf8(text))->0) == Some(
        if elgamal_ciphertext_valid(ciphertext_lo) && elgamal_ciphertext_valid(ciphertext_hi) {
            Ok::<TransferCiphertextsView, AppError>(TransferCiphertextsView {
                ciphertext_lo,
                ciphertext_hi,
                sender: source,
                recipient: mint,
                mint: destination,
            })
        } else {
            Err(AppError::ElGamalError)
        })
}

/// Whether four keys are pairwise different.
pub open spec fn four_distinct(a: Seq<u8>, b: Seq<u8>, c: Seq<u8>, d: Seq<u8>) -> bool {
    a != b && a != c && a != d && b != c && b != d && c != d
}

/// Where the signers of the compiled setup message sit: the sender's
/// authority first, the three proof accounts at indexes below the signer
/// count, and every signer index one of these four.
#[verifier::spinoff_prover]
pub proof fn lemma_setup_signers(
    s: TransferSetupView,
    equality: Seq<u8>,
    validity: Seq<u8>,
    range: Seq<u8>,
    priority_fee: u64,
    blockhash: Seq<u8>,
    m: MessageV0View,
) -> (idx: (int, int, int))
    requires
        compiled_message_for(m, s.sender_authority, transfer_setup_instructions(s, equality, validity, range,
            priority_fee), blockhash),
    ensures
        0 < m.header.num_required_signatures,
        m.account_keys[0] == s.sender_authority,
        0 <= idx.0 < m.header.num_required_signatures && m.account_keys[idx.0] == range,
        0 <= idx.1 < m.header.num_required_signatures && m.account_keys[idx.1] == equality,
        0 <= idx.2 < m.header.num_required_signatures && m.account_keys[idx.2] == validity,
        forall|i: int| 0 <= i < m.header.num_required_signatures ==> #[trigger] m.account_keys[i] == m.account_keys[i]
            && (i == 0 || i == idx.0 || i == idx.1 || i == idx.2),
{
    let a = s.sender_authority;
    let ixs = transfer_setup_instructions(s, equality, validity, range, priority_fee);
    let keys = m.account_keys;
    let n = m.header.num_required_signatures as int;
    let p: int = if priority_fee > 0 { 2 } else { 0 };
    assert(ixs.len() == p + 3);
    assert(forall|i: int| 0 <= i < p ==> (#[trigger] ixs[i]).accounts.len() == 0);
    assert(ixs[p].accounts[1].pubkey == range && ixs[p].accounts[1].is_signer);
    assert(ixs[p + 1].accounts[1].pubkey == equality && ixs[p + 1].accounts[1].is_signer);
    assert(ixs[p + 2].accounts[1].pubkey == validity && ixs[p + 2].accounts[1].is_signer);
    assert(forall|i: int, j: int| p <= i < p + 3 && 0 <= j < ixs[i].accounts.len() ==> {
        let k = #[trigger] ixs[i].accounts[j].pubkey;
        k == a || k == range || k == equality || k == validity
    });
    let ir = m.instructions[p].accounts[1] as int;
    let ie = m.instructions[p + 1].accounts[1] as int;
    let iv = m.instructions[p + 2].accounts[1] as int;
    assert(compiles_instruction(keys, m.instructions[p], ixs[p]));
    assert(compiles_instruction(keys, m.instructions[p + 1], ixs[p + 1]));
    assert(compiles_instruction(keys, m.instructions[p + 2], ixs[p + 2]));
    assert(keys[ir] == range && keys[ie] == equality && keys[iv] == validity);
    assert(is_signer_key(a, ixs, keys[ir]));
    assert(is_signer_key(a, ixs, keys[ie]));
    assert(is_signer_key(a, ixs, keys[iv]));
    assert(is_signer_key(a, ixs, keys[0]));
    assert(0 < n && ir < n && ie < n && iv < n);
    assert forall|i: int| 0 <= i < n implies {
        let k = #[trigger] keys[i];
        k == a || k == range || k == equality || k == validity
    } by {
        assert(is_signer_key(a, ixs, keys[i]));
        if keys[i] != a {
            let (i2, j) = choose|i2: int, j: int|
                0 <= i2 < ixs.len() && 0 <= j < ixs[i2].accounts.len() && #[trigger] ixs[i2].accounts[j].pubkey
                    == keys[i] && ixs[i2].accounts[j].is_signer;
            assert(ixs[i2].accounts[j].pubkey == keys[i]);
        }
    }
    assert forall|i: int| 0 <= i < n implies #[trigger] keys[i] == keys[i] && (i == 0 || i == ir || i == ie
        || i == iv) by {
        let k = keys[i];
        if k == a {
            assert(keys[0] == a);
        } else if k == range {
            assert(keys[ir] == range);
        } else if k == equality {
            assert(keys[ie] == equality);
        } else {
            assert(keys[iv] == validity);
        }
    }
    let idx = (ir, ie, iv);
    assert forall|i: int| 0 <= i < m.header.num_required_signatures implies #[trigger] m.account_keys[i]
        == m.account_keys[i] && (i == 0 || i == idx.0 || i == idx.1 || i == idx.2) by {
        assert(keys[i] == keys[i]);
    }
    idx
}

/// Signing the compiled setup message succeeds whenever the sender's
/// authority and the three proof accounts are four different keys: they are
/// then exactly the message's signers.
pub proof fn lemma_setup_signing_succeeds(
    s: TransferSetupView,
    equality: Seq<u8>,
    validity: Seq<u8>,
    range: Seq<u8>,
    priority_fee: u64,
    blockhash: Seq<u8>,
    m: MessageV0View,
)
    requires
        compiled_message_for(m, s.sender_authority, transfer_setup_instructions(s, equality, validity, range,
            priority_fee), blockhash),
        four_distinct(s.sender_authority, range, equality, validity),
    ensures
        signing_succeeds(m, s.sender_authority, range, equality, validity),
{
    let a = s.sender_authority;
    let keys = m.account_keys;
    let n = m.header.num_required_signatures as int;
    let (ir, ie, iv) = lemma_setup_signers(s, equality, validity, range, priority_fee, blockhash, m);
    if n > 4 {
        assert(keys[1] == keys[1] && keys[2] == keys[2] && keys[3] == keys[3] && keys[4] == keys[4]);
        assert(1 == ir || 1 == ie || 1 == iv);
        assert(2 == ir || 2 == ie || 2 == iv);
        assert(3 == ir || 3 == ie || 3 == iv);
        assert(4 == ir || 4 == ie || 4 == iv);
        assert(false);
    }
    assert(keys[0] != keys[ir] && keys[0] != keys[ie] && keys[0] != keys[iv] && keys[ir] != keys[ie]
        && keys[ir] != keys[iv] && keys[ie] != keys[iv]);
    assert(n == 4);
}

/// Signing the compiled setup message succeeds only where the sender's
/// authority and the three proof accounts are four different keys.
pub proof fn lemma_setup_signers_distinct(
    s: TransferSetupView,
    equality: Seq<u8>,
    validity: Seq<u8>,
    range: Seq<u8>,
    priority_fee: u64,
    blockhash: Seq<u8>,
    m: MessageV0View,
)
    requires
        compiled_message_for(m, s.sender_authority, transfer_setup_instructions(s, equality, validity, range,
            priority_fee), blockhash),
        signing_succeeds(m, s.sender_authority, range, equality, validity),
    ensures
        four_distinct(s.sender_authority, range, equality, validity),
{
    let keys = m.account_keys;
    let (ir, ie, iv) = lemma_setup_signers(s, equality, validity, range, priority_fee, blockhash, m);
    assert(keys[0] == keys[0] && keys[1] == keys[1] && keys[2] == keys[2] && keys[3] == keys[3]);
    assert(keys[ir] == keys[ir] && keys[ie] == keys[ie] && keys[iv] == keys[iv]);
    assert(0 != ir && 0 != ie && 0 != iv && ir != ie && ir != iv && ie != iv) by {
        assert(1 == ir || 1 == ie || 1 == iv);
        assert(2 == ir || 2 == ie || 2 == iv);
        assert(3 == ir || 3 == ie || 3 == iv);
    }
}

/// Whether base64 text holds a transaction whose message asks for four
/// signatures, of which the second to fourth are valid signatures of the
/// message by the keys at those places.
pub open spec fn setup_transaction_signed(text: Seq<char>) -> bool {
    decoded_transaction(base64_decoded(encode_utf8(text))->0) matches DecodedTransactionView::V0 { signatures, message }
        && message.header.num_required_signatures == 4 && forall|i: int| 1 <= i < 4 ==> signature_verifies(
        message.account_keys[i], message, #[trigger] signatures[i])
}

/// Whether base64 text holds a version-0 transaction with the given
/// signatures whose message compiles the given instructions, paid for by
/// `payer`, with the given block hash.
pub open spec fn holds_transaction(
    text: Seq<char>,
    signatures: Seq<Seq<u8>>,
    payer: Seq<u8>,
    ixs: Seq<InstructionView>,
    blockhash: Seq<u8>,
) -> bool {
    &&& base64_decoded(encode_utf8(text)) is Some
    &&& decoded_transaction(base64_decoded(encode_utf8(text))->0) matches DecodedTransactionView::V0 {
        signatures: sigs,
        message,
    } && sigs == signatures && compiled_message_for(message, payer, ixs, blockhash)
}

/// Whether five texts are the transactions of a transfer with the given
/// proofs, proof accounts, setup signatures and new decryptable balance:
/// (1) the compute-budget instructions of the fee and the creation of the
/// range, equality and validity accounts (four different keys with the
/// sender's authority), with four setup signatures: the payer's all-zero,
/// the proof accounts' valid signatures of the message; (2) the range proof's verification; (3) the equality
/// and validity proofs' verification; (4) the single transfer instruction
/// from the sender's to the recipient's associated account, carrying the new
/// balance and the auditor ciphertexts; (5) the closing of the three
/// accounts. All are paid for by the sender's authority with the block hash,
/// and all but the first carry one all-zero signature. The new balance
/// decrypts to the current one less the amount.
pub open spec fn transfer_transactions_hold(
    s: TransferSetupView,
    texts: Seq<Seq<char>>,
    equality_proof: Seq<u8>,
    validity_proof: Seq<u8>,
    ciphertext_lo: Seq<u8>,
    ciphertext_hi: Seq<u8>,
    range_proof: Seq<u8>,
    equality: Seq<u8>,
    validity: Seq<u8>,
    range: Seq<u8>,
    blockhash: Seq<u8>,
    priority_fee: u64,
    setup_signatures: Seq<Seq<u8>>,
    new_balance: Seq<u8>,
) -> bool {
    let a = s.sender_authority;
    let one = placeholder_signatures_view(1);
    let current = ae_decrypted(s.aes_key, s.sender_confidential.decryptable_available_balance);
    &&& texts.len() == 5
    &&& holds_transaction(texts[0], setup_signatures, a, transfer_setup_instructions(s, equality, validity, range,
        priority_fee), blockhash)
    &&& setup_signatures.len() == 4
    &&& setup_signatures[0] == null_signature()
    &&& setup_transaction_signed(texts[0])
    &&& four_distinct(a, range, equality, validity)
    &&& holds_transaction(texts[1], one, a, seq![verify_proof_view(RANGE_PROOF, range, a, range_proof)], blockhash)
    &&& holds_transaction(texts[2], one, a, seq![verify_proof_view(EQUALITY_PROOF, equality, a, equality_proof),
        verify_proof_view(CIPHERTEXT_VALIDITY_PROOF, validity, a, validity_proof)], blockhash)
    &&& holds_transaction(texts[3], one, a, seq![transfer_instruction_view(s.sender_token_account, s.mint,
        s.recipient_token_account, new_balance, ciphertext_lo, ciphertext_hi, a, equality, validity, range)],
        blockhash)
    &&& holds_transaction(texts[4], one, a, close_instructions_view(a, equality, validity, range), blockhash)
    &&& current is Some
    &&& new_balance.len() == 36
    &&& ae_decrypted(s.aes_key, new_balance) == Some((current->0 - s.amount) as u64)
}

/// The new decryptable balance that a transfer transaction's first
/// instruction carries: its data bytes 2..38.
pub open spec fn transfer_new_balance(text: Seq<char>) -> Seq<u8> {
    match decoded_transaction(base64_decoded(encode_utf8(text))->0) {
        DecodedTransactionView::V0 { message, .. } => message.instructions[0].data.subrange(2, 38),
        _ => Seq::empty(),
    }
}

/// Serializes a transaction and writes it as base64.
fn encode_transaction(signatures: &Vec<Signature>, message: &MessageV0) -> (res: Option<String>)
    ensures
        res is Some <==> fits_short_vecs(signatures_view(signatures@), message@),
        match serialized_transaction(signatures_view(signatures@), message@) {
            None => res is None,
            Some(b) => res matches Some(t) && t@ == base64_encoded(b),
        },
        res matches Some(t) ==> base64_decoded(encode_utf8(t@)) matches Some(b) && decoded_transaction(b)
            == (DecodedTransactionView::V0 { signatures: signatures_view(signatures@), message: message@ }),
{
    match serialize_transaction(signatures, message) {
        Some(bytes) => Some(base64_encode(bytes.as_slice())),
        None => None,
    }
}

/// Builds the five transactions of a split-proof confidential transfer from
/// its setup, its proofs and its three proof context accounts: (1) create
/// the proof accounts, signed by them; (2) verify the range proof; (3) verify
/// the equality and ciphertext-validity proofs; (4) transfer; (5) close the
/// proof accounts. All but the first carry one placeholder signature.
pub fn build_transfer_transactions(
    setup: &TransferSetup,
    proofs: &TransferProofs,
    equality: &ContextAccount,
    validity: &ContextAccount,
    range: &ContextAccount,
    blockhash: &BlockHash,
    priority_fee: u64,
) -> (res: Result<Vec<String>, AppError>)
    requires
        priority_fee <= max_priority_fee(),
        proofs.equality@.len() == proof_data_len(EQUALITY_PROOF),
        proofs.ciphertext_validity@.len() == proof_data_len(CIPHERTEXT_VALIDITY_PROOF),
        proofs.range@.len() == proof_data_len(RANGE_PROOF),
    ensures
        transfer_transactions_outcome(setup@, proofs.equality@, proofs.ciphertext_validity@, proofs.ciphertext_lo@,
            proofs.ciphertext_hi@, proofs.range@, equality@, validity@, range@, blockhash@,
            priority_fee, strings_result_view(res)),
        res matches Ok(v) ==> audits_to(v@[3]@, proofs.ciphertext_lo@, proofs.ciphertext_hi@,
            setup@.sender_token_account, setup@.mint, setup@.recipient_token_account),
        res matches Err(AppError::SignerError) ==> !four_distinct(setup@.sender_authority, range@, equality@,
            validity@),
        res matches Err(AppError::TokenError) ==> !(ae_decrypted(setup@.aes_key,
            setup@.sender_confidential.decryptable_available_balance) matches Some(c) && c >= setup@.amount),
        res matches Err(e) ==> e == AppError::SignerError || e == AppError::TokenError,
        res matches Ok(v) ==> exists|sigs: Seq<Seq<u8>>, nb: Seq<u8>| #[trigger] transfer_transactions_hold(setup@,
            strings_view(v@), proofs.equality@, proofs.ciphertext_validity@, proofs.ciphertext_lo@,
            proofs.ciphertext_hi@, proofs.range@, equality@, validity@, range@, blockhash@, priority_fee, sigs, nb),
{
    let ghost sv = setup@;
    let ghost spec_of = |sigs: Option<Seq<Seq<u8>>>, nb: Option<Seq<u8>>| spec_transfer_transactions(sv,
        proofs.equality@, proofs.ciphertext_validity@, proofs.ciphertext_lo@, proofs.ciphertext_hi@, proofs.range@,
        equality@, validity@, range@, blockhash@, priority_fee, sigs, nb);
    let ghost m1v = transfer_setup_message(sv, equality@, validity@, range@, blockhash@, priority_fee);
    let ghost reaches = |sigs: Option<Seq<Seq<u8>>>| transfer_reaches_balance(sv, proofs.equality@,
        proofs.ciphertext_validity@, proofs.range@, equality@, validity@, range@, blockhash@, priority_fee, sigs);
    let ghost fits = |sigs: Option<Seq<Seq<u8>>>, nb: Option<Seq<u8>>| random_outcomes_fit(sv, m1v, equality@,
        validity@, range@, reaches(sigs), sigs, nb);
    let a = &setup.sender_authority;
    let range_address = range.address();
    let equality_address = equality.address();
    let validity_address = validity.address();
    let (range_create, range_verify) = proof_context_state_instructions(a, &range_address, a, RANGE_PROOF,
        &proofs.range, setup.range_proof_rent);
    let (equality_create, equality_verify) = proof_context_state_instructions(a, &equality_address, a,
        EQUALITY_PROOF, &proofs.equality, setup.equality_proof_rent);
    let (validity_create, validity_verify) = proof_context_state_instructions(a, &validity_address, a,
        CIPHERTEXT_VALIDITY_PROOF, &proofs.ciphertext_validity, setup.ciphertext_validity_proof_rent);
    let setup_ixs = setup_instructions(priority_fee, range_create, equality_create, validity_create);
    assert(instructions_view(setup_ixs@) == transfer_setup_instructions(sv, equality@, validity@, range@,
        priority_fee));
    proof {
        lemma_key_mentions_bound(instructions_view(setup_ixs@));
    }
    let m1 = match compile_v0_message(a, &setup_ixs, blockhash) {
        Some(m) => m,
        None => {
            assert(fits(None, None) && spec_of(None, None) == Err::<Seq<Seq<char>>, AppError>(AppError::CompileError));
            return Err(AppError::CompileError);
        },
    };
    assert(m1v == Some(m1@));
    proof {
        lemma_le_bytes_len(setup.range_proof_rent as nat, 8);
        lemma_le_bytes_len(setup.equality_proof_rent as nat, 8);
        lemma_le_bytes_len(setup.ciphertext_validity_proof_rent as nat, 8);
        lemma_le_bytes_len(proof_context_space(RANGE_PROOF), 8);
        lemma_le_bytes_len(proof_context_space(EQUALITY_PROOF), 8);
        lemma_le_bytes_len(proof_context_space(CIPHERTEXT_VALIDITY_PROOF), 8);
        lemma_le_bytes_len(COMPUTE_UNIT_LIMIT as nat, 4);
        lemma_le_bytes_len(compute_unit_price(priority_fee) as nat, 8);
        lemma_compiled_fits(m1@, a@, instructions_view(setup_ixs@), blockhash@, Seq::empty());
    }
    let sig1 = match sign_with_context_accounts(&m1, a, range, equality, validity) {
        Some(s) => s,
        None => {
            assert(fits(None, None) && spec_of(None, None) == Err::<Seq<Seq<char>>, AppError>(AppError::SignerError));
            proof {
                if four_distinct(sv.sender_authority, range@, equality@, validity@) {
                    lemma_setup_signing_succeeds(sv, equality@, validity@, range@, priority_fee, blockhash@, m1@);
                }
            }
            return Err(AppError::SignerError);
        },
    };
    assert(m1@.account_keys[0] == a@);
    assert(sig1@[0]@ == null_signature());
    proof {
        lemma_setup_signers_distinct(sv, equality@, validity@, range@, priority_fee, blockhash@, m1@);
        let keys = m1@.account_keys;
        assert(keys[0] != keys[1] && keys[0] != keys[2] && keys[0] != keys[3]);
        assert(sig1@[1] == sig1@[1] && sig1@[2] == sig1@[2] && sig1@[3] == sig1@[3]);
    }
    let ghost w1 = Some(signatures_view(sig1@));
    let mut range_ixs: Vec<Instruction> = Vec::new();
    range_ixs.push(range_verify);
    assert(instructions_view(range_ixs@) =~= seq![range_verify@]);
    proof {
        lemma_key_mentions_bound(instructions_view(range_ixs@));
    }
    let m2 = match compile_v0_message(a, &range_ixs, blockhash) {
        Some(m) => m,
        None => {
            assert(fits(w1, None) && spec_of(w1, None) == Err::<Seq<Seq<char>>, AppError>(AppError::CompileError));
            return Err(AppError::CompileError);
        },
    };
    let mut proof_ixs: Vec<Instruction> = Vec::new();
    proof_ixs.push(equality_verify);
    proof_ixs.push(validity_verify);
    assert(instructions_view(proof_ixs@) =~= seq![equality_verify@, validity_verify@]);
    proof {
        lemma_key_mentions_bound(instructions_view(proof_ixs@));
    }
    let m3 = match compile_v0_message(a, &proof_ixs, blockhash) {
        Some(m) => m,
        None => {
            assert(fits(w1, None) && spec_of(w1, None) == Err::<Seq<Seq<char>>, AppError>(AppError::CompileError));
            return Err(AppError::CompileError);
        },
    };
    let new_balance = match new_decryptable_balance(setup.amount, &setup.sender_confidential.available_balance,
        &setup.sender_confidential.decryptable_available_balance, &setup.aes_key) {
        Some(b) => b,
        None => {
            assert(fits(w1, None) && spec_of(w1, None) == Err::<Seq<Seq<char>>, AppError>(AppError::TokenError));
            return Err(AppError::TokenError);
        },
    };
    let ghost w2 = Some(new_balance@);
    assert(fits(w1, w2));
    let token_program = token_2022_program_id();
    let transfer_accounts = [setup.sender_token_account, setup.mint, setup.recipient_token_account, *a];
    let contexts = [equality_address, validity_address, range_address];
    let transfer_ixs = match confidential_transfer_instructions(&token_program, &transfer_accounts, &new_balance,
        &proofs.ciphertext_lo, &proofs.ciphertext_hi, &contexts) {
        Some(ixs) => ixs,
        None => return Err(AppError::ProgramError),
    };
    proof {
        lemma_key_mentions_bound(instructions_view(transfer_ixs@));
    }
    let m4 = match compile_v0_message(a, &transfer_ixs, blockhash) {
        Some(m) => m,
        None => {
            assert(spec_of(w1, w2) == Err::<Seq<Seq<char>>, AppError>(AppError::CompileError));
            return Err(AppError::CompileError);
        },
    };
    let mut close_ixs: Vec<Instruction> = Vec::new();
    close_ixs.push(close_context_instruction(&equality_address, a, a));
    close_ixs.push(close_context_instruction(&validity_address, a, a));
    close_ixs.push(close_context_instruction(&range_address, a, a));
    assert(instructions_view(close_ixs@) =~= close_instructions_view(a@, equality@, validity@, range@));
    proof {
        lemma_key_mentions_bound(instructions_view(close_ixs@));
    }
    let m5 = match compile_v0_message(a, &close_ixs, blockhash) {
        Some(m) => m,
        None => {
            assert(spec_of(w1, w2) == Err::<Seq<Seq<char>>, AppError>(AppError::CompileError));
            return Err(AppError::CompileError);
        },
    };
    let one = placeholder_signatures(1);
    proof {
        lemma_compiled_fits(m1@, a@, instructions_view(setup_ixs@), blockhash@, signatures_view(sig1@));
        lemma_compiled_fits(m2@, a@, instructions_view(range_ixs@), blockhash@, signatures_view(one@));
        lemma_compiled_fits(m3@, a@, instructions_view(proof_ixs@), blockhash@, signatures_view(one@));
        lemma_compiled_fits(m4@, a@, instructions_view(transfer_ixs@), blockhash@, signatures_view(one@));
        lemma_compiled_fits(m5@, a@, instructions_view(close_ixs@), blockhash@, signatures_view(one@));
    }
    let t1 = encode_transaction(&sig1, &m1);
    let t2 = encode_transaction(&one, &m2);
    let t3 = encode_transaction(&one, &m3);
    let t4 = encode_transaction(&one, &m4);
    let t5 = encode_transaction(&one, &m5);
    match (t1, t2, t3, t4, t5) {
        (Some(t1), Some(t2), Some(t3), Some(t4), Some(t5)) => {
            let mut out: Vec<String> = Vec::new();
            out.push(t1);
            out.push(t2);
            out.push(t3);
            out.push(t4);
            out.push(t5);
            assert(strings_view(out@) =~= seq![t1@, t2@, t3@, t4@, t5@]);
            proof {
                law_audit_reads_transfer_ciphertexts(m4@, setup.sender_token_account@, setup.mint@,
                    setup.recipient_token_account@, new_balance@, proofs.ciphertext_lo@, proofs.ciphertext_hi@,
                    a@, equality@, validity@, range@);
            }
            assert(out@[3] == t4);
            assert(spec_of(w1, w2) == strings_result_view(Ok::<Vec<String>, AppError>(out)));
            assert(transfer_transactions_hold(sv, strings_view(out@), proofs.equality@, proofs.ciphertext_validity@,
                proofs.ciphertext_lo@, proofs.ciphertext_hi@, proofs.range@, equality@, validity@, range@,
                blockhash@, priority_fee, signatures_view(sig1@), new_balance@));
            Ok(out)
        },
        _ => {
            assert(spec_of(w1, w2) == Err::<Seq<Seq<char>>, AppError>(AppError::SerializationError));
            Err(AppError::SerializationError)
        },
    }
}

/// Whether the proofs of a transfer can be generated from its setup.
pub open spec fn setup_proofs_succeed(s: TransferSetupView) -> bool {
    transfer_proofs_succeed(s.amount, s.sender_confidential.available_balance,
        s.sender_confidential.decryptable_available_balance, s.elgamal_keypair, s.aes_key)
}

/// Whether a result is what a transfer gives for some proofs that fit its
/// amount and auditor, some proof accounts, and some outcome of the other
/// random steps. Its only error is a signing error, which comes only where
/// two of the sender's authority and the proof accounts are the same key.
pub open spec fn transfer_outcome(
    s: TransferSetupView,
    equality_proof: Seq<u8>,
    validity_proof: Seq<u8>,
    ciphertext_lo: Seq<u8>,
    ciphertext_hi: Seq<u8>,
    range_proof: Seq<u8>,
    equality: Seq<u8>,
    validity: Seq<u8>,
    range: Seq<u8>,
    blockhash: Seq<u8>,
    priority_fee: u64,
    res: Result<Seq<Seq<char>>, AppError>,
) -> bool {
    &&& transfer_proofs_fit(s.amount, s.auditor_elgamal_pubkey, equality_proof, validity_proof, ciphertext_lo,
        ciphertext_hi, range_proof)
    &&& transfer_transactions_outcome(s, equality_proof, validity_proof, ciphertext_lo, ciphertext_hi, range_proof,
        equality, validity, range, blockhash, priority_fee, res)
    &&& (res matches Err(AppError::SignerError) ==> !four_distinct(s.sender_authority, range, equality, validity))
    &&& (res matches Err(e) ==> e == AppError::SignerError)
}

/// Whether five texts are the transactions of the transfer a request asks
/// for: of its setup, its block hash and its priority fee, for some proofs
/// that fit its amount and auditor and some proof accounts.
pub open spec fn transfer_cb_holds(r: TransferCbRequestView, texts: Seq<Seq<char>>) -> bool {
    &&& spec_transfer_setup(r) is Ok
    &&& hash_from_str(r.latest_blockhash) is Some
    &&& exists|eqp: Seq<u8>, cvp: Seq<u8>, lo: Seq<u8>, hi: Seq<u8>, rp: Seq<u8>, e: Seq<u8>, v: Seq<u8>, rg: Seq<u8>,
        sigs: Seq<Seq<u8>>, nb: Seq<u8>|
        transfer_proofs_fit(spec_transfer_setup(r)->Ok_0.amount, spec_transfer_setup(r)->Ok_0.auditor_elgamal_pubkey,
            eqp, cvp, lo, hi, rp) && #[trigger] transfer_transactions_hold(spec_transfer_setup(r)->Ok_0, texts, eqp,
            cvp, lo, hi, rp, e, v, rg, hash_from_str(r.latest_blockhash)->0, priority_fee_value(r.priority_fee), sigs,
            nb)
}

/// Whether base64 text is an auditor's signature for an ElGamal public key:
/// 64 bytes that derive a keypair with that public key.
pub open spec fn auditor_signature_for(signature: Seq<u8>, pubkey: Seq<u8>) -> bool {
    base64_decoded(signature) matches Some(raw) && raw.len() == 64 && derives_keypair_for(raw, pubkey)
}

/// Whether auditing a transaction text with any signature of the mint's
/// auditor gives back the amount of the transfer a request asks for, from
/// the sender's associated account, with the mint where the audit reports
/// the recipient. Stated where the mint has an auditor and the amount's
/// higher bits fit in the 32 bits that decryption recovers.
pub open spec fn audits_back_to_amount(r: TransferCbRequestView, text: Seq<char>) -> bool {
    spec_transfer_setup(r) matches Ok(s) && (s.auditor_elgamal_pubkey is Some && s.amount < 0x1_0000_0000_0000
        ==> forall|sig: Seq<u8>| #[trigger] auditor_signature_for(sig, s.auditor_elgamal_pubkey->0) ==> spec_audit_transaction(encode_utf8(text),
            sig) == Some(Ok::<AuditReportView, AppError>(AuditReportView {
            amount: s.amount,
            sender: address_text(s.sender_token_account),
            receiver: address_text(s.mint),
        })))
}

/// Builds the five transactions of a confidential transfer with split
/// proofs, ready for the sender's wallet to sign: reads the request, draws
/// three proof context accounts, generates the proofs, and builds the
/// transactions. A request refused while it is read is refused as
/// [`spec_transfer_setup`] says; proofs that cannot be generated are a
/// token error; an unreadable block hash is a serialization error. Returns
/// `None` where the priority fee is too large for its price in
/// micro-lamports per compute unit to be computed in 64 bits, where no
/// answer can be given.
#[verifier::spinoff_prover]
#[verifier::rlimit(60)]
pub fn transfer_cb(request: &TransferCbRequest) -> (res: Option<Result<Vec<String>, AppError>>)
    ensures
        spec_transfer_setup(request@) matches Ok(s) ==> elgamal_keypair_decodes(s.elgamal_keypair),
        match spec_transfer_setup(request@) {
            Err(e) => res == Some(Err::<Vec<String>, AppError>(e)),
            Ok(s) => if !setup_proofs_succeed(s) {
                res == Some(Err::<Vec<String>, AppError>(AppError::TokenError))
            } else {
                match hash_from_str(request@.latest_blockhash) {
                    None => res == Some(Err::<Vec<String>, AppError>(AppError::SerializationError)),
                    Some(h) => if priority_fee_value(request@.priority_fee) > max_priority_fee() {
                        res is None
                    } else {
                        res matches Some(r) && exists|eqp: Seq<u8>, cvp: Seq<u8>, lo: Seq<u8>, hi: Seq<u8>,
                            rp: Seq<u8>, e: Seq<u8>, v: Seq<u8>, rg: Seq<u8>|
                            #[trigger] transfer_outcome(s, eqp, cvp, lo, hi, rp, e, v, rg, h,
                                priority_fee_value(request@.priority_fee), strings_result_view(r))
                    },
                }
            },
        },
        res matches Some(Ok(v)) ==> transfer_cb_holds(request@, strings_view(v@)),
        res matches Some(Ok(v)) ==> audits_back_to_amount(request@, v@[3]@),
{
    let setup = match prepare_transfer(request) {
        Ok(s) => s,
        Err(e) => return Some(Err(e)),
    };
    let equality = new_context_account();
    let validity = new_context_account();
    let range = new_context_account();
    let proofs = match generate_transfer_proofs(setup.amount, &setup.sender_confidential.available_balance,
        &setup.sender_confidential.decryptable_available_balance, &setup.elgamal_keypair,
        &setup.aes_key, &setup.recipient_elgamal_pubkey, &setup.auditor_elgamal_pubkey) {
        Some(p) => p,
        None => return Some(Err(AppError::TokenError)),
    };
    let blockhash = match parse_latest_blockhash(&request.latest_blockhash) {
        Ok(h) => h,
        Err(e) => return Some(Err(e)),
    };
    let priority_fee = parse_priority_fee(request.priority_fee.as_str());
    if priority_fee > u64::MAX / 1_000_000 {
        return None;
    }
    let ghost sv = setup@;
    assert(auditor_view(setup.auditor_elgamal_pubkey) == sv.auditor_elgamal_pubkey);
    let res = build_transfer_transactions(&setup, &proofs, &equality, &validity, &range, &blockhash, priority_fee);
    assert(transfer_outcome(sv, proofs.equality@, proofs.ciphertext_validity@,
        proofs.ciphertext_lo@, proofs.ciphertext_hi@, proofs.range@, equality@, validity@,
        range@, blockhash@, priority_fee, strings_result_view(res)));
    if let Ok(v) = &res {
        let ghost texts = strings_view(v@);
        let ghost (sigs, nb) = choose|sigs: Seq<Seq<u8>>, nb: Seq<u8>| #[trigger] transfer_transactions_hold(sv, texts,
            proofs.equality@, proofs.ciphertext_validity@, proofs.ciphertext_lo@, proofs.ciphertext_hi@,
            proofs.range@, equality@, validity@, range@, blockhash@, priority_fee, sigs, nb);
        assert(transfer_transactions_hold(sv, texts, proofs.equality@, proofs.ciphertext_validity@,
            proofs.ciphertext_lo@, proofs.ciphertext_hi@, proofs.range@, equality@, validity@, range@, blockhash@,
            priority_fee, sigs, nb));
        assert(sv == spec_transfer_setup(request@)->Ok_0);
        assert(blockhash@ == hash_from_str(request@.latest_blockhash)->0);
        assert(transfer_proofs_fit(sv.amount, sv.auditor_elgamal_pubkey, proofs.equality@, proofs.ciphertext_validity@,
            proofs.ciphertext_lo@, proofs.ciphertext_hi@, proofs.range@));
        let ghost so = spec_transfer_setup(request@)->Ok_0;
        let ghost h = hash_from_str(request@.latest_blockhash)->0;
        let ghost fee = priority_fee_value(request@.priority_fee);
        assert(transfer_proofs_fit(so.amount, so.auditor_elgamal_pubkey, proofs.equality@, proofs.ciphertext_validity@,
            proofs.ciphertext_lo@, proofs.ciphertext_hi@, proofs.range@) && transfer_transactions_hold(so, texts,
            proofs.equality@, proofs.ciphertext_validity@, proofs.ciphertext_lo@, proofs.ciphertext_hi@,
            proofs.range@, equality@, validity@, range@, h, fee, sigs, nb));
        assert(transfer_cb_holds(request@, texts));
        assert(audits_to(v@[3]@, proofs.ciphertext_lo@, proofs.ciphertext_hi@, sv.sender_token_account, sv.mint,
            sv.recipient_token_account));
        proof {
            if sv.auditor_elgamal_pubkey is Some && sv.amount < 0x1_0000_0000_0000 {
                let k = sv.auditor_elgamal_pubkey->0;
                assert forall|sig: Seq<u8>| #[trigger] auditor_signature_for(sig, k) implies spec_audit_transaction(
                    encode_utf8(v@[3]@), sig) == Some(Ok::<AuditReportView, AppError>(AuditReportView {
                    amount: sv.amount,
                    sender: address_text(sv.sender_token_account),
                    receiver: address_text(sv.mint),
                })) by {
                    law_transfer_audits_to_amount(v@[3]@, proofs.ciphertext_lo@, proofs.ciphertext_hi@,
                        sv.sender_token_account, sv.mint, sv.recipient_token_account, sv.amount, k, sig);
                }
            }
        }
    }
    Some(res)
}

} // verus!

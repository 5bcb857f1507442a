//! Building the transaction that moves public tokens into a confidential
//! balance.
use vstd::prelude::*;
use vstd::utf8::encode_utf8;
use crate::error::AppError;
use crate::keys::{Address, addresses_view, parse_latest_blockhash, hash_from_str};
use crate::codec::{base64_decode, base64_decoded, base64_encode, base64_encoded, parse_u64, u64_from_decimal};
use crate::wire::{
    AccountMetaView, Instruction, to_sdk_pubkey, from_sdk_instruction, InstructionView, compile_v0_message,
    compiled_v0_message, instructions_view, le_bytes, placeholder_signatures,
    placeholder_signatures_view, serialize_transaction, serialized_transaction, compiled_message_for,
    decoded_transaction, DecodedTransactionView,
};
use crate::audit::{token_2022_id_bytes, token_2022_program_id, CONFIDENTIAL_TRANSFER_EXTENSION_TAG};
use crate::token::{associated_token_account, associated_token_address, unpack_token_account, unpacked_token_account};

verus! {

/// The confidential-transfer instruction code of `Deposit`.
pub const DEPOSIT_INSTRUCTION: u8 = 5;

/// Views of the accounts of a multisig signer list: read-only signers.
pub open spec fn multisig_signer_metas(signers: Seq<Seq<u8>>) -> Seq<AccountMetaView> {
    signers.map_values(|k: Seq<u8>| AccountMetaView { pubkey: k, is_signer: true, is_writable: false })
}

/// The confidential `Deposit` instruction of the token-2022 program: the
/// token account (writable), the mint and the authority (read-only; a signer
/// unless multisig signers are given, which follow as read-only signers), and
/// the data `[27, 5]`, the amount in 8 little-endian bytes and the decimals.
pub open spec fn deposit_instruction_view(
    token_account: Seq<u8>,
    mint: Seq<u8>,
    amount: u64,
    decimals: u8,
    authority: Seq<u8>,
    multisig_signers: Seq<Seq<u8>>,
) -> InstructionView {
    InstructionView {
        program_id: token_2022_id_bytes(),
        accounts: seq![
            AccountMetaView { pubkey: token_account, is_signer: false, is_writable: true },
            AccountMetaView { pubkey: mint, is_signer: false, is_writable: false },
            AccountMetaView { pubkey: authority, is_signer: multisig_signers.len() == 0, is_writable: false },
        ] + multisig_signer_metas(multisig_signers),
        data: seq![CONFIDENTIAL_TRANSFER_EXTENSION_TAG, DEPOSIT_INSTRUCTION] + le_bytes(amount as nat, 8)
            + seq![decimals],
    }
}

/// Builds a confidential `Deposit` instruction.
///
/// Trusted: calls `spl_token_2022::extension::confidential_transfer::
/// instruction::deposit`, whose source refuses any program but token-2022
/// and otherwise encodes the instruction as `deposit_instruction_view` says.
#[verifier::external_body]
pub fn confidential_deposit_instruction(
    token_program: &Address,
    token_account: &Address,
    mint: &Address,
    amount: u64,
    decimals: u8,
    authority: &Address,
    multisig_signers: &Vec<Address>,
) -> (res: Option<Instruction>)
    ensures
        res matches Some(ix) ==> token_program@ == token_2022_id_bytes() && ix@
            == deposit_instruction_view(token_account@, mint@, amount, decimals, authority@,
                addresses_view(multisig_signers@)),
        res is None ==> token_program@ != token_2022_id_bytes(),
{
    let signers: Vec<solana_sdk::pubkey::Pubkey> = multisig_signers.iter().map(to_sdk_pubkey).collect();
    let refs: Vec<&solana_sdk::pubkey::Pubkey> = signers.iter().collect();
    spl_token_2022::extension::confidential_transfer::instruction::deposit(
        &to_sdk_pubkey(token_program), &to_sdk_pubkey(token_account), &to_sdk_pubkey(mint),
        amount, decimals, &to_sdk_pubkey(authority), &refs,
    ).ok().map(from_sdk_instruction)
}

/// A request to deposit public tokens into a confidential balance.
#[derive(Clone, Debug, PartialEq, Eq)]
pub struct DepositCbRequest {
    pub token_account_data: String,
    pub lamport_amount: String,
    pub mint_decimals: u8,
    pub latest_blockhash: String,
}

/// What depositing gives: the base64 wire form of a version-0 transaction,
/// paid for and authorised by the token account's owner, with one all-zero
/// signature per required signer and a single confidential `Deposit` into
/// the owner's associated token account for the mint.
pub open spec fn spec_deposit_cb(
    token_account_data: Seq<u8>,
    lamport_amount: Seq<char>,
    mint_decimals: u8,
    latest_blockhash: Seq<u8>,
) -> Result<Seq<char>, AppError> {
    match base64_decoded(token_account_data) {
        None => Err(AppError::Base64Error),
        Some(data) => match unpacked_token_account(data) {
            None => Err(AppError::ProgramError),
            Some(account) => match u64_from_decimal(lamport_amount) {
                None => Err(AppError::InvalidAmount),
                Some(amount) => {
                    let ix = requested_deposit_instruction(token_account_data, lamport_amount, mint_decimals);
                    match hash_from_str(latest_blockhash) {
                        None => Err(AppError::SerializationError),
                        Some(hash) => match compiled_v0_message(account.owner, seq![ix], hash) {
                            None => Err(AppError::SerializationError),
                            Some(msg) => match serialized_transaction(
                                placeholder_signatures_view(msg.header.num_required_signatures as nat), msg) {
                                None => Err(AppError::SerializationError),
                                Some(bytes) => Ok(base64_encoded(bytes)),
                            },
                        },
                    }
                },
            },
        },
    }
}

/// The deposit instruction that a request asks for, once its account data
/// and amount have been read: into the owner's associated token account for
/// the mint, authorised by the owner (who is also listed as the one multisig
/// signer, as the request handler passes it).
pub open spec fn requested_deposit_instruction(
    token_account_data: Seq<u8>,
    lamport_amount: Seq<char>,
    mint_decimals: u8,
) -> InstructionView {
    let account = unpacked_token_account(base64_decoded(token_account_data)->0)->0;
    let ata = associated_token_address(account.owner, account.mint, token_2022_id_bytes());
    deposit_instruction_view(ata, account.mint, u64_from_decimal(lamport_amount)->0, mint_decimals, account.owner,
        seq![account.owner])
}

/// The payer of a requested deposit: the token account's owner.
pub open spec fn requested_deposit_payer(token_account_data: Seq<u8>) -> Seq<u8> {
    unpacked_token_account(base64_decoded(token_account_data)->0)->0.owner
}

/// Whether base64 text holds a version-0 transaction with one all-zero
/// signature per required signer and a message that compiles the single
/// given instruction, paid for by `payer`, with the given block hash.
pub open spec fn holds_unsigned_transaction(text: Seq<char>, ix: InstructionView, payer: Seq<u8>, blockhash: Seq<u8>) -> bool {
    &&& base64_decoded(encode_utf8(text)) is Some
    &&& decoded_transaction(base64_decoded(encode_utf8(text))->0) matches DecodedTransactionView::V0 { signatures, message }
        && signatures == placeholder_signatures_view(message.header.num_required_signatures as nat)
        && compiled_message_for(message, payer, seq![ix], blockhash)
}

/// Builds the transaction that deposits `lamport_amount` tokens of a token
/// account into its confidential balance, ready for the owner's wallet to
/// sign. What it returns reads back as that transaction.
pub fn deposit_cb(request: &DepositCbRequest) -> (res: Result<String, AppError>)
    ensures
        match spec_deposit_cb(encode_utf8(request.token_account_data@), request.lamport_amount@,
            request.mint_decimals, encode_utf8(request.latest_blockhash@)) {
            Ok(text) => res matches Ok(s) && s@ == text,
            Err(e) => res == Err::<String, AppError>(e),
        },
        res matches Ok(t) ==> holds_unsigned_transaction(t@, requested_deposit_instruction(
            encode_utf8(request.token_account_data@), request.lamport_amount@, request.mint_decimals),
            requested_deposit_payer(encode_utf8(request.token_account_data@)),
            hash_from_str(encode_utf8(request.latest_blockhash@))->0),
{
    let data = match base64_decode(request.token_account_data.as_str()) {
        Some(d) => d,
        None => return Err(AppError::Base64Error),
    };
    let account = match unpack_token_account(data) {
        Some(a) => a,
        None => return Err(AppError::ProgramError),
    };
    let amount = match parse_u64(request.lamport_amount.as_str()) {
        Some(a) => a,
        None => return Err(AppError::InvalidAmount),
    };
    let token_program = token_2022_program_id();
    let depositor_token_account = associated_token_account(&account.owner, &account.mint, &token_program);
    let mut signers: Vec<Address> = Vec::new();
    signers.push(account.owner);
    assert(addresses_view(signers@) =~= seq![account.owner@]);
    let deposit_ix = match confidential_deposit_instruction(&token_program, &depositor_token_account,
        &account.mint, amount, request.mint_decimals, &account.owner, &signers) {
        Some(ix) => ix,
        None => return Err(AppError::ProgramError),
    };
    let blockhash = parse_latest_blockhash(&request.latest_blockhash)?;
    let mut instructions: Vec<Instruction> = Vec::new();
    instructions.push(deposit_ix);
    assert(instructions_view(instructions@) =~= seq![deposit_ix@]);
    let message = match compile_v0_message(&account.owner, &instructions, &blockhash) {
        Some(m) => m,
        None => return Err(AppError::SerializationError),
    };
    let signatures = placeholder_signatures(message.header.num_required_signatures);
    let bytes = match serialize_transaction(&signatures, &message) {
        Some(b) => b,
        None => return Err(AppError::SerializationError),
    };
    let text = base64_encode(bytes.as_slice());
    assert(holds_unsigned_transaction(text@, deposit_ix@, account.owner@, blockhash@));
    Ok(text)
}

} // verus!

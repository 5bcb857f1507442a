use base64::engine::general_purpose::STANDARD;
use base64::Engine;
use cb_backend::audit::{audit_transaction_cb, AuditTransactionRequest};
use cb_backend::balance::{decrypt_cb, DecryptCbRequest};
use cb_backend::deposit::{deposit_cb, DepositCbRequest};
use cb_backend::error::AppError;
use cb_backend::space::transfer_cb_space;
use cb_backend::transfer::{transfer_cb, TransferCbRequest};
use solana_sdk::message::VersionedMessage;
use solana_sdk::pubkey::Pubkey;
use solana_sdk::signature::{Keypair, Signature, Signer};
use solana_sdk::transaction::VersionedTransaction;
use solana_zk_sdk::encryption::auth_encryption::AeKey;
use solana_zk_sdk::encryption::elgamal::ElGamalKeypair;
use solana_zk_sdk::encryption::pod::elgamal::PodElGamalPubkey;
use spl_token_2022::extension::confidential_transfer::{ConfidentialTransferAccount, ConfidentialTransferMint};
use spl_token_2022::extension::{BaseStateWithExtensionsMut, ExtensionType, StateWithExtensionsMut};
use spl_token_2022::state::{Account, AccountState, Mint};
use solana_zk_sdk::zk_elgamal_proof_program::proof_data::{
    BatchedGroupedCiphertext3HandlesValidityProofContext, BatchedRangeProofU128Data, CiphertextCommitmentEqualityProofContext,
};
use solana_zk_sdk::zk_elgamal_proof_program::state::ProofContextState;

struct Holder {
    owner: Pubkey,
    elgamal_signature: Signature,
    aes_signature: Signature,
    elgamal: ElGamalKeypair,
    aes: AeKey,
}

fn holder() -> Holder {
    let wallet = Keypair::new();
    let elgamal_signature = wallet.sign_message(b"ElGamalSecretKey");
    let aes_signature = wallet.sign_message(b"AeKey");
    Holder {
        owner: wallet.pubkey(),
        elgamal: ElGamalKeypair::new_from_signature(&elgamal_signature).unwrap(),
        aes: AeKey::new_from_signature(&aes_signature).unwrap(),
        elgamal_signature,
        aes_signature,
    }
}

fn b64(bytes: &[u8]) -> String {
    STANDARD.encode(bytes)
}

fn token_account(mint: &Pubkey, h: &Holder, balance: u64) -> String {
    let space = ExtensionType::try_calculate_account_len::<Account>(&[ExtensionType::ConfidentialTransferAccount]).unwrap();
    let mut data = vec![0u8; space];
    let mut state = StateWithExtensionsMut::<Account>::unpack_uninitialized(&mut data).unwrap();
    state.base = Account { mint: *mint, owner: h.owner, state: AccountState::Initialized, ..Account::default() };
    state.pack_base();
    state.init_account_type().unwrap();
    let ext = state.init_extension::<ConfidentialTransferAccount>(true).unwrap();
    ext.approved = true.into();
    ext.elgamal_pubkey = (*h.elgamal.pubkey()).into();
    ext.available_balance = h.elgamal.pubkey().encrypt(balance).into();
    ext.decryptable_available_balance = h.aes.encrypt(balance).into();
    ext.allow_confidential_credits = true.into();
    b64(&data)
}

fn mint_account(auditor: Option<&ElGamalKeypair>) -> String {
    let space = ExtensionType::try_calculate_account_len::<Mint>(&[ExtensionType::ConfidentialTransferMint]).unwrap();
    let mut data = vec![0u8; space];
    let mut state = StateWithExtensionsMut::<Mint>::unpack_uninitialized(&mut data).unwrap();
    state.base = Mint { decimals: 6, is_initialized: true, ..Mint::default() };
    state.pack_base();
    state.init_account_type().unwrap();
    let ext = state.init_extension::<ConfidentialTransferMint>(true).unwrap();
    ext.auditor_elgamal_pubkey = auditor.map(|k| PodElGamalPubkey::from(*k.pubkey())).try_into().unwrap();
    b64(&data)
}

fn decode_tx(text: &str) -> VersionedTransaction {
    bincode::deserialize(&STANDARD.decode(text).unwrap()).unwrap()
}

#[test]
fn decrypt_reads_the_available_balance() {
    let mint = Pubkey::new_unique();
    let h = holder();
    let request = DecryptCbRequest {
        aes_signature: b64(h.aes_signature.as_ref()),
        token_account_data: token_account(&mint, &h, 1234),
    };
    assert_eq!(decrypt_cb(&request), Ok(1234));
}

#[test]
fn decrypt_errors() {
    let mint = Pubkey::new_unique();
    let h = holder();
    let other = holder();
    let data = token_account(&mint, &h, 5);
    let req = |sig: String, data: String| DecryptCbRequest { aes_signature: sig, token_account_data: data };
    assert_eq!(decrypt_cb(&req("!!".to_string(), data.clone())), Err(AppError::Base64Error));
    assert_eq!(decrypt_cb(&req(b64(&[1u8; 10]), data.clone())), Err(AppError::SerializationError));
    assert_eq!(decrypt_cb(&req(b64(h.aes_signature.as_ref()), "!!".to_string())), Err(AppError::Base64Error));
    assert_eq!(decrypt_cb(&req(b64(h.aes_signature.as_ref()), b64(&[1, 2, 3]))), Err(AppError::ProgramError));
    assert_eq!(decrypt_cb(&req(b64(other.aes_signature.as_ref()), data)), Err(AppError::SerializationError));
}

#[test]
fn deposit_builds_an_unsigned_deposit() {
    let mint = Pubkey::new_unique();
    let h = holder();
    let blockhash = solana_sdk::hash::Hash::new_unique();
    let request = DepositCbRequest {
        token_account_data: token_account(&mint, &h, 0),
        lamport_amount: "1500".to_string(),
        mint_decimals: 6,
        latest_blockhash: blockhash.to_string(),
    };
    let tx = decode_tx(&deposit_cb(&request).unwrap());
    let VersionedMessage::V0(message) = &tx.message else { panic!("expected a version-0 message") };
    assert_eq!(message.recent_blockhash, blockhash);
    assert_eq!(message.account_keys[0], h.owner);
    assert_eq!(tx.signatures.len(), message.header.num_required_signatures as usize);
    assert!(tx.signatures.iter().all(|s| *s == Signature::default()));
    assert_eq!(message.instructions.len(), 1);
    let ix = &message.instructions[0];
    assert_eq!(message.account_keys[ix.program_id_index as usize], spl_token_2022::id());
    let mut data = vec![27u8, 5];
    data.extend_from_slice(&1500u64.to_le_bytes());
    data.push(6);
    assert_eq!(ix.data, data);
    let ata = spl_associated_token_account::get_associated_token_address_with_program_id(&h.owner, &mint, &spl_token_2022::id());
    assert_eq!(message.account_keys[ix.accounts[0] as usize], ata);
}

#[test]
fn deposit_errors() {
    let mint = Pubkey::new_unique();
    let h = holder();
    let good = DepositCbRequest {
        token_account_data: token_account(&mint, &h, 0),
        lamport_amount: "1".to_string(),
        mint_decimals: 6,
        latest_blockhash: solana_sdk::hash::Hash::new_unique().to_string(),
    };
    let with = |f: &dyn Fn(&mut DepositCbRequest)| {
        let mut r = good.clone();
        f(&mut r);
        deposit_cb(&r)
    };
    assert_eq!(with(&|r| r.token_account_data = "@@".to_string()), Err(AppError::Base64Error));
    assert_eq!(with(&|r| r.token_account_data = b64(&[0u8; 10])), Err(AppError::ProgramError));
    assert_eq!(with(&|r| r.lamport_amount = "1.0".to_string()), Err(AppError::InvalidAmount));
    assert_eq!(with(&|r| r.latest_blockhash = "xyz!".to_string()), Err(AppError::SerializationError));
}

fn transfer_request(mint: &Pubkey, sender: &Holder, recipient: &Holder, auditor: Option<&ElGamalKeypair>, amount: &str, fee: &str) -> TransferCbRequest {
    TransferCbRequest {
        amount: amount.to_string(),
        equality_proof_rent: "1000".to_string(),
        ciphertext_validity_proof_rent: "2000".to_string(),
        range_proof_rent: "3000".to_string(),
        sender_token_account: token_account(mint, sender, 1000),
        recipient_token_account: token_account(mint, recipient, 0),
        mint_token_account: mint_account(auditor),
        elgamal_signature: b64(sender.elgamal_signature.as_ref()),
        aes_signature: b64(sender.aes_signature.as_ref()),
        latest_blockhash: solana_sdk::hash::Hash::new_unique().to_string(),
        priority_fee: fee.to_string(),
    }
}

#[test]
fn transfer_then_audit_recovers_the_amount() {
    let mint = Pubkey::new_unique();
    let (sender, recipient, auditor) = (holder(), holder(), holder());
    let request = transfer_request(&mint, &sender, &recipient, Some(&auditor.elgamal), "300", "0");
    let txs = transfer_cb(&request).unwrap().unwrap();
    assert_eq!(txs.len(), 5);
    let setup = decode_tx(&txs[0]);
    let VersionedMessage::V0(m1) = &setup.message else { panic!("expected a version-0 message") };
    assert_eq!(m1.instructions.len(), 3);
    assert_eq!(setup.signatures.len(), m1.header.num_required_signatures as usize);
    assert_eq!(m1.header.num_required_signatures, 4);
    assert_eq!(m1.account_keys[0], sender.owner);
    assert_eq!(setup.signatures[0], Signature::default());
    for tx in &txs[1..] {
        assert_eq!(decode_tx(tx).signatures, vec![Signature::default()]);
    }
    let VersionedMessage::V0(m2) = decode_tx(&txs[1]).message else { panic!("expected a version-0 message") };
    assert_eq!(m2.instructions[0].data.len(), 1 + 1000);
    let VersionedMessage::V0(m3) = decode_tx(&txs[2]).message else { panic!("expected a version-0 message") };
    assert_eq!((m3.instructions[0].data.len(), m3.instructions[1].data.len()), (1 + 320, 1 + 544));
    let report = audit_transaction_cb(&AuditTransactionRequest {
        transaction_signature: "sig".to_string(),
        transaction_data: txs[3].clone(),
        elgamal_signature: b64(auditor.elgamal_signature.as_ref()),
    }).unwrap().unwrap();
    assert_eq!(report.amount, 300);
    let mut padded = STANDARD.decode(&txs[3]).unwrap();
    padded.extend_from_slice(&[7u8; 13]);
    let again = audit_transaction_cb(&AuditTransactionRequest {
        transaction_signature: "sig".to_string(),
        transaction_data: b64(&padded),
        elgamal_signature: b64(auditor.elgamal_signature.as_ref()),
    }).unwrap().unwrap();
    assert_eq!(again, report);
    let sender_ata = spl_associated_token_account::get_associated_token_address_with_program_id(&sender.owner, &mint, &spl_token_2022::id());
    assert_eq!(report.sender, sender_ata.to_string());
    assert_eq!(report.receiver, mint.to_string());
}

#[test]
fn balance_after_transfer_decrypts_to_the_difference() {
    let mint = Pubkey::new_unique();
    let (sender, recipient) = (holder(), holder());
    let request = transfer_request(&mint, &sender, &recipient, None, "300", "0");
    let txs = transfer_cb(&request).unwrap().unwrap();
    let VersionedMessage::V0(m4) = decode_tx(&txs[3]).message else { panic!("expected a version-0 message") };
    let new_balance: [u8; 36] = m4.instructions[0].data[2..38].try_into().unwrap();
    let mut data = STANDARD.decode(&request.sender_token_account).unwrap();
    let mut state = StateWithExtensionsMut::<Account>::unpack(&mut data).unwrap();
    let ext = state.get_extension_mut::<ConfidentialTransferAccount>().unwrap();
    ext.decryptable_available_balance = solana_zk_sdk::encryption::pod::auth_encryption::PodAeCiphertext::from(new_balance);
    let before = decrypt_cb(&DecryptCbRequest {
        aes_signature: request.aes_signature.clone(),
        token_account_data: request.sender_token_account.clone(),
    });
    let after = decrypt_cb(&DecryptCbRequest { aes_signature: request.aes_signature.clone(), token_account_data: b64(&data) });
    assert_eq!((before, after), (Ok(1000), Ok(700)));
}

#[test]
fn transfer_with_priority_fee_asks_for_compute_units() {
    let mint = Pubkey::new_unique();
    let (sender, recipient) = (holder(), holder());
    let request = transfer_request(&mint, &sender, &recipient, None, "10", "10");
    let txs = transfer_cb(&request).unwrap().unwrap();
    let VersionedMessage::V0(m1) = decode_tx(&txs[0]).message else { panic!("expected a version-0 message") };
    assert_eq!(m1.instructions.len(), 5);
    assert_eq!(m1.instructions[1].data, vec![3, 50, 0, 0, 0, 0, 0, 0, 0]);
}

#[test]
fn transfer_errors() {
    let mint = Pubkey::new_unique();
    let (sender, recipient) = (holder(), holder());
    let good = transfer_request(&mint, &sender, &recipient, None, "10", "0");
    let with = |f: &dyn Fn(&mut TransferCbRequest)| {
        let mut r = good.clone();
        f(&mut r);
        transfer_cb(&r).unwrap()
    };
    assert_eq!(with(&|r| r.amount = "ten".to_string()), Err(AppError::InvalidAmount));
    assert_eq!(with(&|r| r.range_proof_rent = "-1".to_string()), Err(AppError::SerializationError));
    assert_eq!(with(&|r| r.sender_token_account = "%".to_string()), Err(AppError::Base64Error));
    assert_eq!(with(&|r| r.recipient_token_account = b64(&[1u8; 8])), Err(AppError::ProgramError));
    let other_mint = Pubkey::new_unique();
    assert_eq!(with(&|r| r.recipient_token_account = token_account(&other_mint, &recipient, 0)), Err(AppError::MintMismatch));
    assert_eq!(with(&|r| r.elgamal_signature = b64(&[1u8; 3])), Err(AppError::SerializationError));
    assert_eq!(with(&|r| r.aes_signature = "*".to_string()), Err(AppError::Base64Error));
    assert_eq!(with(&|r| r.latest_blockhash = "bad!".to_string()), Err(AppError::SerializationError));
    assert_eq!(with(&|r| r.amount = "5000".to_string()), Err(AppError::TokenError));
}

#[test]
fn transfer_fee_too_large_for_its_price() {
    let mint = Pubkey::new_unique();
    let (sender, recipient) = (holder(), holder());
    let huge = (u64::MAX / 1_000_000 + 1).to_string();
    let request = transfer_request(&mint, &sender, &recipient, None, "10", &huge);
    assert_eq!(transfer_cb(&request), None);
    let mut bad_amount = request.clone();
    bad_amount.amount = "x".to_string();
    assert_eq!(transfer_cb(&bad_amount), Some(Err(AppError::InvalidAmount)));
    let mut too_much = request.clone();
    too_much.amount = "5000".to_string();
    assert_eq!(transfer_cb(&too_much), Some(Err(AppError::TokenError)));
    let fits = transfer_request(&mint, &sender, &recipient, None, "10", &(u64::MAX / 1_000_000).to_string());
    assert_eq!(transfer_cb(&fits).unwrap().unwrap().len(), 5);
}

#[test]
fn audit_errors() {
    let auditor = holder();
    let sig = b64(auditor.elgamal_signature.as_ref());
    let audit = |data: String, sig: String| audit_transaction_cb(&AuditTransactionRequest {
        transaction_signature: String::new(),
        transaction_data: data,
        elgamal_signature: sig,
    });
    assert_eq!(audit("!".to_string(), sig.clone()), Some(Err(AppError::Base64Error)));
    assert_eq!(audit(b64(&[0]), "!".to_string()), Some(Err(AppError::InvalidAuditorSignature)));
    assert_eq!(audit(b64(&[0]), b64(&[1u8; 63])), Some(Err(AppError::InvalidAuditorSignature)));
    assert_eq!(audit(b64(&[0xff; 3]), sig.clone()), Some(Err(AppError::SerializationError)));
    let payer = Pubkey::new_unique();
    let memo = solana_sdk::instruction::Instruction::new_with_bytes(Pubkey::new_unique(), &[1, 2], vec![]);
    let message = solana_sdk::message::v0::Message::try_compile(&payer, &[memo], &[], solana_sdk::hash::Hash::default()).unwrap();
    let tx = VersionedTransaction { signatures: vec![Signature::default()], message: VersionedMessage::V0(message) };
    assert_eq!(audit(b64(&bincode::serialize(&tx).unwrap()), sig.clone()), Some(Err(AppError::NoConfidentialTransferFound)));
    let short = solana_sdk::instruction::Instruction::new_with_bytes(spl_token_2022::id(),
        &[27, 7, 0], vec![solana_sdk::instruction::AccountMeta::new(payer, true); 3]);
    let message = solana_sdk::message::v0::Message::try_compile(&payer, &[short], &[], solana_sdk::hash::Hash::default()).unwrap();
    let tx = VersionedTransaction { signatures: vec![Signature::default()], message: VersionedMessage::V0(message) };
    assert_eq!(audit(b64(&bincode::serialize(&tx).unwrap()), sig.clone()), Some(Err(AppError::InvalidInstructionData)));
    let mut message = solana_sdk::message::v0::Message::try_compile(&payer, &[], &[], solana_sdk::hash::Hash::default()).unwrap();
    message.instructions.push(solana_sdk::instruction::CompiledInstruction { program_id_index: 9, accounts: vec![], data: vec![] });
    let tx = VersionedTransaction { signatures: vec![Signature::default()], message: VersionedMessage::V0(message) };
    assert_eq!(audit(b64(&bincode::serialize(&tx).unwrap()), sig), None);
}

#[test]
fn space_matches_proof_context_sizes() {
    let space = transfer_cb_space();
    assert_eq!(space.equality_proof_space, std::mem::size_of::<ProofContextState<CiphertextCommitmentEqualityProofContext>>());
    assert_eq!(space.ciphertext_validity_proof_space, std::mem::size_of::<ProofContextState<BatchedGroupedCiphertext3HandlesValidityProofContext>>());
    assert_eq!(space.range_proof_space, std::mem::size_of::<ProofContextState<BatchedRangeProofU128Data>>());
    assert_eq!((space.equality_proof_space, space.ciphertext_validity_proof_space, space.range_proof_space), (161, 385, 1033));
}

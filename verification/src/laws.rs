//! Properties that hold across the service's operations.
use vstd::prelude::*;
use vstd::utf8::encode_utf8;
use crate::error::AppError;
use crate::wire::{InstructionView, MessageV0View, compiles_instructions};
use crate::audit::{
    TransferCiphertextsView, lookups_in_bounds, spec_transfer_ciphertexts, elgamal_ciphertext_valid,
    is_first_confidential_transfer, is_confidential_transfer_at, lemma_first_unique, none_before,
    program_index_in_range, };
use crate::keys::address_text;
use crate::audit::{spec_audit_transaction, spec_audit_ciphertexts, spec_extract_confidential_transfer,
    AuditReportView, elgamal_keypair_of, elgamal_decrypted_u32, lemma_combined_amount_exact, spec_combined_amount};
use crate::codec::{base64_decoded, bs58_decoded};
use crate::keys::spec_base64_base58_pubkey;
use crate::proofs::{encrypts_amount_for_auditor, derives_keypair_for, transfer_proofs_fit};
use crate::wire::decoded_transaction;
use crate::balance::spec_decrypt_cb;
use crate::token::{unpacked_token_account, TokenAccountView, ae_key_of, ae_decrypted, associated_token_address};
use crate::deposit::{requested_deposit_instruction, holds_unsigned_transaction};
use crate::codec::u64_from_decimal;
use crate::wire::{le_bytes, lemma_le_bytes_len, compiled_message_for, compiles_instruction};
use crate::proofs::{verify_proof_view, RANGE_PROOF, EQUALITY_PROOF, CIPHERTEXT_VALIDITY_PROOF};
use crate::audit::token_2022_id_bytes;
use crate::keys::hash_from_str;
use crate::transfer::{
    audits_to, auditor_signature_for, transfer_cb_holds, transfer_new_balance, transfer_transactions_hold,
    TransferCbRequestView, spec_transfer_setup, compute_budget_id_bytes, priority_fee_value, transfer_setup_instructions,
    COMPUTE_UNIT_LIMIT, compute_unit_limit_view, compute_unit_price, compute_unit_price_view, max_priority_fee,
    setup_instructions_view, spec_transfer_transactions, transfer_instruction_view, TransferSetupView,
};

verus! {

/// A priority fee buys five micro-lamports per compute unit for each
/// lamport: `fee * 1_000_000 / 200_000 == fee * 5`.
pub proof fn law_compute_unit_price(priority_fee: u64)
    requires
        priority_fee <= max_priority_fee(),
    ensures
        compute_unit_price(priority_fee) == priority_fee * 5,
{
    assert(priority_fee * 1_000_000 / 200_000 == priority_fee * 5) by (nonlinear_arith);
}

/// The first transaction of a transfer asks for compute units exactly when
/// there is a priority fee, and then first sets the limit to 200 000 units and
/// the price that the fee buys; the creation of the three proof accounts
/// always follows, range first.
pub proof fn law_setup_instructions(
    priority_fee: u64,
    range_create: InstructionView,
    equality_create: InstructionView,
    validity_create: InstructionView,
)
    requires
        priority_fee <= max_priority_fee(),
    ensures
        priority_fee == 0 ==> setup_instructions_view(priority_fee, range_create, equality_create, validity_create)
            == seq![range_create, equality_create, validity_create],
        priority_fee > 0 ==> setup_instructions_view(priority_fee, range_create, equality_create, validity_create)
            == seq![compute_unit_limit_view(COMPUTE_UNIT_LIMIT), compute_unit_price_view((priority_fee * 5) as u64),
                range_create, equality_create, validity_create],
{
    law_compute_unit_price(priority_fee);
    let v = setup_instructions_view(priority_fee, range_create, equality_create, validity_create);
    if priority_fee == 0 {
        assert(v =~= seq![range_create, equality_create, validity_create]);
    } else {
        assert(v =~= seq![compute_unit_limit_view(COMPUTE_UNIT_LIMIT),
            compute_unit_price_view((priority_fee * 5) as u64), range_create, equality_create, validity_create]);
    }
}

/// A transfer that is built at all is built as five transactions.
pub proof fn law_transfer_has_five_transactions(
    s: TransferSetupView,
    equality_proof: Seq<u8>,
    validity_proof: Seq<u8>,
    ciphertext_lo: Seq<u8>,
    ciphertext_hi: Seq<u8>,
    range_proof: Seq<u8>,
    equality: Seq<u8>,
    validity: Seq<u8>,
    range: Seq<u8>,
    blockhash: Seq<u8>,
    priority_fee: u64,
    setup_signatures: Option<Seq<Seq<u8>>>,
    new_balance: Option<Seq<u8>>,
)
    ensures
        spec_transfer_transactions(s, equality_proof, validity_proof, ciphertext_lo, ciphertext_hi, range_proof,
            equality, validity, range, blockhash, priority_fee, setup_signatures, new_balance) matches Ok(v)
            ==> v.len() == 5,
{
}

/// Auditing a message that holds the transfer instruction this service
/// builds reads back the auditor ciphertexts that the instruction carries
/// (refusing them only where they are not valid ciphertexts).
/// The audit reports the instruction's first three accounts in order, so
/// what it calls the sender is the source account, what it calls the
/// recipient is the mint, and what it calls the mint is the destination.
pub proof fn law_audit_reads_transfer_ciphertexts(
    m: MessageV0View,
    source: Seq<u8>,
    mint: Seq<u8>,
    destination: Seq<u8>,
    new_balance: Seq<u8>,
    ciphertext_lo: Seq<u8>,
    ciphertext_hi: Seq<u8>,
    authority: Seq<u8>,
    equality: Seq<u8>,
    validity: Seq<u8>,
    range: Seq<u8>,
)
    requires
        compiles_instructions(m, seq![transfer_instruction_view(source, mint, destination, new_balance, ciphertext_lo,
            ciphertext_hi, authority, equality, validity, range)]),
        new_balance.len() == 36,
        ciphertext_lo.len() == 64,
        ciphertext_hi.len() == 64,
    ensures
        lookups_in_bounds(m),
        spec_transfer_ciphertexts(m) == (if elgamal_ciphertext_valid(ciphertext_lo) && elgamal_ciphertext_valid(
            ciphertext_hi) {
            Ok::<TransferCiphertextsView, AppError>(TransferCiphertextsView {
                ciphertext_lo,
                ciphertext_hi,
                sender: source,
                recipient: mint,
                mint: destination,
            })
        } else {
            Err(AppError::ElGamalError)
        }),
{
    let t = transfer_instruction_view(source, mint, destination, new_balance, ciphertext_lo, ciphertext_hi,
        authority, equality, validity, range);
    let ci = m.instructions[0];
    assert(seq![t][0] == t);
    assert(ci.data == t.data);
    assert(t.data.len() == 169);
    assert(t.data[0] == 27u8);
    assert(is_confidential_transfer_at(m, 0));
    assert(is_first_confidential_transfer(m, 0));
    lemma_first_unique(m, 0);
    assert(t.accounts.len() == 7);
    assert(ci.accounts.len() == 7);
    assert forall|a: int| 0 <= a < 3 implies (#[trigger] m.instructions[0].accounts[a] as int) < m.account_keys.len() by {
    }
    assert forall|j: int| #[trigger] is_first_confidential_transfer(m, j) implies j == 0 by {
        lemma_first_unique(m, j);
    }
    assert(t.data.subrange(38, 102) =~= ciphertext_lo);
    assert(t.data.subrange(102, 166) =~= ciphertext_hi);
    assert(m.account_keys[ci.accounts[0] as int] == source);
    assert(m.account_keys[ci.accounts[1] as int] == mint);
    assert(m.account_keys[ci.accounts[2] as int] == destination);
}

/// Auditing a transaction whose confidential transfer carries valid
/// auditor ciphertexts of an amount (whose higher bits fit in 32 bits), with
/// any signature that derives the auditor's keypair, gives back that amount,
/// reported with the transfer's source as sender and its mint as receiver.
pub proof fn law_transfer_audits_to_amount(
    text: Seq<char>,
    ciphertext_lo: Seq<u8>,
    ciphertext_hi: Seq<u8>,
    source: Seq<u8>,
    mint: Seq<u8>,
    destination: Seq<u8>,
    amount: u64,
    auditor: Seq<u8>,
    signature: Seq<u8>,
)
    requires
        audits_to(text, ciphertext_lo, ciphertext_hi, source, mint, destination),
        elgamal_ciphertext_valid(ciphertext_lo),
        elgamal_ciphertext_valid(ciphertext_hi),
        encrypts_amount_for_auditor(amount, Some(auditor), ciphertext_lo, ciphertext_hi),
        amount < 0x1_0000_0000_0000,
        auditor_signature_for(signature, auditor),
    ensures
        spec_audit_transaction(encode_utf8(text), signature) == Some(Ok::<AuditReportView, AppError>(AuditReportView {
            amount,
            sender: address_text(source),
            receiver: address_text(mint),
        })),
{
    let raw = base64_decoded(signature)->0;
    assert(derives_keypair_for(raw, auditor));
    let kp = elgamal_keypair_of(raw)->0;
    let lo = (amount % 65536) as u64;
    let hi = (amount / 65536) as u64;
    assert(hi < 0x1_0000_0000);
    lemma_combined_amount_exact(lo, hi);
    assert(hi * 65536 + lo == amount);
    let k = Some(auditor)->0;
    assert(k == auditor);
    assert(derives_keypair_for(raw, k));
    assert(elgamal_decrypted_u32(elgamal_keypair_of(raw)->0, ciphertext_lo) == Some((amount % 65536) as u64));
    assert(elgamal_decrypted_u32(kp, ciphertext_lo) == Some(lo));
    assert(elgamal_decrypted_u32(kp, ciphertext_hi) == Some(hi));
    assert(spec_combined_amount(lo, hi) == Some(amount));
    let t = TransferCiphertextsView { ciphertext_lo, ciphertext_hi, sender: source, recipient: mint, mint: destination };
    assert(spec_audit_ciphertexts(kp, t) == Ok::<AuditReportView, AppError>(AuditReportView {
        amount,
        sender: address_text(source),
        receiver: address_text(mint),
    }));
}

/// An address's base58 text, written as base64, reads back as that address.
pub proof fn law_address_text_reads_back(address: Seq<u8>, text: Seq<char>, encoded: Seq<u8>)
    requires
        address.len() == 32,
        bs58_decoded(encode_utf8(text)) == Some(address),
        base64_decoded(encoded) == Some(encode_utf8(text)),
    ensures
        spec_base64_base58_pubkey(encoded) == Ok::<Seq<u8>, AppError>(address),
{
    vstd::utf8::encode_utf8_valid_utf8(text);
}

/// After a transfer, the sender's account data that holds the new
/// decryptable balance of the transfer's fourth transaction decrypts, with
/// the sender's key signature, to the balance before less the amount.
pub proof fn law_decrypt_after_transfer(
    r: TransferCbRequestView,
    texts: Seq<Seq<char>>,
    account_data: Seq<u8>,
    encoded: Seq<u8>,
)
    requires
        transfer_cb_holds(r, texts),
        base64_decoded(encoded) == Some(account_data),
        unpacked_token_account(account_data) matches Some(acc) && acc.confidential matches Some(c)
            && c.decryptable_available_balance == transfer_new_balance(texts[3]),
    ensures
        spec_decrypt_cb(r.aes_signature, r.sender_token_account) matches Ok(before) && spec_decrypt_cb(
            r.aes_signature, encoded) == Ok::<u64, AppError>((before - spec_transfer_setup(r)->Ok_0.amount) as u64),
{
    let s = spec_transfer_setup(r)->Ok_0;
    let h = hash_from_str(r.latest_blockhash)->0;
    let fee = priority_fee_value(r.priority_fee);
    let (eqp, cvp, lo, hi, rp, e, v, rg, sigs, nb) = choose|eqp: Seq<u8>, cvp: Seq<u8>, lo: Seq<u8>, hi: Seq<u8>,
        rp: Seq<u8>, e: Seq<u8>, v: Seq<u8>, rg: Seq<u8>, sigs: Seq<Seq<u8>>, nb: Seq<u8>|
        transfer_proofs_fit(s.amount, s.auditor_elgamal_pubkey, eqp, cvp, lo, hi, rp) && #[trigger]
            transfer_transactions_hold(s, texts, eqp, cvp, lo, hi, rp, e, v, rg, h, fee, sigs, nb);
    assert(transfer_transactions_hold(s, texts, eqp, cvp, lo, hi, rp, e, v, rg, h, fee, sigs, nb));
    let t = transfer_instruction_view(s.sender_token_account, s.mint, s.recipient_token_account, nb, lo, hi,
        s.sender_authority, e, v, rg);
    let m = decoded_transaction(base64_decoded(encode_utf8(texts[3]))->0)->V0_message;
    assert(compiles_instructions(m, seq![t]));
    assert(seq![t][0] == t);
    assert(m.instructions[0].data == t.data);
    assert(t.data.subrange(2, 38) =~= nb);
    assert(transfer_new_balance(texts[3]) == nb);
}

/// The token account that a base64 field of a request holds.
pub open spec fn request_account(field: Seq<u8>) -> TokenAccountView {
    unpacked_token_account(base64_decoded(field)->0)->0
}

/// Decrypting succeeds only for an account that has a confidential-transfer
/// extension, and then gives what its decryptable available balance
/// decrypts to under the key that the signature derives.
pub proof fn law_decrypt_reads_the_extension(aes_signature: Seq<u8>, token_account_data: Seq<u8>)
    ensures
        spec_decrypt_cb(aes_signature, token_account_data) matches Ok(v) ==> {
            &&& base64_decoded(aes_signature) matches Some(raw)
            &&& ae_key_of(raw) matches Some(key)
            &&& base64_decoded(token_account_data) matches Some(data)
            &&& unpacked_token_account(data) matches Some(account)
            &&& account.confidential matches Some(ext)
            &&& ae_decrypted(key, ext.decryptable_available_balance) == Some(v)
        },
        base64_decoded(token_account_data) matches Some(data) && unpacked_token_account(data) matches Some(account)
            && account.confidential is None ==> spec_decrypt_cb(aes_signature, token_account_data) is Err,
{
}

/// The deposit a request asks for is a token-2022 confidential `Deposit`
/// (`[27, 5]`) of the request's amount, in eight little-endian bytes, with
/// the request's mint decimals as its last byte, into the owner's
/// associated token account for the account's mint, authorised by the owner.
pub proof fn law_deposit_carries_request(token_account_data: Seq<u8>, lamport_amount: Seq<char>, mint_decimals: u8)
    ensures
        ({
            let ix = requested_deposit_instruction(token_account_data, lamport_amount, mint_decimals);
            let account = request_account(token_account_data);
            &&& ix.program_id == token_2022_id_bytes()
            &&& ix.data == seq![27u8, 5u8] + le_bytes(u64_from_decimal(lamport_amount)->0 as nat, 8)
                + seq![mint_decimals]
            &&& ix.data.len() == 11
            &&& ix.data[10] == mint_decimals
            &&& ix.accounts[0].pubkey == associated_token_address(account.owner, account.mint, token_2022_id_bytes())
            &&& ix.accounts[1].pubkey == account.mint
            &&& ix.accounts[2].pubkey == account.owner
        }),
{
    lemma_le_bytes_len(u64_from_decimal(lamport_amount)->0 as nat, 8);
}

/// A transfer request that is read moves tokens of the mint that both token
/// accounts share, from the sender's associated token account to the
/// recipient's, authorised by the sender's owner, with the amount and the
/// three proof-account rents that the request gives, each for its own proof.
pub proof fn law_transfer_setup_follows_request(r: TransferCbRequestView)
    requires
        spec_transfer_setup(r) is Ok,
    ensures
        ({
            let s = spec_transfer_setup(r)->Ok_0;
            let sender = request_account(r.sender_token_account);
            let recipient = request_account(r.recipient_token_account);
            &&& s.mint == sender.mint
            &&& s.mint == recipient.mint
            &&& s.sender_authority == sender.owner
            &&& s.sender_token_account == associated_token_address(sender.owner, sender.mint, token_2022_id_bytes())
            &&& s.recipient_token_account == associated_token_address(recipient.owner, recipient.mint,
                token_2022_id_bytes())
            &&& Some(s.amount) == u64_from_decimal(r.amount)
            &&& Some(s.equality_proof_rent) == u64_from_decimal(r.equality_proof_rent)
            &&& Some(s.ciphertext_validity_proof_rent) == u64_from_decimal(r.ciphertext_validity_proof_rent)
            &&& Some(s.range_proof_rent) == u64_from_decimal(r.range_proof_rent)
        }),
{
}

/// The message of a transaction's base64 text.
pub open spec fn tx_message(text: Seq<char>) -> MessageV0View {
    decoded_transaction(base64_decoded(encode_utf8(text))->0)->V0_message
}

/// The key of account `k` of instruction `i` of a message.
pub open spec fn account_key(m: MessageV0View, i: int, k: int) -> Seq<u8> {
    m.account_keys[m.instructions[i].accounts[k] as int]
}

/// The program that instruction `i` of a message calls.
pub open spec fn program_key(m: MessageV0View, i: int) -> Seq<u8> {
    m.account_keys[m.instructions[i].program_id_index as int]
}

/// The five transactions of a transfer follow its request: each is paid for
/// by the sender's owner with the request's block hash; the fourth holds a
/// single token-2022 confidential `Transfer` (`[27, 7]`) from the sender's
/// associated token account, of the shared mint, to the recipient's
/// associated token account, authorised by the sender's owner; the first
/// creates (after the fee's two compute-budget instructions, if any) the
/// range, equality and validity proof accounts, funded by the sender's owner
/// with the rent the request gives for that same proof and sized 297, 161 and
/// 385 bytes, and these are the accounts into which the second transaction
/// verifies the range proof (kind 7) and the third the equality (kind 3) and
/// ciphertext-validity (kind 12) proofs. With a priority fee, the first two
/// instructions set a limit of 200 000 compute units and a price of
/// `fee * 1_000_000 / 200_000` micro-lamports per unit.
pub proof fn law_transfer_transactions_follow_request(r: TransferCbRequestView, texts: Seq<Seq<char>>)
    requires
        transfer_cb_holds(r, texts),
    ensures
        ({
            let sender = request_account(r.sender_token_account);
            let recipient = request_account(r.recipient_token_account);
            let mint = sender.mint;
            let h = hash_from_str(r.latest_blockhash)->0;
            let p: int = if priority_fee_value(r.priority_fee) > 0 { 2 } else { 0 };
            let m1 = tx_message(texts[0]);
            let m2 = tx_message(texts[1]);
            let m3 = tx_message(texts[2]);
            let m4 = tx_message(texts[3]);
            let m5 = tx_message(texts[4]);
            &&& texts.len() == 5
            &&& m1.account_keys[0] == sender.owner && m1.recent_blockhash == h
            &&& m2.account_keys[0] == sender.owner && m2.recent_blockhash == h
            &&& m3.account_keys[0] == sender.owner && m3.recent_blockhash == h
            &&& m4.account_keys[0] == sender.owner && m4.recent_blockhash == h
            &&& m5.account_keys[0] == sender.owner && m5.recent_blockhash == h
            &&& m4.instructions.len() == 1
            &&& program_key(m4, 0) == token_2022_id_bytes()
            &&& m4.instructions[0].data[0] == 27u8 && m4.instructions[0].data[1] == 7u8
            &&& account_key(m4, 0, 0) == associated_token_address(sender.owner, mint, token_2022_id_bytes())
            &&& account_key(m4, 0, 1) == mint && recipient.mint == mint
            &&& account_key(m4, 0, 2) == associated_token_address(recipient.owner, mint, token_2022_id_bytes())
            &&& account_key(m4, 0, 6) == sender.owner
            &&& m1.instructions.len() == p + 3
            &&& m2.instructions.len() == 1 && m2.instructions[0].data[0] == 7u8
            &&& m3.instructions.len() == 2 && m3.instructions[0].data[0] == 3u8 && m3.instructions[1].data[0] == 12u8
            &&& account_key(m1, p, 0) == sender.owner && account_key(m1, p, 1) == account_key(m2, 0, 0)
            &&& m1.instructions[p].data.subrange(4, 12) == le_bytes(u64_from_decimal(r.range_proof_rent)->0 as nat, 8)
            &&& m1.instructions[p].data.subrange(12, 20) == le_bytes(297, 8)
            &&& account_key(m1, p + 1, 0) == sender.owner && account_key(m1, p + 1, 1) == account_key(m3, 0, 0)
            &&& m1.instructions[p + 1].data.subrange(4, 12) == le_bytes(
                u64_from_decimal(r.equality_proof_rent)->0 as nat, 8)
            &&& m1.instructions[p + 1].data.subrange(12, 20) == le_bytes(161, 8)
            &&& account_key(m1, p + 2, 0) == sender.owner && account_key(m1, p + 2, 1) == account_key(m3, 1, 0)
            &&& m1.instructions[p + 2].data.subrange(4, 12) == le_bytes(
                u64_from_decimal(r.ciphertext_validity_proof_rent)->0 as nat, 8)
            &&& m1.instructions[p + 2].data.subrange(12, 20) == le_bytes(385, 8)
            &&& (p == 2 ==> {
                &&& program_key(m1, 0) == compute_budget_id_bytes() && program_key(m1, 1) == compute_budget_id_bytes()
                &&& m1.instructions[0].data == seq![2u8] + le_bytes(200_000, 4)
                &&& m1.instructions[1].data == seq![3u8] + le_bytes(
                    ((priority_fee_value(r.priority_fee) * 1_000_000 / 200_000) as u64) as nat, 8)
            })
        }),
{
    law_transfer_setup_follows_request(r);
    let s = spec_transfer_setup(r)->Ok_0;
    let h = hash_from_str(r.latest_blockhash)->0;
    let fee = priority_fee_value(r.priority_fee);
    let (eqp, cvp, lo, hi, rp, e, v, rg, sigs, nb) = choose|eqp: Seq<u8>, cvp: Seq<u8>, lo: Seq<u8>, hi: Seq<u8>,
        rp: Seq<u8>, e: Seq<u8>, v: Seq<u8>, rg: Seq<u8>, sigs: Seq<Seq<u8>>, nb: Seq<u8>|
        transfer_proofs_fit(s.amount, s.auditor_elgamal_pubkey, eqp, cvp, lo, hi, rp) && #[trigger]
            transfer_transactions_hold(s, texts, eqp, cvp, lo, hi, rp, e, v, rg, h, fee, sigs, nb);
    assert(transfer_transactions_hold(s, texts, eqp, cvp, lo, hi, rp, e, v, rg, h, fee, sigs, nb));
    let a = s.sender_authority;
    let p: int = if fee > 0 { 2 } else { 0 };
    let m1 = tx_message(texts[0]);
    let m2 = tx_message(texts[1]);
    let m3 = tx_message(texts[2]);
    let m4 = tx_message(texts[3]);
    let ixs1 = transfer_setup_instructions(s, e, v, rg, fee);
    let ixs2 = seq![verify_proof_view(RANGE_PROOF, rg, a, rp)];
    let ixs3 = seq![verify_proof_view(EQUALITY_PROOF, e, a, eqp), verify_proof_view(CIPHERTEXT_VALIDITY_PROOF, v, a,
        cvp)];
    let t = transfer_instruction_view(s.sender_token_account, s.mint, s.recipient_token_account, nb, lo, hi, a, e, v,
        rg);
    assert(compiled_message_for(m1, a, ixs1, h));
    assert(compiled_message_for(m2, a, ixs2, h));
    assert(compiled_message_for(m3, a, ixs3, h));
    assert(compiled_message_for(m4, a, seq![t], h));
    assert(ixs1.len() == p + 3);
    assert(compiles_instruction(m1.account_keys, m1.instructions[p], ixs1[p]));
    if p == 2 {
        assert(compiles_instruction(m1.account_keys, m1.instructions[0], ixs1[0]));
        assert(compiles_instruction(m1.account_keys, m1.instructions[1], ixs1[1]));
    }
    assert(compiles_instruction(m1.account_keys, m1.instructions[p + 1], ixs1[p + 1]));
    assert(compiles_instruction(m1.account_keys, m1.instructions[p + 2], ixs1[p + 2]));
    assert(compiles_instruction(m2.account_keys, m2.instructions[0], ixs2[0]));
    assert(compiles_instruction(m3.account_keys, m3.instructions[0], ixs3[0]));
    assert(compiles_instruction(m3.account_keys, m3.instructions[1], ixs3[1]));
    assert(compiles_instruction(m4.account_keys, m4.instructions[0], seq![t][0]));
    assert(m1.instructions[p].accounts[1] == m1.instructions[p].accounts[1]);
    assert(m1.instructions[p + 1].accounts[1] == m1.instructions[p + 1].accounts[1]);
    assert(m1.instructions[p + 2].accounts[1] == m1.instructions[p + 2].accounts[1]);
    assert(m1.instructions[p].accounts[0] == m1.instructions[p].accounts[0]);
    assert(m1.instructions[p + 1].accounts[0] == m1.instructions[p + 1].accounts[0]);
    assert(m1.instructions[p + 2].accounts[0] == m1.instructions[p + 2].accounts[0]);
    assert(m2.instructions[0].accounts[0] == m2.instructions[0].accounts[0]);
    assert(m3.instructions[0].accounts[0] == m3.instructions[0].accounts[0]);
    assert(m3.instructions[1].accounts[0] == m3.instructions[1].accounts[0]);
    assert(m4.instructions[0].accounts[0] == m4.instructions[0].accounts[0]);
    assert(m4.instructions[0].accounts[1] == m4.instructions[0].accounts[1]);
    assert(m4.instructions[0].accounts[2] == m4.instructions[0].accounts[2]);
    assert(m4.instructions[0].accounts[6] == m4.instructions[0].accounts[6]);
    lemma_le_bytes_len(s.range_proof_rent as nat, 8);
    lemma_le_bytes_len(s.equality_proof_rent as nat, 8);
    lemma_le_bytes_len(s.ciphertext_validity_proof_rent as nat, 8);
    lemma_le_bytes_len(297, 8);
    lemma_le_bytes_len(161, 8);
    lemma_le_bytes_len(385, 8);
    assert(m1.instructions[p].data.subrange(4, 12) =~= le_bytes(s.range_proof_rent as nat, 8));
    assert(m1.instructions[p].data.subrange(12, 20) =~= le_bytes(297, 8));
    assert(m1.instructions[p + 1].data.subrange(4, 12) =~= le_bytes(s.equality_proof_rent as nat, 8));
    assert(m1.instructions[p + 1].data.subrange(12, 20) =~= le_bytes(161, 8));
    assert(m1.instructions[p + 2].data.subrange(4, 12) =~= le_bytes(s.ciphertext_validity_proof_rent as nat, 8));
    assert(m1.instructions[p + 2].data.subrange(12, 20) =~= le_bytes(385, 8));
}

/// Whether an instruction is not a token-2022 confidential-transfer one: it
/// calls another program, or its data does not start with 27.
pub open spec fn not_confidential_transfer(ix: InstructionView) -> bool {
    ix.program_id != token_2022_id_bytes() || ix.data.len() == 0 || ix.data[0] != 27u8
}

/// Auditing finds the transfer instruction wherever it stands: in a message
/// whose instructions are any instructions that are not confidential
/// transfers (such as compute-budget ones) followed by the transfer
/// instruction this service builds, the audit reads that instruction's
/// auditor ciphertexts (refusing them only where they are not valid
/// ciphertexts) and its source, mint and destination accounts, reported as
/// sender, recipient and mint.
pub proof fn law_audit_finds_transfer_after_other_instructions(
    m: MessageV0View,
    prefix: Seq<InstructionView>,
    source: Seq<u8>,
    mint: Seq<u8>,
    destination: Seq<u8>,
    new_balance: Seq<u8>,
    ciphertext_lo: Seq<u8>,
    ciphertext_hi: Seq<u8>,
    authority: Seq<u8>,
    equality: Seq<u8>,
    validity: Seq<u8>,
    range: Seq<u8>,
)
    requires
        compiles_instructions(m, prefix + seq![transfer_instruction_view(source, mint, destination, new_balance,
            ciphertext_lo, ciphertext_hi, authority, equality, validity, range)]),
        forall|i: int| 0 <= i < prefix.len() ==> not_confidential_transfer(#[trigger] prefix[i]),
        new_balance.len() == 36,
        ciphertext_lo.len() == 64,
        ciphertext_hi.len() == 64,
    ensures
        lookups_in_bounds(m),
        spec_transfer_ciphertexts(m) == (if elgamal_ciphertext_valid(ciphertext_lo) && elgamal_ciphertext_valid(
            ciphertext_hi) {
            Ok::<TransferCiphertextsView, AppError>(TransferCiphertextsView {
                ciphertext_lo,
                ciphertext_hi,
                sender: source,
                recipient: mint,
                mint: destination,
            })
        } else {
            Err(AppError::ElGamalError)
        }),
{
    let t = transfer_instruction_view(source, mint, destination, new_balance, ciphertext_lo, ciphertext_hi,
        authority, equality, validity, range);
    let ixs = prefix + seq![t];
    let j = prefix.len() as int;
    assert(ixs[j] == t);
    assert(forall|i: int| 0 <= i < j ==> ixs[i] == prefix[i]);
    let ci = m.instructions[j];
    assert(compiles_instruction(m.account_keys, ci, ixs[j]));
    assert(ci.data == t.data);
    assert(t.data.len() == 169);
    assert(t.data[0] == 27u8);
    assert(is_confidential_transfer_at(m, j));
    assert forall|k: int| 0 <= k < j implies !#[trigger] is_confidential_transfer_at(m, k) by {
        assert(compiles_instruction(m.account_keys, m.instructions[k], ixs[k]));
        assert(not_confidential_transfer(prefix[k]));
    }
    assert(is_first_confidential_transfer(m, j));
    lemma_first_unique(m, j);
    assert(ci.accounts.len() == 7);
    assert forall|k: int| 0 <= k < m.instructions.len() && none_before(m, k) implies program_index_in_range(m, k) by {
        assert(compiles_instruction(m.account_keys, m.instructions[k], ixs[k]));
    }
    assert forall|a: int| 0 <= a < 3 implies (#[trigger] m.instructions[j].accounts[a] as int) < m.account_keys.len() by {
    }
    assert forall|i: int| #[trigger] is_first_confidential_transfer(m, i) implies i == j by {
        lemma_first_unique(m, i);
    }
    assert(t.data.subrange(38, 102) =~= ciphertext_lo);
    assert(t.data.subrange(102, 166) =~= ciphertext_hi);
    assert(m.account_keys[ci.accounts[0] as int] == source);
    assert(m.account_keys[ci.accounts[1] as int] == mint);
    assert(m.account_keys[ci.accounts[2] as int] == destination);
}

/// The transaction that a deposit returns holds a single instruction whose
/// data is `[27, 5]`, the request's amount in eight little-endian bytes and
/// the request's mint decimals, into the owner's associated token account.
pub proof fn law_deposit_transaction_follows_request(
    text: Seq<char>,
    token_account_data: Seq<u8>,
    lamport_amount: Seq<char>,
    mint_decimals: u8,
    payer: Seq<u8>,
    blockhash: Seq<u8>,
)
    requires
        holds_unsigned_transaction(text, requested_deposit_instruction(token_account_data, lamport_amount,
            mint_decimals), payer, blockhash),
    ensures
        ({
            let m = tx_message(text);
            let account = request_account(token_account_data);
            &&& m.instructions.len() == 1
            &&& program_key(m, 0) == token_2022_id_bytes()
            &&& m.instructions[0].data == seq![27u8, 5u8] + le_bytes(u64_from_decimal(lamport_amount)->0 as nat, 8)
                + seq![mint_decimals]
            &&& m.instructions[0].data[10] == mint_decimals
            &&& account_key(m, 0, 0) == associated_token_address(account.owner, account.mint, token_2022_id_bytes())
            &&& m.account_keys[0] == payer
            &&& m.recent_blockhash == blockhash
        }),
{
    law_deposit_carries_request(token_account_data, lamport_amount, mint_decimals);
    let ix = requested_deposit_instruction(token_account_data, lamport_amount, mint_decimals);
    let m = tx_message(text);
    assert(compiled_message_for(m, payer, seq![ix], blockhash));
    assert(compiles_instruction(m.account_keys, m.instructions[0], seq![ix][0]));
    assert(m.instructions[0].accounts[0] == m.instructions[0].accounts[0]);
}

} // verus!

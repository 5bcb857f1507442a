//! Auditing a confidential transfer: finding the transfer instruction in a
//! transaction and decrypting the amount that it encrypts for the auditor.
use vstd::prelude::*;
use vstd::utf8::encode_utf8;
use crate::error::AppError;
use crate::keys::{Address, Signature, address_text, address_to_string, signature_from_bytes};
use crate::codec::{base64_decode, base64_decoded};
use crate::wire::{MessageV0, MessageV0View, DecodedTransaction, DecodedTransactionView, decode_transaction, decoded_transaction};
use solana_zk_sdk::encryption::elgamal::{ElGamalCiphertext, ElGamalKeypair};
use solana_zk_sdk::encryption::pod::elgamal::PodElGamalCiphertext;
use spl_token_2022::extension::confidential_transfer::instruction::TransferInstructionData;
use spl_token_2022::instruction::{decode_instruction_data, TokenInstruction};

verus! {

/// Bit width of the low half of a split confidential transfer amount.
///
/// Trusted: returns `spl_token_confidential_transfer_proof_generation::
/// TRANSFER_AMOUNT_LO_BITS`, which the source defines as 16.
#[verifier::external_body]
pub fn transfer_amount_lo_bits() -> (bits: u64)
    ensures
        bits == 16,
{
    spl_token_confidential_transfer_proof_generation::TRANSFER_AMOUNT_LO_BITS as u64
}

/// First byte of every token-2022 confidential-transfer instruction.
pub const CONFIDENTIAL_TRANSFER_EXTENSION_TAG: u8 = 27;

/// Shortest confidential transfer instruction data that is looked at: the
/// prefix byte and two 64-byte ciphertexts.
pub const MIN_TRANSFER_DATA_LEN: usize = 129;

/// The bytes of the token-2022 program's address
/// (`TokenzQdBNbLqP5VEhdkAS6EPFLC1PHnBqCXEpPxuEb`).
pub open spec fn token_2022_id_bytes() -> Seq<u8> {
    seq![6u8, 221, 246, 225, 238, 117, 143, 222, 24, 66, 93, 188, 228, 108, 205, 218,
        182, 26, 252, 77, 131, 185, 13, 39, 254, 189, 249, 40, 216, 161, 139, 252]
}

/// The token-2022 program's address.
///
/// Trusted: calls `spl_token_2022::id()`, which the source declares as
/// `TokenzQdBNbLqP5VEhdkAS6EPFLC1PHnBqCXEpPxuEb`, whose bytes are stated.
#[verifier::external_body]
pub fn token_2022_program_id() -> (id: Address)
    ensures
        id@ == token_2022_id_bytes(),
{
    Address { bytes: spl_token_2022::id().to_bytes() }
}

/// Whether instruction data unpacks as the confidential-transfer extension
/// prefix of the token program.
///
/// Trusted: calls `TokenInstruction::unpack`, whose source maps a first byte
/// of 27 to `ConfidentialTransferExtension` whatever follows, and never maps
/// other data to it.
#[verifier::external_body]
pub fn is_confidential_transfer_extension(data: &[u8]) -> (res: bool)
    ensures
        res == (data@.len() > 0 && data@[0] == CONFIDENTIAL_TRANSFER_EXTENSION_TAG),
{
    match TokenInstruction::unpack(data) {
        Ok(TokenInstruction::ConfidentialTransferExtension) => true,
        _ => false,
    }
}

/// Whether `decode_instruction_data::<TransferInstructionData>` accepts the
/// input: the source requires one leading byte and the 167 bytes of the
/// `repr(C)`, byte-aligned struct (a 36-byte decryptable balance, two 64-byte
/// ciphertexts and three offsets).
///
/// Trusted: calls that function and claims the length condition above.
#[verifier::external_body]
pub fn transfer_instruction_data_decodes(input: &[u8]) -> (res: bool)
    ensures
        res == (input@.len() == 168),
{
    decode_instruction_data::<TransferInstructionData>(input).is_ok()
}

/// Whether 64 bytes decode as an ElGamal ciphertext (both halves are valid
/// compressed points), as `ElGamalCiphertext::try_from` decides.
pub uninterp spec fn elgamal_ciphertext_valid(bytes: Seq<u8>) -> bool;

/// The bytes (public key, then secret key) of the ElGamal keypair that
/// `ElGamalKeypair::new_from_signature` derives from a signature, or `None`
/// where it reports an error.
pub uninterp spec fn elgamal_keypair_of(signature: Seq<u8>) -> Option<Seq<u8>>;

/// Whether 64 bytes read back as an ElGamal keypair
/// (`ElGamalKeypair::try_from(&[u8])`): a public key that decompresses and a
/// canonical secret scalar.
pub uninterp spec fn elgamal_keypair_decodes(keypair: Seq<u8>) -> bool;

/// What `decode_u32` gives for the decryption of a ciphertext with the
/// secret key of a keypair; `None` also where the keypair or the ciphertext
/// does not decode.
pub uninterp spec fn elgamal_decrypted_u32(keypair: Seq<u8>, ciphertext: Seq<u8>) -> Option<u64>;

/// Checks that 64 bytes decode as an ElGamal ciphertext.
///
/// Trusted: calls `ElGamalCiphertext::try_from(PodElGamalCiphertext)` and
/// claims only that the answer is the named one.
#[verifier::external_body]
pub fn elgamal_ciphertext_decodes(bytes: &[u8; 64]) -> (res: bool)
    ensures
        res == elgamal_ciphertext_valid(bytes@),
{
    ElGamalCiphertext::try_from(PodElGamalCiphertext::from(*bytes)).is_ok()
}

/// Derives an ElGamal keypair from a signature.
///
/// Trusted: calls `ElGamalKeypair::new_from_signature` and claims that the
/// keypair's bytes are the named ones, and that they read back as a keypair:
/// the source derives a canonical secret scalar and the public key as a
/// point, which the keypair's bytes hold compressed.
#[verifier::external_body]
pub fn elgamal_keypair_from_signature(signature: &Signature) -> (res: Option<[u8; 64]>)
    ensures
        res matches Some(k) ==> elgamal_keypair_of(signature@) == Some(k@),
        res matches Some(k) ==> elgamal_keypair_decodes(k@),
        res is None ==> elgamal_keypair_of(signature@) is None,
{
    let sig = solana_sdk::signature::Signature::from(signature.bytes);
    ElGamalKeypair::new_from_signature(&sig).ok().map(|k| <[u8; 64]>::from(&k))
}

/// Decrypts an ElGamal ciphertext with a keypair's secret key and reads the
/// message as a 32-bit amount.
///
/// Trusted: reads the keypair (`ElGamalKeypair::try_from`) and the
/// ciphertext, then calls `ElGamalSecretKey::decrypt` and
/// `DiscreteLog::decode_u32`; claims that the result is the named one, and
/// that a decoded amount is below 2^32, the range that `decode_u32` searches.
#[verifier::external_body]
pub fn elgamal_decrypt_u32(keypair: &[u8; 64], ciphertext: &[u8; 64]) -> (res: Option<u64>)
    ensures
        res == elgamal_decrypted_u32(keypair@, ciphertext@),
        res matches Some(v) ==> v < 0x1_0000_0000,
{
    let keypair = ElGamalKeypair::try_from(&keypair[..]).ok()?;
    let ct = ElGamalCiphertext::try_from(PodElGamalCiphertext::from(*ciphertext)).ok()?;
    keypair.secret().decrypt(&ct).decode_u32()
}

/// Whether instruction `j` names a program inside the account keys.
pub open spec fn program_index_in_range(msg: MessageV0View, j: int) -> bool {
    (msg.instructions[j].program_id_index as int) < msg.account_keys.len()
}

/// Whether instruction `j` is a confidential-transfer instruction of the
/// token-2022 program.
pub open spec fn is_confidential_transfer_at(msg: MessageV0View, j: int) -> bool {
    &&& program_index_in_range(msg, j)
    &&& msg.account_keys[msg.instructions[j].program_id_index as int] == token_2022_id_bytes()
    &&& msg.instructions[j].data.len() > 0
    &&& msg.instructions[j].data[0] == CONFIDENTIAL_TRANSFER_EXTENSION_TAG
}

/// Whether no instruction before `j` is a confidential transfer.
pub open spec fn none_before(msg: MessageV0View, j: int) -> bool {
    forall|k: int| 0 <= k < j ==> !#[trigger] is_confidential_transfer_at(msg, k)
}

/// Whether instruction `j` is the first confidential transfer.
pub open spec fn is_first_confidential_transfer(msg: MessageV0View, j: int) -> bool {
    &&& 0 <= j < msg.instructions.len()
    &&& is_confidential_transfer_at(msg, j)
    &&& none_before(msg, j)
}

/// Whether the message holds a confidential transfer instruction.
pub open spec fn has_confidential_transfer(msg: MessageV0View) -> bool {
    exists|j: int| is_first_confidential_transfer(msg, j)
}

/// The index of the first confidential transfer instruction.
pub open spec fn first_confidential_transfer(msg: MessageV0View) -> int {
    choose|j: int| is_first_confidential_transfer(msg, j)
}

/// Whether every index that the search for the transfer, and the reading of
/// its first three accounts, look up lies inside the account keys.
pub open spec fn lookups_in_bounds(msg: MessageV0View) -> bool {
    &&& forall|k: int|
        0 <= k < msg.instructions.len() && none_before(msg, k) ==> program_index_in_range(msg, k)
    &&& forall|j: int| #[trigger] is_first_confidential_transfer(msg, j) ==> {
        &&& msg.instructions[j].accounts.len() >= 3
        &&& forall|a: int| 0 <= a < 3 ==> (#[trigger] msg.instructions[j].accounts[a] as int)
            < msg.account_keys.len()
    }
}

/// The auditor ciphertexts and the accounts of a confidential transfer.
#[derive(Clone, Debug, PartialEq, Eq)]
pub struct TransferCiphertexts {
    pub ciphertext_lo: [u8; 64],
    pub ciphertext_hi: [u8; 64],
    pub sender: Address,
    pub recipient: Address,
    pub mint: Address,
}

pub struct TransferCiphertextsView {
    pub ciphertext_lo: Seq<u8>,
    pub ciphertext_hi: Seq<u8>,
    pub sender: Seq<u8>,
    pub recipient: Seq<u8>,
    pub mint: Seq<u8>,
}

impl View for TransferCiphertexts {
    type V = TransferCiphertextsView;

    open spec fn view(&self) -> TransferCiphertextsView {
        TransferCiphertextsView {
            ciphertext_lo: self.ciphertext_lo@,
            ciphertext_hi: self.ciphertext_hi@,
            sender: self.sender@,
            recipient: self.recipient@,
            mint: self.mint@,
        }
    }
}

/// What reading the first confidential transfer of a message gives: its
/// data must be at least 129 bytes, decode as transfer data (169 bytes), and
/// hold two valid auditor ciphertexts, at bytes 38..102 and 102..166.
pub open spec fn spec_transfer_ciphertexts(msg: MessageV0View) -> Result<TransferCiphertextsView, AppError> {
    if !has_confidential_transfer(msg) {
        Err(AppError::NoConfidentialTransferFound)
    } else {
        let ix = msg.instructions[first_confidential_transfer(msg)];
        let data = ix.data;
        if data.len() < MIN_TRANSFER_DATA_LEN {
            Err(AppError::InvalidInstructionData)
        } else if data.len() != 169 {
            Err(AppError::ProgramError)
        } else if !elgamal_ciphertext_valid(data.subrange(38, 102)) {
            Err(AppError::ElGamalError)
        } else if !elgamal_ciphertext_valid(data.subrange(102, 166)) {
            Err(AppError::ElGamalError)
        } else {
            Ok(TransferCiphertextsView {
                ciphertext_lo: data.subrange(38, 102),
                ciphertext_hi: data.subrange(102, 166),
                sender: msg.account_keys[ix.accounts[0] as int],
                recipient: msg.account_keys[ix.accounts[1] as int],
                mint: msg.account_keys[ix.accounts[2] as int],
            })
        }
    }
}

/// The first confidential transfer is unique.
pub proof fn lemma_first_unique(msg: MessageV0View, j: int)
    requires
        is_first_confidential_transfer(msg, j),
    ensures
        has_confidential_transfer(msg),
        first_confidential_transfer(msg) == j,
{
    let c = first_confidential_transfer(msg);
    assert(is_first_confidential_transfer(msg, c));
    if c < j {
        assert(!is_confidential_transfer_at(msg, c));
    } else if j < c {
        assert(!is_confidential_transfer_at(msg, j));
    }
}

/// Copies 64 bytes of a vector, starting at `start`, into an array.
fn bytes64_at(v: &Vec<u8>, start: usize) -> (arr: [u8; 64])
    requires
        start + 64 <= v@.len(),
    ensures
        arr@ == v@.subrange(start as int, start + 64),
{
    let mut arr = [0u8; 64];
    let mut i: usize = 0;
    while i < 64
        invariant
            i <= 64,
            start + 64 <= v.len(),
            arr@.len() == 64,
            forall|j: int| 0 <= j < i ==> arr@[j] == v@[start + j],
        decreases 64 - i,
    {
        arr[i] = v[start + i];
        i = i + 1;
    }
    assert(arr@ =~= v@.subrange(start as int, start + 64));
    arr
}

/// Finds the first instruction of the token-2022 program whose data unpacks
/// as a confidential-transfer instruction.
pub fn find_confidential_transfer(msg: &MessageV0) -> (res: Option<usize>)
    requires
        lookups_in_bounds(msg@),
    ensures
        res matches Some(j) ==> is_first_confidential_transfer(msg@, j as int),
        res is None ==> !has_confidential_transfer(msg@),
{
    let token_program = token_2022_program_id();
    let n = msg.instructions.len();
    let mut i: usize = 0;
    while i < n
        invariant
            i <= n,
            n == msg@.instructions.len(),
            lookups_in_bounds(msg@),
            token_program@ == token_2022_id_bytes(),
            none_before(msg@, i as int),
        decreases n - i,
    {
        let ix = &msg.instructions[i];
        assert(msg@.instructions[i as int] == ix@);
        assert(program_index_in_range(msg@, i as int));
        let program_id = &msg.account_keys[ix.program_id_index as usize];
        assert(msg@.account_keys[ix.program_id_index as int] == program_id@);
        if program_id.equals(&token_program) && is_confidential_transfer_extension(ix.data.as_slice()) {
            assert(is_confidential_transfer_at(msg@, i as int));
            return Some(i);
        }
        assert(!is_confidential_transfer_at(msg@, i as int));
        i = i + 1;
    }
    assert forall|j: int| !is_first_confidential_transfer(msg@, j) by {
        if 0 <= j < n && is_confidential_transfer_at(msg@, j) {
            assert(!is_confidential_transfer_at(msg@, j));
        }
    }
    None
}

/// Reads the auditor ciphertexts and the sender, recipient and mint of the
/// first confidential transfer instruction of a message.
pub fn transfer_ciphertexts(msg: &MessageV0) -> (res: Result<TransferCiphertexts, AppError>)
    requires
        lookups_in_bounds(msg@),
    ensures
        match spec_transfer_ciphertexts(msg@) {
            Ok(v) => res matches Ok(t) && t@ == v,
            Err(e) => res == Err::<TransferCiphertexts, AppError>(e),
        },
{
    let j = match find_confidential_transfer(msg) {
        Some(j) => j,
        None => return Err(AppError::NoConfidentialTransferFound),
    };
    proof {
        lemma_first_unique(msg@, j as int);
    }
    let ix = &msg.instructions[j];
    assert(msg@.instructions[j as int] == ix@);
    assert(ix@.accounts.len() >= 3);
    assert((ix@.accounts[0] as int) < msg@.account_keys.len());
    assert((ix@.accounts[1] as int) < msg@.account_keys.len());
    assert((ix@.accounts[2] as int) < msg@.account_keys.len());
    let sender = msg.account_keys[ix.accounts[0] as usize];
    let recipient = msg.account_keys[ix.accounts[1] as usize];
    let mint = msg.account_keys[ix.accounts[2] as usize];
    let data = &ix.data;
    if data.len() < MIN_TRANSFER_DATA_LEN {
        return Err(AppError::InvalidInstructionData);
    }
    let input = vstd::slice::slice_subrange(data.as_slice(), 1, data.len());
    if !transfer_instruction_data_decodes(input) {
        return Err(AppError::ProgramError);
    }
    let ciphertext_lo = bytes64_at(data, 38);
    if !elgamal_ciphertext_decodes(&ciphertext_lo) {
        return Err(AppError::ElGamalError);
    }
    let ciphertext_hi = bytes64_at(data, 102);
    if !elgamal_ciphertext_decodes(&ciphertext_hi) {
        return Err(AppError::ElGamalError);
    }
    Ok(TransferCiphertexts { ciphertext_lo, ciphertext_hi, sender, recipient, mint })
}

/// Checks that every lookup of the transfer search stays inside the keys.
pub fn check_lookups_in_bounds(msg: &MessageV0) -> (ok: bool)
    ensures
        ok == lookups_in_bounds(msg@),
{
    let token_program = token_2022_program_id();
    let n = msg.instructions.len();
    let keys = msg.account_keys.len();
    let mut i: usize = 0;
    while i < n
        invariant
            i <= n,
            n == msg@.instructions.len(),
            keys == msg@.account_keys.len(),
            token_program@ == token_2022_id_bytes(),
            none_before(msg@, i as int),
            forall|k: int| 0 <= k < i ==> program_index_in_range(msg@, k),
        decreases n - i,
    {
        let ix = &msg.instructions[i];
        assert(msg@.instructions[i as int] == ix@);
        if ix.program_id_index as usize >= keys {
            assert(!program_index_in_range(msg@, i as int));
            return false;
        }
        let program_id = &msg.account_keys[ix.program_id_index as usize];
        assert(msg@.account_keys[ix.program_id_index as int] == program_id@);
        if program_id.equals(&token_program) && is_confidential_transfer_extension(ix.data.as_slice()) {
            assert(is_first_confidential_transfer(msg@, i as int));
            let ok = ix.accounts.len() >= 3 && (ix.accounts[0] as usize) < keys
                && (ix.accounts[1] as usize) < keys && (ix.accounts[2] as usize) < keys;
            proof {
                if ok {
                    assert forall|k: int|
                        0 <= k < msg@.instructions.len() && none_before(msg@, k) implies
                        program_index_in_range(msg@, k) by {
                        if k > i {
                            assert(is_confidential_transfer_at(msg@, i as int));
                        }
                    }
                    assert forall|j: int| #[trigger] is_first_confidential_transfer(msg@, j) implies {
                        &&& msg@.instructions[j].accounts.len() >= 3
                        &&& forall|a: int| 0 <= a < 3 ==> (#[trigger] msg@.instructions[j].accounts[a] as int)
                            < msg@.account_keys.len()
                    } by {
                        lemma_first_unique(msg@, j);
                        lemma_first_unique(msg@, i as int);
                    }
                } else {
                    assert(is_first_confidential_transfer(msg@, i as int));
                }
            }
            return ok;
        }
        assert(!is_confidential_transfer_at(msg@, i as int));
        i = i + 1;
    }
    assert forall|j: int| !#[trigger] is_first_confidential_transfer(msg@, j) by {
        if 0 <= j < n && is_confidential_transfer_at(msg@, j) {
            assert(!is_confidential_transfer_at(msg@, j));
        }
    }
    true
}

/// What reading the transfer out of raw transaction bytes gives: `None`
/// where a lookup would leave the account keys (the request cannot be
/// answered), else the outcome of [`spec_transfer_ciphertexts`], with bytes
/// that are not a version-0 transaction refused as a serialization error.
pub open spec fn spec_extract_confidential_transfer(transaction_data: Seq<u8>)
    -> Option<Result<TransferCiphertextsView, AppError>>
{
    match decoded_transaction(transaction_data) {
        DecodedTransactionView::V0 { message, .. } => if lookups_in_bounds(message) {
            Some(spec_transfer_ciphertexts(message))
        } else {
            None
        },
        _ => Some(Err(AppError::SerializationError)),
    }
}

/// Reads the confidential transfer out of a serialized versioned
/// transaction. Returns `None` when an index of the message points outside
/// its account keys, where no answer can be given.
pub fn extract_confidential_transfer(transaction_data: &[u8])
    -> (res: Option<Result<TransferCiphertexts, AppError>>)
    ensures
        match spec_extract_confidential_transfer(transaction_data@) {
            None => res is None,
            Some(Err(e)) => res == Some(Err::<TransferCiphertexts, AppError>(e)),
            Some(Ok(v)) => res matches Some(Ok(t)) && t@ == v,
        },
{
    match decode_transaction(transaction_data) {
        DecodedTransaction::V0 { message, .. } => {
            if check_lookups_in_bounds(&message) {
                Some(transfer_ciphertexts(&message))
            } else {
                None
            }
        },
        _ => Some(Err(AppError::SerializationError)),
    }
}

/// The amount whose low 16 bits are `lo` and whose higher bits are `hi`, as
/// a checked shift then a checked addition compute it: the shift keeps the
/// low 64 bits, the addition refuses to overflow.
pub open spec fn spec_combined_amount(lo: u64, hi: u64) -> Option<u64> {
    let shifted = (hi * 65536) % 0x1_0000_0000_0000_0000;
    if shifted + lo <= u64::MAX {
        Some((shifted + lo) as u64)
    } else {
        None
    }
}

/// Joins the two decrypted halves of a confidential transfer amount.
pub fn combine_amount(lo: u64, hi: u64) -> (amount: Option<u64>)
    ensures
        amount == spec_combined_amount(lo, hi),
{
    let shifted: u64 = hi << transfer_amount_lo_bits();
    assert(shifted == (hi * 65536) % 0x1_0000_0000_0000_0000) by (bit_vector)
        requires
            shifted == hi << 16u64,
    ;
    shifted.checked_add(lo)
}

/// Two halves that each fit in 32 bits always join, to `hi * 2^16 + lo`.
pub proof fn lemma_combined_amount_exact(lo: u64, hi: u64)
    requires
        lo < 0x1_0000_0000,
        hi < 0x1_0000_0000,
    ensures
        spec_combined_amount(lo, hi) == Some((hi * 65536 + lo) as u64),
{
    assert(hi * 65536 < 0x1_0000_0000_0000) by (nonlinear_arith)
        requires
            hi < 0x1_0000_0000,
    ;
}

/// The decrypted result of auditing a confidential transfer.
#[derive(Clone, Debug, PartialEq, Eq)]
pub struct AuditReport {
    pub amount: u64,
    pub sender: String,
    pub receiver: String,
}

pub struct AuditReportView {
    pub amount: u64,
    pub sender: Seq<char>,
    pub receiver: Seq<char>,
}

impl View for AuditReport {
    type V = AuditReportView;

    open spec fn view(&self) -> AuditReportView {
        AuditReportView { amount: self.amount, sender: self.sender@, receiver: self.receiver@ }
    }
}

/// What auditing gives once the transfer has been read: the two halves are
/// decrypted with the key derived from the auditor's signature, each must be
/// a 32-bit amount, and they are joined.
pub open spec fn spec_audit_ciphertexts(keypair: Seq<u8>, t: TransferCiphertextsView)
    -> Result<AuditReportView, AppError>
{
    match elgamal_decrypted_u32(keypair, t.ciphertext_lo) {
        None => Err(AppError::AmountDecodeError),
        Some(lo) => match elgamal_decrypted_u32(keypair, t.ciphertext_hi) {
            None => Err(AppError::AmountDecodeError),
            Some(hi) => match spec_combined_amount(lo, hi) {
                None => Err(AppError::AmountDecodeError),
                Some(amount) => Ok(AuditReportView {
                    amount,
                    sender: address_text(t.sender),
                    receiver: address_text(t.recipient),
                }),
            },
        },
    }
}

/// What auditing a base64 transaction with a base64 auditor signature gives;
/// `None` where the transaction's indexes leave its account keys.
pub open spec fn spec_audit_transaction(transaction_data: Seq<u8>, elgamal_signature: Seq<u8>)
    -> Option<Result<AuditReportView, AppError>>
{
    match base64_decoded(transaction_data) {
        None => Some(Err(AppError::Base64Error)),
        Some(tx) => match base64_decoded(elgamal_signature) {
            None => Some(Err(AppError::InvalidAuditorSignature)),
            Some(sig) => if sig.len() != 64 {
                Some(Err(AppError::InvalidAuditorSignature))
            } else {
                match elgamal_keypair_of(sig) {
                    None => Some(Err(AppError::AuditorAccessDenied)),
                    Some(keypair) => match spec_extract_confidential_transfer(tx) {
                        None => None,
                        Some(Err(e)) => Some(Err(e)),
                        Some(Ok(t)) => Some(spec_audit_ciphertexts(keypair, t)),
                    },
                }
            },
        },
    }
}

/// A request to audit a confidential transfer.
#[derive(Clone, Debug, PartialEq, Eq)]
pub struct AuditTransactionRequest {
    pub transaction_signature: String,
    pub transaction_data: String,
    pub elgamal_signature: String,
}

/// Audits a confidential transfer: decodes the base64 transaction, derives
/// the auditor's ElGamal key from the auditor's base64 signature, finds the
/// transfer instruction and decrypts the amount that it encrypts for the
/// auditor. Returns `None` when an index of the transaction's message points
/// outside its account keys.
pub fn audit_transaction_cb(request: &AuditTransactionRequest) -> (res: Option<Result<AuditReport, AppError>>)
    ensures
        match spec_audit_transaction(encode_utf8(request.transaction_data@), encode_utf8(request.elgamal_signature@)) {
            None => res is None,
            Some(Err(e)) => res == Some(Err::<AuditReport, AppError>(e)),
            Some(Ok(v)) => res matches Some(Ok(r)) && r@ == v,
        },
{
    let transaction_bytes = match base64_decode(request.transaction_data.as_str()) {
        Some(b) => b,
        None => return Some(Err(AppError::Base64Error)),
    };
    let signature_bytes = match base64_decode(request.elgamal_signature.as_str()) {
        Some(b) => b,
        None => return Some(Err(AppError::InvalidAuditorSignature)),
    };
    let signature = match signature_from_bytes(signature_bytes.as_slice()) {
        Some(s) => s,
        None => return Some(Err(AppError::InvalidAuditorSignature)),
    };
    let keypair = match elgamal_keypair_from_signature(&signature) {
        Some(k) => k,
        None => return Some(Err(AppError::AuditorAccessDenied)),
    };
    let transfer = match extract_confidential_transfer(transaction_bytes.as_slice()) {
        None => return None,
        Some(Err(e)) => return Some(Err(e)),
        Some(Ok(t)) => t,
    };
    let lo = match elgamal_decrypt_u32(&keypair, &transfer.ciphertext_lo) {
        Some(v) => v,
        None => return Some(Err(AppError::AmountDecodeError)),
    };
    let hi = match elgamal_decrypt_u32(&keypair, &transfer.ciphertext_hi) {
        Some(v) => v,
        None => return Some(Err(AppError::AmountDecodeError)),
    };
    let amount = match combine_amount(lo, hi) {
        Some(a) => a,
        None => return Some(Err(AppError::AmountDecodeError)),
    };
    let sender = address_to_string(&transfer.sender);
    let receiver = address_to_string(&transfer.recipient);
    Some(Ok(AuditReport { amount, sender, receiver }))
}

} // verus!

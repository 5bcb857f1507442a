//! Instructions, compiled messages and versioned transactions held as plain
//! values, and the trusted crossings to the Solana SDK that compile, encode
//! and decode them.
use vstd::prelude::*;
use crate::keys::{Address, BlockHash, Signature};
use solana_sdk::message::v0 as sdk_v0;
use solana_sdk::message::{MessageHeader as SdkHeader, VersionedMessage};
use solana_sdk::transaction::VersionedTransaction;
use solana_sdk::instruction::{AccountMeta as SdkAccountMeta, Instruction as SdkInstruction};
use solana_sdk::instruction::CompiledInstruction as SdkCompiledInstruction;
use solana_sdk::message::v0::MessageAddressTableLookup as SdkLookup;
use bincode::Options;

verus! {

/// The SDK's account address type, carried through conversions only.
#[verifier::external_type_specification]
#[verifier::external_body]
pub struct ExSdkPubkey(solana_sdk::pubkey::Pubkey);

/// The SDK's instruction type, carried through conversions only.
#[verifier::external_type_specification]
#[verifier::external_body]
pub struct ExSdkInstruction(SdkInstruction);

/// The SDK's version-0 message type, carried through conversions only.
#[verifier::external_type_specification]
#[verifier::external_body]
pub struct ExSdkMessageV0(sdk_v0::Message);

/// The SDK's compiled instruction type, carried through conversions only.
#[verifier::external_type_specification]
#[verifier::external_body]
pub struct ExSdkCompiledInstruction(SdkCompiledInstruction);

/// The SDK's address table lookup type, carried through conversions only.
#[verifier::external_type_specification]
#[verifier::external_body]
pub struct ExSdkLookup(SdkLookup);

/// One account that an instruction reads or writes.
#[derive(Clone, Copy, Debug, PartialEq, Eq)]
pub struct AccountMeta {
    pub pubkey: Address,
    pub is_signer: bool,
    pub is_writable: bool,
}

/// An instruction before it is compiled into a message.
#[derive(Clone, Debug, PartialEq, Eq)]
pub struct Instruction {
    pub program_id: Address,
    pub accounts: Vec<AccountMeta>,
    pub data: Vec<u8>,
}

/// An instruction inside a compiled message: the program and the accounts
/// are indexes into the message's account keys.
#[derive(Clone, Debug, PartialEq, Eq)]
pub struct CompiledInstruction {
    pub program_id_index: u8,
    pub accounts: Vec<u8>,
    pub data: Vec<u8>,
}

/// How many of a message's account keys sign, and how many are read-only.
#[derive(Clone, Copy, Debug, PartialEq, Eq, Structural)]
pub struct MessageHeader {
    pub num_required_signatures: u8,
    pub num_readonly_signed_accounts: u8,
    pub num_readonly_unsigned_accounts: u8,
}

/// A lookup of further account keys in an address lookup table.
#[derive(Clone, Debug, PartialEq, Eq)]
pub struct AddressTableLookup {
    pub account_key: Address,
    pub writable_indexes: Vec<u8>,
    pub readonly_indexes: Vec<u8>,
}

/// A version-0 message.
#[derive(Clone, Debug, PartialEq, Eq)]
pub struct MessageV0 {
    pub header: MessageHeader,
    pub account_keys: Vec<Address>,
    pub recent_blockhash: BlockHash,
    pub instructions: Vec<CompiledInstruction>,
    pub address_table_lookups: Vec<AddressTableLookup>,
}

/// What a byte string holds when it is read as a versioned transaction.
#[derive(Clone, Debug, PartialEq, Eq)]
pub enum DecodedTransaction {
    /// The bytes are not a versioned transaction.
    Malformed,
    /// A transaction with a legacy message.
    Legacy,
    /// A transaction with a version-0 message.
    V0 { signatures: Vec<Signature>, message: MessageV0 },
}

pub struct AccountMetaView {
    pub pubkey: Seq<u8>,
    pub is_signer: bool,
    pub is_writable: bool,
}

#[verifier::ext_equal]
pub struct InstructionView {
    pub program_id: Seq<u8>,
    pub accounts: Seq<AccountMetaView>,
    pub data: Seq<u8>,
}

#[verifier::ext_equal]
pub struct CompiledInstructionView {
    pub program_id_index: u8,
    pub accounts: Seq<u8>,
    pub data: Seq<u8>,
}

#[verifier::ext_equal]
pub struct AddressTableLookupView {
    pub account_key: Seq<u8>,
    pub writable_indexes: Seq<u8>,
    pub readonly_indexes: Seq<u8>,
}

#[verifier::ext_equal]
pub struct MessageV0View {
    pub header: MessageHeader,
    pub account_keys: Seq<Seq<u8>>,
    pub recent_blockhash: Seq<u8>,
    pub instructions: Seq<CompiledInstructionView>,
    pub address_table_lookups: Seq<AddressTableLookupView>,
}

pub enum DecodedTransactionView {
    Malformed,
    Legacy,
    V0 { signatures: Seq<Seq<u8>>, message: MessageV0View },
}

impl View for AccountMeta {
    type V = AccountMetaView;

    open spec fn view(&self) -> AccountMetaView {
        AccountMetaView { pubkey: self.pubkey@, is_signer: self.is_signer, is_writable: self.is_writable }
    }
}

impl View for Instruction {
    type V = InstructionView;

    open spec fn view(&self) -> InstructionView {
        InstructionView {
            program_id: self.program_id@,
            accounts: self.accounts@.map_values(|m: AccountMeta| m@),
            data: self.data@,
        }
    }
}

impl View for CompiledInstruction {
    type V = CompiledInstructionView;

    open spec fn view(&self) -> CompiledInstructionView {
        CompiledInstructionView {
            program_id_index: self.program_id_index,
            accounts: self.accounts@,
            data: self.data@,
        }
    }
}

impl View for AddressTableLookup {
    type V = AddressTableLookupView;

    open spec fn view(&self) -> AddressTableLookupView {
        AddressTableLookupView {
            account_key: self.account_key@,
            writable_indexes: self.writable_indexes@,
            readonly_indexes: self.readonly_indexes@,
        }
    }
}

impl View for MessageV0 {
    type V = MessageV0View;

    open spec fn view(&self) -> MessageV0View {
        MessageV0View {
            header: self.header,
            account_keys: self.account_keys@.map_values(|k: Address| k@),
            recent_blockhash: self.recent_blockhash@,
            instructions: self.instructions@.map_values(|ix: CompiledInstruction| ix@),
            address_table_lookups: self.address_table_lookups@.map_values(
                |l: AddressTableLookup| l@,
            ),
        }
    }
}

impl View for DecodedTransaction {
    type V = DecodedTransactionView;

    open spec fn view(&self) -> DecodedTransactionView {
        match self {
            DecodedTransaction::Malformed => DecodedTransactionView::Malformed,
            DecodedTransaction::Legacy => DecodedTransactionView::Legacy,
            DecodedTransaction::V0 { signatures, message } => DecodedTransactionView::V0 {
                signatures: signatures@.map_values(|s: Signature| s@),
                message: message@,
            },
        }
    }
}

/// The views of a list of instructions.
pub open spec fn instructions_view(ixs: Seq<Instruction>) -> Seq<InstructionView> {
    ixs.map_values(|ix: Instruction| ix@)
}

/// The views of a list of signatures.
pub open spec fn signatures_view(sigs: Seq<Signature>) -> Seq<Seq<u8>> {
    sigs.map_values(|s: Signature| s@)
}

/// Whether a compiled instruction compiles an instruction against a list of
/// account keys: the program and each account are indexes of their keys, and
/// the data is kept.
pub open spec fn compiles_instruction(keys: Seq<Seq<u8>>, ci: CompiledInstructionView, ix: InstructionView) -> bool {
    &&& (ci.program_id_index as int) < keys.len()
    &&& keys[ci.program_id_index as int] == ix.program_id
    &&& ci.data == ix.data
    &&& ci.accounts.len() == ix.accounts.len()
    &&& forall|k: int| 0 <= k < ci.accounts.len() ==> (#[trigger] ci.accounts[k] as int) < keys.len()
        && keys[ci.accounts[k] as int] == ix.accounts[k].pubkey
}

/// Whether a message's instructions compile the given instructions, in order.
pub open spec fn compiles_instructions(m: MessageV0View, ixs: Seq<InstructionView>) -> bool {
    &&& m.instructions.len() == ixs.len()
    &&& forall|i: int| 0 <= i < ixs.len() ==> compiles_instruction(m.account_keys, #[trigger] m.instructions[i], ixs[i])
}

/// Whether a key signs for a list of instructions paid for by `payer`: it
/// is the payer, or some instruction marks an account with that key a signer.
pub open spec fn is_signer_key(payer: Seq<u8>, ixs: Seq<InstructionView>, key: Seq<u8>) -> bool {
    key == payer || exists|i: int, j: int|
        0 <= i < ixs.len() && 0 <= j < ixs[i].accounts.len() && #[trigger] ixs[i].accounts[j].pubkey == key
            && ixs[i].accounts[j].is_signer
}

/// Whether no key occurs twice.
pub open spec fn keys_distinct(keys: Seq<Seq<u8>>) -> bool {
    forall|i: int, j: int| 0 <= i < keys.len() && 0 <= j < keys.len() && i != j ==> #[trigger] keys[i] != #[trigger] keys[j]
}

/// Whether a version-0 message is a compilation of instructions paid for by
/// `payer` with a block hash: the payer is the first key, no key occurs
/// twice, the keys that sign come first and are exactly the signer keys, the
/// keys are among those the instructions name, no lookup table is used, the block hash is kept and each instruction is
/// compiled against the keys.
pub open spec fn compiled_message_for(m: MessageV0View, payer: Seq<u8>, ixs: Seq<InstructionView>, blockhash: Seq<u8>) -> bool {
    &&& m.account_keys.len() > 0
    &&& m.account_keys[0] == payer
    &&& keys_distinct(m.account_keys)
    &&& m.header.num_required_signatures <= m.account_keys.len()
    &&& forall|i: int| 0 <= i < m.account_keys.len() ==> (i < m.header.num_required_signatures
        <==> is_signer_key(payer, ixs, #[trigger] m.account_keys[i]))
    &&& m.account_keys.len() <= key_mentions(ixs) + 1
    &&& m.address_table_lookups.len() == 0
    &&& m.recent_blockhash == blockhash
    &&& compiles_instructions(m, ixs)
}

/// How many keys a list of instructions names: each program and each
/// account, counted with repetition.
pub open spec fn key_mentions(ixs: Seq<InstructionView>) -> nat
    decreases ixs.len(),
{
    if ixs.len() == 0 {
        0
    } else {
        key_mentions(ixs.drop_last()) + 1 + ixs.last().accounts.len()
    }
}

/// Instructions with at most seven accounts each name at most eight keys
/// apiece.
pub proof fn lemma_key_mentions_bound(ixs: Seq<InstructionView>)
    requires
        forall|i: int| 0 <= i < ixs.len() ==> (#[trigger] ixs[i]).accounts.len() <= 7,
    ensures
        key_mentions(ixs) <= 8 * ixs.len(),
    decreases ixs.len(),
{
    if ixs.len() > 0 {
        let d = ixs.drop_last();
        assert forall|i: int| 0 <= i < d.len() implies (#[trigger] d[i]).accounts.len() <= 7 by {
            assert(d[i] == ixs[i]);
        }
        lemma_key_mentions_bound(d);
    }
}

/// What `bincode` (fixed-width integers, trailing bytes allowed) reads from
/// the given bytes as a `VersionedTransaction`.
pub uninterp spec fn decoded_transaction(bytes: Seq<u8>) -> DecodedTransactionView;

/// The message that `v0::Message::try_compile` builds for the given payer,
/// instructions and block hash, with no address lookup tables, or `None`
/// where it reports an error.
pub uninterp spec fn compiled_v0_message(
    payer: Seq<u8>,
    instructions: Seq<InstructionView>,
    recent_blockhash: Seq<u8>,
) -> Option<MessageV0View>;

/// The bytes that `bincode::serialize` writes for a versioned transaction
/// with the given signatures and version-0 message, or `None` where it
/// reports an error.
pub uninterp spec fn serialized_transaction(
    signatures: Seq<Seq<u8>>,
    message: MessageV0View,
) -> Option<Seq<u8>>;

/// Converts an address to the SDK's type (a conversion; states nothing).
#[verifier::external_body]
pub(crate) fn to_sdk_pubkey(k: &Address) -> solana_sdk::pubkey::Pubkey {
    solana_sdk::pubkey::Pubkey::new_from_array(k.bytes)
}

/// Converts an instruction to the SDK's type (a conversion; states nothing).
#[verifier::external_body]
pub(crate) fn to_sdk_instruction(ix: &Instruction) -> SdkInstruction {
    SdkInstruction {
        program_id: to_sdk_pubkey(&ix.program_id),
        accounts: ix.accounts.iter().map(|m| SdkAccountMeta {
            pubkey: to_sdk_pubkey(&m.pubkey),
            is_signer: m.is_signer,
            is_writable: m.is_writable,
        }).collect(),
        data: ix.data.clone(),
    }
}

/// Converts an SDK instruction to the library's type (a conversion; states
/// nothing).
#[verifier::external_body]
pub(crate) fn from_sdk_instruction(ix: SdkInstruction) -> Instruction {
    Instruction {
        program_id: Address { bytes: ix.program_id.to_bytes() },
        accounts: ix.accounts.iter().map(|m| AccountMeta {
            pubkey: Address { bytes: m.pubkey.to_bytes() },
            is_signer: m.is_signer,
            is_writable: m.is_writable,
        }).collect(),
        data: ix.data,
    }
}

/// Converts compiled instructions to the SDK's type (a conversion; states
/// nothing).
#[verifier::external_body]
pub(crate) fn to_sdk_compiled(ixs: &Vec<CompiledInstruction>) -> Vec<SdkCompiledInstruction> {
    ixs.iter().map(|ix| SdkCompiledInstruction {
        program_id_index: ix.program_id_index,
        accounts: ix.accounts.clone(),
        data: ix.data.clone(),
    }).collect()
}

/// Converts address table lookups to the SDK's type (a conversion; states
/// nothing).
#[verifier::external_body]
pub(crate) fn to_sdk_lookups(lookups: &Vec<AddressTableLookup>) -> Vec<SdkLookup> {
    lookups.iter().map(|l| SdkLookup {
        account_key: to_sdk_pubkey(&l.account_key),
        writable_indexes: l.writable_indexes.clone(),
        readonly_indexes: l.readonly_indexes.clone(),
    }).collect()
}

/// Converts a version-0 message to the SDK's type (a conversion; states
/// nothing).
#[verifier::external_body]
pub(crate) fn to_sdk_message(m: &MessageV0) -> sdk_v0::Message {
    sdk_v0::Message {
        header: SdkHeader {
            num_required_signatures: m.header.num_required_signatures,
            num_readonly_signed_accounts: m.header.num_readonly_signed_accounts,
            num_readonly_unsigned_accounts: m.header.num_readonly_unsigned_accounts,
        },
        account_keys: m.account_keys.iter().map(to_sdk_pubkey).collect(),
        recent_blockhash: solana_sdk::hash::Hash::new_from_array(m.recent_blockhash.bytes),
        instructions: to_sdk_compiled(&m.instructions),
        address_table_lookups: to_sdk_lookups(&m.address_table_lookups),
    }
}

/// Converts SDK compiled instructions to the library's type (a conversion;
/// states nothing).
#[verifier::external_body]
pub(crate) fn from_sdk_compiled(ixs: Vec<SdkCompiledInstruction>) -> Vec<CompiledInstruction> {
    ixs.into_iter().map(|ix| CompiledInstruction {
        program_id_index: ix.program_id_index,
        accounts: ix.accounts,
        data: ix.data,
    }).collect()
}

/// Converts SDK address table lookups to the library's type (a conversion;
/// states nothing).
#[verifier::external_body]
pub(crate) fn from_sdk_lookups(lookups: Vec<SdkLookup>) -> Vec<AddressTableLookup> {
    lookups.into_iter().map(|l| AddressTableLookup {
        account_key: Address { bytes: l.account_key.to_bytes() },
        writable_indexes: l.writable_indexes,
        readonly_indexes: l.readonly_indexes,
    }).collect()
}

/// Converts an SDK version-0 message to the library's type (a conversion;
/// states nothing).
#[verifier::external_body]
pub(crate) fn from_sdk_message(m: sdk_v0::Message) -> MessageV0 {
    MessageV0 {
        header: MessageHeader {
            num_required_signatures: m.header.num_required_signatures,
            num_readonly_signed_accounts: m.header.num_readonly_signed_accounts,
            num_readonly_unsigned_accounts: m.header.num_readonly_unsigned_accounts,
        },
        account_keys: m.account_keys.iter().map(|k| Address { bytes: k.to_bytes() }).collect(),
        recent_blockhash: BlockHash { bytes: m.recent_blockhash.to_bytes() },
        instructions: from_sdk_compiled(m.instructions),
        address_table_lookups: from_sdk_lookups(m.address_table_lookups),
    }
}

/// Reads a versioned transaction from its wire bytes.
///
/// Trusted: calls `bincode::options().with_fixint_encoding()
/// .allow_trailing_bytes().deserialize::<VersionedTransaction>` and claims
/// only that the result is the named reading of the bytes.
#[verifier::external_body]
pub fn decode_transaction(bytes: &[u8]) -> (res: DecodedTransaction)
    ensures
        res@ == decoded_transaction(bytes@),
{
    let opts = bincode::options().with_fixint_encoding().allow_trailing_bytes();
    match opts.deserialize::<VersionedTransaction>(bytes) {
        Err(_) => DecodedTransaction::Malformed,
        Ok(VersionedTransaction { message: VersionedMessage::Legacy(_), .. }) => DecodedTransaction::Legacy,
        Ok(VersionedTransaction { signatures, message: VersionedMessage::V0(m) }) => DecodedTransaction::V0 {
            signatures: signatures.into_iter().map(|s| Signature { bytes: s.into() }).collect(),
            message: from_sdk_message(m),
        },
    }
}

/// Compiles instructions into a version-0 message paid for by `payer`.
///
/// Trusted: calls `v0::Message::try_compile` with no address lookup tables
/// and claims that the result is the named compilation, and what the source
/// shows of it: `CompiledKeys` gathers each key once, with the payer as a
/// writable signer; the keys are laid out payer first, then the other
/// signers, then the rest, and the header counts the signers; the block hash
/// is kept; each instruction is compiled by looking its program and accounts
/// up among the keys and keeping its data. Compilation fails only where a
/// count or an index does not fit in a byte, which cannot happen while the
/// instructions name fewer than 255 keys in all.
#[verifier::external_body]
pub fn compile_v0_message(payer: &Address, instructions: &Vec<Instruction>, recent_blockhash: &BlockHash)
    -> (res: Option<MessageV0>)
    ensures
        res matches Some(m) ==> compiled_v0_message(payer@, instructions_view(instructions@), recent_blockhash@) == Some(m@),
        res is None ==> compiled_v0_message(payer@, instructions_view(instructions@), recent_blockhash@) is None,
        res matches Some(m) ==> m.recent_blockhash@ == recent_blockhash@,
        res matches Some(m) ==> compiled_message_for(m@, payer@, instructions_view(instructions@), recent_blockhash@),
        key_mentions(instructions_view(instructions@)) < 255 ==> res is Some,
{
    let ixs: Vec<SdkInstruction> = instructions.iter().map(to_sdk_instruction).collect();
    let hash = solana_sdk::hash::Hash::new_from_array(recent_blockhash.bytes);
    sdk_v0::Message::try_compile(&to_sdk_pubkey(payer), &ixs, &[], hash).ok().map(from_sdk_message)
}

/// Whether every list in a transaction fits the `u16` length prefix of
/// Solana's short-vector encoding: the signatures and the message's lists.
pub open spec fn fits_short_vecs(signatures: Seq<Seq<u8>>, m: MessageV0View) -> bool {
    &&& signatures.len() <= 65535
    &&& message_fits_short_vecs(m)
}

/// Whether every list in a version-0 message fits the `u16` length prefix of
/// the short-vector encoding: the keys, the instructions with their accounts
/// and data, and the lookups with their indexes.
pub open spec fn message_fits_short_vecs(m: MessageV0View) -> bool {
    &&& m.account_keys.len() <= 65535
    &&& m.instructions.len() <= 65535
    &&& forall|i: int| 0 <= i < m.instructions.len() ==> (#[trigger] m.instructions[i]).accounts.len() <= 65535
        && m.instructions[i].data.len() <= 65535
    &&& m.address_table_lookups.len() <= 65535
    &&& forall|i: int| 0 <= i < m.address_table_lookups.len() ==> (#[trigger] m.address_table_lookups[i]).writable_indexes.len()
        <= 65535 && m.address_table_lookups[i].readonly_indexes.len() <= 65535
}

/// A compilation of at most eight instructions, each with at most seven
/// accounts and data that fits a short vector, fits the short-vector
/// encoding with any list of signatures that does.
pub proof fn lemma_compiled_fits(m: MessageV0View, payer: Seq<u8>, ixs: Seq<InstructionView>, blockhash: Seq<u8>, signatures: Seq<Seq<u8>>)
    requires
        compiled_message_for(m, payer, ixs, blockhash),
        signatures.len() <= 65535,
        ixs.len() <= 8,
        forall|i: int| 0 <= i < ixs.len() ==> (#[trigger] ixs[i]).accounts.len() <= 7 && ixs[i].data.len() <= 65535,
    ensures
        fits_short_vecs(signatures, m),
{
    lemma_key_mentions_bound(ixs);
    assert forall|i: int| 0 <= i < m.instructions.len() implies (#[trigger] m.instructions[i]).accounts.len() <= 65535
        && m.instructions[i].data.len() <= 65535 by {
        assert(compiles_instruction(m.account_keys, m.instructions[i], ixs[i]));
    }
}

/// Writes a versioned transaction with a version-0 message to its wire bytes.
///
/// Trusted: calls `bincode::serialize` on a `VersionedTransaction` built from
/// the signatures and message, and claims that the result is the named
/// encoding, and that reading it back (as `decode_transaction` reads) gives
/// the same signatures and message: the type's serde implementations write
/// and read the same fields in the same order, with fixed-width integers.
/// The encoding delimits itself, and the reader allows trailing bytes, so
/// bytes appended to it do not change what is read.
/// Writing fails exactly where a list is too long for its short-vector
/// length prefix (`solana_short_vec::serialize`); bincode's default options
/// set no size limit.
#[verifier::external_body]
pub fn serialize_transaction(signatures: &Vec<Signature>, message: &MessageV0) -> (res: Option<Vec<u8>>)
    ensures
        res matches Some(b) ==> serialized_transaction(signatures_view(signatures@), message@) == Some(b@),
        res matches Some(b) ==> decoded_transaction(b@) == (DecodedTransactionView::V0 {
            signatures: signatures_view(signatures@),
            message: message@,
        }),
        res is None ==> serialized_transaction(signatures_view(signatures@), message@) is None,
        res is Some <==> fits_short_vecs(signatures_view(signatures@), message@),
        res matches Some(b) ==> forall|trailing: Seq<u8>| #[trigger] decoded_transaction(b@ + trailing)
            == decoded_transaction(b@),
{
    let tx = VersionedTransaction {
        signatures: signatures.iter().map(|s| solana_sdk::signature::Signature::from(s.bytes)).collect(),
        message: VersionedMessage::V0(to_sdk_message(message)),
    };
    bincode::serialize(&tx).ok()
}

/// The `n` lowest bytes of a number, least significant first.
pub open spec fn le_bytes(value: nat, n: nat) -> Seq<u8>
    decreases n,
{
    if n == 0 {
        seq![]
    } else {
        seq![(value % 256) as u8] + le_bytes(value / 256, (n - 1) as nat)
    }
}

/// A number's `n` lowest bytes are `n` bytes.
pub proof fn lemma_le_bytes_len(value: nat, n: nat)
    ensures
        le_bytes(value, n).len() == n,
    decreases n,
{
    if n > 0 {
        lemma_le_bytes_len(value / 256, (n - 1) as nat);
    }
}

/// The all-zero signature's bytes.
pub open spec fn zero_signature() -> Seq<u8> {
    Seq::new(64, |_i: int| 0u8)
}

/// `count` all-zero signatures, standing in for signatures a wallet adds.
pub open spec fn placeholder_signatures_view(count: nat) -> Seq<Seq<u8>> {
    Seq::new(count, |_i: int| zero_signature())
}

/// Makes `count` placeholder signatures.
pub fn placeholder_signatures(count: u8) -> (sigs: Vec<Signature>)
    ensures
        signatures_view(sigs@) == placeholder_signatures_view(count as nat),
{
    let mut sigs: Vec<Signature> = Vec::new();
    let mut i: u8 = 0;
    while i < count
        invariant
            i <= count,
            signatures_view(sigs@) == placeholder_signatures_view(i as nat),
        decreases count - i,
    {
        let ghost before = sigs@;
        sigs.push(Signature::placeholder());
        assert(signatures_view(sigs@) =~= signatures_view(before).push(zero_signature()));
        i = i + 1;
        assert(signatures_view(sigs@) =~= placeholder_signatures_view(i as nat));
    }
    sigs
}

} // verus!

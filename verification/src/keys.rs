//! Account addresses, block hashes and signatures, held as plain bytes, and
//! the parsers that read them out of request fields.
use vstd::prelude::*;
use vstd::utf8::{valid_utf8, encode_utf8, decode_utf8_encode_utf8};
use vstd::string::StringSliceAdditionalSpecFns;
use std::str::FromStr;
use crate::error::AppError;
use crate::codec::{base64_decode, base64_decoded, bs58_decode, bs58_decoded, utf8_string};

verus! {

/// A 32-byte account address (an ed25519 public key or a program address).
#[derive(Clone, Copy, Debug, PartialEq, Eq)]
pub struct Address {
    pub bytes: [u8; 32],
}

/// A 32-byte block hash.
#[derive(Clone, Copy, Debug, PartialEq, Eq)]
pub struct BlockHash {
    pub bytes: [u8; 32],
}

/// A 64-byte ed25519 signature.
#[derive(Clone, Copy, Debug, PartialEq, Eq)]
pub struct Signature {
    pub bytes: [u8; 64],
}

impl View for Address {
    type V = Seq<u8>;

    open spec fn view(&self) -> Seq<u8> {
        self.bytes@
    }
}

impl View for BlockHash {
    type V = Seq<u8>;

    open spec fn view(&self) -> Seq<u8> {
        self.bytes@
    }
}

impl View for Signature {
    type V = Seq<u8>;

    open spec fn view(&self) -> Seq<u8> {
        self.bytes@
    }
}

/// The bytes of each address in a list.
pub open spec fn addresses_view(keys: Seq<Address>) -> Seq<Seq<u8>> {
    keys.map_values(|k: Address| k@)
}

impl Address {
    /// Whether two addresses are the same.
    pub fn equals(&self, other: &Address) -> (same: bool)
        ensures
            same == (self@ == other@),
    {
        let mut i: usize = 0;
        while i < 32
            invariant
                i <= 32,
                forall|j: int| 0 <= j < i ==> self@[j] == other@[j],
            decreases 32 - i,
        {
            if self.bytes[i] != other.bytes[i] {
                return false;
            }
            i = i + 1;
        }
        assert(self@ =~= other@);
        true
    }
}

impl Signature {
    /// The all-zero signature that stands in for a signature still to be made.
    pub fn placeholder() -> (sig: Signature)
        ensures
            sig@ == Seq::new(64, |_i: int| 0u8),
    {
        let sig = Signature { bytes: [0u8; 64] };
        assert(sig@ =~= Seq::new(64, |_i: int| 0u8));
        sig
    }
}

/// Copies 32 bytes into an array.
pub fn bytes32(v: &Vec<u8>) -> (arr: [u8; 32])
    requires
        v@.len() == 32,
    ensures
        arr@ == v@,
{
    let mut arr = [0u8; 32];
    let mut i: usize = 0;
    while i < 32
        invariant
            i <= 32,
            v@.len() == 32,
            arr@.len() == 32,
            forall|j: int| 0 <= j < i ==> arr@[j] == v@[j],
        decreases 32 - i,
    {
        arr[i] = v[i];
        i = i + 1;
    }
    assert(arr@ =~= v@);
    arr
}

/// What the outcome of reading a public key from base64-wrapped base58 text
/// is: the key's 32 bytes, or the first step that refused the text.
pub open spec fn spec_base64_base58_pubkey(encoded: Seq<u8>) -> Result<Seq<u8>, AppError> {
    match base64_decoded(encoded) {
        None => Err(AppError::Base64Error),
        Some(text) => if !valid_utf8(text) {
            Err(AppError::Utf8Error)
        } else {
            match bs58_decoded(text) {
                None => Err(AppError::Base58Error),
                Some(key) => if key.len() != 32 {
                    Err(AppError::InvalidAddress)
                } else {
                    Ok(key)
                },
            }
        },
    }
}

/// Reads a public key from text that is the base64 encoding of its base58
/// form: base64-decodes it, reads the result as UTF-8, base58-decodes that,
/// and accepts it only when it has exactly 32 bytes.
pub fn parse_base64_base58_pubkey(encoded_address: &str) -> (res: Result<Address, AppError>)
    ensures
        match spec_base64_base58_pubkey(encoded_address.spec_bytes()) {
            Ok(key) => res matches Ok(k) && k@ == key,
            Err(e) => res == Err::<Address, AppError>(e),
        },
{
    let decoded_base64 = match base64_decode(encoded_address) {
        Some(v) => v,
        None => return Err(AppError::Base64Error),
    };
    let ghost raw = decoded_base64@;
    let decoded_string = match utf8_string(decoded_base64) {
        Some(s) => s,
        None => return Err(AppError::Utf8Error),
    };
    proof {
        decode_utf8_encode_utf8(raw);
    }
    assert(encode_utf8(decoded_string@) == raw);
    let bytes = match bs58_decode(decoded_string.as_str()) {
        Some(v) => v,
        None => return Err(AppError::Base58Error),
    };
    if bytes.len() != 32 {
        return Err(AppError::InvalidAddress);
    }
    Ok(Address { bytes: bytes32(&bytes) })
}

/// What `solana_sdk::hash::Hash::from_str` reads from text with the given
/// bytes (base58, at most 44 characters, 32 bytes decoded), or `None` where it
/// reports an error.
pub uninterp spec fn hash_from_str(text: Seq<u8>) -> Option<Seq<u8>>;

/// Reads a block hash from its base58 text.
///
/// Trusted: calls `solana_sdk::hash::Hash::from_str` and claims that the
/// result is the named reading of the text's bytes; the source refuses text
/// longer than 44 bytes before decoding it.
#[verifier::external_body]
pub fn hash_parse(text: &str) -> (res: Option<BlockHash>)
    ensures
        res matches Some(h) ==> hash_from_str(text.spec_bytes()) == Some(h@),
        res is None ==> hash_from_str(text.spec_bytes()) is None,
        res is Some ==> text.spec_bytes().len() <= 44,
{
    match solana_sdk::hash::Hash::from_str(text) {
        Ok(h) => Some(BlockHash { bytes: h.to_bytes() }),
        Err(_) => None,
    }
}

/// Reads the recent block hash that a client passed in; text that is not a
/// block hash is a serialization error.
pub fn parse_latest_blockhash(latest_blockhash: &String) -> (res: Result<BlockHash, AppError>)
    ensures
        match hash_from_str(encode_utf8(latest_blockhash@)) {
            Some(h) => res matches Ok(got) && got@ == h,
            None => res == Err::<BlockHash, AppError>(AppError::SerializationError),
        },
{
    match hash_parse(latest_blockhash.as_str()) {
        Some(h) => Ok(h),
        None => Err(AppError::SerializationError),
    }
}

/// Reads a signature from raw bytes.
///
/// Trusted: calls `solana_sdk::signature::Signature::try_from(&[u8])`, whose
/// source accepts exactly 64 bytes and keeps them as they are.
#[verifier::external_body]
pub fn signature_from_bytes(bytes: &[u8]) -> (res: Option<Signature>)
    ensures
        res is Some <==> bytes@.len() == 64,
        res matches Some(s) ==> s@ == bytes@,
{
    match solana_sdk::signature::Signature::try_from(bytes) {
        Ok(s) => Some(Signature { bytes: s.into() }),
        Err(_) => None,
    }
}

/// The base58 text that `solana_sdk::pubkey::Pubkey`'s `Display` writes for
/// an address with the given bytes.
pub uninterp spec fn address_text(bytes: Seq<u8>) -> Seq<char>;

/// Writes an address as base58 text.
///
/// Trusted: calls `to_string` on `solana_sdk::pubkey::Pubkey` and claims
/// that the result is the named text of the address, and that base58
/// decoding reads the address's bytes back from it: `Display` writes
/// `bs58::encode(bytes)`.
#[verifier::external_body]
pub fn address_to_string(address: &Address) -> (text: String)
    ensures
        text@ == address_text(address@),
        bs58_decoded(encode_utf8(text@)) == Some(address@),
{
    solana_sdk::pubkey::Pubkey::new_from_array(address.bytes).to_string()
}

} // verus!

//! Decrypting the available confidential balance of a token account.
use vstd::prelude::*;
use vstd::utf8::encode_utf8;
use crate::error::AppError;
use crate::keys::signature_from_bytes;
use crate::codec::{base64_decode, base64_decoded};
use crate::token::{ae_decrypt, ae_decrypted, ae_key_from_signature, ae_key_of, unpack_token_account, unpacked_token_account};

verus! {

/// A request to decrypt a token account's available confidential balance.
#[derive(Clone, Debug, PartialEq, Eq)]
pub struct DecryptCbRequest {
    pub aes_signature: String,
    pub token_account_data: String,
}

/// What decrypting gives: the authenticated-encryption key is derived from
/// the base64 signature, then the decryptable available balance of the base64
/// token account's confidential-transfer extension is decrypted with it.
pub open spec fn spec_decrypt_cb(aes_signature: Seq<u8>, token_account_data: Seq<u8>) -> Result<u64, AppError> {
    match base64_decoded(aes_signature) {
        None => Err(AppError::Base64Error),
        Some(sig) => if sig.len() != 64 {
            Err(AppError::SerializationError)
        } else {
            match ae_key_of(sig) {
                None => Err(AppError::SerializationError),
                Some(key) => match base64_decoded(token_account_data) {
                    None => Err(AppError::Base64Error),
                    Some(data) => match unpacked_token_account(data) {
                        None => Err(AppError::ProgramError),
                        Some(account) => match account.confidential {
                            None => Err(AppError::ProgramError),
                            Some(ext) => match ae_decrypted(key, ext.decryptable_available_balance) {
                                None => Err(AppError::SerializationError),
                                Some(amount) => Ok(amount),
                            },
                        },
                    },
                },
            }
        },
    }
}

/// Decrypts the available confidential balance of a token account with the
/// key that the owner's signature derives.
pub fn decrypt_cb(request: &DecryptCbRequest) -> (res: Result<u64, AppError>)
    ensures
        res == spec_decrypt_cb(encode_utf8(request.aes_signature@), encode_utf8(request.token_account_data@)),
{
    let signature_bytes = match base64_decode(request.aes_signature.as_str()) {
        Some(b) => b,
        None => return Err(AppError::Base64Error),
    };
    let signature = match signature_from_bytes(signature_bytes.as_slice()) {
        Some(s) => s,
        None => return Err(AppError::SerializationError),
    };
    let key = match ae_key_from_signature(&signature) {
        Some(k) => k,
        None => return Err(AppError::SerializationError),
    };
    let data = match base64_decode(request.token_account_data.as_str()) {
        Some(d) => d,
        None => return Err(AppError::Base64Error),
    };
    let account = match unpack_token_account(data) {
        Some(a) => a,
        None => return Err(AppError::ProgramError),
    };
    let extension = match account.confidential {
        Some(e) => e,
        None => return Err(AppError::ProgramError),
    };
    match ae_decrypt(&key, &extension.decryptable_available_balance) {
        Some(amount) => Ok(amount),
        None => Err(AppError::SerializationError),
    }
}

} // verus!

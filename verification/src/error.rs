use vstd::prelude::*;

verus! {

/// Every way a request to the confidential-balance service can be refused.
#[derive(Debug, Clone, Copy, PartialEq, Eq, Structural)]
pub enum AppError {
    /// A field that should hold standard base64 does not.
    Base64Error,
    /// Decoded bytes that should be text are not valid UTF-8.
    Utf8Error,
    /// Text that should be base58 is not.
    Base58Error,
    /// A decoded address does not have the length of a public key.
    InvalidAddress,
    /// A value could not be turned into (or out of) its wire form.
    SerializationError,
    /// The amount field is not a decimal `u64`.
    InvalidAmount,
    /// The two token accounts of a transfer belong to different mints.
    MintMismatch,
    /// The token program refused an account or an instruction.
    ProgramError,
    /// The token program's confidential-transfer logic refused the request.
    TokenError,
    /// An ElGamal key or ciphertext could not be decoded.
    ElGamalError,
    /// A message could not be compiled.
    CompileError,
    /// A transaction could not be signed by the keys it needs.
    SignerError,
    /// The auditor's signature is not a base64 signature.
    InvalidAuditorSignature,
    /// No ElGamal key can be derived from the auditor's signature.
    AuditorAccessDenied,
    /// A decrypted amount is not a 32-bit value, or the joined amount overflows.
    AmountDecodeError,
    /// The transaction holds no confidential transfer instruction.
    NoConfidentialTransferFound,
    /// The confidential transfer instruction's data is too short.
    InvalidInstructionData,
}

} // verus!

use base64::engine::general_purpose::STANDARD;
use base64::Engine;
use cb_backend::codec::{base64_decode, base64_encode, bs58_decode, parse_u64, utf8_string};
use cb_backend::error::AppError;
use cb_backend::keys::{parse_base64_base58_pubkey, parse_latest_blockhash, signature_from_bytes, address_to_string, Address};

#[test]
fn parse_u64_accepts_plain_and_plus_prefixed_digits() {
    assert_eq!(parse_u64("0"), Some(0));
    assert_eq!(parse_u64("42"), Some(42));
    assert_eq!(parse_u64("+42"), Some(42));
    assert_eq!(parse_u64("18446744073709551615"), Some(u64::MAX));
}

#[test]
fn parse_u64_refuses_everything_else() {
    assert_eq!(parse_u64(""), None);
    assert_eq!(parse_u64("+"), None);
    assert_eq!(parse_u64("-1"), None);
    assert_eq!(parse_u64(" 1"), None);
    assert_eq!(parse_u64("1 "), None);
    assert_eq!(parse_u64("1.5"), None);
    assert_eq!(parse_u64("18446744073709551616"), None);
}

#[test]
fn base64_round_trip() {
    assert_eq!(base64_encode(b"hello"), "aGVsbG8=");
    assert_eq!(base64_decode("aGVsbG8="), Some(b"hello".to_vec()));
    assert_eq!(base64_decode("aGVsbG8"), None);
    assert_eq!(base64_decode("!!!!"), None);
}

#[test]
fn bs58_and_utf8_decode() {
    assert_eq!(bs58_decode("2g"), Some(vec![97]));
    assert_eq!(bs58_decode("0OIl"), None);
    assert_eq!(utf8_string(b"abc".to_vec()), Some("abc".to_string()));
    assert_eq!(utf8_string(vec![0xff, 0xfe]), None);
}

fn wrap(text: &str) -> String {
    STANDARD.encode(text.as_bytes())
}

#[test]
fn pubkey_from_base64_base58() {
    let key = solana_sdk::pubkey::Pubkey::new_unique();
    let parsed = parse_base64_base58_pubkey(&wrap(&key.to_string())).unwrap();
    assert_eq!(parsed.bytes, key.to_bytes());
    assert_eq!(address_to_string(&parsed), key.to_string());
}

#[test]
fn pubkey_errors_name_the_failing_step() {
    assert_eq!(parse_base64_base58_pubkey("!!!!"), Err(AppError::Base64Error));
    assert_eq!(parse_base64_base58_pubkey(&STANDARD.encode([0xffu8, 0xfe])), Err(AppError::Utf8Error));
    assert_eq!(parse_base64_base58_pubkey(&wrap("0OIl")), Err(AppError::Base58Error));
    let short = bs58::encode([7u8; 31]).into_string();
    assert_eq!(parse_base64_base58_pubkey(&wrap(&short)), Err(AppError::InvalidAddress));
}

#[test]
fn blockhash_parsing() {
    let hash = parse_latest_blockhash(&"11111111111111111111111111111111".to_string()).unwrap();
    assert_eq!(hash.bytes, [0u8; 32]);
    let h = solana_sdk::hash::Hash::new_unique();
    assert_eq!(parse_latest_blockhash(&h.to_string()).unwrap().bytes, h.to_bytes());
    assert_eq!(parse_latest_blockhash(&"not a hash!".to_string()), Err(AppError::SerializationError));
    assert_eq!(parse_latest_blockhash(&"1".repeat(45)), Err(AppError::SerializationError));
}

#[test]
fn signatures_are_exactly_64_bytes() {
    assert!(signature_from_bytes(&[1u8; 63]).is_none());
    assert!(signature_from_bytes(&[1u8; 65]).is_none());
    assert_eq!(signature_from_bytes(&[9u8; 64]).unwrap().bytes, [9u8; 64]);
}

#[test]
fn address_equality() {
    let a = Address { bytes: [1u8; 32] };
    let mut other = [1u8; 32];
    assert!(a.equals(&Address { bytes: other }));
    other[31] = 2;
    assert!(!a.equals(&Address { bytes: other }));
}

#[test]
fn address_text_reads_back_through_the_pubkey_parser() {
    let key = solana_sdk::pubkey::Pubkey::new_unique();
    let address = Address { bytes: key.to_bytes() };
    let text = address_to_string(&address);
    let encoded = STANDARD.encode(text.as_bytes());
    assert_eq!(parse_base64_base58_pubkey(&encoded), Ok(address));
}

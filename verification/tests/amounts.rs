use cb_backend::audit::{combine_amount, transfer_amount_lo_bits};

#[test]
fn combine_amount_joins_halves() {
    assert_eq!(combine_amount(5, 1), Some(65541));
    assert_eq!(combine_amount(0xFFFF_FFFF, 0xFFFF_FFFF), Some(0xFFFF_FFFF * 65536 + 0xFFFF_FFFF));
}

#[test]
fn combine_amount_overflow_is_refused() {
    assert_eq!(combine_amount(0x10000, u64::MAX), None);
}

#[test]
fn lo_bits_match_proof_generation() {
    assert_eq!(transfer_amount_lo_bits(), 16);
}

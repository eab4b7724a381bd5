use project_core::naming::{receipt_filename, u64_to_dec};

#[test]
fn filenames_follow_the_convention() {
    assert_eq!(receipt_filename(0, 50), "proofs/proofs_0_50.bin");
    assert_eq!(receipt_filename(50, 100), "proofs/proofs_50_100.bin");
    assert_eq!(receipt_filename(37, 87), "proofs/proofs_37_87.bin");
}

#[test]
fn decimal_rendering_is_exact() {
    assert_eq!(u64_to_dec(0), "0");
    assert_eq!(u64_to_dec(7), "7");
    assert_eq!(u64_to_dec(10), "10");
    assert_eq!(u64_to_dec(1234567890), "1234567890");
    assert_eq!(u64_to_dec(u64::MAX), "18446744073709551615");
}

#[test]
fn filename_with_the_largest_cycle_count() {
    assert_eq!(
        receipt_filename(0, u64::MAX),
        "proofs/proofs_0_18446744073709551615.bin"
    );
}

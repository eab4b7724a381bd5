use project_core::wire::{decode_page_request, encode_page_request, PAGE_REQUEST_LEN};

#[test]
fn request_is_little_endian_paddr_then_length() {
    let req = encode_page_request(1, 2);
    assert_eq!(req.len(), PAGE_REQUEST_LEN);
    assert_eq!(req, vec![1, 0, 0, 0, 0, 0, 0, 0, 2, 0, 0, 0, 0, 0, 0, 0]);
}

#[test]
fn request_round_trip() {
    let req = encode_page_request(0x8000_0000_0000_1234, 4096);
    let back = decode_page_request(req.as_slice());
    assert_eq!(back, Some((0x8000_0000_0000_1234, 4096)));
}

#[test]
fn request_round_trip_extremes() {
    for &(paddr, length) in &[(0u64, 0u64), (u64::MAX, u64::MAX), (0x1000, 4096)] {
        let req = encode_page_request(paddr, length);
        assert_eq!(decode_page_request(req.as_slice()), Some((paddr, length)));
    }
}

#[test]
fn short_or_long_requests_are_refused() {
    assert_eq!(decode_page_request(&[0u8; 15]), None);
    assert_eq!(decode_page_request(&[0u8; 17]), None);
    assert_eq!(decode_page_request(&[]), None);
}

#[test]
fn distinct_keys_give_distinct_requests() {
    let a = encode_page_request(0x1000, 4096);
    let b = encode_page_request(0x1000, 16);
    let c = encode_page_request(0x2000, 4096);
    assert_ne!(a, b);
    assert_ne!(a, c);
    assert_ne!(b, c);
}

use sol_kit::gateway::{classify_gateway_error, extract_account_data, find_subseq, parse_u64_decimal};
use sol_kit::provision::GatewayError;

#[test]
fn classify_recognizes_the_creation_race() {
    let msg = b"Allocate: account Address { address: abc, base: None } already in use".to_vec();
    assert_eq!(classify_gateway_error(false, &msg), GatewayError::AlreadyExists);
    assert_eq!(classify_gateway_error(true, &msg), GatewayError::AlreadyExists);
}

#[test]
fn classify_transport_failures_as_transient() {
    let msg = b"connection reset by peer".to_vec();
    assert_eq!(classify_gateway_error(true, &msg), GatewayError::Transient);
}

#[test]
fn classify_not_found_and_fatal() {
    assert_eq!(
        classify_gateway_error(false, &b"account not found".to_vec()),
        GatewayError::NotFound
    );
    assert_eq!(
        classify_gateway_error(false, &b"invalid response body".to_vec()),
        GatewayError::Fatal
    );
}

#[test]
fn subsequence_search() {
    assert!(find_subseq(&b"hello world".to_vec(), &b"o w".to_vec()));
    assert!(find_subseq(&b"hello".to_vec(), &b"hello".to_vec()));
    assert!(find_subseq(&b"hello".to_vec(), &b"".to_vec()));
    assert!(!find_subseq(&b"hello".to_vec(), &b"world".to_vec()));
    assert!(!find_subseq(&b"hi".to_vec(), &b"hello".to_vec()));
}

#[test]
fn parse_u64_exact_values() {
    assert_eq!(parse_u64_decimal(&b"0".to_vec()), Some(0));
    assert_eq!(parse_u64_decimal(&b"12345".to_vec()), Some(12345));
    assert_eq!(parse_u64_decimal(&b"18446744073709551615".to_vec()), Some(u64::MAX));
}

#[test]
fn parse_u64_rejections() {
    assert_eq!(parse_u64_decimal(&b"".to_vec()), None);
    assert_eq!(parse_u64_decimal(&b"12a3".to_vec()), None);
    assert_eq!(parse_u64_decimal(&b"-5".to_vec()), None);
    assert_eq!(parse_u64_decimal(&b"18446744073709551616".to_vec()), None);
    assert_eq!(parse_u64_decimal(&b"99999999999999999999999".to_vec()), None);
}

#[test]
fn extract_account_data_slices() {
    let data = vec![10u8, 11, 12, 13, 14];
    assert_eq!(extract_account_data(&data, 0, 3), Some(vec![10, 11, 12]));
    assert_eq!(extract_account_data(&data, 2, 10), Some(vec![12, 13, 14]));
    assert_eq!(extract_account_data(&data, 4, 1), Some(vec![14]));
    assert_eq!(extract_account_data(&data, 5, 1), None);
    assert_eq!(extract_account_data(&data, 9, 1), None);
    assert_eq!(extract_account_data(&data, 0, 0), Some(vec![]));
}

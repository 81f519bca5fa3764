use libcrypto::outcomes::{
    array_result, borrowed_run, bounded_result, c_int_length, counted_result, custody_on_positive,
    custody_on_success, digest_output_fits, encoded_length, finish_c_string, finish_octets,
    generated, hmac_output_fits, identifier_result, initialized_signature, length_or_refusal,
    load_limit, octet_query_capacity, optional_key_length, published_extent, raw_key_capacity,
    reported_size, requested_capacity, sign_final_outcome, signature_capacity, signature_length,
    size_on_success, string_query_capacity, value_on_positive, value_on_success, written_prefix,
};

#[test]
fn output_operations_report_their_initialized_prefix() {
    assert_eq!(written_prefix(1, 64, 256), Ok(64));
    assert_eq!(written_prefix(1, 257, 256), Err(0));
    assert_eq!(written_prefix(0, 10, 256), Err(0));
    assert_eq!(written_prefix(-2, 10, 256), Err(-2));
    assert_eq!(reported_size(1, 512), Ok(512));
    assert_eq!(reported_size(-1, 512), Err(-1));
}

#[test]
fn status_one_reports_keep_their_values() {
    assert_eq!(size_on_success(1, 72), Ok(72));
    assert_eq!(size_on_success(2, 72), Err(2));
    assert_eq!(bounded_result(1, 32, 32), Ok(32));
    // A count past the buffer reports the status itself, even status 1.
    assert_eq!(bounded_result(1, 33, 32), Err(1));
    assert_eq!(bounded_result(0, 1, 32), Err(0));
    assert_eq!(counted_result(1, 32), Ok(32));
    assert_eq!(counted_result(-1, 32), Err(-1));
    assert_eq!(value_on_success(1, 7u64), Some(7));
    assert_eq!(value_on_success(0, 7u64), None);
    assert_eq!(value_on_positive(2, 672), Some(672));
    assert_eq!(value_on_positive(0, 672), None);
    assert_eq!(value_on_positive(-2, 672), None);
}

#[test]
fn digest_and_hmac_outputs_must_hold_the_digest() {
    assert!(digest_output_fits(32, 64));
    assert!(digest_output_fits(32, 32));
    assert!(!digest_output_fits(32, 31));
    assert!(!digest_output_fits(-1, 64));
    assert!(hmac_output_fits(32, 32));
    assert!(!hmac_output_fits(0, 64));
    assert!(!hmac_output_fits(32, 16));
}

#[test]
fn signature_finalization_checks_capacity_first() {
    assert_eq!(signature_capacity(256, 256), Ok(()));
    assert_eq!(signature_capacity(256, 255), Err(0));
    assert_eq!(signature_capacity(0, 256), Err(0));
    assert_eq!(signature_capacity(-1, 256), Err(0));
    assert_eq!(initialized_signature(256, 256), Ok(256));
    assert_eq!(initialized_signature(257, 256), Err(0));
    assert_eq!(sign_final_outcome(1, 200, 256), Ok(200));
    assert_eq!(sign_final_outcome(0, 200, 256), Err(0));
    assert_eq!(sign_final_outcome(-1, 200, 256), Err(-1));
    assert_eq!(sign_final_outcome(1, 300, 256), Err(0));
}

#[test]
fn lengths_are_converted_to_c_integers() {
    assert_eq!(c_int_length(0), Some(0));
    assert_eq!(c_int_length(i32::MAX as usize), Some(i32::MAX));
    assert_eq!(c_int_length(i32::MAX as usize + 1), None);
    assert_eq!(optional_key_length(None), Some(0));
    assert_eq!(optional_key_length(Some(16)), Some(16));
    assert_eq!(optional_key_length(Some(usize::MAX)), None);
    assert_eq!(length_or_refusal(5), Ok(5));
    assert_eq!(length_or_refusal(usize::MAX), Err(-1));
    assert_eq!(signature_length(64), Ok(64));
    assert_eq!(signature_length(u32::MAX as usize + 1), Err(-1));
    // A 64-bit C `long`.
    assert_eq!(load_limit(None, i64::MAX), Some(-1));
    assert_eq!(load_limit(Some(0), i64::MAX), Some(0));
    assert_eq!(load_limit(Some(8), i64::MAX), Some(8));
    assert_eq!(load_limit(Some(usize::MAX), i64::MAX), None);
    // A 32-bit C `long`.
    let long_max = i64::from(i32::MAX);
    assert_eq!(load_limit(None, long_max), Some(-1));
    assert_eq!(load_limit(Some(i32::MAX as usize), long_max), Some(i64::from(i32::MAX)));
    assert_eq!(load_limit(Some(i32::MAX as usize + 1), long_max), None);
    assert_eq!(load_limit(Some(usize::MAX), long_max), None);
}

#[test]
fn generation_and_array_reports() {
    assert_eq!(generated(1, true), Ok(()));
    assert_eq!(generated(1, false), Err(1));
    assert_eq!(generated(0, true), Err(0));
    assert_eq!(generated(-2, false), Err(-2));
    assert_eq!(array_result(1, true), Ok(()));
    assert_eq!(array_result(1, false), Err(0));
    assert_eq!(array_result(0, true), Err(0));
}

#[test]
fn string_parameters_are_sized_then_checked() {
    assert_eq!(string_query_capacity(usize::MAX), None);
    assert_eq!(string_query_capacity(10), Some(11));
    assert_eq!(string_query_capacity(0), Some(1));

    let name = b"prime256v1\0".to_vec();
    assert_eq!(finish_c_string(1, 10, 10, name.clone()), Some(b"prime256v1".to_vec()));
    // A shorter string written into the announced buffer is cut at its terminator.
    assert_eq!(finish_c_string(1, 3, 10, b"abc\0zzzzzzz".to_vec()), Some(b"abc".to_vec()));
    // The second call failed, or overran the announced size.
    assert_eq!(finish_c_string(0, 10, 10, name.clone()), None);
    assert_eq!(finish_c_string(1, 11, 10, name.clone()), None);
    // No terminator where the report says, or a NUL inside the string.
    assert_eq!(finish_c_string(1, 3, 10, b"abcd\0zzzzzz".to_vec()), None);
    assert_eq!(finish_c_string(1, 3, 10, b"a\0c\0zzzzzzz".to_vec()), None);
    assert_eq!(finish_c_string(1, 0, 0, vec![0]), Some(Vec::new()));
}

#[test]
fn octet_parameters_and_raw_keys_keep_the_reported_prefix() {
    assert_eq!(octet_query_capacity(usize::MAX), None);
    assert_eq!(octet_query_capacity(65), Some(65));
    assert_eq!(raw_key_capacity(1, 32), Some(32));
    assert_eq!(raw_key_capacity(0, 32), None);
    let buffer = vec![1u8, 2, 3, 4, 5];
    assert_eq!(finish_octets(1, 3, buffer.clone()), Some(vec![1, 2, 3]));
    assert_eq!(finish_octets(1, 5, buffer.clone()), Some(buffer.clone()));
    assert_eq!(finish_octets(1, 6, buffer.clone()), None);
    assert_eq!(finish_octets(0, 3, buffer), None);
}

#[test]
fn identifiers_runs_and_custody() {
    assert_eq!(identifier_result(1, b"id".to_vec()), Ok(b"id".to_vec()));
    assert_eq!(identifier_result(0, b"id".to_vec()), Err(0));
    assert_eq!(identifier_result(-2, Vec::new()), Err(-2));
    assert_eq!(encoded_length(0), None);
    assert_eq!(encoded_length(65), Some(65));
    assert_eq!(borrowed_run(-2, true), Err(-2));
    assert_eq!(borrowed_run(0, false), Ok(0));
    assert_eq!(borrowed_run(4, false), Err(-1));
    assert_eq!(borrowed_run(4, true), Ok(4));
    assert_eq!(custody_on_success(1), Ok(()));
    assert_eq!(custody_on_success(2), Err(2));
    assert_eq!(custody_on_positive(2), Ok(()));
    assert_eq!(custody_on_positive(0), Err(0));
    assert_eq!(requested_capacity(None), 0);
    assert_eq!(requested_capacity(Some(256)), 256);
    assert_eq!(published_extent(16, true), Some(16));
    assert_eq!(published_extent(-1, true), None);
    assert_eq!(published_extent(16, false), None);
}

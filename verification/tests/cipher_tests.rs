use libcrypto::cipher::{
    block_size, cipher_call_plan, expected_lengths, final_capacity, final_outcome, final_plan,
    init_buffers_fit, init_ex2_permitted, legacy_crypt_plan, params_change_lengths,
    rand_key_permitted, update_capacity, update_outcome, update_plan, CipherDirection,
    CipherLengths,
};

#[test]
fn directions_map_to_the_c_encoding() {
    assert_eq!(CipherDirection::Encrypt.as_c_int(), 1);
    assert_eq!(CipherDirection::Decrypt.as_c_int(), 0);
    assert_eq!(CipherDirection::Unchanged.as_c_int(), -1);
}

#[test]
fn expected_lengths_prefer_the_installed_cipher() {
    let ctx = CipherLengths { key_length: 16, iv_length: 16 };
    let cipher = CipherLengths { key_length: 32, iv_length: 12 };
    assert_eq!(expected_lengths(ctx, Some(cipher)), cipher);
    assert_eq!(expected_lengths(ctx, None), ctx);
}

#[test]
fn short_or_unknown_key_and_iv_buffers_are_refused() {
    let ctx = CipherLengths { key_length: 16, iv_length: 16 };
    let key = [0u8; 16];
    let short_iv = [0u8; 8];
    assert!(init_buffers_fit(ctx, None, Some(&key), None));
    assert!(init_buffers_fit(ctx, None, None, None));
    assert!(!init_buffers_fit(ctx, None, Some(&key), Some(&short_iv)));
    let unknown = CipherLengths { key_length: -1, iv_length: 0 };
    assert!(!init_buffers_fit(ctx, Some(unknown), Some(&key), None));
    assert!(init_buffers_fit(ctx, Some(unknown), None, Some(&short_iv)));
}

#[test]
fn length_changing_parameters_exclude_key_material() {
    let keylen = Some(b"keylen".to_vec());
    let other = Some(b"padding".to_vec());
    let with_keylen = vec![other.clone(), keylen];
    let without = vec![other, None];
    let ivlen = vec![Some(b"ivlen".to_vec())];
    assert!(params_change_lengths(Some(&with_keylen)));
    assert!(params_change_lengths(Some(&ivlen)));
    assert!(!params_change_lengths(Some(&without)));
    assert!(!params_change_lengths(None));

    let ctx = CipherLengths { key_length: 16, iv_length: 16 };
    let key = [0u8; 16];
    assert!(!init_ex2_permitted(true, ctx, None, Some(&key), None));
    assert!(init_ex2_permitted(true, ctx, None, None, None));
    assert!(init_ex2_permitted(false, ctx, None, Some(&key), None));
}

#[test]
fn block_sizes_and_capacities() {
    assert_eq!(block_size(16), Some(16));
    assert_eq!(block_size(0), None);
    assert_eq!(block_size(-1), None);
    assert_eq!(update_capacity(1, 10), Some(10));
    assert_eq!(update_capacity(16, 10), Some(26));
    assert_eq!(update_capacity(16, usize::MAX), None);
    assert_eq!(update_capacity(0, 10), None);
    assert_eq!(final_capacity(1), Some(0));
    assert_eq!(final_capacity(16), Some(16));
    assert_eq!(final_capacity(-5), None);
}

#[test]
fn update_plans_check_input_and_output() {
    assert_eq!(update_plan(16, 10, 26), Ok((10, 26)));
    assert_eq!(update_plan(16, 10, 25), Err(0));
    assert_eq!(update_plan(1, 10, 10), Ok((10, 10)));
    assert_eq!(update_plan(0, 10, 100), Err(0));
    assert_eq!(update_plan(16, (i32::MAX as usize) + 1, usize::MAX), Err(0));
}

#[test]
fn update_and_final_reports_are_bounded() {
    assert_eq!(update_outcome(1, 12, 26), Ok(12));
    assert_eq!(update_outcome(1, 27, 26), Err(0));
    assert_eq!(update_outcome(1, -1, 26), Err(0));
    assert_eq!(update_outcome(0, 5, 26), Err(0));
    assert_eq!(update_outcome(-2, 5, 26), Err(-2));
    assert_eq!(final_plan(16, 16), Ok(16));
    assert_eq!(final_plan(16, 15), Err(0));
    assert_eq!(final_outcome(1, 16, 32), Ok(16));
    assert_eq!(final_outcome(1, 33, 32), Err(0));
}

#[test]
fn one_shot_cipher_and_legacy_gates() {
    assert_eq!(cipher_call_plan(16, Some(10), 26), Some(10));
    assert_eq!(cipher_call_plan(16, Some(10), 25), None);
    assert_eq!(cipher_call_plan(16, None, 16), Some(0));
    assert_eq!(cipher_call_plan(0, None, 16), None);
    assert!(rand_key_permitted(16, 16));
    assert!(!rand_key_permitted(16, 15));
    assert!(!rand_key_permitted(-1, 100));
    assert_eq!(legacy_crypt_plan(10, 256, 256), Some(10));
    assert_eq!(legacy_crypt_plan(10, 256, 255), None);
    assert_eq!(legacy_crypt_plan(10, 0, 255), None);
}

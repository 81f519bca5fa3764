use libcrypto::digest::{serialization_size, serialized_state};
use libcrypto::handles::{
    up_ref_succeeded, EvpKdfRef, EvpMacRef, SharedEvpKdf, SharedEvpMac, EVP_KDF_CTX_kdf,
    EVP_KDF_free, EVP_KDF_up_ref, EVP_MAC_free, EVP_MAC_up_ref,
};
use libcrypto::hpke::{
    crypt_permitted, encap_permitted, grease_permitted, keygen_outcome, keygen_permitted,
    OsslHpkeSuite,
};
use libcrypto::keygen::{quick_keygen_call, KeygenArgument, QuickKeygen};
use libcrypto::pipeline::{pipeline_iv_length, pipeline_outcome, pipeline_start};
use libcrypto::release::{
    c_string_extent, CryptoClearFree, CryptoFree, CryptoSecureClearFree, CryptoSecureFree,
    OsslParamArrayFree, ReleaseCall, ReleaseRoutine,
};

#[test]
fn quick_generation_pairs_each_type_with_its_argument() {
    let rsa = quick_keygen_call(QuickKeygen::Rsa { bits: 2048 });
    assert_eq!(rsa.algorithm, "RSA");
    assert!(matches!(rsa.argument, KeygenArgument::Bits(2048)));
    let ec = quick_keygen_call(QuickKeygen::Ec { curve: b"prime256v1".to_vec() });
    assert_eq!(ec.algorithm, "EC");
    assert!(matches!(ec.argument, KeygenArgument::Curve(ref c) if c == b"prime256v1"));
    let ed = quick_keygen_call(QuickKeygen::Ed25519);
    assert_eq!(ed.algorithm, "ED25519");
    assert!(matches!(ed.argument, KeygenArgument::Nothing));
    let names: Vec<&str> = [
        QuickKeygen::Ed448,
        QuickKeygen::Sm2,
        QuickKeygen::X25519,
        QuickKeygen::X448,
        QuickKeygen::MlDsa44,
        QuickKeygen::MlDsa65,
        QuickKeygen::MlDsa87,
        QuickKeygen::MlKem512,
        QuickKeygen::MlKem768,
        QuickKeygen::MlKem1024,
    ]
    .into_iter()
    .map(|r| quick_keygen_call(r).algorithm)
    .collect();
    assert_eq!(
        names,
        vec![
            "ED448", "SM2", "X25519", "X448", "ML-DSA-44", "ML-DSA-65", "ML-DSA-87", "ML-KEM-512",
            "ML-KEM-768", "ML-KEM-1024"
        ]
    );
}

#[test]
fn suite_layout_and_field_access_match_c() {
    let mut suite = OsslHpkeSuite::new(0x20, 0x01, 0x02);
    assert_eq!(suite.kem_id(), 0x20);
    assert_eq!(suite.kdf_id(), 0x01);
    assert_eq!(suite.aead_id(), 0x02);
    suite.set_aead_id(0x03);
    assert_eq!(suite.aead_id(), 0x03);
    assert_eq!(suite.kem_id(), 0x20);
    suite.set_kem_id(0x10);
    suite.set_kdf_id(0x02);
    assert_eq!((suite.kem_id(), suite.kdf_id(), suite.aead_id()), (0x10, 0x02, 0x03));
    let zero = OsslHpkeSuite::zeroed();
    assert_eq!((zero.kem_id(), zero.kdf_id(), zero.aead_id()), (0, 0, 0));
}

#[test]
fn hpke_calls_refuse_empty_buffers() {
    assert!(!encap_permitted(0));
    assert!(encap_permitted(65));
    assert!(!grease_permitted(65, 0));
    assert!(!grease_permitted(0, 16));
    assert!(grease_permitted(65, 16));
    assert!(!crypt_permitted(0, 10));
    assert!(!crypt_permitted(10, 0));
    assert!(crypt_permitted(26, 10));
    assert!(keygen_permitted(65, None));
    assert!(keygen_permitted(65, Some(32)));
    assert!(!keygen_permitted(65, Some(0)));
    assert!(!keygen_permitted(0, None));
    assert_eq!(keygen_outcome(1, true, 32, 65), Ok(32));
    assert_eq!(keygen_outcome(0, true, 32, 65), Err(0));
    assert_eq!(keygen_outcome(1, false, 32, 65), Err(0));
    assert_eq!(keygen_outcome(1, true, 66, 65), Err(0));
}

#[test]
fn pipelines_share_one_iv_length() {
    assert_eq!(pipeline_iv_length(&[12, 12, 12]), Ok(12));
    assert_eq!(pipeline_iv_length(&[12, 16]), Err(0));
    assert_eq!(pipeline_iv_length(&[]), Ok(0));
    let pipeline = pipeline_start(1, 3).expect("initialized");
    assert_eq!(pipeline.pipes(), 3);
    assert!(pipeline.update_shape_ok(3, 3));
    assert!(!pipeline.update_shape_ok(2, 3));
    assert!(pipeline.final_shape_ok(3));
    assert!(!pipeline.final_shape_ok(4));
    assert!(pipeline_start(0, 3).is_err());
    assert_eq!(pipeline_outcome(1, &[16, 16], &[32, 16]), Ok(vec![16, 16]));
    assert_eq!(pipeline_outcome(1, &[16, 17], &[32, 16]), Err(0));
    assert_eq!(pipeline_outcome(-1, &[16, 16], &[32, 16]), Err(-1));
    assert_eq!(pipeline_outcome(0, &[], &[]), Err(0));
}

#[test]
fn release_strategies_choose_routine_and_length() {
    assert_eq!(
        CryptoFree.release_len(4),
        ReleaseCall { routine: ReleaseRoutine::Free, length: 0 }
    );
    assert_eq!(
        CryptoClearFree.release_len(4),
        ReleaseCall { routine: ReleaseRoutine::ClearFree, length: 4 }
    );
    assert_eq!(
        CryptoClearFree.release_len(0),
        ReleaseCall { routine: ReleaseRoutine::ClearFree, length: 0 }
    );
    assert_eq!(
        CryptoClearFree.release_string(b"clear me\0trailing"),
        ReleaseCall { routine: ReleaseRoutine::ClearFree, length: 9 }
    );
    assert_eq!(
        CryptoSecureFree.release_len(64),
        ReleaseCall { routine: ReleaseRoutine::SecureFree, length: 0 }
    );
    assert_eq!(
        CryptoSecureClearFree.release_len(64),
        ReleaseCall { routine: ReleaseRoutine::SecureClearFree, length: 64 }
    );
    assert_eq!(
        CryptoSecureClearFree.release_string(b"k\0"),
        ReleaseCall { routine: ReleaseRoutine::SecureClearFree, length: 2 }
    );
    assert_eq!(
        OsslParamArrayFree.release_len(3),
        ReleaseCall { routine: ReleaseRoutine::ParamFree, length: 0 }
    );
    assert_eq!(c_string_extent(b"\0"), 1);
    assert_eq!(c_string_extent(b"erase me\0"), 9);
}

#[test]
fn shares_name_the_same_method() {
    let kdf = EvpKdfRef::from_ptr(0x4000).expect("non-null");
    assert!(EvpKdfRef::from_ptr(0).is_none());
    let shared = EVP_KDF_up_ref(kdf, 1).expect("up-ref");
    assert_eq!(shared.as_ptr(), kdf.as_ptr());
    assert_eq!(shared.as_ref(), kdf);
    assert!(EVP_KDF_up_ref(kdf, 0).is_none());
    assert_eq!(EVP_KDF_free(Some(shared)), Some(0x4000));
    assert_eq!(EVP_KDF_free(None), None);
    let fetched = SharedEvpKdf::from_raw(0x4100).unwrap();
    assert_eq!(fetched.as_ref().as_ptr(), 0x4100);

    let mac = EvpMacRef::from_ptr(0x5000).unwrap();
    let second = EVP_MAC_up_ref(mac, 1).expect("up-ref");
    assert_eq!(second.as_ptr(), mac.as_ptr());
    assert!(EVP_MAC_up_ref(mac, -1).is_none());
    assert_eq!(EVP_MAC_free(Some(second)), Some(0x5000));
    assert!(SharedEvpMac::from_raw(0).is_none());

    assert_eq!(EVP_KDF_CTX_kdf(0x4000).map(|k| k.as_ptr()), Some(0x4000));
    assert!(EVP_KDF_CTX_kdf(0).is_none());
    assert!(up_ref_succeeded(1));
    assert!(!up_ref_succeeded(0));
}

#[test]
fn serialized_state_keeps_the_reported_prefix() {
    assert_eq!(serialization_size(1, 200), Ok(200));
    assert_eq!(serialization_size(0, 200), Err(0));
    let state = serialized_state(1, 3, vec![9, 8, 7, 6]).expect("serialized");
    assert_eq!(state.as_bytes(), &[9, 8, 7]);
    assert!(serialized_state(1, 5, vec![9, 8, 7, 6]).is_err());
    assert_eq!(serialized_state(-1, 1, vec![1]).map(|s| s.as_bytes().to_vec()), Err(-1));
}

#[test]
fn a_cloned_serialization_holds_the_same_bytes() {
    let state = serialized_state(1, 3, vec![9, 8, 7, 6]).expect("serialized");
    let copy = state.clone();
    assert_eq!(copy.as_bytes(), state.as_bytes());
    assert_eq!(copy, state);
}

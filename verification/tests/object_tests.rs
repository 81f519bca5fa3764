use libcrypto::objects::{
    add_sigid_permitted, added_nid, bsearch_index, bsearch_plan, name_lookup, new_index_outcome,
    sigid_by_algs_permitted, sigid_lookup_permitted, text_length, Asn1ObjectDuplicate, ObjName,
    ObjNameCompareCallback, ObjNameData, ObjNameFreeCallback, ObjNameHashCallback, ObjNameValue,
    OBJ_NAME_ALIAS, OBJ_dup,
};

fn record(alias: i32, data: Option<ObjNameData>) -> ObjName {
    ObjName::new(0x03, alias, Some(b"aes-128-cbc".to_vec()), data).expect("consistent record")
}

#[test]
fn fields_round_trip_through_borrowed_handles() {
    let mut raw = ObjName::new(1, 0, Some(b"sha256".to_vec()), None).unwrap();
    {
        let shared = raw.as_ref();
        assert_eq!(shared.type_id(), 1);
        assert_eq!(shared.name().map(|n| n.as_slice()), Some(&b"sha256"[..]));
        assert!(shared.data().is_none());
        assert!(!shared.is_alias());
    }
    raw.set_type(7);
    raw.set_data(Some(ObjNameData::Alias(b"sha-256".to_vec())));
    let shared = raw.as_ref();
    assert_eq!(shared.type_id(), 7);
    assert_eq!(shared.alias(), OBJ_NAME_ALIAS);
    assert!(shared.is_alias());
    assert!(matches!(shared.data(), Some(ObjNameData::Alias(t)) if t == b"sha-256"));
}

#[test]
fn alias_entries_read_their_target_name() {
    let raw = record(OBJ_NAME_ALIAS, Some(ObjNameData::Alias(b"sha-256".to_vec())));
    let Some(ObjNameData::Alias(name)) = raw.as_ref().data() else {
        panic!("an alias entry's data is its target name");
    };
    assert_eq!(name, b"sha-256");
}

#[test]
fn method_entries_keep_their_payload_erased() {
    let payload = ObjNameValue::from_address(0x1000).unwrap();
    let raw = record(0, Some(ObjNameData::Value(payload)));
    assert!(!raw.as_ref().is_alias());
    let Some(ObjNameData::Value(value)) = raw.as_ref().data() else {
        panic!("a non-alias entry's data is an erased payload");
    };
    assert_eq!(value.address(), 0x1000);
}

#[test]
fn clearing_the_payload_clears_its_discriminator() {
    let mut raw = record(OBJ_NAME_ALIAS, Some(ObjNameData::Alias(b"sha-256".to_vec())));
    raw.set_data(None);
    assert_eq!(raw.as_ref().alias(), 0);
    assert!(!raw.as_ref().is_alias());
    assert!(raw.as_ref().data().is_none());
}

#[test]
fn a_missing_name_stays_out_of_a_reference() {
    let raw = ObjName::new(0x03, 0, None, None).unwrap();
    assert!(raw.as_ref().name().is_none());
    let mut renamed = raw;
    renamed.set_name(Some(b"des".to_vec()));
    assert_eq!(renamed.as_ref().name().map(|n| n.as_slice()), Some(&b"des"[..]));
}

#[test]
fn contradictory_records_are_refused() {
    assert!(ObjName::new(1, 0, None, Some(ObjNameData::Alias(b"x".to_vec()))).is_none());
    let payload = ObjNameValue::from_address(8).unwrap();
    assert!(ObjName::new(1, OBJ_NAME_ALIAS, None, Some(ObjNameData::Value(payload))).is_none());
    // Any non-zero alias counts, as in libcrypto's traversals.
    let odd = ObjName::new(1, 5, None, Some(ObjNameData::Alias(b"x".to_vec()))).unwrap();
    assert!(odd.as_ref().is_alias());
}

#[test]
fn payloads_and_lookups() {
    assert!(ObjNameValue::from_address(0).is_none());
    assert!(name_lookup(0).is_none());
    assert_eq!(name_lookup(0x40).map(|v| v.address()), Some(0x40));
}

#[test]
fn bsearch_results_map_back_to_indices() {
    // Four elements of eight bytes at 0x1000.
    assert_eq!(bsearch_index(0x1000, 8, 4, 0x1000), Some(0));
    assert_eq!(bsearch_index(0x1000, 8, 4, 0x1018), Some(3));
    assert_eq!(bsearch_index(0x1000, 8, 4, 0x1020), None);
    assert_eq!(bsearch_index(0x1000, 8, 4, 0x0ff8), None);
    assert_eq!(bsearch_index(0x1000, 8, 4, 0x1004), None);
    assert_eq!(bsearch_index(0x1000, 8, 4, 0), None);
    assert_eq!(bsearch_index(0x1000, 8, 0, 0x1000), None);
    assert_eq!(bsearch_index(0x1000, 0, 4, 0x1000), None);
    assert_eq!(bsearch_index(usize::MAX - 8, 8, 4, usize::MAX - 8), None);
    assert_eq!(bsearch_index(0x10, usize::MAX, 4, 0x10), None);
}

#[test]
fn bsearch_plans_need_c_sized_slices() {
    assert_eq!(bsearch_plan(10, 4), Some((10, 4)));
    assert_eq!(bsearch_plan(10, 0), None);
    assert_eq!(bsearch_plan(i32::MAX as usize + 1, 4), None);
    assert_eq!(bsearch_plan(10, i32::MAX as usize + 1), None);
}

#[test]
fn non_positive_nids_are_rejected_before_the_c_comparators() {
    for invalid in [i32::MIN, -1, 0] {
        assert!(!sigid_lookup_permitted(invalid));
        assert!(!sigid_by_algs_permitted(invalid, 1));
        assert!(!sigid_by_algs_permitted(1, invalid));
        assert!(!add_sigid_permitted(invalid, 1, 1));
        assert!(!add_sigid_permitted(1, invalid, 1));
        assert!(!add_sigid_permitted(1, 1, invalid));
    }
    assert!(sigid_lookup_permitted(668));
    assert!(sigid_by_algs_permitted(672, 6));
    assert!(add_sigid_permitted(668, 672, 6));
}

#[test]
fn registry_reports() {
    assert_eq!(new_index_outcome(5), Some(5));
    assert_eq!(new_index_outcome(0), None);
    assert_eq!(new_index_outcome(-1), None);
    assert_eq!(added_nid(1200), Some(1200));
    assert_eq!(added_nid(0), None);
    assert_eq!(text_length(22), Some(22));
    assert_eq!(text_length(-1), None);
}

#[test]
fn duplicates_distinguish_owned_from_static() {
    assert_eq!(OBJ_dup(0, true), None);
    assert_eq!(OBJ_dup(0x2000, true), Some(Asn1ObjectDuplicate::Owned(0x2000)));
    assert_eq!(OBJ_dup(0x3000, false), Some(Asn1ObjectDuplicate::Static(0x3000)));
}

#[test]
fn callbacks_keep_their_addresses() {
    assert_eq!(ObjNameHashCallback::from_raw(0x10).address(), 0x10);
    assert_eq!(ObjNameCompareCallback::from_raw(0x20).address(), 0x20);
    assert_eq!(ObjNameFreeCallback::from_raw(0x30).address(), 0x30);
}

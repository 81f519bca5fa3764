//! What libcrypto's status codes and reported lengths mean.
//!
//! libcrypto reports success through an `int` status and writes lengths into
//! out-parameters. Each function here turns one such report, together with the
//! extent of the caller's buffer, into the binding's `Result` or `Option`; the
//! gates decide whether a call may be issued at all.

use vstd::prelude::*;

verus! {

/// The result of a call that writes into a caller buffer and reports the
/// byte count: a non-positive status is passed on, and a count beyond the
/// buffer is refused with 0.
pub open spec fn spec_written_prefix(status: i32, length: usize, capacity: usize) -> Result<usize, i32> {
    if status <= 0 {
        Err(status)
    } else if length > capacity {
        Err(0)
    } else {
        Ok(length)
    }
}

/// Interprets an output operation (`EVP_PKEY_sign`, `EVP_PKEY_verify_recover`,
/// `EVP_PKEY_sign_message_final`): the length of the initialized prefix.
pub fn written_prefix(status: i32, length: usize, capacity: usize) -> (outcome: Result<usize, i32>)
    ensures
        outcome == spec_written_prefix(status, length, capacity),
{
    if status <= 0 {
        Err(status)
    } else if length > capacity {
        Err(0)
    } else {
        Ok(length)
    }
}

/// The result of a size query that reports success by a positive status.
pub open spec fn spec_reported_size(status: i32, length: usize) -> Result<usize, i32> {
    if status <= 0 {
        Err(status)
    } else {
        Ok(length)
    }
}

/// Interprets the size-query form of an output operation.
pub fn reported_size(status: i32, length: usize) -> (outcome: Result<usize, i32>)
    ensures
        outcome == spec_reported_size(status, length),
{
    if status <= 0 {
        Err(status)
    } else {
        Ok(length)
    }
}

/// The result of a size query that succeeds only on status 1.
pub open spec fn spec_size_on_success(status: i32, length: usize) -> Result<usize, i32> {
    if status == 1 {
        Ok(length)
    } else {
        Err(status)
    }
}

/// Interprets `EVP_DigestSign` and `EVP_DigestSignFinal` in their size-query
/// form.
pub fn size_on_success(status: i32, length: usize) -> (outcome: Result<usize, i32>)
    ensures
        outcome == spec_size_on_success(status, length),
{
    if status == 1 {
        Ok(length)
    } else {
        Err(status)
    }
}

/// The result of a call that succeeds on status 1 with a count within the
/// buffer; anything else reports the status itself.
pub open spec fn spec_bounded_result(status: i32, written: usize, capacity: usize) -> Result<usize, i32> {
    if status == 1 && written <= capacity {
        Ok(written)
    } else {
        Err(status)
    }
}

/// Interprets `EVP_DigestSign`, `EVP_DigestSignFinal`, `EVP_MAC_final` and the
/// HPKE encapsulation, open, seal and GREASE calls.
pub fn bounded_result(status: i32, written: usize, capacity: usize) -> (outcome: Result<usize, i32>)
    ensures
        outcome == spec_bounded_result(status, written, capacity),
{
    if status == 1 && written <= capacity {
        Ok(written)
    } else {
        Err(status)
    }
}

/// The result of a call that reports an `unsigned int` count on status 1.
pub open spec fn spec_counted_result(status: i32, written: u32) -> Result<usize, i32> {
    if status == 1 {
        Ok(written as usize)
    } else {
        Err(status)
    }
}

/// Interprets `EVP_Digest`, `EVP_DigestFinal(_ex)` and `HMAC_Final`.
pub fn counted_result(status: i32, written: u32) -> (outcome: Result<usize, i32>)
    ensures
        outcome == spec_counted_result(status, written),
{
    if status == 1 {
        Ok(written as usize)
    } else {
        Err(status)
    }
}

/// A value written through an out-parameter, kept only when the status is 1
/// (`EVP_PKEY_get_int_param`, `EVP_PKEY_get_size_t_param`,
/// `OSSL_HPKE_CTX_get_seq`, `OBJ_find_sigid_algs`, ...).
pub fn value_on_success<T>(status: i32, value: T) -> (kept: Option<T>)
    ensures
        kept == (if status == 1 { Some(value) } else { None::<T> }),
{
    if status == 1 {
        Some(value)
    } else {
        None
    }
}

/// A value written through an out-parameter, kept only when the status is
/// positive (`EVP_PKEY_get_default_digest_nid`, `EVP_PKEY_CTX_get1_id_len`,
/// `EVP_PKEY_CTX_get_signature_md`).
pub fn value_on_positive<T>(status: i32, value: T) -> (kept: Option<T>)
    ensures
        kept == (if status > 0 { Some(value) } else { None::<T> }),
{
    if status > 0 {
        Some(value)
    } else {
        None
    }
}

/// Whether an output buffer holds a digest of the size libcrypto reports
/// (negative when the size is unknown).
pub open spec fn spec_digest_output_fits(required: i32, output_len: usize) -> bool {
    required >= 0 && output_len >= required
}

/// The check made before calling `EVP_Digest` and `EVP_DigestFinal(_ex)`.
pub fn digest_output_fits(required: i32, output_len: usize) -> (fits: bool)
    ensures
        fits == spec_digest_output_fits(required, output_len),
{
    required >= 0 && output_len >= required as usize
}

/// The check made before calling `HMAC_Final`: a digest must be selected (non-zero
/// size) and the output must hold it.
pub fn hmac_output_fits(required: usize, output_len: usize) -> (fits: bool)
    ensures
        fits == (required != 0 && output_len >= required),
{
    required != 0 && output_len >= required
}

/// Whether a signature output buffer covers the extent libcrypto writes for a
/// key of `key_size` bytes; a key that cannot state a positive size is refused.
pub open spec fn spec_signature_capacity(key_size: i32, output_len: usize) -> Result<(), i32> {
    if key_size <= 0 || output_len < key_size {
        Err(0)
    } else {
        Ok(())
    }
}

/// The check made before calling `EVP_SignFinal(_ex)`.
pub fn signature_capacity(key_size: i32, output_len: usize) -> (gate: Result<(), i32>)
    ensures
        gate == spec_signature_capacity(key_size, output_len),
{
    if key_size <= 0 || output_len < key_size as usize {
        Err(0)
    } else {
        Ok(())
    }
}

/// The initialized prefix of a signature buffer after a successful signing
/// call that reported `written` bytes.
pub open spec fn spec_initialized_signature(written: u32, output_len: usize) -> Result<usize, i32> {
    if written > output_len {
        Err(0)
    } else {
        Ok(written as usize)
    }
}

/// Bounds the byte count a successful `EVP_SignFinal(_ex)` reported.
pub fn initialized_signature(written: u32, output_len: usize) -> (prefix: Result<usize, i32>)
    ensures
        prefix == spec_initialized_signature(written, output_len),
{
    if written as u64 > output_len as u64 {
        Err(0)
    } else {
        Ok(written as usize)
    }
}

/// The result of `EVP_SignFinal(_ex)` once issued: any status but 1 is passed
/// on, otherwise the reported count is bounded by the buffer.
pub open spec fn spec_sign_final_outcome(status: i32, written: u32, output_len: usize) -> Result<usize, i32> {
    if status != 1 {
        Err(status)
    } else {
        spec_initialized_signature(written, output_len)
    }
}

/// Interprets the report of `EVP_SignFinal(_ex)`.
pub fn sign_final_outcome(status: i32, written: u32, output_len: usize) -> (outcome: Result<usize, i32>)
    ensures
        outcome == spec_sign_final_outcome(status, written, output_len),
{
    if status != 1 {
        return Err(status);
    }
    initialized_signature(written, output_len)
}

/// A buffer length as libcrypto's `int`, when it fits.
pub open spec fn spec_c_int_length(len: usize) -> Option<i32> {
    if len <= i32::MAX {
        Some(len as i32)
    } else {
        None
    }
}

/// Converts a buffer length to libcrypto's `int` (`EVP_PKEY_set_type_str`,
/// `EVP_PKEY_new_mac_key`, `OBJ_obj2txt`, `EVP_PKEY_CTX_set0_keygen_info`).
pub fn c_int_length(len: usize) -> (converted: Option<i32>)
    ensures
        converted == spec_c_int_length(len),
{
    if len <= 0x7fff_ffffusize {
        Some(len as i32)
    } else {
        None
    }
}

/// The `int` length handed to `HMAC_Init(_ex)` for an optional key: 0 for no
/// key, the key's length when it fits, otherwise the call is refused.
pub fn optional_key_length(key_len: Option<usize>) -> (converted: Option<i32>)
    ensures
        converted == match key_len {
            None => Some(0i32),
            Some(len) => spec_c_int_length(len),
        },
{
    match key_len {
        None => Some(0),
        Some(len) => c_int_length(len),
    }
}

/// The `int` length handed to the HKDF, TLS-PRF and identifier setters, or
/// the -1 those wrappers report for a run too long for an `int`.
pub fn length_or_refusal(len: usize) -> (converted: Result<i32, i32>)
    ensures
        converted == match spec_c_int_length(len) {
            Some(l) => Ok::<i32, i32>(l),
            None => Err(-1i32),
        },
{
    match c_int_length(len) {
        Some(l) => Ok(l),
        None => Err(-1),
    }
}

/// The result of a generating call that hands back a fresh object through an
/// out-parameter (`EVP_PKEY_keygen`, `EVP_PKEY_paramgen`): a non-positive
/// status is passed on (any object left behind is released), and success
/// without an object reports the status too.
pub open spec fn spec_generated(status: i32, produced: bool) -> Result<(), i32> {
    if status <= 0 || !produced {
        Err(status)
    } else {
        Ok(())
    }
}

/// Interprets a key or parameter generation.
pub fn generated(status: i32, produced: bool) -> (outcome: Result<(), i32>)
    ensures
        outcome == spec_generated(status, produced),
{
    if status <= 0 || !produced {
        Err(status)
    } else {
        Ok(())
    }
}

/// The result of a call that returns an allocated array through an
/// out-parameter on status 1 (`EVP_PKEY_todata`): the status when it is not
/// 1, 0 when no array came back.
pub open spec fn spec_array_result(status: i32, present: bool) -> Result<(), i32> {
    if status != 1 {
        Err(status)
    } else if !present {
        Err(0)
    } else {
        Ok(())
    }
}

/// Interprets `EVP_PKEY_todata`.
pub fn array_result(status: i32, present: bool) -> (outcome: Result<(), i32>)
    ensures
        outcome == spec_array_result(status, present),
{
    if status != 1 {
        Err(status)
    } else if !present {
        Err(0)
    } else {
        Ok(())
    }
}

/// The capacity to allocate for a NUL-terminated string parameter whose
/// length the sizing call reported: one more byte for the terminator. The
/// sizing call leaves `usize::MAX` in place when it reports nothing.
pub open spec fn spec_string_query_capacity(required: usize) -> Option<usize> {
    if required == usize::MAX {
        None
    } else {
        Some((required + 1) as usize)
    }
}

/// Sizes the buffer for `EVP_PKEY_get_utf8_string_param` and
/// `EVP_PKEY_get_group_name`.
pub fn string_query_capacity(required: usize) -> (capacity: Option<usize>)
    ensures
        capacity == spec_string_query_capacity(required),
{
    if required == usize::MAX {
        None
    } else {
        Some(required + 1)
    }
}

/// The capacity to allocate for an octet-string parameter whose length the
/// sizing call reported.
pub open spec fn spec_octet_query_capacity(required: usize) -> Option<usize> {
    if required == usize::MAX {
        None
    } else {
        Some(required)
    }
}

/// Sizes the buffer for `EVP_PKEY_get_octet_string_param`.
pub fn octet_query_capacity(required: usize) -> (capacity: Option<usize>)
    ensures
        capacity == spec_octet_query_capacity(required),
{
    if required == usize::MAX {
        None
    } else {
        Some(required)
    }
}

/// Whether a byte sequence is exactly one C string: it ends in its only NUL.
pub open spec fn is_c_string_with_nul(bytes: Seq<u8>) -> bool {
    &&& bytes.len() >= 1
    &&& bytes[bytes.len() - 1] == 0
    &&& forall|i: int| 0 <= i < bytes.len() - 1 ==> #[trigger] bytes[i] != 0
}

/// The buffer cut back to the reported length plus its terminator.
pub open spec fn truncated(buffer: Seq<u8>, len: int) -> Seq<u8> {
    if len < buffer.len() {
        buffer.take(len)
    } else {
        buffer
    }
}

/// The string a completed string query yields: nothing unless the call
/// succeeded within the size it announced, and then the bytes before the
/// terminator, provided the reported extent ends in its only NUL.
pub open spec fn spec_finish_c_string(status: i32, written: usize, required: usize, buffer: Seq<u8>) -> Option<Seq<u8>> {
    if status != 1 || written > required || written == usize::MAX {
        None
    } else {
        let kept = truncated(buffer, written + 1);
        if is_c_string_with_nul(kept) {
            Some(kept.drop_last())
        } else {
            None
        }
    }
}

/// Completes a string query: checks the second call's report and the bytes it
/// left in the buffer, and returns the string without its terminator.
pub fn finish_c_string(status: i32, written: usize, required: usize, buffer: Vec<u8>) -> (text: Option<Vec<u8>>)
    ensures
        match spec_finish_c_string(status, written, required, buffer@) {
            None => text.is_none(),
            Some(s) => text.is_some() && text.unwrap()@ == s,
        },
{
    if status != 1 || written > required || written == usize::MAX {
        return None;
    }
    let keep: usize = written + 1;
    let n: usize = if keep < buffer.len() { keep } else { buffer.len() };
    let ghost kept = truncated(buffer@, keep as int);
    assert(kept.len() == n);
    assert(spec_finish_c_string(status, written, required, buffer@) == if is_c_string_with_nul(kept) {
        Some(kept.drop_last())
    } else {
        None
    });
    assert(forall|j: int| 0 <= j < n ==> kept[j] == buffer@[j]);
    if n == 0 || buffer[n - 1] != 0 {
        assert(!is_c_string_with_nul(kept));
        return None;
    }
    let mut out: Vec<u8> = Vec::new();
    let mut i: usize = 0;
    while i < n - 1
        invariant
            n <= buffer.len(),
            n >= 1,
            kept.len() == n,
            forall|j: int| 0 <= j < n ==> kept[j] == buffer@[j],
            spec_finish_c_string(status, written, required, buffer@) == if is_c_string_with_nul(kept) {
                Some(kept.drop_last())
            } else {
                None
            },
            i <= n - 1,
            out@ == buffer@.take(i as int),
            forall|j: int| 0 <= j < i ==> #[trigger] buffer@[j] != 0,
        decreases n - 1 - i,
    {
        if buffer[i] == 0 {
            assert(kept[i as int] == 0);
            assert(!is_c_string_with_nul(kept));
            return None;
        }
        out.push(buffer[i]);
        i = i + 1;
        assert(out@ =~= buffer@.take(i as int));
    }
    assert(is_c_string_with_nul(kept));
    assert(out@ =~= kept.drop_last());
    Some(out)
}

/// The bytes a completed octet query yields: nothing unless the call
/// succeeded with a count within the buffer, and then that prefix.
pub open spec fn spec_finish_octets(status: i32, written: usize, buffer: Seq<u8>) -> Option<Seq<u8>> {
    if status != 1 || written > buffer.len() {
        None
    } else {
        Some(buffer.take(written as int))
    }
}

/// Completes an octet-string parameter or raw key query
/// (`EVP_PKEY_get_octet_string_param`, `EVP_PKEY_get_raw_private_key`,
/// `EVP_PKEY_get_raw_public_key`).
pub fn finish_octets(status: i32, written: usize, buffer: Vec<u8>) -> (bytes: Option<Vec<u8>>)
    ensures
        match spec_finish_octets(status, written, buffer@) {
            None => bytes.is_none(),
            Some(s) => bytes.is_some() && bytes.unwrap()@ == s,
        },
{
    if status != 1 || written > buffer.len() {
        return None;
    }
    let mut out = buffer;
    out.truncate(written);
    Some(out)
}

/// The capacity for a raw key, given the sizing call's status and report.
pub fn raw_key_capacity(status: i32, required: usize) -> (capacity: Option<usize>)
    ensures
        capacity == (if status == 1 { Some(required) } else { None::<usize> }),
{
    value_on_success(status, required)
}

/// The identifier `EVP_PKEY_CTX_get1_id` filled in, kept on a positive status.
pub fn identifier_result(status: i32, identifier: Vec<u8>) -> (outcome: Result<Vec<u8>, i32>)
    ensures
        status > 0 ==> (outcome matches Ok(id) && id@ == identifier@),
        status <= 0 ==> outcome == Err::<Vec<u8>, i32>(status),
{
    if status > 0 {
        Ok(identifier)
    } else {
        Err(status)
    }
}

/// The length of a freshly allocated encoding reported by
/// `EVP_PKEY_get1_encoded_public_key`: nothing for 0.
pub fn encoded_length(len: usize) -> (kept: Option<usize>)
    ensures
        kept == (if len == 0 { None::<usize> } else { Some(len) }),
{
    if len == 0 {
        None
    } else {
        Some(len)
    }
}

/// The byte run a `get0` query borrowed from a context (the RSA OAEP label,
/// the DH KDF UKM): a negative length is passed on, a missing run is
/// accepted only when empty (-1 otherwise), else its length.
pub open spec fn spec_borrowed_run(len: i32, present: bool) -> Result<usize, i32> {
    if len < 0 {
        Err(len)
    } else if !present && len != 0 {
        Err(-1i32)
    } else {
        Ok(len as usize)
    }
}

/// Interprets the length and pointer a borrowed-run query reported.
pub fn borrowed_run(len: i32, present: bool) -> (run: Result<usize, i32>)
    ensures
        run == spec_borrowed_run(len, present),
{
    if len < 0 {
        Err(len)
    } else if !present && len != 0 {
        Err(-1)
    } else {
        Ok(len as usize)
    }
}

/// The `unsigned int` signature length `EVP_VerifyFinal(_ex)` takes, or the
/// -1 those wrappers report for a signature too long for it.
pub fn signature_length(len: usize) -> (converted: Result<u32, i32>)
    ensures
        len <= u32::MAX ==> converted == Ok::<u32, i32>(len as u32),
        len > u32::MAX ==> converted == Err::<u32, i32>(-1i32),
{
    if len as u64 <= 0xffff_ffffu64 {
        Ok(len as u32)
    } else {
        Err(-1)
    }
}

/// The `long` limit `RAND_load_file` takes, where the platform's C `long`
/// reaches `long_max` (`i32::MAX` or `i64::MAX`): -1 (read the whole file)
/// for no limit, the limit itself when a `long` holds it, otherwise the call
/// is refused.
pub fn load_limit(maximum: Option<usize>, long_max: i64) -> (limit: Option<i64>)
    ensures
        match maximum {
            None => limit == Some(-1i64),
            Some(m) => limit == (if m <= long_max { Some(m as i64) } else { None::<i64> }),
        },
{
    match maximum {
        None => Some(-1),
        Some(m) => if long_max >= 0 && m as u64 <= long_max as u64 {
            Some(m as i64)
        } else {
            None
        },
    }
}

/// Whether a `set0` call took custody of the buffer it was handed: only on
/// status 1; any other status leaves the buffer with the caller.
pub fn custody_on_success(status: i32) -> (outcome: Result<(), i32>)
    ensures
        outcome == (if status == 1 { Ok::<(), i32>(()) } else { Err(status) }),
{
    if status == 1 {
        Ok(())
    } else {
        Err(status)
    }
}

/// Whether a `set` call that takes custody on a positive status
/// (`EVP_PKEY_CTX_set_rsa_keygen_pubexp`) kept the value it was handed.
pub fn custody_on_positive(status: i32) -> (outcome: Result<(), i32>)
    ensures
        outcome == (if status > 0 { Ok::<(), i32>(()) } else { Err(status) }),
{
    if status > 0 {
        Ok(())
    } else {
        Err(status)
    }
}

/// A string query into the buffer sized for it (one byte past the announced
/// length) yields exactly the `written` bytes before the terminator the
/// second call reported, within the announced size, and never a NUL.
pub proof fn law_c_string_result(status: i32, written: usize, required: usize, buffer: Seq<u8>)
    requires
        buffer.len() == required + 1,
        spec_finish_c_string(status, written, required, buffer) is Some,
    ensures
        ({
            let s = spec_finish_c_string(status, written, required, buffer)->Some_0;
            &&& s.len() == written
            &&& s.len() <= required
            &&& forall|i: int| 0 <= i < s.len() ==> #[trigger] s[i] != 0
            &&& s == buffer.take(written as int)
        }),
{
    let kept = truncated(buffer, written + 1);
    let s = kept.drop_last();
    assert(kept.len() == written + 1);
    assert(s =~= buffer.take(written as int));
    assert forall|i: int| 0 <= i < s.len() implies #[trigger] s[i] != 0 by {
        assert(s[i] == kept[i]);
    }
}

/// Whatever a status-and-count report yields lies within the caller's
/// buffer, and only a status of 1 yields anything.
pub proof fn law_reports_stay_in_buffer(status: i32, written: usize, capacity: usize)
    ensures
        spec_bounded_result(status, written, capacity) matches Ok(n) ==> n <= capacity && status == 1,
        spec_written_prefix(status, written, capacity) matches Ok(n) ==> n <= capacity && status > 0,
        spec_finish_octets(status, written, Seq::<u8>::empty()) matches Some(b) ==> b.len() == 0,
{
}

/// The in/out capacity handed to a call that either writes into a buffer or,
/// given none, only reports the size it needs (`EVP_PKEY_encrypt`,
/// `EVP_PKEY_decrypt`, `EVP_PKEY_derive`, `EVP_PKEY_encapsulate`,
/// `EVP_PKEY_decapsulate`): the buffer's length, or 0 for the size query.
pub fn requested_capacity(output_len: Option<usize>) -> (capacity: usize)
    ensures
        capacity == match output_len {
            None => 0usize,
            Some(n) => n,
        },
{
    match output_len {
        None => 0,
        Some(n) => n,
    }
}

/// The extent of a run libcrypto publishes with an `int` length (the
/// running and original IV): none for a negative length or a missing run.
pub fn published_extent(len: i32, present: bool) -> (extent: Option<usize>)
    ensures
        extent == (if len >= 0 && present { Some(len as usize) } else { None::<usize> }),
{
    if len >= 0 && present {
        Some(len as usize)
    } else {
        None
    }
}

/// A signature finalization that passed its check and was accepted reports a
/// prefix of the buffer, which held the key's whole signature size.
pub proof fn law_signature_prefix(key_size: i32, output_len: usize, status: i32, written: u32)
    requires
        spec_signature_capacity(key_size, output_len) is Ok,
        spec_sign_final_outcome(status, written, output_len) is Ok,
    ensures
        0 < key_size <= output_len,
        spec_sign_final_outcome(status, written, output_len)->Ok_0 == written,
        written <= output_len,
        status == 1,
{
}

/// Sizing an octet query and completing it into the buffer sized for it
/// never yields more bytes than the sizing call announced.
pub proof fn law_octet_query_bounded(required: usize, status: i32, written: usize, buffer: Seq<u8>)
    requires
        buffer.len() <= usize::MAX,
        spec_octet_query_capacity(required) == Some(buffer.len() as usize),
    ensures
        spec_finish_octets(status, written, buffer) matches Some(b) ==> b.len() == written && written <= required,
{
}

/// Sizing a string query leaves room for exactly one terminator, so the
/// string that completes it never exceeds the announced length.
pub proof fn law_string_query_bounded(required: usize, status: i32, written: usize, buffer: Seq<u8>)
    requires
        buffer.len() <= usize::MAX,
        spec_string_query_capacity(required) == Some(buffer.len() as usize),
        spec_finish_c_string(status, written, required, buffer) is Some,
    ensures
        spec_finish_c_string(status, written, required, buffer)->Some_0.len() == written,
        written <= required,
{
    law_c_string_result(status, written, required, buffer);
}

/// An output operation yields the reported length exactly when the status is
/// positive and the length lies within the buffer, bounds included; a
/// non-positive status is passed on and an overrun is refused with 0.
pub proof fn law_written_prefix(status: i32, length: usize, capacity: usize)
    ensures
        status <= 0 ==> spec_written_prefix(status, length, capacity) == Err::<usize, i32>(status),
        status > 0 && length <= capacity ==> spec_written_prefix(status, length, capacity) == Ok::<
            usize,
            i32,
        >(length),
        status > 0 && length > capacity ==> spec_written_prefix(status, length, capacity) == Err::<
            usize,
            i32,
        >(0),
{
}

/// Size queries: a positive status (or status 1, for the calls that require
/// it) yields the reported size; otherwise the status is the error.
pub proof fn law_size_queries(status: i32, length: usize)
    ensures
        status > 0 ==> spec_reported_size(status, length) == Ok::<usize, i32>(length),
        status <= 0 ==> spec_reported_size(status, length) == Err::<usize, i32>(status),
        status == 1 ==> spec_size_on_success(status, length) == Ok::<usize, i32>(length),
        status != 1 ==> spec_size_on_success(status, length) == Err::<usize, i32>(status),
{
}

/// Status-and-count reports: status 1 with a count within the buffer (bounds
/// included) yields the count; anything else reports the status. A counted
/// `unsigned int` report yields its count exactly on status 1.
pub proof fn law_status_one_reports(status: i32, written: usize, capacity: usize, count: u32)
    ensures
        status == 1 && written <= capacity ==> spec_bounded_result(status, written, capacity)
            == Ok::<usize, i32>(written),
        !(status == 1 && written <= capacity) ==> spec_bounded_result(status, written, capacity)
            == Err::<usize, i32>(status),
        status == 1 ==> spec_counted_result(status, count) == Ok::<usize, i32>(count as usize),
        status != 1 ==> spec_counted_result(status, count) == Err::<usize, i32>(status),
{
}

/// Digest, HMAC and signature outputs: the buffer must hold the size the
/// digest or key reports, bounds included; a signature that exactly fills it
/// is kept whole.
pub proof fn law_output_sizes(required: i32, output_len: usize, written: u32, status: i32)
    ensures
        spec_digest_output_fits(required, output_len) == (0 <= required && required as int
            <= output_len as int),
        spec_signature_capacity(required, output_len) == (if 0 < required && required as int
            <= output_len as int {
            Ok::<(), i32>(())
        } else {
            Err::<(), i32>(0)
        }),
        written as int <= output_len as int ==> spec_initialized_signature(written, output_len)
            == Ok::<usize, i32>(written as usize),
        written as int > output_len as int ==> spec_initialized_signature(written, output_len)
            == Err::<usize, i32>(0),
        status != 1 ==> spec_sign_final_outcome(status, written, output_len) == Err::<usize, i32>(
            status,
        ),
        status == 1 && written as int <= output_len as int ==> spec_sign_final_outcome(
            status,
            written,
            output_len,
        ) == Ok::<usize, i32>(written as usize),
{
}

/// Conversions to C integers succeed exactly on the values the target type
/// holds and keep the value.
pub proof fn law_c_int_length(len: usize)
    ensures
        len <= i32::MAX ==> spec_c_int_length(len) == Some(len as i32) && (len as i32) as int
            == len as int,
        len > i32::MAX ==> spec_c_int_length(len) is None,
{
}

/// Generation and array results: success exactly on a good status with an
/// object handed back.
pub proof fn law_generated(status: i32, produced: bool)
    ensures
        spec_generated(status, produced) is Ok <==> (status > 0 && produced),
        !(status > 0 && produced) ==> spec_generated(status, produced) == Err::<(), i32>(status),
        spec_array_result(status, produced) is Ok <==> (status == 1 && produced),
        status != 1 ==> spec_array_result(status, produced) == Err::<(), i32>(status),
        status == 1 && !produced ==> spec_array_result(status, produced) == Err::<(), i32>(0),
{
}

/// Query buffers: a string query allocates one byte past the announced
/// length, an octet query exactly the announced length; the untouched
/// sentinel `usize::MAX` allocates nothing.
pub proof fn law_query_capacities(required: usize)
    ensures
        required < usize::MAX ==> spec_string_query_capacity(required) == Some(
            (required + 1) as usize,
        ),
        required < usize::MAX ==> spec_octet_query_capacity(required) == Some(required),
        required == usize::MAX ==> spec_string_query_capacity(required) is None,
        required == usize::MAX ==> spec_octet_query_capacity(required) is None,
{
}

/// A string query whose second call succeeded within the announced size,
/// into the buffer sized for it, with the terminator at the reported length
/// and no NUL before it, yields exactly the bytes before the terminator; a
/// failing status or an overrun yields nothing.
pub proof fn law_c_string_accepted(status: i32, written: usize, required: usize, buffer: Seq<u8>)
    ensures
        status == 1 && written <= required && required < usize::MAX && buffer.len() == required + 1
            && buffer[written as int] == 0 && (forall|i: int| 0 <= i < written ==> buffer[i] != 0)
            ==> spec_finish_c_string(
            status,
            written,
            required,
            buffer,
        ) == Some(buffer.take(written as int)),
        status != 1 || written > required ==> spec_finish_c_string(status, written, required, buffer)
            is None,
        written < buffer.len() && buffer[written as int] != 0 ==> spec_finish_c_string(
            status,
            written,
            required,
            buffer,
        ) is None,
{
    if status == 1 && written <= required && required < usize::MAX && buffer.len() == required + 1
        && buffer[written as int] == 0 && (forall|i: int| 0 <= i < written ==> buffer[i] != 0) {
        let kept = truncated(buffer, written + 1);
        assert(kept.len() == written + 1);
        assert(kept[written as int] == buffer[written as int]);
        assert forall|i: int| 0 <= i < kept.len() - 1 implies #[trigger] kept[i] != 0 by {
            assert(kept[i] == buffer[i]);
        }
        assert(kept.drop_last() =~= buffer.take(written as int));
    }
    if written < buffer.len() && buffer[written as int] != 0 && written < usize::MAX {
        let kept = truncated(buffer, written + 1);
        assert(kept[written as int] == buffer[written as int]);
    }
}

/// An octet or raw-key query yields the first `written` bytes exactly when
/// the status is 1 and the count lies within the buffer, bounds included.
pub proof fn law_octets_accepted(status: i32, written: usize, buffer: Seq<u8>)
    ensures
        status == 1 && written <= buffer.len() ==> spec_finish_octets(status, written, buffer)
            == Some(buffer.take(written as int)),
        status == 1 && written == buffer.len() ==> spec_finish_octets(status, written, buffer)
            == Some(buffer),
        status != 1 || written > buffer.len() ==> spec_finish_octets(status, written, buffer)
            is None,
{
    assert(buffer.take(buffer.len() as int) =~= buffer);
}

/// A borrowed run: a negative length is passed on, a missing run is
/// accepted only when empty, otherwise its length is kept.
pub proof fn law_borrowed_run(len: i32, present: bool)
    ensures
        len < 0 ==> spec_borrowed_run(len, present) == Err::<usize, i32>(len),
        len >= 0 && (present || len == 0) ==> spec_borrowed_run(len, present) == Ok::<usize, i32>(
            len as usize,
        ),
        len > 0 && !present ==> spec_borrowed_run(len, present) == Err::<usize, i32>(-1i32),
{
}

} // verus!

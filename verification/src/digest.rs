//! Serialized digest-context state.
//!
//! `EVP_MD_CTX_serialize` is called twice: once to learn the size of the
//! provider's serialization, then into a buffer of that size. Only a
//! serialization produced that way is ever handed back to
//! `EVP_MD_CTX_deserialize`.

use vstd::prelude::*;

verus! {

/// A serialization produced by `EVP_MD_CTX_serialize`.
#[derive(Debug, PartialEq, Eq)]
pub struct SerializedDigestState {
    bytes: Vec<u8>,
}

impl View for SerializedDigestState {
    type V = Seq<u8>;

    /// The serialized bytes.
    closed spec fn view(&self) -> Seq<u8> {
        self.bytes@
    }
}

impl SerializedDigestState {
    /// Views the provider serialization for storage or transport.
    pub fn as_bytes(&self) -> (bytes: &[u8])
        ensures
            bytes@ == self@,
    {
        self.bytes.as_slice()
    }
}

impl Clone for SerializedDigestState {
    /// An independent copy of the same serialized bytes.
    fn clone(&self) -> (copy: Self)
        ensures
            copy@ == self@,
    {
        let mut bytes: Vec<u8> = Vec::new();
        let n = self.bytes.len();
        let mut i: usize = 0;
        while i < n
            invariant
                n == self.bytes@.len(),
                i <= n,
                bytes@ == self.bytes@.take(i as int),
            decreases n - i,
        {
            bytes.push(self.bytes[i]);
            i = i + 1;
            assert(bytes@ =~= self.bytes@.take(i as int));
        }
        assert(bytes@ =~= self.bytes@);
        SerializedDigestState { bytes }
    }
}

/// The buffer size the sizing call reported, when its status is 1.
pub open spec fn spec_serialization_size(status: i32, len: usize) -> Result<usize, i32> {
    if status != 1 {
        Err(status)
    } else {
        Ok(len)
    }
}

/// Interprets the sizing call of `EVP_MD_CTX_serialize`.
pub fn serialization_size(status: i32, len: usize) -> (size: Result<usize, i32>)
    ensures
        size == spec_serialization_size(status, len),
{
    if status != 1 {
        Err(status)
    } else {
        Ok(len)
    }
}

/// The serialization a completed `EVP_MD_CTX_serialize` yields: the status
/// when it is not 1 or when the reported length overruns the buffer,
/// otherwise the first `len` bytes of the buffer.
pub open spec fn spec_serialized(status: i32, len: usize, buffer: Seq<u8>) -> Result<Seq<u8>, i32> {
    if status != 1 || len > buffer.len() {
        Err(status)
    } else {
        Ok(buffer.take(len as int))
    }
}

/// Completes a serialization from the second call's status, the length it
/// reported and the buffer it wrote into.
pub fn serialized_state(status: i32, len: usize, buffer: Vec<u8>) -> (state: Result<SerializedDigestState, i32>)
    ensures
        match spec_serialized(status, len, buffer@) {
            Err(e) => state == Err::<SerializedDigestState, i32>(e),
            Ok(bytes) => state matches Ok(s) && s@ == bytes,
        },
{
    if status != 1 || len > buffer.len() {
        return Err(status);
    }
    let mut bytes = buffer;
    bytes.truncate(len);
    Ok(SerializedDigestState { bytes })
}

/// A serialization succeeds exactly when the second call reported status 1
/// with a length within the buffer (bounds included: the usual case, a
/// length equal to the buffer sized by the first call, keeps the whole
/// buffer), and then holds the buffer's first `len` bytes; otherwise the
/// status is the error. The sizing call yields its length on status 1.
pub proof fn law_serialization(status: i32, len: usize, buffer: Seq<u8>)
    ensures
        status == 1 && len <= buffer.len() ==> spec_serialized(status, len, buffer) == Ok::<
            Seq<u8>,
            i32,
        >(buffer.take(len as int)),
        status == 1 && len == buffer.len() ==> spec_serialized(status, len, buffer) == Ok::<
            Seq<u8>,
            i32,
        >(buffer),
        !(status == 1 && len <= buffer.len()) ==> spec_serialized(status, len, buffer) == Err::<
            Seq<u8>,
            i32,
        >(status),
        status == 1 ==> spec_serialization_size(status, len) == Ok::<usize, i32>(len),
        status != 1 ==> spec_serialization_size(status, len) == Err::<usize, i32>(status),
{
    assert(buffer.take(buffer.len() as int) =~= buffer);
}

} // verus!

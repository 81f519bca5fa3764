//! Release strategies for memory allocated by libcrypto.
//!
//! Each strategy names the libcrypto routine that settles an allocation and
//! the byte count it hands that routine. Owners call a strategy either with
//! the length they account for (buffers) or over a NUL-terminated string,
//! whose extent the strategy recovers from the terminator.

use vstd::prelude::*;

verus! {

/// The libcrypto routine that releases an allocation.
#[derive(Clone, Copy, Debug, PartialEq, Eq, Structural)]
pub enum ReleaseRoutine {
    /// `CRYPTO_free`.
    Free,
    /// `CRYPTO_clear_free`: cleanses the given byte count, then frees.
    ClearFree,
    /// `CRYPTO_secure_free`.
    SecureFree,
    /// `CRYPTO_secure_clear_free`.
    SecureClearFree,
    /// `OSSL_PARAM_free`: releases a duplicated parameter array whole.
    ParamFree,
}

/// One release: the routine, and the byte count passed to it (0 for the
/// routines that take none).
#[derive(Clone, Copy, Debug, PartialEq, Eq, Structural)]
pub struct ReleaseCall {
    pub routine: ReleaseRoutine,
    pub length: usize,
}

/// Whether a byte sequence holds a NUL.
pub open spec fn has_nul(bytes: Seq<u8>) -> bool {
    exists|i: int| 0 <= i < bytes.len() && bytes[i] == 0
}

/// The extent of the C string at the start of `bytes`, terminator included:
/// one past its first NUL.
pub open spec fn terminated_extent(bytes: Seq<u8>, extent: int) -> bool {
    &&& 1 <= extent <= bytes.len()
    &&& bytes[extent - 1] == 0
    &&& forall|i: int| 0 <= i < extent - 1 ==> #[trigger] bytes[i] != 0
}

/// The number of bytes of the C string at the start of `bytes`, counting its
/// terminator; the bytes must hold a NUL.
pub fn c_string_extent(bytes: &[u8]) -> (extent: usize)
    requires
        has_nul(bytes@),
    ensures
        terminated_extent(bytes@, extent as int),
{
    let n = bytes.len();
    let mut i: usize = 0;
    while i < n
        invariant
            n == bytes@.len(),
            i <= n,
            has_nul(bytes@),
            forall|j: int| 0 <= j < i ==> #[trigger] bytes@[j] != 0,
        decreases n - i,
    {
        if bytes[i] == 0 {
            return i + 1;
        }
        i = i + 1;
    }
    proof {
        let k = choose|k: int| 0 <= k < bytes@.len() && bytes@[k] == 0;
        assert(bytes@[k] != 0);
    }
    0
}

/// Strategy for ordinary libcrypto allocations: `CRYPTO_free`, which needs no
/// length and cleanses nothing.
#[derive(Clone, Copy, Debug, Default)]
pub struct CryptoFree;

/// Strategy that cleanses an ordinary allocation before freeing it with
/// `CRYPTO_clear_free`.
#[derive(Clone, Copy, Debug, Default)]
pub struct CryptoClearFree;

/// Strategy for secure-heap allocations (or their ordinary fallback):
/// `CRYPTO_secure_free`.
#[derive(Clone, Copy, Debug, Default)]
pub struct CryptoSecureFree;

/// Strategy that cleanses secure-heap allocations (or their ordinary
/// fallback) before freeing them: `CRYPTO_secure_clear_free`.
#[derive(Clone, Copy, Debug, Default)]
pub struct CryptoSecureClearFree;

/// Strategy for the duplicated parameter array `EVP_PKEY_todata` returns:
/// `OSSL_PARAM_free`.
pub struct OsslParamArrayFree;

impl CryptoFree {
    /// Releases a buffer; its length is not needed.
    pub fn release_len(&self, byte_len: usize) -> (call: ReleaseCall)
        ensures
            call == (ReleaseCall { routine: ReleaseRoutine::Free, length: 0 }),
    {
        ReleaseCall { routine: ReleaseRoutine::Free, length: 0 }
    }

    /// Releases a string; its extent is not needed.
    pub fn release_string(&self, bytes: &[u8]) -> (call: ReleaseCall)
        ensures
            call == (ReleaseCall { routine: ReleaseRoutine::Free, length: 0 }),
    {
        ReleaseCall { routine: ReleaseRoutine::Free, length: 0 }
    }
}

impl CryptoClearFree {
    /// Releases a buffer, cleansing exactly the bytes its owner accounts for.
    pub fn release_len(&self, byte_len: usize) -> (call: ReleaseCall)
        ensures
            call == (ReleaseCall { routine: ReleaseRoutine::ClearFree, length: byte_len }),
    {
        ReleaseCall { routine: ReleaseRoutine::ClearFree, length: byte_len }
    }

    /// Releases a string, cleansing it through its terminator.
    pub fn release_string(&self, bytes: &[u8]) -> (call: ReleaseCall)
        requires
            has_nul(bytes@),
        ensures
            call.routine == ReleaseRoutine::ClearFree,
            terminated_extent(bytes@, call.length as int),
    {
        ReleaseCall { routine: ReleaseRoutine::ClearFree, length: c_string_extent(bytes) }
    }
}

impl CryptoSecureFree {
    /// Releases a buffer; the secure heap recovers the block size itself.
    pub fn release_len(&self, byte_len: usize) -> (call: ReleaseCall)
        ensures
            call == (ReleaseCall { routine: ReleaseRoutine::SecureFree, length: 0 }),
    {
        ReleaseCall { routine: ReleaseRoutine::SecureFree, length: 0 }
    }

    /// Releases a string; its extent is not needed.
    pub fn release_string(&self, bytes: &[u8]) -> (call: ReleaseCall)
        ensures
            call == (ReleaseCall { routine: ReleaseRoutine::SecureFree, length: 0 }),
    {
        ReleaseCall { routine: ReleaseRoutine::SecureFree, length: 0 }
    }
}

impl CryptoSecureClearFree {
    /// Releases a buffer, cleansing the bytes its owner accounts for on the
    /// fallback branch (the arena cleanses its whole block regardless).
    pub fn release_len(&self, byte_len: usize) -> (call: ReleaseCall)
        ensures
            call == (ReleaseCall { routine: ReleaseRoutine::SecureClearFree, length: byte_len }),
    {
        ReleaseCall { routine: ReleaseRoutine::SecureClearFree, length: byte_len }
    }

    /// Releases a string, cleansing it through its terminator.
    pub fn release_string(&self, bytes: &[u8]) -> (call: ReleaseCall)
        requires
            has_nul(bytes@),
        ensures
            call.routine == ReleaseRoutine::SecureClearFree,
            terminated_extent(bytes@, call.length as int),
    {
        ReleaseCall { routine: ReleaseRoutine::SecureClearFree, length: c_string_extent(bytes) }
    }
}

impl OsslParamArrayFree {
    /// Releases the whole duplicated array; its element count is not needed.
    pub fn release_len(&self, count: usize) -> (call: ReleaseCall)
        ensures
            call == (ReleaseCall { routine: ReleaseRoutine::ParamFree, length: 0 }),
    {
        ReleaseCall { routine: ReleaseRoutine::ParamFree, length: 0 }
    }
}

/// The extent a string strategy recovers covers the string and its
/// terminator and nothing beyond: it is the same for any bytes that agree up
/// to the first NUL.
pub proof fn law_string_extent_is_determined(a: Seq<u8>, b: Seq<u8>, ea: int, eb: int)
    requires
        terminated_extent(a, ea),
        terminated_extent(b, eb),
        ea <= b.len(),
        forall|i: int| 0 <= i < ea ==> #[trigger] a[i] == b[i],
    ensures
        ea == eb,
{
    if eb < ea {
        assert(a[eb - 1] == b[eb - 1]);
    } else if eb > ea {
        assert(a[ea - 1] == b[ea - 1]);
    }
}

} // verus!

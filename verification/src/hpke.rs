//! HPKE suite values and the gates around libcrypto's HPKE operations.

use vstd::prelude::*;

verus! {

/// The public HPKE algorithm identifiers (`OSSL_HPKE_SUITE`): three integers
/// that own nothing and are passed to libcrypto by value.
#[derive(Clone, Copy, Debug, PartialEq, Eq, Structural)]
pub struct OsslHpkeSuite {
    kem_id: u16,
    kdf_id: u16,
    aead_id: u16,
}

impl OsslHpkeSuite {
    /// The key-encapsulation-method identifier.
    pub closed spec fn spec_kem_id(self) -> u16 {
        self.kem_id
    }

    /// The key-derivation-function identifier.
    pub closed spec fn spec_kdf_id(self) -> u16 {
        self.kdf_id
    }

    /// The AEAD algorithm identifier.
    pub closed spec fn spec_aead_id(self) -> u16 {
        self.aead_id
    }

    /// A suite value with the three identifiers.
    pub fn new(kem_id: u16, kdf_id: u16, aead_id: u16) -> (suite: OsslHpkeSuite)
        ensures
            suite.spec_kem_id() == kem_id,
            suite.spec_kdf_id() == kdf_id,
            suite.spec_aead_id() == aead_id,
    {
        OsslHpkeSuite { kem_id, kdf_id, aead_id }
    }

    /// The all-zero suite that suite-filling calls start from.
    pub fn zeroed() -> (suite: OsslHpkeSuite)
        ensures
            suite.spec_kem_id() == 0,
            suite.spec_kdf_id() == 0,
            suite.spec_aead_id() == 0,
    {
        OsslHpkeSuite { kem_id: 0, kdf_id: 0, aead_id: 0 }
    }

    /// Field `aead_id`.
    pub fn aead_id(&self) -> (id: u16)
        ensures
            id == self.spec_aead_id(),
    {
        self.aead_id
    }

    /// Field `kdf_id`.
    pub fn kdf_id(&self) -> (id: u16)
        ensures
            id == self.spec_kdf_id(),
    {
        self.kdf_id
    }

    /// Field `kem_id`.
    pub fn kem_id(&self) -> (id: u16)
        ensures
            id == self.spec_kem_id(),
    {
        self.kem_id
    }

    /// Replaces the AEAD identifier; the others keep their values.
    pub fn set_aead_id(&mut self, value: u16)
        ensures
            final(self).spec_aead_id() == value,
            final(self).spec_kdf_id() == old(self).spec_kdf_id(),
            final(self).spec_kem_id() == old(self).spec_kem_id(),
    {
        self.aead_id = value;
    }

    /// Replaces the KDF identifier; the others keep their values.
    pub fn set_kdf_id(&mut self, value: u16)
        ensures
            final(self).spec_kdf_id() == value,
            final(self).spec_aead_id() == old(self).spec_aead_id(),
            final(self).spec_kem_id() == old(self).spec_kem_id(),
    {
        self.kdf_id = value;
    }

    /// Replaces the KEM identifier; the others keep their values.
    pub fn set_kem_id(&mut self, value: u16)
        ensures
            final(self).spec_kem_id() == value,
            final(self).spec_aead_id() == old(self).spec_aead_id(),
            final(self).spec_kdf_id() == old(self).spec_kdf_id(),
    {
        self.kem_id = value;
    }
}

/// The check made before calling `OSSL_HPKE_encap`: the encapsulation buffer must not
/// be empty.
pub fn encap_permitted(encapsulated_len: usize) -> (ok: bool)
    ensures
        ok == (encapsulated_len > 0),
{
    encapsulated_len > 0
}

/// The check made before calling `OSSL_HPKE_get_grease_value`: both output buffers
/// must be non-empty.
pub fn grease_permitted(encapsulated_len: usize, ciphertext_len: usize) -> (ok: bool)
    ensures
        ok == (encapsulated_len > 0 && ciphertext_len > 0),
{
    encapsulated_len > 0 && ciphertext_len > 0
}

/// The check made before calling `OSSL_HPKE_open` and `OSSL_HPKE_seal`: neither the
/// output nor the input may be empty.
pub fn crypt_permitted(output_len: usize, input_len: usize) -> (ok: bool)
    ensures
        ok == (output_len > 0 && input_len > 0),
{
    output_len > 0 && input_len > 0
}

/// The check made before calling `OSSL_HPKE_keygen`: the public-key buffer must not be
/// empty, and key material, when given, must not be empty either.
pub fn keygen_permitted(public_key_len: usize, ikm_len: Option<usize>) -> (ok: bool)
    ensures
        ok == (public_key_len > 0 && !(ikm_len == Some(0usize))),
{
    public_key_len > 0 && match ikm_len {
        Some(n) => n != 0,
        None => true,
    }
}

/// The result of `OSSL_HPKE_keygen`: its status when not 1, then 0 when no
/// private key came back or the public key overran its buffer, else the
/// public key's length.
pub open spec fn spec_keygen_outcome(status: i32, private_present: bool, written: usize, capacity: usize) -> Result<usize, i32> {
    if status != 1 {
        Err(status)
    } else if !private_present {
        Err(0)
    } else if written > capacity {
        Err(0)
    } else {
        Ok(written)
    }
}

/// Interprets the report of `OSSL_HPKE_keygen`.
pub fn keygen_outcome(status: i32, private_present: bool, written: usize, capacity: usize) -> (outcome: Result<usize, i32>)
    ensures
        outcome == spec_keygen_outcome(status, private_present, written, capacity),
{
    if status != 1 {
        Err(status)
    } else if !private_present {
        Err(0)
    } else if written > capacity {
        Err(0)
    } else {
        Ok(written)
    }
}

/// A key generation succeeds exactly when libcrypto reported status 1,
/// handed back a private key and wrote a public key within the buffer
/// (bounds included: a key that exactly fills it is kept); the yield is the
/// public key's length. A failing status is passed on, anything else is 0.
pub proof fn law_keygen_outcome(status: i32, private_present: bool, written: usize, capacity: usize)
    ensures
        status == 1 && private_present && written <= capacity ==> spec_keygen_outcome(
            status,
            private_present,
            written,
            capacity,
        ) == Ok::<usize, i32>(written),
        status != 1 ==> spec_keygen_outcome(status, private_present, written, capacity) == Err::<
            usize,
            i32,
        >(status),
        status == 1 && (!private_present || written > capacity) ==> spec_keygen_outcome(
            status,
            private_present,
            written,
            capacity,
        ) == Err::<usize, i32>(0),
{
}

} // verus!

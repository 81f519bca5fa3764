//! Reference-counted method handles: borrowing, raising and releasing.
//!
//! A method record (`EVP_KDF`, `EVP_MAC`) is identified by its address. A
//! borrowed handle never owns a reference; a shared handle owns exactly one,
//! obtained from a fetch or from a successful up-reference, and surrenders it
//! to exactly one release.

use vstd::prelude::*;

verus! {

/// A borrowed `EVP_KDF` method: a non-null address.
#[derive(Clone, Copy, Debug, PartialEq, Eq, Structural)]
pub struct EvpKdfRef {
    address: usize,
}

/// One owned, shared-only reference to an `EVP_KDF` method.
#[derive(Debug, PartialEq, Eq, Structural)]
pub struct SharedEvpKdf {
    address: usize,
}

/// A borrowed `EVP_MAC` method: a non-null address.
#[derive(Clone, Copy, Debug, PartialEq, Eq, Structural)]
pub struct EvpMacRef {
    address: usize,
}

/// One owned, shared-only reference to an `EVP_MAC` method.
#[derive(Debug, PartialEq, Eq, Structural)]
pub struct SharedEvpMac {
    address: usize,
}

/// The address a handle names, when libcrypto returned a non-null one.
pub open spec fn present(address: usize) -> bool {
    address != 0
}

impl EvpKdfRef {
    /// The method's address.
    pub closed spec fn spec_address(self) -> usize {
        self.address
    }

    /// Borrows the method at `address`; null is no method.
    pub fn from_ptr(address: usize) -> (kdf: Option<EvpKdfRef>)
        ensures
            kdf.is_some() == present(address),
            kdf matches Some(k) ==> k.spec_address() == address,
    {
        if address == 0 {
            None
        } else {
            Some(EvpKdfRef { address })
        }
    }

    /// The method's address.
    pub fn as_ptr(&self) -> (address: usize)
        ensures
            address == self.spec_address(),
            present(address),
    {
        proof {
            use_type_invariant(self);
        }
        self.address
    }

    #[verifier::type_invariant]
    spec fn non_null(self) -> bool {
        present(self.address)
    }

    /// A shared owner of the same method, once `EVP_KDF_up_ref` on it
    /// reported `up_ref_status`: only status 1 created the reference.
    pub fn try_share(&self, up_ref_status: i32) -> (shared: Option<SharedEvpKdf>)
        ensures
            shared.is_some() == (up_ref_status == 1),
            shared matches Some(s) ==> s.spec_address() == self.spec_address(),
    {
        proof {
            use_type_invariant(self);
        }
        if up_ref_status != 1 {
            None
        } else {
            Some(SharedEvpKdf { address: self.address })
        }
    }
}

impl SharedEvpKdf {
    /// The method's address.
    pub closed spec fn spec_address(self) -> usize {
        self.address
    }

    #[verifier::type_invariant]
    spec fn non_null(self) -> bool {
        present(self.address)
    }

    /// Adopts the one reference a fetch returned; null is no method.
    pub fn from_raw(address: usize) -> (kdf: Option<SharedEvpKdf>)
        ensures
            kdf.is_some() == present(address),
            kdf matches Some(k) ==> k.spec_address() == address,
    {
        if address == 0 {
            None
        } else {
            Some(SharedEvpKdf { address })
        }
    }

    /// The method's address.
    pub fn as_ptr(&self) -> (address: usize)
        ensures
            address == self.spec_address(),
    {
        self.address
    }

    /// Borrows the owned method.
    pub fn as_ref(&self) -> (kdf: EvpKdfRef)
        ensures
            kdf.spec_address() == self.spec_address(),
    {
        proof {
            use_type_invariant(self);
        }
        EvpKdfRef { address: self.address }
    }
}

impl EvpMacRef {
    /// The method's address.
    pub closed spec fn spec_address(self) -> usize {
        self.address
    }

    #[verifier::type_invariant]
    spec fn non_null(self) -> bool {
        present(self.address)
    }

    /// Borrows the method at `address`; null is no method.
    pub fn from_ptr(address: usize) -> (mac: Option<EvpMacRef>)
        ensures
            mac.is_some() == present(address),
            mac matches Some(m) ==> m.spec_address() == address,
    {
        if address == 0 {
            None
        } else {
            Some(EvpMacRef { address })
        }
    }

    /// The method's address.
    pub fn as_ptr(&self) -> (address: usize)
        ensures
            address == self.spec_address(),
            present(address),
    {
        proof {
            use_type_invariant(self);
        }
        self.address
    }

    /// A shared owner of the same method, once `EVP_MAC_up_ref` on it
    /// reported `up_ref_status`: only status 1 created the reference.
    pub fn try_share(&self, up_ref_status: i32) -> (shared: Option<SharedEvpMac>)
        ensures
            shared.is_some() == (up_ref_status == 1),
            shared matches Some(s) ==> s.spec_address() == self.spec_address(),
    {
        proof {
            use_type_invariant(self);
        }
        if up_ref_status != 1 {
            None
        } else {
            Some(SharedEvpMac { address: self.address })
        }
    }
}

impl SharedEvpMac {
    /// The method's address.
    pub closed spec fn spec_address(self) -> usize {
        self.address
    }

    #[verifier::type_invariant]
    spec fn non_null(self) -> bool {
        present(self.address)
    }

    /// Adopts the one reference a fetch returned; null is no method.
    pub fn from_raw(address: usize) -> (mac: Option<SharedEvpMac>)
        ensures
            mac.is_some() == present(address),
            mac matches Some(m) ==> m.spec_address() == address,
    {
        if address == 0 {
            None
        } else {
            Some(SharedEvpMac { address })
        }
    }

    /// The method's address.
    pub fn as_ptr(&self) -> (address: usize)
        ensures
            address == self.spec_address(),
    {
        self.address
    }

    /// Borrows the owned method.
    pub fn as_ref(&self) -> (mac: EvpMacRef)
        ensures
            mac.spec_address() == self.spec_address(),
    {
        proof {
            use_type_invariant(self);
        }
        EvpMacRef { address: self.address }
    }
}

/// Raises a KDF method's reference count, given the status `EVP_KDF_up_ref`
/// reported, and returns a shared-only owner of the same method.
#[allow(non_snake_case)]
pub fn EVP_KDF_up_ref(kdf: EvpKdfRef, up_ref_status: i32) -> (shared: Option<SharedEvpKdf>)
    ensures
        shared.is_some() == (up_ref_status == 1),
        shared matches Some(s) ==> s.spec_address() == kdf.spec_address(),
{
    kdf.try_share(up_ref_status)
}

/// Raises a MAC method's reference count, given the status `EVP_MAC_up_ref`
/// reported, and returns a shared-only owner of the same method.
#[allow(non_snake_case)]
pub fn EVP_MAC_up_ref(mac: EvpMacRef, up_ref_status: i32) -> (shared: Option<SharedEvpMac>)
    ensures
        shared.is_some() == (up_ref_status == 1),
        shared matches Some(s) ==> s.spec_address() == mac.spec_address(),
{
    mac.try_share(up_ref_status)
}

/// Releases one owned KDF reference early: consumes the owner and answers
/// the address whose single reference `EVP_KDF_free` must now release
/// (nothing for no owner).
#[allow(non_snake_case)]
pub fn EVP_KDF_free(kdf: Option<SharedEvpKdf>) -> (released: Option<usize>)
    ensures
        match kdf {
            None => released.is_none(),
            Some(k) => released == Some(k.spec_address()),
        },
{
    match kdf {
        None => None,
        Some(k) => Some(k.address),
    }
}

/// Releases one owned MAC reference early: consumes the owner and answers
/// the address whose single reference `EVP_MAC_free` must now release.
#[allow(non_snake_case)]
pub fn EVP_MAC_free(mac: Option<SharedEvpMac>) -> (released: Option<usize>)
    ensures
        match mac {
            None => released.is_none(),
            Some(m) => released == Some(m.spec_address()),
        },
{
    match mac {
        None => None,
        Some(m) => Some(m.address),
    }
}

/// The method a KDF context was created from, given the address
/// `EVP_KDF_CTX_get0_kdf` returned (the deprecated spelling of that getter).
#[allow(non_snake_case)]
pub fn EVP_KDF_CTX_kdf(address: usize) -> (kdf: Option<EvpKdfRef>)
    ensures
        kdf.is_some() == present(address),
        kdf matches Some(k) ==> k.spec_address() == address,
{
    EvpKdfRef::from_ptr(address)
}

/// Whether an up-reference of any other reference-counted record
/// (`EVP_CIPHER`, `EVP_MD`, `EVP_SKEY`, `EVP_SIGNATURE`, `EVP_SKEYMGMT`,
/// `EVP_RAND_CTX`) created a release obligation: only status 1 did.
pub fn up_ref_succeeded(status: i32) -> (created: bool)
    ensures
        created == (status == 1),
{
    status == 1
}

} // verus!

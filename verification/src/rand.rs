//! The deprecated random-method callback table (`RAND_METHOD`).
//!
//! The table holds six optional callbacks, each identified here by the
//! address of the function installed in its slot. It owns no callback and no
//! data.

use vstd::prelude::*;

verus! {

/// The `seed` slot's callback: supplies seed bytes.
#[derive(Clone, Copy, Debug, PartialEq, Eq, Structural)]
pub struct RandSeedCallback {
    address: usize,
}

impl RandSeedCallback {
    /// The callback's address.
    pub closed spec fn spec_address(self) -> usize {
        self.address
    }

    /// Adopts the address of a callback that obeys its slot's contract.
    pub fn from_raw(address: usize) -> (callback: RandSeedCallback)
        ensures
            callback.spec_address() == address,
    {
        RandSeedCallback { address }
    }

    /// The callback's address.
    pub fn address(&self) -> (address: usize)
        ensures
            address == self.spec_address(),
    {
        self.address
    }
}

/// The `bytes` slot's callback: fills an output buffer.
#[derive(Clone, Copy, Debug, PartialEq, Eq, Structural)]
pub struct RandBytesCallback {
    address: usize,
}

impl RandBytesCallback {
    /// The callback's address.
    pub closed spec fn spec_address(self) -> usize {
        self.address
    }

    /// Adopts the address of a callback that obeys its slot's contract.
    pub fn from_raw(address: usize) -> (callback: RandBytesCallback)
        ensures
            callback.spec_address() == address,
    {
        RandBytesCallback { address }
    }

    /// The callback's address.
    pub fn address(&self) -> (address: usize)
        ensures
            address == self.spec_address(),
    {
        self.address
    }
}

/// The `cleanup` slot's callback: runs the method's cleanup.
#[derive(Clone, Copy, Debug, PartialEq, Eq, Structural)]
pub struct RandCleanupCallback {
    address: usize,
}

impl RandCleanupCallback {
    /// The callback's address.
    pub closed spec fn spec_address(self) -> usize {
        self.address
    }

    /// Adopts the address of a callback that obeys its slot's contract.
    pub fn from_raw(address: usize) -> (callback: RandCleanupCallback)
        ensures
            callback.spec_address() == address,
    {
        RandCleanupCallback { address }
    }

    /// The callback's address.
    pub fn address(&self) -> (address: usize)
        ensures
            address == self.spec_address(),
    {
        self.address
    }
}

/// The `add` slot's callback: supplies additional bytes and their estimated entropy.
#[derive(Clone, Copy, Debug, PartialEq, Eq, Structural)]
pub struct RandAddCallback {
    address: usize,
}

impl RandAddCallback {
    /// The callback's address.
    pub closed spec fn spec_address(self) -> usize {
        self.address
    }

    /// Adopts the address of a callback that obeys its slot's contract.
    pub fn from_raw(address: usize) -> (callback: RandAddCallback)
        ensures
            callback.spec_address() == address,
    {
        RandAddCallback { address }
    }

    /// The callback's address.
    pub fn address(&self) -> (address: usize)
        ensures
            address == self.spec_address(),
    {
        self.address
    }
}

/// The `pseudorand` slot's callback: fills a legacy pseudorandom buffer.
#[derive(Clone, Copy, Debug, PartialEq, Eq, Structural)]
pub struct RandPseudorandCallback {
    address: usize,
}

impl RandPseudorandCallback {
    /// The callback's address.
    pub closed spec fn spec_address(self) -> usize {
        self.address
    }

    /// Adopts the address of a callback that obeys its slot's contract.
    pub fn from_raw(address: usize) -> (callback: RandPseudorandCallback)
        ensures
            callback.spec_address() == address,
    {
        RandPseudorandCallback { address }
    }

    /// The callback's address.
    pub fn address(&self) -> (address: usize)
        ensures
            address == self.spec_address(),
    {
        self.address
    }
}

/// The `status` slot's callback: reports whether the method has enough seed material.
#[derive(Clone, Copy, Debug, PartialEq, Eq, Structural)]
pub struct RandStatusCallback {
    address: usize,
}

impl RandStatusCallback {
    /// The callback's address.
    pub closed spec fn spec_address(self) -> usize {
        self.address
    }

    /// Adopts the address of a callback that obeys its slot's contract.
    pub fn from_raw(address: usize) -> (callback: RandStatusCallback)
        ensures
            callback.spec_address() == address,
    {
        RandStatusCallback { address }
    }

    /// The callback's address.
    pub fn address(&self) -> (address: usize)
        ensures
            address == self.spec_address(),
    {
        self.address
    }
}

/// Storage for a random-method table: one optional callback per slot.
#[derive(Clone, Copy, Debug, PartialEq, Eq, Structural)]
pub struct RandMethod {
    seed: Option<RandSeedCallback>,
    bytes: Option<RandBytesCallback>,
    cleanup: Option<RandCleanupCallback>,
    add: Option<RandAddCallback>,
    pseudorand: Option<RandPseudorandCallback>,
    status: Option<RandStatusCallback>,
}

/// A shared borrow of a random-method table.
pub struct RandMethodRef<'a> {
    table: &'a RandMethod,
}

impl RandMethod {
    /// The empty table: every slot unset.
    pub fn zeroed() -> (table: RandMethod)
        ensures
            table.spec_seed().is_none(),
            table.spec_bytes().is_none(),
            table.spec_cleanup().is_none(),
            table.spec_add().is_none(),
            table.spec_pseudorand().is_none(),
            table.spec_status().is_none(),
    {
        RandMethod { seed: None, bytes: None, cleanup: None, add: None, pseudorand: None, status: None }
    }

    /// Borrows the table for reading.
    pub fn as_ref(&self) -> (r: RandMethodRef<'_>)
        ensures
            r.spec_table() == *self,
    {
        RandMethodRef { table: self }
    }

    /// The `seed` slot.
    pub closed spec fn spec_seed(self) -> Option<RandSeedCallback> {
        self.seed
    }

    /// The `bytes` slot.
    pub closed spec fn spec_bytes(self) -> Option<RandBytesCallback> {
        self.bytes
    }

    /// The `cleanup` slot.
    pub closed spec fn spec_cleanup(self) -> Option<RandCleanupCallback> {
        self.cleanup
    }

    /// The `add` slot.
    pub closed spec fn spec_add(self) -> Option<RandAddCallback> {
        self.add
    }

    /// The `pseudorand` slot.
    pub closed spec fn spec_pseudorand(self) -> Option<RandPseudorandCallback> {
        self.pseudorand
    }

    /// The `status` slot.
    pub closed spec fn spec_status(self) -> Option<RandStatusCallback> {
        self.status
    }

    /// Replaces the `seed` slot; the other slots keep their callbacks.
    pub fn set_seed(&mut self, callback: Option<RandSeedCallback>)
        ensures
            final(self).spec_seed() == callback,
            final(self).spec_bytes() == old(self).spec_bytes(),
            final(self).spec_cleanup() == old(self).spec_cleanup(),
            final(self).spec_add() == old(self).spec_add(),
            final(self).spec_pseudorand() == old(self).spec_pseudorand(),
            final(self).spec_status() == old(self).spec_status(),
    {
        self.seed = callback;
    }

    /// Replaces the `bytes` slot; the other slots keep their callbacks.
    pub fn set_bytes(&mut self, callback: Option<RandBytesCallback>)
        ensures
            final(self).spec_bytes() == callback,
            final(self).spec_seed() == old(self).spec_seed(),
            final(self).spec_cleanup() == old(self).spec_cleanup(),
            final(self).spec_add() == old(self).spec_add(),
            final(self).spec_pseudorand() == old(self).spec_pseudorand(),
            final(self).spec_status() == old(self).spec_status(),
    {
        self.bytes = callback;
    }

    /// Replaces the `cleanup` slot; the other slots keep their callbacks.
    pub fn set_cleanup(&mut self, callback: Option<RandCleanupCallback>)
        ensures
            final(self).spec_cleanup() == callback,
            final(self).spec_seed() == old(self).spec_seed(),
            final(self).spec_bytes() == old(self).spec_bytes(),
            final(self).spec_add() == old(self).spec_add(),
            final(self).spec_pseudorand() == old(self).spec_pseudorand(),
            final(self).spec_status() == old(self).spec_status(),
    {
        self.cleanup = callback;
    }

    /// Replaces the `add` slot; the other slots keep their callbacks.
    pub fn set_add(&mut self, callback: Option<RandAddCallback>)
        ensures
            final(self).spec_add() == callback,
            final(self).spec_seed() == old(self).spec_seed(),
            final(self).spec_bytes() == old(self).spec_bytes(),
            final(self).spec_cleanup() == old(self).spec_cleanup(),
            final(self).spec_pseudorand() == old(self).spec_pseudorand(),
            final(self).spec_status() == old(self).spec_status(),
    {
        self.add = callback;
    }

    /// Replaces the `pseudorand` slot; the other slots keep their callbacks.
    pub fn set_pseudorand(&mut self, callback: Option<RandPseudorandCallback>)
        ensures
            final(self).spec_pseudorand() == callback,
            final(self).spec_seed() == old(self).spec_seed(),
            final(self).spec_bytes() == old(self).spec_bytes(),
            final(self).spec_cleanup() == old(self).spec_cleanup(),
            final(self).spec_add() == old(self).spec_add(),
            final(self).spec_status() == old(self).spec_status(),
    {
        self.pseudorand = callback;
    }

    /// Replaces the `status` slot; the other slots keep their callbacks.
    pub fn set_status(&mut self, callback: Option<RandStatusCallback>)
        ensures
            final(self).spec_status() == callback,
            final(self).spec_seed() == old(self).spec_seed(),
            final(self).spec_bytes() == old(self).spec_bytes(),
            final(self).spec_cleanup() == old(self).spec_cleanup(),
            final(self).spec_add() == old(self).spec_add(),
            final(self).spec_pseudorand() == old(self).spec_pseudorand(),
    {
        self.status = callback;
    }
}

impl<'a> RandMethodRef<'a> {
    /// The table borrowed.
    pub closed spec fn spec_table(self) -> RandMethod {
        *self.table
    }

    /// Field `seed`.
    pub fn seed(&self) -> (callback: Option<RandSeedCallback>)
        ensures
            callback == self.spec_table().spec_seed(),
    {
        self.table.seed
    }

    /// Field `bytes`.
    pub fn bytes(&self) -> (callback: Option<RandBytesCallback>)
        ensures
            callback == self.spec_table().spec_bytes(),
    {
        self.table.bytes
    }

    /// Field `cleanup`.
    pub fn cleanup(&self) -> (callback: Option<RandCleanupCallback>)
        ensures
            callback == self.spec_table().spec_cleanup(),
    {
        self.table.cleanup
    }

    /// Field `add`.
    pub fn add(&self) -> (callback: Option<RandAddCallback>)
        ensures
            callback == self.spec_table().spec_add(),
    {
        self.table.add
    }

    /// Field `pseudorand`.
    pub fn pseudorand(&self) -> (callback: Option<RandPseudorandCallback>)
        ensures
            callback == self.spec_table().spec_pseudorand(),
    {
        self.table.pseudorand
    }

    /// Field `status`.
    pub fn status(&self) -> (callback: Option<RandStatusCallback>)
        ensures
            callback == self.spec_table().spec_status(),
    {
        self.table.status
    }
}

} // verus!

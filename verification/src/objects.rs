//! Object-name registry records, typed binary search and the object
//! cross-reference gates.

use vstd::prelude::*;
use vstd::arithmetic::div_mod::{
    lemma_div_multiples_vanish, lemma_fundamental_div_mod, lemma_mod_multiples_basic,
};
use vstd::arithmetic::mul::lemma_mul_strict_inequality;

verus! {

/// The bit `OBJ_NAME_add` copies out of its class argument into a record's
/// `alias` field (`OBJ_NAME_ALIAS`).
pub const OBJ_NAME_ALIAS: i32 = 0x8000i32;

/// An opaque, registry-owned payload: the non-null address a non-alias
/// entry's `data` slot holds, or what `OBJ_NAME_get` returns.
#[derive(Clone, Copy, Debug, PartialEq, Eq, Structural)]
pub struct ObjNameValue {
    address: usize,
}

impl ObjNameValue {
    /// The payload's address.
    pub closed spec fn spec_address(self) -> usize {
        self.address
    }

    /// A payload view over a registry address; there is none for null.
    pub fn from_address(address: usize) -> (value: Option<ObjNameValue>)
        ensures
            address == 0 ==> value.is_none(),
            address != 0 ==> (value matches Some(v) && v.spec_address() == address),
    {
        if address == 0 {
            None
        } else {
            Some(ObjNameValue { address })
        }
    }

    /// The payload's address, for storing it back into an entry.
    pub fn address(&self) -> (address: usize)
        ensures
            address == self.spec_address(),
    {
        self.address
    }
}

/// The result of `OBJ_NAME_get`: the registered payload, if any.
pub fn name_lookup(address: usize) -> (value: Option<ObjNameValue>)
    ensures
        address == 0 ==> value.is_none(),
        address != 0 ==> (value matches Some(v) && v.spec_address() == address),
{
    ObjNameValue::from_address(address)
}

/// The two meanings of an entry's `data` slot, discriminated by `alias`.
#[derive(Debug)]
pub enum ObjNameData {
    /// `alias` is non-zero: the name of another entry of the same class.
    Alias(Vec<u8>),
    /// `alias` is zero: the payload registered for this name.
    Value(ObjNameValue),
}

/// The mathematical content of an entry's `data` slot.
pub enum ObjNameDataView {
    Alias(Seq<u8>),
    Value(usize),
}

/// The view of a `data` slot.
pub open spec fn data_view(data: Option<ObjNameData>) -> Option<ObjNameDataView> {
    match data {
        None => None,
        Some(ObjNameData::Alias(name)) => Some(ObjNameDataView::Alias(name@)),
        Some(ObjNameData::Value(value)) => Some(ObjNameDataView::Value(value.spec_address())),
    }
}

/// The view of an optional name.
pub open spec fn name_view(name: Option<Vec<u8>>) -> Option<Seq<u8>> {
    match name {
        None => None,
        Some(n) => Some(n@),
    }
}

/// Whether a `data` slot agrees with the `alias` discriminator that says how
/// it is read: a name only under a non-zero `alias`, a payload only under a
/// zero one.
pub open spec fn slot_agrees(alias: i32, data: Option<ObjNameDataView>) -> bool {
    match data {
        None => true,
        Some(ObjNameDataView::Alias(_)) => alias != 0,
        Some(ObjNameDataView::Value(_)) => alias == 0,
    }
}

/// One entry of the process-global object-name registry: its class, the
/// `alias` discriminator, the registered name and the `data` slot.
pub struct ObjName {
    type_id: i32,
    name: Option<Vec<u8>>,
    /// The `alias` discriminator and the `data` slot it describes, kept in
    /// one field so that they are only ever written together.
    slot: (i32, Option<ObjNameData>),
}

impl ObjName {
    /// Records only ever hold a `data` slot that their `alias` reads rightly.
    #[verifier::type_invariant]
    spec fn well_formed(self) -> bool {
        slot_agrees(self.slot.0, data_view(self.slot.1))
    }

    /// The entry's class.
    pub closed spec fn spec_type_id(self) -> i32 {
        self.type_id
    }

    /// The raw `alias` discriminator.
    pub closed spec fn spec_alias(self) -> i32 {
        self.slot.0
    }

    /// The registered name.
    pub closed spec fn spec_name(self) -> Option<Seq<u8>> {
        name_view(self.name)
    }

    /// The `data` slot.
    pub closed spec fn spec_data(self) -> Option<ObjNameDataView> {
        data_view(self.slot.1)
    }

    /// A record over the four fields of an `obj_name_st`; there is none when
    /// the `data` slot contradicts the discriminator (a name under a zero
    /// `alias`, or a payload under a non-zero one).
    pub fn new(type_id: i32, alias: i32, name: Option<Vec<u8>>, data: Option<ObjNameData>) -> (record: Option<ObjName>)
        ensures
            record.is_some() == slot_agrees(alias, data_view(data)),
            record matches Some(r) ==> {
                &&& r.spec_type_id() == type_id
                &&& r.spec_alias() == alias
                &&& r.spec_name() == name_view(name)
                &&& r.spec_data() == data_view(data)
            },
    {
        let agrees = match &data {
            None => true,
            Some(ObjNameData::Alias(_)) => alias != 0,
            Some(ObjNameData::Value(_)) => alias == 0,
        };
        if agrees {
            Some(ObjName { type_id, name, slot: (alias, data) })
        } else {
            None
        }
    }

    /// Sets the entry's class; nothing else changes.
    pub fn set_type(&mut self, value: i32)
        ensures
            final(self).spec_type_id() == value,
            final(self).spec_alias() == old(self).spec_alias(),
            final(self).spec_name() == old(self).spec_name(),
            final(self).spec_data() == old(self).spec_data(),
    {
        proof {
            use_type_invariant(&*self);
        }
        self.type_id = value;
    }

    /// Stores the `data` slot together with its discriminator: `OBJ_NAME_ALIAS`
    /// for a name, 0 for a payload or for an emptied slot.
    pub fn set_data(&mut self, value: Option<ObjNameData>)
        ensures
            final(self).spec_data() == data_view(value),
            final(self).spec_alias() == (if value matches Some(ObjNameData::Alias(_)) {
                OBJ_NAME_ALIAS
            } else {
                0i32
            }),
            final(self).spec_type_id() == old(self).spec_type_id(),
            final(self).spec_name() == old(self).spec_name(),
    {
        let alias: i32 = match &value {
            Some(ObjNameData::Alias(_)) => OBJ_NAME_ALIAS,
            _ => 0,
        };
        self.slot = (alias, value);
    }

    /// Stores the registered name; nothing else changes.
    pub fn set_name(&mut self, value: Option<Vec<u8>>)
        ensures
            final(self).spec_name() == name_view(value),
            final(self).spec_type_id() == old(self).spec_type_id(),
            final(self).spec_alias() == old(self).spec_alias(),
            final(self).spec_data() == old(self).spec_data(),
    {
        proof {
            use_type_invariant(&*self);
        }
        self.name = value;
    }
}

/// A shared borrow of a registry record.
pub struct ObjNameRef<'a> {
    record: &'a ObjName,
}

impl ObjName {
    /// Borrows the record for reading.
    pub fn as_ref(&self) -> (r: ObjNameRef<'_>)
        ensures
            r.spec_record() == *self,
    {
        ObjNameRef { record: self }
    }
}

impl<'a> ObjNameRef<'a> {
    /// The record borrowed.
    pub closed spec fn spec_record(self) -> ObjName {
        *self.record
    }

    /// The entry's class: an `OBJ_NAME_TYPE_*` constant or an index handed
    /// out by `OBJ_NAME_new_index`.
    pub fn type_id(&self) -> (type_id: i32)
        ensures
            type_id == self.spec_record().spec_type_id(),
    {
        self.record.type_id
    }

    /// The raw discriminator.
    pub fn alias(&self) -> (alias: i32)
        ensures
            alias == self.spec_record().spec_alias(),
    {
        self.record.slot.0
    }

    /// Whether this entry aliases another name of the same class: any
    /// non-zero `alias`, as libcrypto's traversals test it.
    pub fn is_alias(&self) -> (aliased: bool)
        ensures
            aliased == (self.spec_record().spec_alias() != 0),
    {
        self.record.slot.0 != 0
    }

    /// The registered name, if the entry carries one.
    pub fn name(&self) -> (name: Option<&'a Vec<u8>>)
        ensures
            match name {
                None => self.spec_record().spec_name().is_none(),
                Some(n) => self.spec_record().spec_name() == Some(n@),
            },
    {
        match &self.record.name {
            None => None,
            Some(n) => Some(n),
        }
    }

    /// The `data` slot read under its discriminator: an alias entry yields
    /// the target name, any other entry its payload.
    pub fn data(&self) -> (data: Option<&'a ObjNameData>)
        ensures
            match data {
                None => self.spec_record().spec_data().is_none(),
                Some(d) => self.spec_record().spec_data() == data_view(Some(*d)),
            },
            data matches Some(ObjNameData::Alias(_)) ==> self.spec_record().spec_alias() != 0,
            data matches Some(ObjNameData::Value(_)) ==> self.spec_record().spec_alias() == 0,
    {
        proof {
            use_type_invariant(self.record);
        }
        match &self.record.slot.1 {
            None => None,
            Some(d) => Some(d),
        }
    }
}

/// The hash callback installed for an object-name class, identified by the
/// function's address.
#[derive(Clone, Copy, Debug, PartialEq, Eq, Structural)]
pub struct ObjNameHashCallback {
    address: usize,
}

/// The comparison callback installed for an object-name class.
#[derive(Clone, Copy, Debug, PartialEq, Eq, Structural)]
pub struct ObjNameCompareCallback {
    address: usize,
}

/// The disposal callback installed for an object-name class.
#[derive(Clone, Copy, Debug, PartialEq, Eq, Structural)]
pub struct ObjNameFreeCallback {
    address: usize,
}

impl ObjNameHashCallback {
    /// The callback's address.
    pub closed spec fn spec_address(self) -> usize {
        self.address
    }

    /// Wraps the address of a hash function that accepts every live name,
    /// retains nothing and never unwinds.
    pub fn from_raw(address: usize) -> (callback: ObjNameHashCallback)
        ensures
            callback.spec_address() == address,
    {
        ObjNameHashCallback { address }
    }

    /// The address handed to `OBJ_NAME_new_index`.
    pub fn address(&self) -> (address: usize)
        ensures
            address == self.spec_address(),
    {
        self.address
    }
}

impl ObjNameCompareCallback {
    /// The callback's address.
    pub closed spec fn spec_address(self) -> usize {
        self.address
    }

    /// Wraps the address of a total-order comparison over live names.
    pub fn from_raw(address: usize) -> (callback: ObjNameCompareCallback)
        ensures
            callback.spec_address() == address,
    {
        ObjNameCompareCallback { address }
    }

    /// The address handed to `OBJ_NAME_new_index`.
    pub fn address(&self) -> (address: usize)
        ensures
            address == self.spec_address(),
    {
        self.address
    }
}

impl ObjNameFreeCallback {
    /// The callback's address.
    pub closed spec fn spec_address(self) -> usize {
        self.address
    }

    /// Wraps the address of a disposal function for a class's name/data
    /// pairs.
    pub fn from_raw(address: usize) -> (callback: ObjNameFreeCallback)
        ensures
            callback.spec_address() == address,
    {
        ObjNameFreeCallback { address }
    }

    /// The address handed to `OBJ_NAME_new_index`.
    pub fn address(&self) -> (address: usize)
        ensures
            address == self.spec_address(),
    {
        self.address
    }
}

/// The class `OBJ_NAME_new_index` allocated: only a positive index is one.
pub fn new_index_outcome(index: i32) -> (class: Option<i32>)
    ensures
        class == (if index > 0 { Some(index) } else { None::<i32> }),
{
    if index > 0 {
        Some(index)
    } else {
        None
    }
}

/// Element type of libcrypto's `STACK_OF(NAME_FUNCS)`. Only the address of a
/// C record is ever given this type; it has no constructor.
pub struct NameFuncs {
    opaque: (),
}

/// Element type of libcrypto's `STACK_OF(nid_triple)`. Only the address of a
/// C record is ever given this type; it has no constructor.
pub struct NidTriple {
    opaque: (),
}

/// Whether `address - start` is a whole number of elements within the slice.
pub open spec fn element_at(start: int, elem_size: int, len: int, address: int, index: int) -> bool {
    0 <= index < len && address == start + index * elem_size
}

/// The element a pointer returned by `OBJ_bsearch_` designates within a
/// slice of `len` elements of `elem_size` bytes at `start`: none for null, for
/// an empty slice or zero-sized elements, for a slice whose byte extent does
/// not fit the address space, for an address outside it, or for one that is
/// not on an element boundary.
pub open spec fn spec_bsearch_index(start: usize, elem_size: usize, len: usize, address: usize) -> Option<usize> {
    if address == 0 || len == 0 || elem_size == 0 {
        None
    } else if len * elem_size > usize::MAX || start + len * elem_size > usize::MAX {
        None
    } else if address < start || address >= start + len * elem_size {
        None
    } else if (address - start) % (elem_size as int) != 0 {
        None
    } else {
        Some(((address - start) / (elem_size as int)) as usize)
    }
}

/// Maps the address `OBJ_bsearch_` returned back to an index into the
/// searched slice.
pub fn bsearch_index(start: usize, elem_size: usize, len: usize, address: usize) -> (index: Option<usize>)
    ensures
        index == spec_bsearch_index(start, elem_size, len, address),
        index matches Some(i) ==> element_at(start as int, elem_size as int, len as int, address as int, i as int),
{
    if address == 0 || len == 0 || elem_size == 0 {
        return None;
    }
    let byte_len = match len.checked_mul(elem_size) {
        Some(b) => b,
        None => return None,
    };
    let end = match start.checked_add(byte_len) {
        Some(e) => e,
        None => return None,
    };
    if address < start || address >= end {
        return None;
    }
    let offset = address - start;
    if offset % elem_size != 0 {
        return None;
    }
    let i = offset / elem_size;
    proof {
        lemma_bsearch_index_in_bounds(offset as int, elem_size as int, len as int);
    }
    Some(i)
}

proof fn lemma_bsearch_index_in_bounds(offset: int, elem_size: int, len: int)
    requires
        elem_size > 0,
        0 <= offset < len * elem_size,
        offset % elem_size == 0,
    ensures
        0 <= offset / elem_size < len,
        offset == (offset / elem_size) * elem_size,
{
    let q = offset / elem_size;
    lemma_fundamental_div_mod(offset, elem_size);
    assert(offset == q * elem_size) by (nonlinear_arith)
        requires offset == elem_size * q + offset % elem_size, offset % elem_size == 0;
    assert(0 <= q) by (nonlinear_arith)
        requires offset == q * elem_size, offset >= 0, elem_size > 0;
    assert(q < len) by (nonlinear_arith)
        requires offset == q * elem_size, offset < len * elem_size, elem_size > 0;
}

/// Every element of a searched slice is found again at its own address: the
/// address of element `i` maps back to index `i`.
pub proof fn law_bsearch_round_trip(start: usize, elem_size: usize, len: usize, i: usize)
    requires
        i < len,
        elem_size > 0,
        start > 0,
        start + len * elem_size <= usize::MAX,
    ensures
        spec_bsearch_index(start, elem_size, len, (start + i * elem_size) as usize) == Some(i),
{
    let size = elem_size as int;
    let n = len as int;
    let k = i as int;
    assert(k * size < n * size) by {
        lemma_mul_strict_inequality(k, n, size);
    }
    assert(0 <= k * size) by (nonlinear_arith)
        requires k >= 0, size > 0;
    assert(n * size <= usize::MAX) by (nonlinear_arith)
        requires start + n * size <= usize::MAX, start > 0, n >= 0, size > 0;
    assert((k * size) % size == 0) by {
        lemma_mod_multiples_basic(k, size);
    }
    assert((k * size) / size == k) by {
        lemma_div_multiples_vanish(k, size);
        assert(size * k == k * size) by (nonlinear_arith);
    }
    let address = (start + i * elem_size) as usize;
    assert(address - start == k * size);
}

/// The count and element size `OBJ_bsearch_` takes as `int`s, when both fit
/// and elements are not zero-sized.
pub open spec fn spec_bsearch_plan(len: usize, elem_size: usize) -> Option<(i32, i32)> {
    if len > i32::MAX || elem_size > i32::MAX || elem_size == 0 {
        None
    } else {
        Some((len as i32, elem_size as i32))
    }
}

/// The check made before calling `OBJ_bsearch_` and `OBJ_bsearch_ex_`.
pub fn bsearch_plan(len: usize, elem_size: usize) -> (plan: Option<(i32, i32)>)
    ensures
        plan == spec_bsearch_plan(len, elem_size),
{
    if len > 0x7fff_ffffusize || elem_size > 0x7fff_ffffusize || elem_size == 0 {
        None
    } else {
        Some((len as i32, elem_size as i32))
    }
}

/// Whether a signature NID may be looked up (`OBJ_find_sigid_algs`): NIDs
/// are positive, and libcrypto's comparators are not handed others.
pub fn sigid_lookup_permitted(signature_nid: i32) -> (ok: bool)
    ensures
        ok == (signature_nid > 0),
{
    signature_nid > 0
}

/// Whether a digest/public-key pair may be looked up
/// (`OBJ_find_sigid_by_algs`).
pub fn sigid_by_algs_permitted(digest_nid: i32, public_key_nid: i32) -> (ok: bool)
    ensures
        ok == (digest_nid > 0 && public_key_nid > 0),
{
    digest_nid > 0 && public_key_nid > 0
}

/// Whether a signature triple may be registered (`OBJ_add_sigid`).
pub fn add_sigid_permitted(signature_nid: i32, digest_nid: i32, public_key_nid: i32) -> (ok: bool)
    ensures
        ok == (signature_nid > 0 && digest_nid > 0 && public_key_nid > 0),
{
    signature_nid > 0 && digest_nid > 0 && public_key_nid > 0
}

/// The NID `OBJ_add_object` assigned: 0 is its failure report.
pub fn added_nid(nid: i32) -> (assigned: Option<i32>)
    ensures
        assigned == (if nid != 0 { Some(nid) } else { None::<i32> }),
{
    if nid != 0 {
        Some(nid)
    } else {
        None
    }
}

/// The full text length `OBJ_obj2txt` reported: a negative report is none.
pub fn text_length(written: i32) -> (length: Option<usize>)
    ensures
        length == (if written >= 0 { Some(written as usize) } else { None::<usize> }),
{
    if written >= 0 {
        Some(written as usize)
    } else {
        None
    }
}

/// An object returned by `OBJ_dup`: an independently owned dynamic copy, or
/// the same static object borrowed (libcrypto does not copy static objects).
#[derive(Clone, Copy, Debug, PartialEq, Eq, Structural)]
pub enum Asn1ObjectDuplicate {
    Owned(usize),
    Static(usize),
}

/// Classifies the result of `OBJ_dup` by its address and whether libcrypto
/// flagged it as dynamically allocated; null is no result.
#[allow(non_snake_case)]
pub fn OBJ_dup(address: usize, dynamic: bool) -> (duplicate: Option<Asn1ObjectDuplicate>)
    ensures
        address == 0 ==> duplicate.is_none(),
        address != 0 && dynamic ==> duplicate == Some(Asn1ObjectDuplicate::Owned(address)),
        address != 0 && !dynamic ==> duplicate == Some(Asn1ObjectDuplicate::Static(address)),
{
    if address == 0 {
        None
    } else if dynamic {
        Some(Asn1ObjectDuplicate::Owned(address))
    } else {
        Some(Asn1ObjectDuplicate::Static(address))
    }
}

/// Whatever index a search result maps to designates an element of the
/// slice at exactly that address, and nothing is mapped for null or for an
/// address outside the slice.
pub proof fn law_bsearch_sound(start: usize, elem_size: usize, len: usize, address: usize)
    ensures
        spec_bsearch_index(start, elem_size, len, address) matches Some(i) ==> element_at(
            start as int,
            elem_size as int,
            len as int,
            address as int,
            i as int,
        ),
        address == 0 || address < start || address as int >= start as int + len as int
            * elem_size as int ==> spec_bsearch_index(start, elem_size, len, address) is None,
{
    if let Some(i) = spec_bsearch_index(start, elem_size, len, address) {
        lemma_bsearch_index_in_bounds((address - start) as int, elem_size as int, len as int);
    }
}

/// A search is issued with the slice's count and element size exactly when
/// both fit an `int` and elements are not zero-sized.
pub proof fn law_bsearch_plan(len: usize, elem_size: usize)
    ensures
        len <= i32::MAX && 0 < elem_size && elem_size <= i32::MAX ==> spec_bsearch_plan(
            len,
            elem_size,
        ) == Some((len as i32, elem_size as i32)),
        !(len <= i32::MAX && 0 < elem_size && elem_size <= i32::MAX) ==> spec_bsearch_plan(
            len,
            elem_size,
        ) is None,
{
}

} // verus!

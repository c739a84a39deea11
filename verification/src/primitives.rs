//! Plain value types shared by the pool, the payload builder and the engine.

use crate::assoc::Key;
use vstd::prelude::*;
use vstd::std_specs::cmp::PartialEqSpecImpl;

verus! {

broadcast use vstd::array::group_array_axioms;

/// Compares two byte arrays of the same length.
pub fn bytes_equal<const N: usize>(a: &[u8; N], b: &[u8; N]) -> (same: bool)
    ensures
        same == (*a == *b),
{
    let mut i: usize = 0;
    while i < N
        invariant
            i <= N,
            forall|j: int| 0 <= j < i ==> a@[j] == b@[j],
        decreases N - i,
    {
        if a[i] != b[i] {
            assert(a@[i as int] != b@[i as int]);
            return false;
        }
        i += 1;
    }
    assert(*a =~= *b);
    true
}

/// A 20-byte account address.
#[derive(Clone, Copy, Debug)]
pub struct Address {
    pub bytes: [u8; 20],
}

impl View for Address {
    type V = Seq<u8>;

    open spec fn view(&self) -> Seq<u8> {
        self.bytes@
    }
}

impl PartialEq for Address {
    fn eq(&self, other: &Address) -> (same: bool) {
        bytes_equal(&self.bytes, &other.bytes)
    }
}

impl Eq for Address {}

impl PartialEqSpecImpl for Address {
    open spec fn obeys_eq_spec() -> bool {
        true
    }

    open spec fn eq_spec(&self, other: &Address) -> bool {
        *self == *other
    }
}

impl Address {
    /// The address whose bytes are `bytes`.
    pub fn new(bytes: [u8; 20]) -> (address: Address)
        ensures
            address.bytes == bytes,
    {
        Address { bytes }
    }
}

impl Key for Address {
    fn same(&self, other: &Address) -> (same: bool) {
        bytes_equal(&self.bytes, &other.bytes)
    }
}

/// A 32-byte hash or root.
#[derive(Clone, Copy, Debug)]
pub struct B256 {
    pub bytes: [u8; 32],
}

impl View for B256 {
    type V = Seq<u8>;

    open spec fn view(&self) -> Seq<u8> {
        self.bytes@
    }
}

impl PartialEq for B256 {
    fn eq(&self, other: &B256) -> (same: bool) {
        bytes_equal(&self.bytes, &other.bytes)
    }
}

impl Eq for B256 {}

impl PartialEqSpecImpl for B256 {
    open spec fn obeys_eq_spec() -> bool {
        true
    }

    open spec fn eq_spec(&self, other: &B256) -> bool {
        *self == *other
    }
}

impl B256 {
    /// The hash whose bytes are `bytes`.
    pub fn new(bytes: [u8; 32]) -> (hash: B256)
        ensures
            hash.bytes == bytes,
    {
        B256 { bytes }
    }

    /// The all-zero hash.
    pub open spec fn spec_zero() -> B256 {
        B256 { bytes: vstd::array::spec_array_fill_for_copy_type::<u8, 32>(0u8) }
    }

    /// The all-zero hash.
    #[verifier::when_used_as_spec(spec_zero)]
    pub fn zero() -> (hash: B256)
        ensures
            hash == Self::spec_zero(),
            hash.spec_is_zero(),
    {
        B256 { bytes: [0u8; 32] }
    }

    /// Whether every byte is zero.
    pub open spec fn spec_is_zero(&self) -> bool {
        forall|i: int| 0 <= i < 32 ==> self.bytes@[i] == 0u8
    }

    /// Whether every byte is zero.
    #[verifier::when_used_as_spec(spec_is_zero)]
    pub fn is_zero(&self) -> (zero: bool)
        ensures
            zero == self.spec_is_zero(),
    {
        let mut i: usize = 0;
        while i < 32
            invariant
                i <= 32,
                forall|j: int| 0 <= j < i ==> self.bytes@[j] == 0u8,
            decreases 32 - i,
        {
            if self.bytes[i] != 0 {
                return false;
            }
            i += 1;
        }
        true
    }
}

/// The 8-byte identifier of a payload under construction.
#[derive(Clone, Copy, Debug)]
pub struct PayloadId {
    pub bytes: [u8; 8],
}

impl View for PayloadId {
    type V = Seq<u8>;

    open spec fn view(&self) -> Seq<u8> {
        self.bytes@
    }
}

impl PartialEq for PayloadId {
    fn eq(&self, other: &PayloadId) -> (same: bool) {
        bytes_equal(&self.bytes, &other.bytes)
    }
}

impl Eq for PayloadId {}

impl PartialEqSpecImpl for PayloadId {
    open spec fn obeys_eq_spec() -> bool {
        true
    }

    open spec fn eq_spec(&self, other: &PayloadId) -> bool {
        *self == *other
    }
}

impl Key for PayloadId {
    fn same(&self, other: &PayloadId) -> (same: bool) {
        bytes_equal(&self.bytes, &other.bytes)
    }
}

impl PayloadId {
    /// The identifier whose bytes are `bytes`.
    pub fn new(bytes: [u8; 8]) -> (id: PayloadId)
        ensures
            id.bytes == bytes,
    {
        PayloadId { bytes }
    }
}

} // verus!

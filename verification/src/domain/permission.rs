use crate::shared::errors::DomainError;
use vstd::prelude::*;

verus! {

/// Bit that grants reading.
pub const READ_BIT: u32 = 1;

/// Bit that grants writing.
pub const WRITE_BIT: u32 = 2;

/// Bit that grants deleting.
pub const DELETE_BIT: u32 = 4;

/// The three operations a permission rule can grant.
#[derive(Debug, Clone, Copy, PartialEq, Eq, Structural)]
pub enum PermissionMethod {
    Read,
    Write,
    Delete,
}

impl PermissionMethod {
    /// The single bit that stands for this operation in a mask.
    pub open spec fn bit(self) -> u32 {
        match self {
            PermissionMethod::Read => READ_BIT,
            PermissionMethod::Write => WRITE_BIT,
            PermissionMethod::Delete => DELETE_BIT,
        }
    }
}

/// A set of granted operations, held as a bitmask. Bits beyond the three
/// known ones are carried along and grant nothing.
#[derive(Debug, Clone, Copy, PartialEq, Eq, Structural, Hash)]
pub struct PermissionBits {
    pub bits: u32,
}

impl View for PermissionBits {
    type V = u32;

    open spec fn view(&self) -> u32 {
        self.bits
    }
}

impl PermissionBits {
    /// What `allows` answers, over the mask's bits.
    pub open spec fn spec_allows(mask: u32, method: PermissionMethod) -> bool {
        mask & method.bit() == method.bit()
    }

    /// The mask that grants nothing.
    pub fn empty() -> (out: PermissionBits)
        ensures
            out@ == 0,
    {
        PermissionBits { bits: 0 }
    }

    /// The mask that grants reading only.
    pub fn read() -> (out: PermissionBits)
        ensures
            out@ == READ_BIT,
    {
        PermissionBits { bits: READ_BIT }
    }

    /// The mask that grants writing only.
    pub fn write() -> (out: PermissionBits)
        ensures
            out@ == WRITE_BIT,
    {
        PermissionBits { bits: WRITE_BIT }
    }

    /// The mask that grants deleting only.
    pub fn delete() -> (out: PermissionBits)
        ensures
            out@ == DELETE_BIT,
    {
        PermissionBits { bits: DELETE_BIT }
    }

    /// The mask that grants all three operations.
    pub fn full() -> (out: PermissionBits)
        ensures
            out@ == 7,
            forall|m: PermissionMethod| Self::spec_allows(out@, m),
    {
        let out = PermissionBits { bits: 7 };
        assert forall|m: PermissionMethod| Self::spec_allows(out@, m) by {
            assert(7u32 & 1u32 == 1u32) by (bit_vector);
            assert(7u32 & 2u32 == 2u32) by (bit_vector);
            assert(7u32 & 4u32 == 4u32) by (bit_vector);
        }
        out
    }

    /// A mask with exactly the given bits.
    pub fn from_bits(bits: u32) -> (out: PermissionBits)
        ensures
            out@ == bits,
    {
        PermissionBits { bits }
    }

    /// The mask's bits.
    pub fn bits(&self) -> (out: u32)
        ensures
            out == self@,
    {
        self.bits
    }

    /// Whether every bit of `other` is set in this mask.
    pub fn contains(&self, other: PermissionBits) -> (out: bool)
        ensures
            out == (self@ & other@ == other@),
    {
        self.bits & other.bits == other.bits
    }

    /// Whether the mask grants the operation: its single bit is set.
    pub fn allows(&self, method: PermissionMethod) -> (out: bool)
        ensures
            out == Self::spec_allows(self@, method),
    {
        match method {
            PermissionMethod::Read => self.contains(PermissionBits::read()),
            PermissionMethod::Write => self.contains(PermissionBits::write()),
            PermissionMethod::Delete => self.contains(PermissionBits::delete()),
        }
    }
}

impl core::ops::BitOr for PermissionBits {
    type Output = PermissionBits;

    fn bitor(self, rhs: PermissionBits) -> (out: PermissionBits) {
        PermissionBits { bits: self.bits | rhs.bits }
    }
}

impl vstd::std_specs::ops::BitOrSpecImpl for PermissionBits {
    open spec fn obeys_bitor_spec() -> bool {
        true
    }

    open spec fn bitor_req(self, rhs: PermissionBits) -> bool {
        true
    }

    open spec fn bitor_spec(self, rhs: PermissionBits) -> PermissionBits {
        PermissionBits { bits: self.bits | rhs.bits }
    }
}

/// A rule of the permission store: the operations in `bits` are granted to
/// group `group_id` on the resources that `resource` covers.
#[derive(Debug, Clone, PartialEq, Eq)]
pub struct Permission {
    pub resource: String,
    pub group_id: i64,
    pub bits: PermissionBits,
}

/// A rule as a plain value.
pub struct PermissionView {
    pub resource: Seq<char>,
    pub group_id: i64,
    pub bits: u32,
}

impl View for Permission {
    type V = PermissionView;

    open spec fn view(&self) -> PermissionView {
        PermissionView { resource: self.resource@, group_id: self.group_id, bits: self.bits@ }
    }
}

/// The union of two masks allows an operation exactly when one of the two
/// does.
pub proof fn lemma_union_allows(a: PermissionBits, b: PermissionBits, method: PermissionMethod)
    ensures
        PermissionBits::spec_allows(a@ | b@, method) == (PermissionBits::spec_allows(a@, method)
            || PermissionBits::spec_allows(b@, method)),
{
    let x = a@;
    let y = b@;
    assert(((x | y) & 1u32 == 1u32) == ((x & 1u32 == 1u32) || (y & 1u32 == 1u32))) by (bit_vector);
    assert(((x | y) & 2u32 == 2u32) == ((x & 2u32 == 2u32) || (y & 2u32 == 2u32))) by (bit_vector);
    assert(((x | y) & 4u32 == 4u32) == ((x & 4u32 == 4u32) || (y & 4u32 == 4u32))) by (bit_vector);
}

/// A mask of one operation allows that operation and no other, and the
/// empty mask allows none.
pub proof fn lemma_single_bit_allows(granted: PermissionMethod, asked: PermissionMethod)
    ensures
        PermissionBits::spec_allows(granted.bit(), asked) == (granted == asked),
        !PermissionBits::spec_allows(0u32, asked),
{
    assert(1u32 & 1u32 == 1u32) by (bit_vector);
    assert(1u32 & 2u32 == 0u32) by (bit_vector);
    assert(1u32 & 4u32 == 0u32) by (bit_vector);
    assert(2u32 & 1u32 == 0u32) by (bit_vector);
    assert(2u32 & 2u32 == 2u32) by (bit_vector);
    assert(2u32 & 4u32 == 0u32) by (bit_vector);
    assert(4u32 & 1u32 == 0u32) by (bit_vector);
    assert(4u32 & 2u32 == 0u32) by (bit_vector);
    assert(4u32 & 4u32 == 4u32) by (bit_vector);
    assert(0u32 & 1u32 == 0u32) by (bit_vector);
    assert(0u32 & 2u32 == 0u32) by (bit_vector);
    assert(0u32 & 4u32 == 0u32) by (bit_vector);
}

/// The store of permission rules.
pub trait PermissionRepository {
    /// Whether the store may give `answer` when it is asked for the rules of
    /// the given groups. A store says here what it promises of its answers;
    /// one that promises nothing says `true`.
    open spec fn may_find(
        &self,
        group_ids: Seq<i64>,
        answer: Result<Vec<Permission>, DomainError>,
    ) -> bool {
        true
    }

    /// The rules owned by any of the given groups, in the order in which
    /// the store ranks them.
    fn find_permissions_for_groups(&self, group_ids: &[i64]) -> (answer: Result<
        Vec<Permission>,
        DomainError,
    >)
        ensures
            self.may_find(group_ids@, answer),
    ;
}

} // verus!

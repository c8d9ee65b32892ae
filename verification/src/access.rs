//! Identities: a 64-bit number whose lowest bit is the role flag and whose
//! upper 63 bits are the base id shared by a read/write pair.

use vstd::prelude::*;

verus! {

/// An identity: role flag in bit 0, base id in bits 1 to 63.
pub type UserId = u64;

/// The role flag. Set: the bearer may read. Clear: the bearer may write.
pub const READ_BIT: u64 = 1;

/// Every bit but the role flag.
pub const BIT_MASK: u64 = 0xFFFF_FFFF_FFFF_FFFE;

/// The base id of `id`: the identity with its role flag cleared.
pub open spec fn base_of(id: u64) -> u64 {
    (id - id % 2) as u64
}

/// Whether `id` carries the read role.
pub open spec fn is_read(id: u64) -> bool {
    id % 2 == 1
}

/// Whether `id` carries the write role.
pub open spec fn is_write(id: u64) -> bool {
    id % 2 == 0
}

/// The read member of the pair that `id` belongs to.
pub open spec fn read_of(id: u64) -> u64 {
    (base_of(id) + 1) as u64
}

/// The write member of the pair that `id` belongs to.
pub open spec fn write_of(id: u64) -> u64 {
    base_of(id)
}

/// Role queries and role changes on an identity.
pub trait AccessCheck {
    /// The identity that the value stands for.
    spec fn identity(&self) -> u64;

    /// The base id: the identity without its role flag.
    fn base(&self) -> (r: UserId)
        ensures
            r == base_of(self.identity()),
    ;

    /// True exactly for the read member of a pair.
    fn read_only(&self) -> (r: bool)
        ensures
            r == is_read(self.identity()),
    ;

    /// True exactly for the write member of a pair.
    fn write_only(&self) -> (r: bool)
        ensures
            r == is_write(self.identity()),
    ;

    /// The read member of the same pair.
    fn as_read_only(&self) -> (r: UserId)
        ensures
            r == read_of(self.identity()),
    ;

    /// The write member of the same pair.
    fn as_write_only(&self) -> (r: UserId)
        ensures
            r == write_of(self.identity()),
    ;
}

impl AccessCheck for UserId {
    open spec fn identity(&self) -> u64 {
        *self
    }

    #[inline]
    fn base(&self) -> (r: UserId) {
        let v: u64 = *self;
        assert(v & 0xFFFF_FFFF_FFFF_FFFE == (v - v % 2) as u64) by (bit_vector);
        v & BIT_MASK
    }

    #[inline]
    fn read_only(&self) -> (r: bool) {
        let v: u64 = *self;
        assert((v & 1 == 1) == (v % 2 == 1)) by (bit_vector);
        v & READ_BIT == READ_BIT
    }

    #[inline]
    fn write_only(&self) -> (r: bool) {
        let v: u64 = *self;
        assert((v & 1 != 1) == (v % 2 == 0)) by (bit_vector);
        v & READ_BIT != READ_BIT
    }

    #[inline]
    fn as_read_only(&self) -> (r: UserId) {
        self.base() + READ_BIT
    }

    #[inline]
    fn as_write_only(&self) -> (r: UserId) {
        self.base()
    }
}

/// Both members of a pair have the base id of the identity they were derived
/// from.
pub proof fn lemma_pair_shares_base(v: u64)
    ensures
        base_of(read_of(v)) == base_of(v),
        base_of(write_of(v)) == base_of(v),
        base_of(base_of(v)) == base_of(v),
{
}

/// The read member reads, the write member writes, and every identity has
/// exactly one of the two roles.
pub proof fn lemma_roles_exclusive(v: u64)
    ensures
        is_read(read_of(v)),
        is_write(write_of(v)),
        is_read(v) != is_write(v),
{
}

/// Deriving a role twice changes nothing, and the later derivation wins.
pub proof fn lemma_role_idempotent(v: u64)
    ensures
        read_of(read_of(v)) == read_of(v),
        write_of(write_of(v)) == write_of(v),
        read_of(write_of(v)) == read_of(v),
        write_of(read_of(v)) == write_of(v),
{
}

/// The two members of a pair differ in the role flag alone: the read member
/// is the write member plus one, and an identity is one of the two.
pub proof fn lemma_pair_members(v: u64)
    ensures
        read_of(v) == write_of(v) + 1,
        v == read_of(v) || v == write_of(v),
        is_read(v) <==> v == read_of(v),
        is_write(v) <==> v == write_of(v),
{
}

} // verus!

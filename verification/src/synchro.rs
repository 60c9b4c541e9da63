//! Identifiers that carry the id of the player that owns the object they name
//! in their lowest bits, and the per-player generator that hands them out.

use vstd::prelude::*;

verus! {

/// Number of players an identifier can distinguish.
pub const PLAYER_CAP: u64 = 16;

/// Mask selecting the owner bits of an identifier.
pub const OWNER_MASK: u64 = 15;

/// The owner encoded in the raw bits of an identifier.
pub open spec fn owner_of(bits: nat) -> nat {
    bits % (PLAYER_CAP as nat)
}

/// The raw bits of the identifier that a generator for `owner` hands out
/// after it has already handed out `issued` identifiers.
pub open spec fn issued_bits(owner: nat, issued: nat) -> nat {
    owner + (PLAYER_CAP as nat) * issued
}

/// An object identifier; the lowest four bits name the owning player.
#[derive(Copy, Clone, Debug, PartialEq, Eq, Structural)]
pub struct Identifier {
    bits: u64,
}

impl Identifier {
    /// The raw bits of this identifier.
    pub closed spec fn spec_bits(self) -> nat {
        self.bits as nat
    }

    /// The player that owns the named object.
    pub fn owner(self) -> (r: u8)
        ensures
            r as nat == owner_of(self.spec_bits()),
    {
        let b = self.bits;
        assert(b & 15u64 == b % 16) by (bit_vector);
        assert(b & 15u64 < 16) by (bit_vector);
        (b & OWNER_MASK) as u8
    }

    /// The raw bits of this identifier.
    pub fn bits(self) -> (r: u64)
        ensures
            r as nat == self.spec_bits(),
    {
        self.bits
    }
}

/// Hands out the identifiers of one player: its owner id, then that id plus
/// `PLAYER_CAP`, plus twice `PLAYER_CAP`, and so on.
pub struct IdentifierGenerator {
    next_id: u64,
}

impl IdentifierGenerator {
    /// The raw bits of the identifier that the next call of `next` returns.
    pub closed spec fn next_bits(self) -> nat {
        self.next_id as nat
    }

    /// The owner of every identifier this generator hands out.
    pub open spec fn spec_owner(self) -> nat {
        owner_of(self.next_bits())
    }

    /// How many identifiers this generator has handed out.
    pub open spec fn issued(self) -> nat {
        self.next_bits() / (PLAYER_CAP as nat)
    }

    /// Whether one more identifier fits in 64 bits.
    pub open spec fn can_issue(self) -> bool {
        self.next_bits() + PLAYER_CAP <= u64::MAX
    }

    /// A generator for the player `owner`, which must fit in the owner bits.
    pub fn new(owner: u8) -> (r: Self)
        requires
            owner as u64 <= OWNER_MASK,
        ensures
            r.next_bits() == owner as nat,
            r.spec_owner() == owner as nat,
            r.issued() == 0,
    {
        IdentifierGenerator { next_id: owner as u64 }
    }

    /// Hands out the next identifier.
    pub fn next(&mut self) -> (id: Identifier)
        requires
            old(self).can_issue(),
        ensures
            id.spec_bits() == old(self).next_bits(),
            id.spec_bits() == issued_bits(old(self).spec_owner(), old(self).issued()),
            owner_of(id.spec_bits()) == old(self).spec_owner(),
            final(self).next_bits() == old(self).next_bits() + PLAYER_CAP,
            final(self).spec_owner() == old(self).spec_owner(),
            final(self).issued() == old(self).issued() + 1,
    {
        let id = Identifier { bits: self.next_id };
        self.next_id = self.next_id + PLAYER_CAP;
        id
    }
}

/// Every identifier a generator hands out carries the generator's owner, and
/// identifiers handed out at different positions differ.
pub proof fn lemma_issued_ids_owned_and_distinct(owner: nat, i: nat, j: nat)
    requires
        owner < PLAYER_CAP,
    ensures
        owner_of(issued_bits(owner, i)) == owner,
        i != j ==> issued_bits(owner, i) != issued_bits(owner, j),
        i < j ==> issued_bits(owner, i) < issued_bits(owner, j),
{
    vstd::arithmetic::div_mod::lemma_mod_multiples_vanish(i as int, owner as int, 16);
    vstd::arithmetic::div_mod::lemma_small_mod(owner, 16);
}

} // verus!

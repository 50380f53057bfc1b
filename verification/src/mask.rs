//! The runtime meaning of the generated tracking methods.
//!
//! The generator injects one hidden integer field into the structure and
//! emits methods that read and write it.  This module models that field
//! and those methods: [`ChangeMask`] is the injected bitmask, and its
//! operations are the bodies the generator emits, one per generated
//! method.  The laws at the end of the module state the guarantees the
//! generated interface gives its callers.

use vstd::prelude::*;
use crate::width::IntWidth;

verus! {

/// What one call of a generated setter does to the bitmask: with `no_eq`
/// the field's bit is set unconditionally; otherwise it is set only when
/// the incoming value differs from the stored one (`equal` says whether
/// the two compared equal).  The stored field value itself is always
/// overwritten by the setter; only the mask is modelled here.
pub open spec fn set_step(bits: u128, mask: u128, no_eq: bool, equal: bool) -> u128 {
    if no_eq || !equal {
        bits | mask
    } else {
        bits
    }
}

/// What the generated change query returns: whether any bit of `mask` is
/// set in the bitmask.
pub open spec fn changed_spec(bits: u128, mask: u128) -> bool {
    bits & mask != 0
}

/// The bit mask of the single tracked field with bit index `i`.
pub open spec fn spec_bit_mask(i: nat) -> u128
    recommends
        i < 128,
{
    1u128 << i
}

/// The bit mask of the single tracked field with bit index `i`: the mask
/// the generated associated bit-mask accessor of that field returns.
pub fn bit_mask(i: u32) -> (m: u128)
    requires
        i < 128,
    ensures
        m == spec_bit_mask(i as nat),
        m != 0,
{
    proof {
        lemma_bit_mask_nonzero(i);
    }
    1u128 << i
}

/// A single-bit mask is never zero.
proof fn lemma_bit_mask_nonzero(i: u32)
    requires
        i < 128,
    ensures
        1u128 << i != 0,
{
    assert(i < 128 ==> 1u128 << i != 0) by (bit_vector);
}

/// The injected bitmask field of a tracked structure: one bit per tracked
/// field, recording whether that field was touched since the last reset.
///
/// The generated methods perform plain, non-atomic read-modify-write on
/// this value; nothing here synchronizes concurrent access to one
/// instance.
pub struct ChangeMask {
    bits: u128,
    width: IntWidth,
}

impl ChangeMask {
    /// The current mask value, widened to 128 bits.
    pub closed spec fn bits(self) -> u128 {
        self.bits
    }

    /// The integer width the generator chose for this mask.
    pub closed spec fn width(self) -> IntWidth {
        self.width
    }

    /// Well-formedness: only bits of the chosen width are ever set.
    pub open spec fn wf(self) -> bool {
        self.bits() <= self.width().spec_all_ones()
    }

    /// A fresh mask with no change recorded, as a generated structure is
    /// meant to start out.
    pub fn new(width: IntWidth) -> (r: ChangeMask)
        ensures
            r.bits() == 0,
            r.width() == width,
            r.wf(),
    {
        ChangeMask { bits: 0, width }
    }

    /// A mask holding a caller-chosen value, as written when an instance
    /// of the generated structure is built with an explicit bitmask
    /// (for example all-zero, or with some bits pre-set).
    pub fn with_bits(width: IntWidth, bits: u128) -> (r: ChangeMask)
        requires
            bits <= width.spec_all_ones(),
        ensures
            r.bits() == bits,
            r.width() == width,
            r.wf(),
    {
        ChangeMask { bits, width }
    }

    /// Sets every bit of `mask`: the body of the generated mutable
    /// accessor and of the closure-based updater, which mark the field
    /// changed unconditionally.
    pub fn mark(&mut self, mask: u128)
        requires
            old(self).wf(),
            mask <= old(self).width().spec_all_ones(),
        ensures
            final(self).bits() == old(self).bits() | mask,
            final(self).width() == old(self).width(),
            final(self).wf(),
    {
        proof {
            lemma_or_keeps_width(self.width, self.bits, mask);
        }
        self.bits = self.bits | mask;
    }

    /// The mask transition of the generated setter: marks the field's bit
    /// according to the field's `no_eq` flag and to whether the incoming
    /// value compared equal to the stored one.
    pub fn record_set(&mut self, mask: u128, no_eq: bool, equal: bool)
        requires
            old(self).wf(),
            mask <= old(self).width().spec_all_ones(),
        ensures
            final(self).bits() == set_step(old(self).bits(), mask, no_eq, equal),
            final(self).width() == old(self).width(),
            final(self).wf(),
    {
        if no_eq || !equal {
            proof {
                lemma_or_keeps_width(self.width, self.bits, mask);
            }
            self.bits = self.bits | mask;
        }
    }

    /// The generated query for changes under a given bit mask.
    pub fn changed(&self, mask: u128) -> (r: bool)
        ensures
            r == changed_spec(self.bits(), mask),
    {
        self.bits & mask != 0
    }

    /// The generated query for any change at all.
    pub fn changed_any(&self) -> (r: bool)
        ensures
            r == (self.bits() != 0),
    {
        self.bits != 0
    }

    /// The generated reset: clears all change history.
    pub fn reset(&mut self)
        ensures
            final(self).bits() == 0,
            final(self).width() == old(self).width(),
            final(self).wf(),
    {
        self.bits = 0;
    }

    /// The generated mark-all operation: sets the bitmask to the all-ones
    /// value of its width.
    pub fn mark_all_changed(&mut self)
        ensures
            final(self).bits() == old(self).width().spec_all_ones(),
            final(self).width() == old(self).width(),
            final(self).wf(),
    {
        self.bits = self.width.all_ones();
    }

    /// The generated whole-structure mask accessor: the all-ones value of
    /// the chosen width, matching every tracked field at once.
    pub fn track_all(&self) -> (m: u128)
        ensures
            m == self.width().spec_all_ones(),
    {
        self.width.all_ones()
    }
}

/// Setting bits of a mask that fits a width keeps the result within that
/// width.
proof fn lemma_or_keeps_width(w: IntWidth, x: u128, y: u128)
    requires
        x <= w.spec_all_ones(),
        y <= w.spec_all_ones(),
    ensures
        x | y <= w.spec_all_ones(),
{
    match w {
        IntWidth::W8 => {
            assert(x <= 0xff && y <= 0xff ==> (x | y) <= 0xffu128) by (bit_vector);
        },
        IntWidth::W16 => {
            assert(x <= 0xffff && y <= 0xffff ==> (x | y) <= 0xffffu128) by (bit_vector);
        },
        IntWidth::W32 => {
            assert(x <= 0xffff_ffff && y <= 0xffff_ffff ==> (x | y) <= 0xffff_ffffu128)
                by (bit_vector);
        },
        IntWidth::W64 => {
            assert(x <= 0xffff_ffff_ffff_ffff && y <= 0xffff_ffff_ffff_ffff ==> (x | y)
                <= 0xffff_ffff_ffff_ffffu128) by (bit_vector);
        },
        IntWidth::W128 => {
            assert(x <= u128::MAX);
        },
    }
}

/// Law: equality-gated setting is idempotent.  For a field whose setter
/// checks equality (`no_eq` false), when the first of two setter calls
/// hands in a value equal to the stored one, the stored value stays the
/// same, so the second call with the same value also compares equal, and
/// a bit that was clear before the calls is still clear after both.
pub proof fn lemma_set_equal_value_keeps_bit_clear(bits: u128, mask: u128)
    requires
        !changed_spec(bits, mask),
    ensures
        !changed_spec(set_step(set_step(bits, mask, false, true), mask, false, true), mask),
{
}

/// Law: an equality-gated setter call with a value that differs from the
/// stored one always sets the field's bit, and so does any setter call on
/// a `no_eq` field (see [`lemma_no_eq_always_marks`]).
pub proof fn lemma_set_new_value_marks(bits: u128, mask: u128)
    requires
        mask != 0,
    ensures
        changed_spec(set_step(bits, mask, false, false), mask),
{
    assert(mask != 0 ==> (bits | mask) & mask != 0) by (bit_vector);
}

/// Law: the setter of a field marked `no_eq` marks the field changed on
/// every call, whether or not the incoming value equals the stored one.
pub proof fn lemma_no_eq_always_marks(bits: u128, mask: u128, equal: bool)
    requires
        mask != 0,
    ensures
        changed_spec(set_step(bits, mask, true, equal), mask),
{
    assert(mask != 0 ==> (bits | mask) & mask != 0) by (bit_vector);
}

/// Law: reset clears all history.  A zero bitmask reports no change under
/// any mask, the whole-structure mask included, and no change at all.
pub proof fn lemma_reset_clears_history(mask: u128)
    ensures
        !changed_spec(0, mask),
{
    assert(0u128 & mask == 0) by (bit_vector);
}

/// Law: mask composition.  A query under the union of two masks reports a
/// change exactly when a query under at least one of the two would.
pub proof fn lemma_mask_composition(bits: u128, a: u128, b: u128)
    ensures
        changed_spec(bits, a | b) == (changed_spec(bits, a) || changed_spec(bits, b)),
{
    assert((bits & (a | b) != 0) == (bits & a != 0 || bits & b != 0)) by (bit_vector);
}

} // verus!

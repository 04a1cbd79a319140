//! The split virtqueues: the shared-memory structures through which the
//! driver and the device exchange buffers.
//!
//! A queue is a descriptor table and a pair of rings of the same
//! capacity, a power of two no larger than 2^16. Each ring carries a
//! free-running 16-bit index that only ever grows, wrapping at 2^16; the
//! slot a ring entry lives in is the index reduced modulo the capacity,
//! and the number of published-but-unconsumed entries between a producer
//! and a consumer is the difference of their indices in the same
//! wrapping arithmetic.

pub mod available_ring;
pub mod descriptor_table;
pub mod used_ring;

use vstd::prelude::*;

use vstd::arithmetic::div_mod::{
    lemma_fundamental_div_mod, lemma_mod_mod, lemma_mod_multiples_basic,
};

pub use available_ring::{Flags as VirtqAvailFlags, VirtqAvail};
pub use descriptor_table::{DescriptorTable, Flags as VirtqDescFlags, VirtqDesc};
pub use used_ring::{Flags as VirtqUsedFlags, VirtqUsed, VirtqUsedElem};

verus! {

/// A free-running 16-bit ring index.
#[derive(Clone, Copy, PartialEq, Eq, Structural, Debug)]
pub struct VirtqIdx(pub u16);

impl VirtqIdx {
    /// A ring index from a counter, keeping its low 16 bits.
    pub fn new(idx: usize) -> (r: VirtqIdx)
        ensures
            r.0 == idx as u16,
    {
        VirtqIdx(#[verifier::truncate] (idx as u16))
    }
}

/// How many published entries the consumer has not yet seen: the
/// producer's index minus the consumer's, in the rings' wrapping 16-bit
/// arithmetic.
pub fn pending_count(producer: VirtqIdx, consumer: VirtqIdx) -> (n: u16)
    ensures
        n == producer.0.wrapping_sub(consumer.0),
        n as int == if producer.0 >= consumer.0 {
            producer.0 - consumer.0
        } else {
            producer.0 - consumer.0 + 0x10000
        },
{
    producer.0.wrapping_sub(consumer.0)
}

/// The pending count is exact, also across a wraparound of the
/// producer's index: when the producer's index is the consumer's plus
/// `published` in wrapping 16-bit arithmetic, the count is exactly
/// `published`.
pub proof fn lemma_pending_count_wraparound(consumer: u16, published: u16)
    ensures
        consumer.wrapping_add(published).wrapping_sub(consumer) == published,
{
}

/// Whether a capacity is a power of two.
pub open spec fn spec_is_power_of_two(n: int) -> bool
    decreases n,
{
    if n <= 0 {
        false
    } else if n == 1 {
        true
    } else {
        n % 2 == 0 && spec_is_power_of_two(n / 2)
    }
}

/// A power of two divides every larger power of two evenly.
pub proof fn lemma_power_of_two_divides_range(capacity: int, range: int)
    requires
        spec_is_power_of_two(capacity),
        spec_is_power_of_two(range),
        capacity <= range,
    ensures
        range % capacity == 0,
    decreases capacity,
{
    if capacity == 1 {
        lemma_mod_multiples_basic(range, 1);
    } else {
        lemma_power_of_two_divides_range(capacity / 2, range / 2);
        let q = (range / 2) / (capacity / 2);
        lemma_fundamental_div_mod(range / 2, capacity / 2);
        lemma_fundamental_div_mod(range, 2);
        lemma_fundamental_div_mod(capacity, 2);
        assert(range == q * capacity) by (nonlinear_arith)
            requires
                range == 2 * (range / 2),
                capacity == 2 * (capacity / 2),
                range / 2 == (capacity / 2) * q,
        ;
        lemma_mod_multiples_basic(q, capacity);
    }
}

/// Reducing a free-running index modulo 2^16 first — as storing it in a
/// 16-bit word does — and modulo the capacity after gives the same slot
/// as reducing the index modulo the capacity directly, because the
/// capacity, a power of two no larger than 2^16, divides the 16-bit
/// index range evenly.
pub proof fn lemma_slot_index_consistent(index: int, capacity: int)
    requires
        spec_is_power_of_two(capacity),
        capacity <= 0x10000,
    ensures
        (index % 0x10000) % capacity == index % capacity,
{
    reveal_with_fuel(spec_is_power_of_two, 18);
    assert(spec_is_power_of_two(0x10000));
    lemma_power_of_two_divides_range(capacity, 0x10000);
    let b = 0x10000int / capacity;
    lemma_fundamental_div_mod(0x10000, capacity);
    assert(b > 0) by (nonlinear_arith)
        requires
            capacity > 0,
            capacity * b == 0x10000,
    ;
    lemma_mod_mod(index, capacity, b);
}

} // verus!

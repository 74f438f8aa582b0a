//! A bounded slot allocator over a fixed backing storage: at most 8 slots,
//! with an 8-bit occupancy bitmap, one bit per slot. Insertion always takes
//! the lowest-index free slot; removal is unconditional and idempotent.

use crate::storage::Storage;
use vstd::prelude::*;

verus! {

/// Whether bit `i` of the occupancy bitmap is set. Meaningful for `i < 8`.
pub open spec fn slot_bit(occ: u8, i: u8) -> bool {
    occ & (1u8 << i) != 0
}

/// Setting bit `i` sets exactly that bit and leaves every other bit alone.
proof fn lemma_set_bit(occ: u8, new_occ: u8, i: u8)
    by (bit_vector)
    requires
        i < 8,
        new_occ == occ | (1u8 << i),
    ensures
        forall|j: u8|
            j < 8 ==> #[trigger] slot_bit(new_occ, j) == (j == i || slot_bit(occ, j)),
{
}

/// Clearing bit `i` clears exactly that bit and leaves every other bit alone.
proof fn lemma_clear_bit(occ: u8, new_occ: u8, i: u8)
    by (bit_vector)
    requires
        i < 8,
        new_occ == occ & !(1u8 << i),
    ensures
        forall|j: u8|
            j < 8 ==> #[trigger] slot_bit(new_occ, j) == (j != i && slot_bit(occ, j)),
{
}

/// A bitmap is zero exactly when each of its eight bits is clear.
proof fn lemma_zero_bits_each(occ: u8)
    by (bit_vector)
    ensures
        (occ == 0) <==> (!slot_bit(occ, 0) && !slot_bit(occ, 1) && !slot_bit(occ, 2) && !slot_bit(
            occ,
            3,
        ) && !slot_bit(occ, 4) && !slot_bit(occ, 5) && !slot_bit(occ, 6) && !slot_bit(occ, 7)),
{
}

/// A bitmap is zero exactly when none of its bits is set.
proof fn lemma_zero_bits(occ: u8)
    ensures
        (occ == 0) <==> (forall|j: u8| j < 8 ==> !(#[trigger] slot_bit(occ, j))),
{
    lemma_zero_bits_each(occ);
    if occ == 0 {
        assert forall|j: u8| j < 8 implies !(#[trigger] slot_bit(occ, j)) by {
            assert(!slot_bit(occ, 0) && !slot_bit(occ, 1) && !slot_bit(occ, 2) && !slot_bit(occ, 3)
                && !slot_bit(occ, 4) && !slot_bit(occ, 5) && !slot_bit(occ, 6) && !slot_bit(
                occ,
                7,
            ));
        }
    } else {
        assert(slot_bit(occ, 0) || slot_bit(occ, 1) || slot_bit(occ, 2) || slot_bit(occ, 3)
            || slot_bit(occ, 4) || slot_bit(occ, 5) || slot_bit(occ, 6) || slot_bit(occ, 7));
    }
}

/// A bitmap whose bits at and above `n` are clear equals the all-ones mask of
/// width `n` exactly when each bit below `n` is set.
proof fn lemma_full_mask_each(occ: u8, mask: u8, n: u8)
    by (bit_vector)
    requires
        1 <= n <= 8,
        n == 8 ==> mask == 255,
        n < 8 ==> mask == (1u8 << n) - 1,
        n <= 0 ==> !slot_bit(occ, 0),
        n <= 1 ==> !slot_bit(occ, 1),
        n <= 2 ==> !slot_bit(occ, 2),
        n <= 3 ==> !slot_bit(occ, 3),
        n <= 4 ==> !slot_bit(occ, 4),
        n <= 5 ==> !slot_bit(occ, 5),
        n <= 6 ==> !slot_bit(occ, 6),
        n <= 7 ==> !slot_bit(occ, 7),
    ensures
        (occ == mask) <==> ((0 < n ==> slot_bit(occ, 0)) && (1 < n ==> slot_bit(occ, 1)) && (2 < n
            ==> slot_bit(occ, 2)) && (3 < n ==> slot_bit(occ, 3)) && (4 < n ==> slot_bit(occ, 4))
            && (5 < n ==> slot_bit(occ, 5)) && (6 < n ==> slot_bit(occ, 6)) && (7 < n ==> slot_bit(
            occ,
            7,
        ))),
{
}

/// A bitmap whose bits at and above `n` are clear equals the all-ones mask of
/// width `n` exactly when all bits below `n` are set.
proof fn lemma_full_mask(occ: u8, mask: u8, n: u8)
    requires
        1 <= n <= 8,
        n == 8 ==> mask == 255,
        n < 8 ==> mask == (1u8 << n) - 1,
        forall|j: u8| n <= j < 8 ==> !(#[trigger] slot_bit(occ, j)),
    ensures
        (occ == mask) <==> (forall|j: u8| j < n ==> #[trigger] slot_bit(occ, j)),
{
    assert(forall|j: u8| n <= j < 8 ==> !(#[trigger] slot_bit(occ, j)));
    assert(n <= 0 ==> !slot_bit(occ, 0));
    assert(n <= 1 ==> !slot_bit(occ, 1));
    assert(n <= 2 ==> !slot_bit(occ, 2));
    assert(n <= 3 ==> !slot_bit(occ, 3));
    assert(n <= 4 ==> !slot_bit(occ, 4));
    assert(n <= 5 ==> !slot_bit(occ, 5));
    assert(n <= 6 ==> !slot_bit(occ, 6));
    assert(n <= 7 ==> !slot_bit(occ, 7));
    lemma_full_mask_each(occ, mask, n);
    if occ == mask {
        assert forall|j: u8| j < n implies #[trigger] slot_bit(occ, j) by {
            assert((0 < n ==> slot_bit(occ, 0)) && (1 < n ==> slot_bit(occ, 1)) && (2 < n
                ==> slot_bit(occ, 2)) && (3 < n ==> slot_bit(occ, 3)) && (4 < n ==> slot_bit(
                occ,
                4,
            )) && (5 < n ==> slot_bit(occ, 5)) && (6 < n ==> slot_bit(occ, 6)) && (7 < n
                ==> slot_bit(occ, 7)));
        }
    }
}

/// How many of the bits below `n` are set in `occ`.
pub open spec fn count_bits(occ: u8, n: nat) -> nat
    decreases n,
{
    if n == 0 {
        0
    } else {
        count_bits(occ, (n - 1) as nat) + if slot_bit(occ, (n - 1) as u8) {
            1nat
        } else {
            0nat
        }
    }
}

/// The occupied values of a bitmap-tracked storage, in ascending slot order,
/// taken over the slots below `n`.
pub open spec fn occupied_values<V>(occ: u8, vals: Seq<V>, n: nat) -> Seq<V>
    decreases n,
{
    if n == 0 {
        Seq::empty()
    } else {
        occupied_values(occ, vals, (n - 1) as nat) + if slot_bit(occ, (n - 1) as u8) {
            seq![vals[n - 1]]
        } else {
            Seq::empty()
        }
    }
}

/// The lowest index in `[i, n)` whose bit is clear in `occ`, if any.
pub open spec fn first_free_from(occ: u8, i: u8, n: u8) -> Option<u8>
    decreases n - i,
{
    if i >= n {
        None
    } else if !slot_bit(occ, i) {
        Some(i)
    } else {
        first_free_from(occ, (i + 1) as u8, n)
    }
}

/// A slot-based container over a fixed backing storage, tracking which of its
/// `MAX_SLOTS` (at most 8) slots hold a live value in an 8-bit bitmap.
#[verifier::reject_recursive_types(V)]
pub struct SlotMap<V, S, const MAX_SLOTS: usize> where V: Copy, S: Storage<Value = V> {
    storage: S,
    occupied: u8,
}

impl<V, S, const MAX_SLOTS: usize> SlotMap<V, S, MAX_SLOTS> where
    V: Copy,
    S: Storage<Value = V>,
 {
    /// The occupancy bitmap.
    pub closed spec fn occupied_mask(&self) -> u8 {
        self.occupied
    }

    /// Whether slot `i` is occupied.
    #[verifier::inline]
    pub open spec fn spec_occupied(&self, i: u8) -> bool {
        slot_bit(self.occupied_mask(), i)
    }

    /// The backing values, occupied or not, in slot order.
    pub closed spec fn values(&self) -> Seq<V> {
        self.storage.contents()
    }

    /// Structural invariant: the backing storage has exactly `MAX_SLOTS`
    /// slots, the capacity is at most 8, and no bit at or above the capacity
    /// is ever set.
    pub open spec fn inv(&self) -> bool {
        &&& 1 <= MAX_SLOTS <= 8
        &&& self.values().len() == MAX_SLOTS
        &&& forall|j: u8|
            MAX_SLOTS <= j < 8 ==> !(#[trigger] slot_bit(self.occupied_mask(), j))
    }

    /// The number of occupied slots.
    pub open spec fn spec_len(&self) -> nat {
        count_bits(self.occupied_mask(), MAX_SLOTS as nat)
    }

    /// Whether every slot is occupied.
    pub open spec fn spec_is_full(&self) -> bool {
        forall|i: u8| i < MAX_SLOTS as u8 ==> #[trigger] slot_bit(self.occupied_mask(), i)
    }

    /// The lowest unoccupied slot index, if any.
    pub open spec fn spec_first_free(&self) -> Option<u8> {
        first_free_from(self.occupied_mask(), 0, MAX_SLOTS as u8)
    }

    /// Create an allocator over the given backing storage, with every slot
    /// unoccupied. The storage must have exactly `MAX_SLOTS` slots, and the
    /// capacity must be at most 8 (one bitmap bit per slot).
    pub fn new(storage: S) -> (r: SlotMap<V, S, MAX_SLOTS>)
        requires
            1 <= MAX_SLOTS <= 8,
            storage.contents().len() == MAX_SLOTS,
        ensures
            r.inv(),
            r.occupied_mask() == 0,
            r.values() == storage.contents(),
            forall|i: u8| i < 8 ==> !(#[trigger] slot_bit(r.occupied_mask(), i)),
    {
        let r = SlotMap { storage, occupied: 0u8 };
        proof {
            lemma_zero_bits(0);
        }
        r
    }

    /// Insert a value into the lowest-index unoccupied slot and return that
    /// slot's index; fails, changing nothing, exactly when the allocator is
    /// full.
    pub fn insert(&mut self, value: V) -> (r: Option<u8>)
        requires
            old(self).inv(),
        ensures
            final(self).inv(),
            r == old(self).spec_first_free(),
            r is Some <==> !old(self).spec_is_full(),
            match r {
                Some(i) => {
                    &&& i < MAX_SLOTS as u8
                    &&& final(self).occupied_mask() == old(self).occupied_mask() | (1u8 << i)
                    &&& !old(self).spec_occupied(i)
                    &&& forall|j: u8| j < i ==> #[trigger] slot_bit(old(self).occupied_mask(), j)
                    &&& final(self).spec_occupied(i)
                    &&& forall|j: u8|
                        j < 8 && j != i ==> #[trigger] slot_bit(final(self).occupied_mask(), j)
                            == slot_bit(old(self).occupied_mask(), j)
                    &&& final(self).values() == old(self).values().update(i as int, value)
                },
                None => *final(self) == *old(self),
            },
    {
        let mut index: u8 = 0;
        loop
            invariant
                self.inv(),
                *self == *old(self),
                index <= MAX_SLOTS as u8,
                forall|j: u8| j < index ==> #[trigger] slot_bit(self.occupied_mask(), j),
                first_free_from(self.occupied_mask(), 0, MAX_SLOTS as u8) == first_free_from(
                    self.occupied_mask(),
                    index,
                    MAX_SLOTS as u8,
                ),
            decreases MAX_SLOTS as u8 - index,
        {
            if index >= MAX_SLOTS as u8 {
                return None;
            }
            let bit = 1u8 << index;
            if self.occupied & bit == 0 {
                let ghost occ0 = self.occupied;
                self.occupied = self.occupied | bit;
                self.storage.set(index, value);
                proof {
                    lemma_set_bit(occ0, self.occupied, index);
                }
                return Some(index);
            }
            index = index + 1;
        }
    }

    /// Clear a slot's occupancy bit, leaving the backing value in place.
    /// Removing an already-empty slot is a no-op.
    pub fn remove(&mut self, index: u8)
        requires
            old(self).inv(),
            index < MAX_SLOTS as u8,
        ensures
            final(self).inv(),
            final(self).occupied_mask() == old(self).occupied_mask() & !(1u8 << index),
            !final(self).spec_occupied(index),
            forall|j: u8|
                j < 8 && j != index ==> #[trigger] slot_bit(final(self).occupied_mask(), j)
                    == slot_bit(old(self).occupied_mask(), j),
            final(self).values() == old(self).values(),
    {
        let ghost occ0 = self.occupied;
        self.occupied = self.occupied & !(1u8 << index);
        proof {
            lemma_clear_bit(occ0, self.occupied, index);
            assert(occ0 == old(self).occupied_mask());
            assert(self.occupied == self.occupied_mask());
            assert forall|j: u8|
                MAX_SLOTS <= j < 8 implies !(#[trigger] slot_bit(self.occupied_mask(), j)) by {
                assert(!slot_bit(old(self).occupied_mask(), j));
                assert(slot_bit(self.occupied_mask(), j) == (j != index && slot_bit(occ0, j)));
            }
        }
    }

    /// Whether no slot is occupied.
    pub fn is_empty(&self) -> (r: bool)
        requires
            self.inv(),
        ensures
            r <==> (forall|i: u8|
                i < MAX_SLOTS as u8 ==> !(#[trigger] slot_bit(self.occupied_mask(), i))),
    {
        proof {
            lemma_zero_bits(self.occupied);
            assert(self.occupied_mask() == self.occupied);
            assert((self.occupied == 0) <==> (forall|j: u8|
                j < 8 ==> !(#[trigger] slot_bit(self.occupied, j))));
            assert((self.occupied == 0) ==> (forall|i: u8|
                i < MAX_SLOTS as u8 ==> !(#[trigger] slot_bit(self.occupied_mask(), i))));
        }
        self.occupied == 0
    }

    /// Whether every slot is occupied.
    pub fn is_full(&self) -> (r: bool)
        requires
            self.inv(),
        ensures
            r == self.spec_is_full(),
    {
        let n: u8 = MAX_SLOTS as u8;
        let mask: u8 = if n == 8 {
            0xff
        } else {
            assert(1 <= (1u8 << n) && (1u8 << n) <= 128) by (bit_vector)
                requires
                    n < 8,
            ;
            (1u8 << n) - 1
        };
        proof {
            assert(self.occupied == self.occupied_mask());
            assert forall|j: u8| n <= j < 8 implies !(#[trigger] slot_bit(self.occupied, j)) by {
                assert(!slot_bit(self.occupied_mask(), j));
            }
            lemma_full_mask(self.occupied, mask, n);
            assert((self.occupied == mask) <==> (forall|i: u8|
                i < MAX_SLOTS as u8 ==> #[trigger] slot_bit(self.occupied_mask(), i)));
        }
        self.occupied == mask
    }

    /// The number of occupied slots.
    pub fn len(&self) -> (n: u8)
        requires
            self.inv(),
        ensures
            n as nat == self.spec_len(),
    {
        let mut n: u8 = 0;
        let mut index: u8 = 0;
        while index < MAX_SLOTS as u8
            invariant
                self.inv(),
                index <= MAX_SLOTS as u8,
                n as nat == count_bits(self.occupied_mask(), index as nat),
                n <= index,
            decreases MAX_SLOTS as u8 - index,
        {
            if self.occupied & (1u8 << index) != 0 {
                n = n + 1;
            }
            index = index + 1;
        }
        n
    }

    /// The values of the occupied slots, in ascending slot order.
    pub fn iter(&self) -> (r: Vec<V>)
        requires
            self.inv(),
        ensures
            r@ == occupied_values(self.occupied_mask(), self.values(), MAX_SLOTS as nat),
    {
        let mut out: Vec<V> = Vec::new();
        let mut index: u8 = 0;
        while index < MAX_SLOTS as u8
            invariant
                self.inv(),
                index <= MAX_SLOTS as u8,
                out@ == occupied_values(self.occupied_mask(), self.values(), index as nat),
            decreases MAX_SLOTS as u8 - index,
        {
            if self.occupied & (1u8 << index) != 0 {
                out.push(*self.storage.get(index));
            }
            index = index + 1;
            assert(out@ =~= occupied_values(self.occupied_mask(), self.values(), index as nat));
        }
        out
    }

    /// Whether a slot is occupied.
    pub fn occupied(&self, index: u8) -> (r: bool)
        requires
            self.inv(),
            index < MAX_SLOTS as u8,
        ensures
            r == slot_bit(self.occupied_mask(), index),
    {
        self.occupied & (1u8 << index) != 0
    }

    /// Read the value in a slot, occupied or not.
    pub fn get(&self, index: u8) -> (v: &V)
        requires
            self.inv(),
            index < MAX_SLOTS as u8,
        ensures
            *v == self.values()[index as int],
    {
        self.storage.get(index)
    }

    /// Replace the value in a slot without touching its occupancy.
    pub fn set(&mut self, index: u8, value: V)
        requires
            old(self).inv(),
            index < MAX_SLOTS as u8,
        ensures
            final(self).inv(),
            final(self).occupied_mask() == old(self).occupied_mask(),
            final(self).values() == old(self).values().update(index as int, value),
    {
        self.storage.set(index, value);
        proof {
            assert(self.occupied_mask() == old(self).occupied_mask());
            assert forall|j: u8|
                MAX_SLOTS <= j < 8 implies !(#[trigger] slot_bit(self.occupied_mask(), j)) by {
                assert(!slot_bit(old(self).occupied_mask(), j));
            }
        }
    }

    /// How `retain` relates the allocator after the call to before it: the
    /// backing values stay in place, no slot becomes newly occupied, and each
    /// slot occupied before is kept or cleared according to what the
    /// predicate returned for its value.
    pub open spec fn retain_rel<F: Fn(&V) -> bool>(pre: Self, post: Self, f: F) -> bool {
        &&& post.values() == pre.values()
        &&& forall|i: u8|
            i < 8 && #[trigger] slot_bit(post.occupied_mask(), i) ==> slot_bit(
                pre.occupied_mask(),
                i,
            )
        &&& forall|i: u8|
            i < MAX_SLOTS as u8 && pre.spec_occupied(i) ==> {
                &&& (#[trigger] slot_bit(post.occupied_mask(), i) ==> f.ensures(
                    (&pre.values()[i as int],),
                    true,
                ))
                &&& (!slot_bit(post.occupied_mask(), i) ==> f.ensures(
                    (&pre.values()[i as int],),
                    false,
                ))
            }
    }

    /// Visit every slot occupied at the call, in ascending index order, and
    /// clear the occupancy of each slot whose value the predicate rejects.
    /// Values themselves are left in place.
    pub fn retain<F: Fn(&V) -> bool>(&mut self, f: F)
        requires
            old(self).inv(),
            forall|v: V| #[trigger] f.requires((&v,)),
        ensures
            final(self).inv(),
            Self::retain_rel(*old(self), *final(self), f),
    {
        let mut index: u8 = 0;
        while index < MAX_SLOTS as u8
            invariant
                self.inv(),
                index <= MAX_SLOTS as u8,
                self.values() == old(self).values(),
                forall|v: V| #[trigger] f.requires((&v,)),
                forall|i: u8|
                    i < 8 && #[trigger] slot_bit(self.occupied_mask(), i) ==> slot_bit(
                        old(self).occupied_mask(),
                        i,
                    ),
                forall|i: u8|
                    index <= i < 8 ==> #[trigger] slot_bit(self.occupied_mask(), i) == slot_bit(
                        old(self).occupied_mask(),
                        i,
                    ),
                forall|i: u8|
                    i < index && old(self).spec_occupied(i) ==> {
                        &&& (#[trigger] slot_bit(self.occupied_mask(), i) ==> f.ensures(
                            (&old(self).values()[i as int],),
                            true,
                        ))
                        &&& (!slot_bit(self.occupied_mask(), i) ==> f.ensures(
                            (&old(self).values()[i as int],),
                            false,
                        ))
                    },
            decreases MAX_SLOTS as u8 - index,
        {
            let ghost prev = self.occupied_mask();
            let live = self.occupied & (1u8 << index) != 0;
            let keep = if live {
                f(self.storage.get(index))
            } else {
                true
            };
            if live && !keep {
                self.occupied = self.occupied & !(1u8 << index);
                proof {
                    lemma_clear_bit(prev, self.occupied_mask(), index);
                }
            }
            proof {
                assert(live == slot_bit(prev, index));
                assert(live ==> f.ensures((&old(self).values()[index as int],), keep));
                if !(live && !keep) {
                    assert(self.occupied_mask() == prev);
                }
                assert forall|i: u8|
                    i < 8 && #[trigger] slot_bit(self.occupied_mask(), i) implies slot_bit(
                    old(self).occupied_mask(),
                    i,
                ) by {
                    if live && !keep {
                        assert(slot_bit(self.occupied_mask(), i) == (i != index && slot_bit(
                            prev,
                            i,
                        )));
                    }
                    assert(slot_bit(prev, i) ==> slot_bit(old(self).occupied_mask(), i));
                }
                assert forall|i: u8|
                    index < i < 8 implies #[trigger] slot_bit(self.occupied_mask(), i) == slot_bit(
                    old(self).occupied_mask(),
                    i,
                ) by {
                    if live && !keep {
                        assert(slot_bit(self.occupied_mask(), i) == (i != index && slot_bit(
                            prev,
                            i,
                        )));
                    }
                    assert(slot_bit(prev, i) == slot_bit(old(self).occupied_mask(), i));
                }
                assert forall|i: u8|
                    i <= index && old(self).spec_occupied(i) implies {
                        &&& (#[trigger] slot_bit(self.occupied_mask(), i) ==> f.ensures(
                            (&old(self).values()[i as int],),
                            true,
                        ))
                        &&& (!slot_bit(self.occupied_mask(), i) ==> f.ensures(
                            (&old(self).values()[i as int],),
                            false,
                        ))
                    } by {
                    if live && !keep {
                        assert(slot_bit(self.occupied_mask(), i) == (i != index && slot_bit(
                            prev,
                            i,
                        )));
                    }
                    if i < index {
                        assert((slot_bit(prev, i) ==> f.ensures(
                            (&old(self).values()[i as int],),
                            true,
                        )) && (!slot_bit(prev, i) ==> f.ensures(
                            (&old(self).values()[i as int],),
                            false,
                        )));
                    } else {
                        assert(slot_bit(prev, index) == slot_bit(old(self).occupied_mask(), index));
                    }
                }
            }
            index = index + 1;
        }
    }
}


/// A bitmap whose bits at `i` and above (below `n`) are all set offers no
/// free slot from `i` on.
proof fn lemma_first_free_none(occ: u8, i: u8, n: u8)
    requires
        i <= n,
        forall|j: u8| i <= j < n ==> #[trigger] slot_bit(occ, j),
    ensures
        first_free_from(occ, i, n) is None,
    decreases n - i,
{
    if i < n {
        lemma_first_free_none(occ, (i + 1) as u8, n);
    }
}

/// When every bit in `[i, j)` is set and bit `j` is clear, the first free
/// slot from `i` is exactly `j`.
proof fn lemma_first_free_at(occ: u8, i: u8, j: u8, n: u8)
    requires
        i <= j < n,
        forall|k: u8| i <= k < j ==> #[trigger] slot_bit(occ, k),
        !slot_bit(occ, j),
    ensures
        first_free_from(occ, i, n) == Some(j),
    decreases j - i,
{
    if i < j {
        lemma_first_free_at(occ, (i + 1) as u8, j, n);
    }
}

/// Two bitmaps agreeing on each of the eight bits are equal.
proof fn lemma_mask_pointwise_eq_each(a: u8, b: u8)
    by (bit_vector)
    requires
        slot_bit(a, 0) == slot_bit(b, 0),
        slot_bit(a, 1) == slot_bit(b, 1),
        slot_bit(a, 2) == slot_bit(b, 2),
        slot_bit(a, 3) == slot_bit(b, 3),
        slot_bit(a, 4) == slot_bit(b, 4),
        slot_bit(a, 5) == slot_bit(b, 5),
        slot_bit(a, 6) == slot_bit(b, 6),
        slot_bit(a, 7) == slot_bit(b, 7),
    ensures
        a == b,
{
}

/// Two bitmaps agreeing on every bit are equal.
proof fn lemma_mask_pointwise_eq(a: u8, b: u8)
    requires
        forall|j: u8| j < 8 ==> #[trigger] slot_bit(a, j) == slot_bit(b, j),
    ensures
        a == b,
{
    assert(slot_bit(a, 0) == slot_bit(b, 0) && slot_bit(a, 1) == slot_bit(b, 1) && slot_bit(a, 2)
        == slot_bit(b, 2) && slot_bit(a, 3) == slot_bit(b, 3) && slot_bit(a, 4) == slot_bit(b, 4)
        && slot_bit(a, 5) == slot_bit(b, 5) && slot_bit(a, 6) == slot_bit(b, 6) && slot_bit(a, 7)
        == slot_bit(b, 7));
    lemma_mask_pointwise_eq_each(a, b);
}

impl<V, S, const MAX_SLOTS: usize> SlotMap<V, S, MAX_SLOTS> where
    V: Copy,
    S: Storage<Value = V>,
 {
    /// Law: a full allocator has no free slot, so `insert` fails and — by
    /// its contract — leaves occupancy and values unchanged.
    pub proof fn lemma_full_insert_fails(self)
        requires
            self.inv(),
            self.spec_is_full(),
        ensures
            self.spec_first_free() is None,
    {
        lemma_first_free_none(self.occupied_mask(), 0, MAX_SLOTS as u8);
    }

    /// Law: in a full allocator, freeing slot `j` sends the next insertion —
    /// always lowest-first — back to exactly slot `j`.
    pub proof fn lemma_freed_slot_reused(self, j: u8, post: Self)
        requires
            self.inv(),
            post.inv(),
            self.spec_is_full(),
            j < MAX_SLOTS as u8,
            post.occupied_mask() == self.occupied_mask() & !(1u8 << j),
        ensures
            post.spec_first_free() == Some(j),
    {
        lemma_clear_bit(self.occupied_mask(), post.occupied_mask(), j);
        lemma_first_free_at(post.occupied_mask(), 0, j, MAX_SLOTS as u8);
    }

    /// Law: retaining with a predicate that can only answer `true` is a
    /// no-op, and retaining with one that can only answer `false` empties
    /// the allocator; either way the backing values stay in place.
    pub proof fn lemma_retain_extremes<F: Fn(&V) -> bool>(pre: Self, post: Self, f: F)
        requires
            pre.inv(),
            post.inv(),
            Self::retain_rel(pre, post, f),
        ensures
            (forall|v: V, b: bool| #[trigger] f.ensures((&v,), b) ==> b) ==> post.occupied_mask()
                == pre.occupied_mask(),
            (forall|v: V, b: bool| #[trigger] f.ensures((&v,), b) ==> !b) ==> (forall|i: u8|
                i < 8 ==> !(#[trigger] slot_bit(post.occupied_mask(), i))),
            post.values() == pre.values(),
    {
        if forall|v: V, b: bool| #[trigger] f.ensures((&v,), b) ==> b {
            assert forall|i: u8| i < 8 implies #[trigger] slot_bit(post.occupied_mask(), i)
                == slot_bit(pre.occupied_mask(), i) by {
                if i < MAX_SLOTS as u8 {
                    if slot_bit(pre.occupied_mask(), i) && !slot_bit(post.occupied_mask(), i) {
                        assert(f.ensures((&pre.values()[i as int],), false));
                    }
                } else {
                    assert(!slot_bit(pre.occupied_mask(), i));
                    assert(!slot_bit(post.occupied_mask(), i));
                }
            }
            lemma_mask_pointwise_eq(post.occupied_mask(), pre.occupied_mask());
        }
        if forall|v: V, b: bool| #[trigger] f.ensures((&v,), b) ==> !b {
            assert forall|i: u8| i < 8 implies !(#[trigger] slot_bit(post.occupied_mask(), i)) by {
                if slot_bit(post.occupied_mask(), i) {
                    assert(slot_bit(pre.occupied_mask(), i));
                    if i < MAX_SLOTS as u8 {
                        assert(f.ensures((&pre.values()[i as int],), true));
                    } else {
                        assert(!slot_bit(pre.occupied_mask(), i));
                    }
                }
            }
        }
    }
}

} // verus!

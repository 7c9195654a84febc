//! Sets of interrupt conditions and iteration over them.

use vstd::prelude::*;
use vstd::string::StringExecFns;
use crate::interrupt::{Interrupt, interrupt_with_number};
use crate::interrupt::{lemma_number_below_30, lemma_number_inverse};

verus! {

/// The mask of the thirty valid bit positions; bits 30 and 31 of the
/// interrupt registers are reserved.
pub const VALID_BITS: u32 = 0x3fff_ffff;

/// Whether bit `n` of `v` is set.
pub open spec fn nth_bit(v: u32, n: u32) -> bool {
    v & (1u32 << n) != 0
}

/// A set of CAN interrupts, one bit per condition in a 32-bit word.
///
/// The value is interpreted bit by bit: bit `n` set means the condition at
/// position `n` is a member. Bits 30 and 31 are reserved; a set may carry
/// them (for instance after reading a malformed register value), but
/// iteration never surfaces them as members.
#[derive(Debug, Copy, Clone, PartialEq, Eq, Structural)]
pub struct InterruptSet(pub u32);

/// The members of the bitmask `v` at positions `i` and above, in ascending
/// bit-position order. Reserved positions 30 and 31 are never included.
pub open spec fn flags_from(v: u32, i: int) -> Seq<Interrupt>
    decreases 30 - i,
{
    if i < 0 || i >= 30 {
        Seq::empty()
    } else if nth_bit(v, i as u32) {
        seq![interrupt_with_number(i as u32)] + flags_from(v, i + 1)
    } else {
        flags_from(v, i + 1)
    }
}

/// The union of the single-bit masks of the listed conditions.
pub open spec fn union_of(s: Seq<Interrupt>) -> u32
    decreases s.len(),
{
    if s.len() == 0 {
        0u32
    } else {
        s[0].spec_mask() | union_of(s.drop_first())
    }
}

impl InterruptSet {
    /// An iterator over the members, in ascending bit-position order.
    pub fn iter(&self) -> (r: Iter)
        ensures
            r.spec_flags() == self.0,
            r.remaining() == flags_from(self.0, 0),
    {
        Iter { flags: *self, index: 0 }
    }

    /// Whether no condition is a member.
    pub fn is_empty(&self) -> (r: bool)
        ensures
            r == (self.0 == 0),
    {
        self.0 == 0
    }

    /// Unions the single-bit sets of every condition the iterator yields,
    /// in whatever order it yields them.
    pub fn from_iter(it: Iter) -> (r: InterruptSet)
        ensures
            r.0 == union_of(it.remaining()),
    {
        let ghost all = it.remaining();
        let mut cur = it;
        let mut set: u32 = 0;
        proof {
            let u = union_of(all);
            assert(0u32 | u == u) by (bit_vector);
        }
        loop
            invariant
                union_of(all) == set | union_of(cur.remaining()),
            ensures
                union_of(all) == set,
            decreases cur.remaining().len(),
        {
            match cur.next() {
                Some(i) => {
                    let ghost rest = cur.remaining();
                    let m = i.mask();
                    proof {
                        let ghost u = union_of(rest);
                        assert(set | (m | u) == (set | m) | u) by (bit_vector);
                    }
                    set = set | m;
                }
                None => {
                    proof {
                        assert(set | 0u32 == set) by (bit_vector);
                    }
                    break;
                }
            }
        }
        InterruptSet(set)
    }

    /// The single-member set holding `value` alone.
    pub fn from_interrupt(value: Interrupt) -> (r: InterruptSet)
        ensures
            r.0 == value.spec_mask(),
    {
        InterruptSet(value.mask())
    }

    /// Unions the single-bit sets of every listed condition; the order of
    /// the listing does not matter (see
    /// [`lemma_union_order_independent`]).
    pub fn from_interrupts(list: &[Interrupt]) -> (r: InterruptSet)
        ensures
            r.0 == union_of(list@),
    {
        let mut set: u32 = 0;
        let mut i: usize = 0;
        proof {
            assert(list@.skip(0) =~= list@);
            let u = union_of(list@);
            assert(0u32 | u == u) by (bit_vector);
        }
        while i < list.len()
            invariant
                i <= list@.len(),
                union_of(list@) == set | union_of(list@.skip(i as int)),
            decreases list@.len() - i,
        {
            let m = list[i].mask();
            proof {
                let tail = list@.skip(i as int);
                assert(tail[0] == list@[i as int]);
                assert(tail.drop_first() =~= list@.skip(i as int + 1));
                let u = union_of(list@.skip(i as int + 1));
                assert(set | (m | u) == (set | m) | u) by (bit_vector);
            }
            set = set | m;
            i = i + 1;
        }
        proof {
            assert(set | 0u32 == set) by (bit_vector);
        }
        InterruptSet(set)
    }

    /// Whether `member` is in the set.
    pub fn contains(&self, member: Interrupt) -> (r: bool)
        ensures
            r == nth_bit(self.0, member.spec_number()),
    {
        self.0 & member.mask() != 0
    }

    /// The union of `self` and `other`.
    pub fn union(&self, other: &InterruptSet) -> (r: InterruptSet)
        ensures
            r.0 == self.0 | other.0,
    {
        InterruptSet(self.0 | other.0)
    }

    /// A human-readable listing of the members: the canonical code of every
    /// present condition, each followed by one space, highest bit position
    /// first, between `InterruptSet {` and `}`. Reserved bits are omitted.
    pub fn describe(&self) -> (r: String)
        ensures
            r@ == spec_describe(self.0),
    {
        let v = self.0;
        let mut out = String::new();
        out.append("InterruptSet { ");
        proof {
            assert(out@ =~= "InterruptSet { "@ + labels_above(v, 30));
        }
        let mut pos: u8 = 30;
        while pos > 0
            invariant
                pos <= 30,
                out@ == "InterruptSet { "@ + labels_above(v, pos as int),
            decreases pos,
        {
            pos = pos - 1;
            if v & (1u32 << (pos as u32)) != 0 {
                match Interrupt::try_from(pos) {
                    Ok(member) => {
                        out.append(member.mnemonic());
                        out.append(" ");
                        proof {
                            assert(out@ =~= "InterruptSet { "@
                                + labels_above(v, pos as int));
                        }
                    }
                    Err(_) => {
                        // Unreachable: positions below 30 always convert.
                        proof {
                            assert(false);
                        }
                    }
                }
            } else {
                proof {
                    assert(out@ =~= "InterruptSet { "@ + labels_above(v, pos as int));
                }
            }
        }
        out.append("}");
        proof {
            assert(out@ =~= spec_describe(v));
        }
        out
    }
}

/// The code of the member at position `n` of `v` followed by one space, or
/// nothing when the bit is clear.
pub open spec fn label_at(v: u32, n: int) -> Seq<char> {
    if nth_bit(v, n as u32) {
        interrupt_with_number(n as u32).spec_mnemonic() + " "@
    } else {
        Seq::empty()
    }
}

/// The codes of the members of `v` at valid positions `lo` and above,
/// highest first, each followed by one space.
pub open spec fn labels_above(v: u32, lo: int) -> Seq<char>
    decreases 30 - lo,
{
    if lo < 0 || lo >= 30 {
        Seq::empty()
    } else {
        labels_above(v, lo + 1) + label_at(v, lo)
    }
}

/// The full human-readable form of the bitmask `v`.
pub open spec fn spec_describe(v: u32) -> Seq<char> {
    "InterruptSet { "@ + labels_above(v, 0) + "}"@
}

/// The members listed from position `j` on are exactly the set bits of `v`
/// at valid positions `j` and above, in strictly ascending position order.
proof fn lemma_flags_from_props(v: u32, j: int)
    requires
        0 <= j <= 30,
    ensures
        forall|k: int| 0 <= k < flags_from(v, j).len()
            ==> j <= (#[trigger] flags_from(v, j)[k]).spec_number() < 30
                && nth_bit(v, flags_from(v, j)[k].spec_number()),
        forall|k: int, l: int| 0 <= k < l < flags_from(v, j).len()
            ==> (#[trigger] flags_from(v, j)[k]).spec_number()
                < (#[trigger] flags_from(v, j)[l]).spec_number(),
        forall|i: Interrupt| #[trigger] flags_from(v, j).contains(i)
            <==> j <= i.spec_number() < 30 && nth_bit(v, i.spec_number()),
    decreases 30 - j,
{
    if j < 30 {
        lemma_flags_from_props(v, j + 1);
        let s = flags_from(v, j);
        let rest = flags_from(v, j + 1);
        if nth_bit(v, j as u32) {
            let first = interrupt_with_number(j as u32);
            assert(s == seq![first] + rest);
            assert forall|i: Interrupt| s.contains(i)
                implies j <= i.spec_number() < 30 && nth_bit(v, i.spec_number()) by {
                let k = choose|k: int| 0 <= k < s.len() && s[k] == i;
                if k > 0 {
                    assert(rest[k - 1] == i);
                    assert(rest.contains(i));
                }
            }
            assert forall|i: Interrupt| j <= i.spec_number() < 30 && nth_bit(v, i.spec_number())
                implies s.contains(i) by {
                if i.spec_number() == j {
                    lemma_number_inverse(i);
                    assert(s[0] == i);
                } else {
                    assert(rest.contains(i));
                    let k = choose|k: int| 0 <= k < rest.len() && rest[k] == i;
                    assert(s[k + 1] == i);
                }
            }
        } else {
            assert forall|i: Interrupt| j <= i.spec_number() < 30 && nth_bit(v, i.spec_number())
                implies s.contains(i) by {
                if i.spec_number() == j {
                    lemma_number_inverse(i);
                    assert(nth_bit(v, j as u32));
                }
            }
        }
    }
}

/// Iterating the set built from `v` yields exactly the set bits of
/// `v & VALID_BITS`, in ascending bit-position order — so each member comes
/// exactly once, and the reserved positions 30 and 31 never surface.
pub proof fn lemma_iteration_yields_masked_bits(v: u32)
    ensures
        forall|k: int, l: int| 0 <= k < l < flags_from(v, 0).len()
            ==> (#[trigger] flags_from(v, 0)[k]).spec_number()
                < (#[trigger] flags_from(v, 0)[l]).spec_number(),
        forall|i: Interrupt| #[trigger] flags_from(v, 0).contains(i)
            <==> nth_bit(v & 0x3fff_ffff, i.spec_number()),
{
    lemma_flags_from_props(v, 0);
    assert forall|i: Interrupt| #[trigger] flags_from(v, 0).contains(i)
        <==> nth_bit(v & 0x3fff_ffff, i.spec_number()) by {
        let n = i.spec_number();
        lemma_number_below_30(i);
        assert((v & 0x3fff_ffffu32) & (1u32 << n) == v & (1u32 << n)) by (bit_vector)
            requires
                n < 30,
        ;
    }
}

/// The mask of the valid bit positions `j` and above.
spec fn high_mask(j: u32) -> u32 {
    (0xffff_ffffu32 << j) & 0x3fff_ffffu32
}

/// The union of the members from position `j` on is `v` masked to the valid
/// positions `j` and above.
proof fn lemma_union_from(v: u32, j: int)
    requires
        0 <= j <= 30,
    ensures
        union_of(flags_from(v, j)) == v & high_mask(j as u32),
    decreases 30 - j,
{
    if j == 30 {
        assert(v & high_mask(30) == 0) by (bit_vector);
    } else {
        lemma_union_from(v, j + 1);
        let rest = flags_from(v, j + 1);
        let jj = j as u32;
        if nth_bit(v, jj) {
            let first = interrupt_with_number(jj);
            let s = flags_from(v, j);
            assert(s == seq![first] + rest);
            assert(s.drop_first() =~= rest);
            assert(s[0] == first);
            assert((1u32 << jj) | (v & high_mask((jj + 1) as u32)) == v & high_mask(jj))
                by (bit_vector)
                requires
                    jj < 30,
                    v & (1u32 << jj) != 0,
            ;
        } else {
            assert(v & high_mask((jj + 1) as u32) == v & high_mask(jj)) by (bit_vector)
                requires
                    jj < 30,
                    v & (1u32 << jj) == 0,
            ;
        }
    }
}

/// Round trip: rebuilding a set from its own iteration reproduces the value
/// with the reserved bits stripped.
pub proof fn lemma_round_trip(v: u32)
    ensures
        union_of(flags_from(v, 0)) == v & 0x3fff_ffff,
{
    lemma_union_from(v, 0);
    assert(high_mask(0) == 0x3fff_ffffu32) by (bit_vector);
}

/// The union over a concatenation is the union of the unions.
pub proof fn lemma_union_concat(a: Seq<Interrupt>, b: Seq<Interrupt>)
    ensures
        union_of(a + b) == union_of(a) | union_of(b),
    decreases a.len(),
{
    let u = union_of(b);
    if a.len() == 0 {
        assert(a + b =~= b);
        assert(0u32 | u == u) by (bit_vector);
    } else {
        lemma_union_concat(a.drop_first(), b);
        assert((a + b).drop_first() =~= a.drop_first() + b);
        let m = a[0].spec_mask();
        let t = union_of(a.drop_first());
        assert(m | (t | u) == (m | t) | u) by (bit_vector);
    }
}

/// Building a set from many conditions is order-independent: listing the
/// two parts in either order unions to the same value.
pub proof fn lemma_union_order_independent(a: Seq<Interrupt>, b: Seq<Interrupt>)
    ensures
        union_of(a + b) == union_of(b + a),
{
    lemma_union_concat(a, b);
    lemma_union_concat(b, a);
    let x = union_of(a);
    let y = union_of(b);
    assert(x | y == y | x) by (bit_vector);
}

/// An iterator over the members of an [`InterruptSet`].
///
/// It visits every member exactly once, in ascending bit-position order,
/// and skips the reserved positions 30 and 31 even when the underlying
/// bitmask carries them.
pub struct Iter {
    flags: InterruptSet,
    index: u8,
}

impl Iter {
    /// The bitmask being iterated.
    pub closed spec fn spec_flags(&self) -> u32 {
        self.flags.0
    }

    /// The next bit position to inspect.
    pub closed spec fn cursor(&self) -> int {
        self.index as int
    }

    /// The members not yet yielded, in the order they will come.
    pub open spec fn remaining(&self) -> Seq<Interrupt> {
        flags_from(self.spec_flags(), self.cursor())
    }

    /// Yields the next member: the first remaining one, or `None` once all
    /// members have been visited.
    pub fn next(&mut self) -> (r: Option<Interrupt>)
        ensures
            match r {
                Some(i) => {
                    &&& old(self).remaining().len() > 0
                    &&& i == old(self).remaining()[0]
                    &&& final(self).remaining() == old(self).remaining().drop_first()
                },
                None => {
                    &&& old(self).remaining().len() == 0
                    &&& final(self).remaining().len() == 0
                },
            },
    {
        let v = self.flags.0;
        let mut i = self.index;
        if i >= 30 {
            self.index = 30;
            return None;
        }
        let mut found: Option<Interrupt> = None;
        while i < 30
            invariant_except_break
                i <= 30,
                v == old(self).spec_flags(),
                *self == *old(self),
                found is None,
                flags_from(v, i as int) == old(self).remaining(),
            ensures
                i <= 30,
                v == old(self).spec_flags(),
                *self == *old(self),
                match found {
                    Some(member) => {
                        &&& old(self).remaining().len() > 0
                        &&& member == old(self).remaining()[0]
                        &&& flags_from(v, i as int) == old(self).remaining().drop_first()
                    },
                    None => {
                        &&& old(self).remaining().len() == 0
                        &&& flags_from(v, i as int).len() == 0
                    },
                },
            decreases 30 - i,
        {
            let n = i;
            i = i + 1;
            if v & (1u32 << (n as u32)) != 0 {
                match Interrupt::try_from(n) {
                    Ok(member) => {
                        proof {
                            let s = flags_from(v, n as int);
                            assert(s == seq![member] + flags_from(v, n as int + 1));
                            assert(s.drop_first() =~= flags_from(v, n as int + 1));
                        }
                        found = Some(member);
                    }
                    Err(_) => {
                        // Unreachable: positions below 30 always convert.
                        proof {
                            assert(false);
                        }
                    }
                }
                break;
            }
        }
        self.index = i;
        found
    }
}

} // verus!

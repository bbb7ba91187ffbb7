//! The per-player spawn histogram: one 8-bit counter per class variant.
//!
//! The backing storage is sized exactly to the variant count, so indexing by
//! any defined class variant is total. Externally the histogram behaves like
//! a sparse map: only classes with a non-zero count are visible through
//! [`ClassList::iter`] and [`ClassList::sorted`].

use vstd::prelude::*;

use crate::data::{class_from_u8, class_ord, Class};

verus! {

/// A fixed-size spawn histogram with exactly one counter per class variant,
/// indexed by the class's ordinal.
#[derive(Debug, Clone)]
pub struct ClassList(pub [u8; 10]);

impl View for ClassList {
    type V = Seq<u8>;

    open spec fn view(&self) -> Seq<u8> {
        self.0@
    }
}

/// The visible (class, count) pairs of the first `n` histogram slots: the
/// slots with a non-zero count, in ascending ordinal order.
pub open spec fn nonzero_pairs_upto(counts: Seq<u8>, n: int) -> Seq<(Class, u8)>
    decreases n,
{
    if n <= 0 {
        Seq::empty()
    } else if counts[n - 1] > 0 {
        nonzero_pairs_upto(counts, n - 1).push((class_from_u8((n - 1) as u8), counts[n - 1]))
    } else {
        nonzero_pairs_upto(counts, n - 1)
    }
}

/// The visible (class, count) pairs of a histogram: the slots with a
/// non-zero count, in ascending ordinal order.
pub open spec fn nonzero_pairs(counts: Seq<u8>) -> Seq<(Class, u8)> {
    nonzero_pairs_upto(counts, counts.len() as int)
}

/// The order of the sorted view: by count descending, ties by ordinal
/// ascending. Reflexive on equal keys, total, and transitive.
pub open spec fn pair_le(a: (Class, u8), b: (Class, u8)) -> bool {
    a.1 > b.1 || (a.1 == b.1 && class_ord(a.0) <= class_ord(b.0))
}

impl ClassList {
    /// The counter for a class; total for every defined class variant.
    pub fn get(&self, class: Class) -> (r: u8)
        ensures
            r == self@[class_ord(class)],
    {
        self.0[class.as_index()]
    }

    /// Adds one spawn to a class's counter. The counter wraps at the 8-bit
    /// limit; total for every defined class variant.
    pub fn increment(&mut self, class: Class)
        ensures
            final(self)@ == old(self)@.update(
                class_ord(class),
                ((old(self)@[class_ord(class)] + 1) % 256) as u8,
            ),
    {
        let i = class.as_index();
        let c = self.0[i];
        let nc: u8 = if c == 255 {
            0
        } else {
            c + 1
        };
        self.0.set(i, nc);
    }

    /// All classes played and the number of spawns on each, in ascending
    /// ordinal order; classes with a zero count are not visible.
    pub fn iter(&self) -> (r: Vec<(Class, u8)>)
        ensures
            r@ == nonzero_pairs(self@),
    {
        let mut out: Vec<(Class, u8)> = Vec::new();
        let mut i: usize = 0;
        while i < 10
            invariant
                i <= 10,
                self@.len() == 10,
                out@ == nonzero_pairs_upto(self@, i as int),
            decreases 10 - i,
        {
            let count = self.0[i];
            if count > 0 {
                out.push((Class::new(i as u32), count));
                proof {
                    assert((i as u32 & 0xff) as u8 == i as u8) by (bit_vector)
                        requires
                            i < 10,
                    ;
                }
            }
            i = i + 1;
        }
        out
    }

    /// All classes played and the number of spawns on each, sorted by count
    /// descending; among equal counts the ascending-ordinal order of the
    /// unsorted view is kept (a stable sort by count descending).
    pub fn sorted(&self) -> (r: Vec<(Class, u8)>)
        ensures
            r@.to_multiset() == nonzero_pairs(self@).to_multiset(),
            forall|i: int, j: int| 0 <= i < j < r@.len() ==> pair_le(r@[i], r@[j]),
            forall|i: int, j: int| 0 <= i < j < r@.len() ==> r@[i].1 >= r@[j].1,
    {
        let pairs = self.iter();
        let mut out: Vec<(Class, u8)> = Vec::new();
        let mut i: usize = 0;
        proof {
            broadcast use vstd::seq_lib::group_to_multiset_ensures;

            assert(pairs@.subrange(0, 0) =~= Seq::<(Class, u8)>::empty());
        }
        while i < pairs.len()
            invariant
                i <= pairs@.len(),
                out@.to_multiset() == pairs@.subrange(0, i as int).to_multiset(),
                forall|k: int, l: int| 0 <= k < l < out@.len() ==> pair_le(out@[k], out@[l]),
            decreases pairs@.len() - i,
        {
            let p = pairs[i];
            let n = out.len();
            let mut pos: usize = 0;
            let mut scanning = pos < n && !before(p, out[pos]);
            while scanning
                invariant
                    n == out@.len(),
                    pos <= n,
                    scanning == (pos < n && !(p.1 > out@[pos as int].1 || (p.1
                        == out@[pos as int].1 && class_ord(p.0) < class_ord(
                        out@[pos as int].0,
                    )))),
                    forall|k: int| 0 <= k < pos ==> pair_le(out@[k], p),
                decreases out@.len() - pos,
            {
                pos = pos + 1;
                scanning = pos < n && !before(p, out[pos]);
            }
            let ghost prev = out@;
            out.insert(pos, p);
            proof {
                broadcast use vstd::seq_lib::group_to_multiset_ensures;

                assert(pairs@.subrange(0, i as int + 1) =~= pairs@.subrange(
                    0,
                    i as int,
                ).push(pairs@[i as int]));
                assert(out@ == prev.insert(pos as int, p));
                assert(pos < prev.len() ==> pair_le(p, prev[pos as int]));
                assert(forall|k: int| 0 <= k < pos ==> out@[k] == prev[k]);
                assert(out@[pos as int] == p);
                assert(forall|l: int| pos < l < out@.len() ==> out@[l] == prev[l - 1]);
                assert forall|k: int, l: int| 0 <= k < l < out@.len() implies pair_le(
                    out@[k],
                    out@[l],
                ) by {
                    if k < pos && l == pos {
                        assert(pair_le(prev[k], p));
                    } else if k == pos && l > pos {
                        assert(pair_le(p, prev[pos as int]));
                        assert(pos < l - 1 ==> pair_le(prev[pos as int], prev[l - 1]));
                    } else if k < pos && l > pos {
                        assert(pair_le(prev[k], prev[l - 1]));
                    } else if k > pos {
                        assert(pair_le(prev[k - 1], prev[l - 1]));
                    }
                }
            }
            i = i + 1;
        }
        proof {
            assert(pairs@.subrange(0, pairs@.len() as int) =~= pairs@);
            assert forall|x: int, y: int| 0 <= x < y < out@.len() implies out@[x].1
                >= out@[y].1 by {
                assert(pair_le(out@[x], out@[y]));
            }
        }
        out
    }
}

impl Default for ClassList {
    fn default() -> (r: Self)
        ensures
            r@ =~= Seq::new(10, |i: int| 0u8),
    {
        ClassList([0, 0, 0, 0, 0, 0, 0, 0, 0, 0])
    }
}

impl PartialEq for ClassList {
    /// Histograms are equal exactly when every counter matches.
    fn eq(&self, other: &ClassList) -> (r: bool) {
        let mut i: usize = 0;
        let mut same = true;
        while i < 10
            invariant
                i <= 10,
                self@.len() == 10,
                other@.len() == 10,
                same == (forall|k: int| 0 <= k < i ==> self@[k] == other@[k]),
            decreases 10 - i,
        {
            if self.0[i] != other.0[i] {
                same = false;
            }
            i = i + 1;
        }
        proof {
            if same {
                assert(self@ =~= other@);
            }
        }
        same
    }
}

impl vstd::std_specs::cmp::PartialEqSpecImpl for ClassList {
    open spec fn obeys_eq_spec() -> bool {
        true
    }

    open spec fn eq_spec(&self, other: &ClassList) -> bool {
        self@ == other@
    }
}

impl Eq for ClassList {

}

/// Strictly before in the sorted-view order: larger count, or equal count
/// and smaller ordinal.
fn before(a: (Class, u8), b: (Class, u8)) -> (r: bool)
    ensures
        r == (a.1 > b.1 || (a.1 == b.1 && class_ord(a.0) < class_ord(b.0))),
        r ==> pair_le(a, b),
        !r ==> pair_le(b, a),
{
    a.1 > b.1 || (a.1 == b.1 && a.0.as_index() < b.0.as_index())
}

} // verus!

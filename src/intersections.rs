//! Ray/shape intersections and the fixed-capacity buffer that keeps them in
//! ascending order of distance.
use vstd::prelude::*;
use vstd::relations::sorted_by;
use crate::scalar::{ge_zero, is_nan, less_than, lt, non_negative, order_key};

verus! {

/// Capacity of an [`Intersections`] buffer.
pub const MAX_HITS: usize = 100;

/// A hit at distance `t` along a ray, on the shape whose index is `obj`.
/// `t` is the bit pattern of a single-precision value.
#[derive(Clone, Copy)]
pub struct Intersection {
    pub t: u32,
    pub obj: u32,
}

impl Intersection {
    pub fn new(t: u32, obj: u32) -> (r: Intersection)
        ensures
            r == (Intersection { t, obj }),
    {
        Intersection { t, obj }
    }
}

/// No hit stands after one with a smaller distance. NaN distances compare with
/// nothing, so they may stand anywhere.
pub open spec fn sorted(s: Seq<Intersection>) -> bool {
    forall|i: int, j: int| 0 <= i < j < s.len() ==> !lt(#[trigger] s[j].t, #[trigger] s[i].t)
}

/// Some hit of `s` lies at a distance `t >= 0`.
pub open spec fn any_non_negative(s: Seq<Intersection>) -> bool {
    exists|i: int| 0 <= i < s.len() && ge_zero(#[trigger] s[i].t)
}

/// The position of the first hit of `s` at a distance `t >= 0`.
pub open spec fn first_non_negative(s: Seq<Intersection>, i: int) -> bool {
    &&& 0 <= i < s.len()
    &&& ge_zero(s[i].t)
    &&& forall|j: int| 0 <= j < i ==> !ge_zero(#[trigger] s[j].t)
}

/// The hits of one ray, in ascending order of `t`, with a record of whether
/// any of them lies at `t >= 0`. It holds at most [`MAX_HITS`] hits and never
/// allocates.
pub struct Intersections {
    hits: [Intersection; MAX_HITS],
    count: u32,
    is_hit: bool,
}

impl View for Intersections {
    type V = Seq<Intersection>;

    closed spec fn view(&self) -> Seq<Intersection> {
        self.hits@.subrange(0, self.count as int)
    }
}

impl Intersections {
    /// The buffer holds at most [`MAX_HITS`] hits in order, and its flag tells
    /// whether one of them lies at `t >= 0`.
    pub closed spec fn wf(&self) -> bool {
        &&& self.count <= MAX_HITS
        &&& sorted(self@)
        &&& self.is_hit == any_non_negative(self@)
    }

    /// An empty buffer.
    pub fn new() -> (r: Intersections)
        ensures
            r.wf(),
            r@ == Seq::<Intersection>::empty(),
    {
        let r = Intersections {
            hits: [Intersection { t: 0, obj: 0 }; MAX_HITS],
            count: 0,
            is_hit: false,
        };
        assert(r@ =~= Seq::<Intersection>::empty());
        r
    }

    /// The number of hits held.
    pub fn len(&self) -> (r: usize)
        requires
            self.wf(),
        ensures
            r == self@.len(),
    {
        self.count as usize
    }

    /// The hit at position `i`, counted from the smallest distance.
    pub fn get(&self, i: usize) -> (r: Intersection)
        requires
            self.wf(),
            i < self@.len(),
        ensures
            r == self@[i as int],
    {
        self.hits[i]
    }

    /// Whether any hit with `t >= 0` has been added.
    pub fn has_hit(&self) -> (r: bool)
        requires
            self.wf(),
        ensures
            r == any_non_negative(self@),
    {
        self.is_hit
    }

    /// Adds `hit`, keeping the hits in ascending order of `t`.
    pub fn add(&mut self, hit: Intersection)
        requires
            old(self).wf(),
            old(self)@.len() < MAX_HITS,
        ensures
            final(self).wf(),
            final(self)@.len() == old(self)@.len() + 1,
            final(self)@.to_multiset() == old(self)@.to_multiset().insert(hit),
            sorted(final(self)@),
            any_non_negative(final(self)@) == (any_non_negative(old(self)@) || ge_zero(hit.t)),
    {
        let ghost s = self@;
        let n = self.count as usize;
        if non_negative(hit.t) {
            self.is_hit = true;
        }
        let mut carry = hit;
        let mut i: usize = 0;
        assert(self.hits@.subrange(0, 0) =~= s.subrange(0, 0));
        while i < n
            invariant
                n == self.count,
                n < MAX_HITS,
                s == old(self)@,
                s.len() == n,
                sorted(s),
                self.is_hit == (any_non_negative(s) || ge_zero(hit.t)),
                i <= n,
                forall|k: int| i <= k < n ==> #[trigger] self.hits@[k] == s[k],
                sorted(self.hits@.subrange(0, i as int)),
                forall|k: int| 0 <= k < i ==> !lt(carry.t, #[trigger] self.hits@[k].t),
                forall|k: int, m: int|
                    0 <= k < i <= m < n ==> !lt(#[trigger] s[m].t, #[trigger] self.hits@[k].t),
                self.hits@.subrange(0, i as int).to_multiset().insert(carry) == s.subrange(
                    0,
                    i as int,
                ).to_multiset().insert(hit),
            decreases n - i,
        {
            let ghost before = self.hits@;
            let ghost c = carry;
            let cur = self.hits[i];
            if less_than(carry.t, cur.t) {
                self.hits[i] = carry;
                carry = cur;
            }
            proof {
                let p = self.hits@[i as int];
                assert(self.hits@.subrange(0, i + 1) == before.subrange(0, i as int).push(p));
                assert(s.subrange(0, i + 1) == s.subrange(0, i as int).push(s[i as int]));
                s.subrange(0, i as int).to_multiset_ensures();
                before.subrange(0, i as int).to_multiset_ensures();
                let mb = before.subrange(0, i as int).to_multiset();
                let ms = s.subrange(0, i as int).to_multiset();
                assert(mb.insert(c) == ms.insert(hit));
                if p == c {
                    assert(mb.insert(c).insert(s[i as int]) =~= ms.insert(s[i as int]).insert(hit));
                } else {
                    assert(mb.insert(s[i as int]).insert(c) =~= mb.insert(c).insert(s[i as int]));
                    assert(ms.insert(hit).insert(s[i as int]) =~= ms.insert(s[i as int]).insert(hit));
                }
                assert(sorted(self.hits@.subrange(0, i + 1))) by {
                    let q = self.hits@.subrange(0, i + 1);
                    assert forall|a: int, b: int| 0 <= a < b < q.len() implies !lt(
                        #[trigger] q[b].t,
                        #[trigger] q[a].t,
                    ) by {
                        if b < i {
                            assert(before.subrange(0, i as int)[a] == q[a]);
                            assert(before.subrange(0, i as int)[b] == q[b]);
                        } else {
                            assert(before[a] == q[a]);
                        }
                    }
                }
                assert forall|k: int, m: int|
                    0 <= k < i + 1 <= m < n implies !lt(
                    #[trigger] s[m].t,
                    #[trigger] self.hits@[k].t,
                ) by {
                    if k < i {
                        assert(!lt(s[m].t, before[k].t));
                    } else {
                        assert(!lt(s[m].t, s[i as int].t));
                    }
                }
                assert forall|k: int| 0 <= k < i + 1 implies !lt(carry.t, #[trigger] self.hits@[k].t) by {
                    if k < i {
                        assert(!lt(s[i as int].t, before[k].t));
                        assert(!lt(c.t, before[k].t));
                    }
                }
            }
            i += 1;
        }
        let ghost before = self.hits@;
        self.hits[n] = carry;
        self.count = self.count + 1;
        proof {
            assert(self@ == before.subrange(0, n as int).push(carry));
            assert(s == s.subrange(0, n as int));
            before.subrange(0, n as int).to_multiset_ensures();
            s.to_multiset_ensures();
            self@.to_multiset_ensures();
            assert(self@.to_multiset() == s.to_multiset().insert(hit));
            assert(sorted(self@)) by {
                let q = self@;
                assert forall|a: int, b: int| 0 <= a < b < q.len() implies !lt(
                    #[trigger] q[b].t,
                    #[trigger] q[a].t,
                ) by {
                    if b < n {
                        assert(before.subrange(0, n as int)[a] == q[a]);
                        assert(before.subrange(0, n as int)[b] == q[b]);
                    } else {
                        assert(before[a] == q[a]);
                    }
                }
            }
            assert(any_non_negative(self@) == (any_non_negative(s) || ge_zero(hit.t))) by {
                if any_non_negative(self@) {
                    let k = choose|k: int| 0 <= k < self@.len() && ge_zero(#[trigger] self@[k].t);
                    assert(self@.contains(self@[k]));
                    assert(self@.to_multiset().count(self@[k]) > 0);
                    if self@[k] != hit {
                        assert(s.to_multiset().insert(hit).count(self@[k]) == s.to_multiset().count(
                            self@[k],
                        ));
                        assert(s.to_multiset().count(self@[k]) > 0);
                        assert(s.contains(self@[k]));
                    }
                }
                if any_non_negative(s) {
                    let k = choose|k: int| 0 <= k < s.len() && ge_zero(#[trigger] s[k].t);
                    assert(s.contains(s[k]));
                    assert(self@.to_multiset().count(s[k]) > 0);
                    assert(self@.contains(s[k]));
                }
                if ge_zero(hit.t) {
                    assert(self@.to_multiset().count(hit) > 0);
                    assert(self@.contains(hit));
                }
            }
        }
    }

    /// The first hit, in order of distance, that lies at `t >= 0`.
    pub fn get_hit(&self) -> (r: &Intersection)
        requires
            self.wf(),
            any_non_negative(self@),
        ensures
            exists|i: int| first_non_negative(self@, i) && *r == self@[i],
    {
        let n = self.count as usize;
        let mut i: usize = 0;
        while i < n
            invariant
                self.wf(),
                n == self.count,
                n == self@.len(),
                i <= n,
                any_non_negative(self@),
                forall|j: int| 0 <= j < i ==> !ge_zero(#[trigger] self@[j].t),
            decreases n - i,
        {
            assert(self@[i as int] == self.hits@[i as int]);
            if non_negative(self.hits[i].t) {
                assert(first_non_negative(self@, i as int));
                return &self.hits[i];
            }
            i += 1;
        }
        proof {
            let k = choose|k: int| 0 <= k < self@.len() && ge_zero(#[trigger] self@[k].t);
            assert(!ge_zero(self@[k].t));
        }
        &self.hits[0]
    }
}

/// Whatever order hits were added in, a buffer whose distances are all
/// numbers (no NaN) reads back in ascending order of distance.
pub proof fn lemma_reads_back_ascending(b: Intersections)
    requires
        b.wf(),
        forall|i: int| 0 <= i < b@.len() ==> !is_nan(#[trigger] b@[i].t),
    ensures
        forall|i: int, j: int|
            0 <= i < j < b@.len() ==> order_key(#[trigger] b@[i].t) <= order_key(#[trigger] b@[j].t),
{
    assert forall|i: int, j: int| 0 <= i < j < b@.len() implies order_key(
        #[trigger] b@[i].t,
    ) <= order_key(#[trigger] b@[j].t) by {
        assert(!lt(b@[j].t, b@[i].t));
        assert(!is_nan(b@[i].t) && !is_nan(b@[j].t));
    }
}

/// The distances of `s`, each as its order key.
pub open spec fn distance_keys(s: Seq<Intersection>) -> Seq<int> {
    s.map_values(|h: Intersection| order_key(h.t))
}

proof fn lemma_keys_to_multiset(a: Seq<Intersection>, b: Seq<Intersection>)
    requires
        a.to_multiset() == b.to_multiset(),
    ensures
        distance_keys(a).to_multiset() == distance_keys(b).to_multiset(),
    decreases a.len(),
{
    broadcast use vstd::seq_lib::group_to_multiset_ensures;

    a.to_multiset_ensures();
    b.to_multiset_ensures();
    if a.len() == 0 {
        assert(b.len() == 0);
        assert(distance_keys(a) =~= distance_keys(b));
    } else {
        let x = a.last();
        let a1 = a.drop_last();
        assert(a =~= a1.push(x));
        assert(a.to_multiset().count(x) > 0);
        assert(b.contains(x));
        let j = choose|j: int| 0 <= j < b.len() && b[j] == x;
        let b1 = b.remove(j);
        assert(a1.to_multiset() =~= a.to_multiset().remove(x));
        assert(b1.to_multiset() =~= b.to_multiset().remove(x));
        lemma_keys_to_multiset(a1, b1);
        assert(distance_keys(a) =~= distance_keys(a1).push(order_key(x.t)));
        assert(distance_keys(b) =~= distance_keys(b1).insert(j, order_key(x.t)));
        vstd::seq_lib::to_multiset_insert(distance_keys(b1), j, order_key(x.t));
    }
}

/// Two buffers that hold the same hits, whatever order they were added in,
/// read back the same distances in the same order, when no distance is a NaN.
pub proof fn lemma_order_independent(a: Intersections, b: Intersections)
    requires
        a.wf(),
        b.wf(),
        a@.to_multiset() == b@.to_multiset(),
        forall|i: int| 0 <= i < a@.len() ==> !is_nan(#[trigger] a@[i].t),
    ensures
        a@.len() == b@.len(),
        forall|i: int| 0 <= i < a@.len() ==> order_key(#[trigger] a@[i].t) == order_key(b@[i].t),
{
    broadcast use vstd::seq_lib::group_to_multiset_ensures;

    a@.to_multiset_ensures();
    b@.to_multiset_ensures();
    assert forall|i: int| 0 <= i < b@.len() implies !is_nan(#[trigger] b@[i].t) by {
        assert(b@.to_multiset().count(b@[i]) > 0);
        assert(a@.contains(b@[i]));
    }
    lemma_reads_back_ascending(a);
    lemma_reads_back_ascending(b);
    let leq = |x: int, y: int| x <= y;
    let ka = distance_keys(a@);
    let kb = distance_keys(b@);
    assert(sorted_by(ka, leq)) by {
        assert forall|i: int, j: int| 0 <= i < j < ka.len() implies #[trigger] leq(ka[i], ka[j]) by {
            assert(order_key(a@[i].t) <= order_key(a@[j].t));
        }
    }
    assert(sorted_by(kb, leq)) by {
        assert forall|i: int, j: int| 0 <= i < j < kb.len() implies #[trigger] leq(kb[i], kb[j]) by {
            assert(order_key(b@[i].t) <= order_key(b@[j].t));
        }
    }
    lemma_keys_to_multiset(a@, b@);
    vstd::seq_lib::lemma_sorted_unique(ka, kb, leq);
    assert forall|i: int| 0 <= i < a@.len() implies order_key(#[trigger] a@[i].t) == order_key(
        b@[i].t,
    ) by {
        assert(ka[i] == kb[i]);
    }
}

impl Default for Intersections {
    fn default() -> (r: Intersections)
        ensures
            r.wf(),
            r@ == Seq::<Intersection>::empty(),
    {
        Intersections::new()
    }
}

} // verus!

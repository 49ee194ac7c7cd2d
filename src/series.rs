use vstd::prelude::*;

verus! {

/// The values of `entries` whose index lies in `[lo, hi]`, in the order of `entries`.
pub open spec fn values_in<T>(entries: Seq<(u64, T)>, lo: u64, hi: u64) -> Seq<T>
    decreases entries.len(),
{
    if entries.len() == 0 {
        Seq::empty()
    } else {
        let prefix = values_in(entries.drop_last(), lo, hi);
        let e = entries.last();
        if lo <= e.0 && e.0 <= hi {
            prefix.push(e.1)
        } else {
            prefix
        }
    }
}

/// The values of `entries`, in order.
pub open spec fn values_of<T>(entries: Seq<(u64, T)>) -> Seq<T> {
    entries.map_values(|e: (u64, T)| e.1)
}

/// Indices strictly ascend along `entries`.
pub open spec fn strictly_sorted<T>(entries: Seq<(u64, T)>) -> bool {
    forall|i: int, j: int| 0 <= i < j < entries.len() ==> #[trigger] entries[i].0 < #[trigger] entries[j].0
}

/// Some entry of `entries` has index `index`.
pub open spec fn holds_index<T>(entries: Seq<(u64, T)>, index: u64) -> bool {
    exists|i: int| 0 <= i < entries.len() && #[trigger] entries[i].0 == index
}

/// The number of entries of `entries` whose index is below `index`.
pub open spec fn count_below<T>(entries: Seq<(u64, T)>, index: u64) -> int
    decreases entries.len(),
{
    if entries.len() == 0 {
        0
    } else {
        count_below(entries.drop_last(), index) + if entries.last().0 < index { 1int } else { 0int }
    }
}

/// In a listing whose indices are below `index` before position `p` and above it from
/// `p` on, exactly `p` entries lie below `index`.
proof fn lemma_count_below<T>(entries: Seq<(u64, T)>, index: u64, p: int)
    requires
        0 <= p <= entries.len(),
        forall|j: int| 0 <= j < p ==> #[trigger] entries[j].0 < index,
        forall|j: int| p <= j < entries.len() ==> #[trigger] entries[j].0 > index,
    ensures
        count_below(entries, index) == p,
    decreases entries.len(),
{
    if entries.len() > 0 {
        let d = entries.drop_last();
        let n = entries.len() - 1;
        if p == entries.len() {
            assert(entries[n].0 < index);
            assert forall|j: int| 0 <= j < n implies #[trigger] d[j].0 < index by {
                assert(d[j] == entries[j]);
            }
            lemma_count_below(d, index, n);
        } else {
            assert(entries[n].0 > index);
            assert forall|j: int| 0 <= j < p implies #[trigger] d[j].0 < index by {
                assert(d[j] == entries[j]);
            }
            assert forall|j: int| p <= j < n implies #[trigger] d[j].0 > index by {
                assert(d[j] == entries[j]);
            }
            lemma_count_below(d, index, p);
        }
    }
}

/// How pushing `item` at `index` takes the listing `before` to `after` and what it
/// reports: an index already held leaves the listing as it is and reports `false`;
/// a new index is inserted at its place in index order, after the entries with a
/// smaller index, and reports `true`.
pub open spec fn pushed<T>(
    before: Seq<(u64, T)>,
    after: Seq<(u64, T)>,
    index: u64,
    item: T,
    changed: bool,
) -> bool {
    &&& changed == !holds_index(before, index)
    &&& holds_index(after, index)
    &&& after.len() == before.len() + (if changed { 1int } else { 0int })
    &&& !changed ==> after == before
    &&& changed ==> after == before.insert(count_below(before, index), (index, item))
}

/// A time-indexed series: at most one value per index, kept in ascending index order.
pub struct Series<T> {
    entries: Vec<(u64, T)>,
}

impl<T> Series<T> {
    /// The stored (index, value) pairs, in ascending index order.
    pub closed spec fn entries(&self) -> Seq<(u64, T)> {
        self.entries@
    }

    /// Well-formedness: indices strictly ascend, so each index holds at most one value.
    pub open spec fn wf(&self) -> bool {
        strictly_sorted(self.entries())
    }

    /// Some stored entry has index `index`.
    pub open spec fn has_index(&self, index: u64) -> bool {
        holds_index(self.entries(), index)
    }

    pub fn new() -> (r: Series<T>)
        ensures
            r.wf(),
            r.entries() == Seq::<(u64, T)>::empty(),
    {
        let r = Series { entries: Vec::new() };
        assert(r.entries@ =~= Seq::<(u64, T)>::empty());
        r
    }

    pub fn empty(&self) -> (r: bool)
        ensures
            r == (self.entries().len() == 0),
    {
        self.entries.len() == 0
    }

    pub fn to_vec(&self) -> (r: Vec<&T>)
        ensures
            r@.len() == self.entries().len(),
            forall|i: int| 0 <= i < r@.len() ==> *#[trigger] r@[i] == self.entries()[i].1,
    {
        let mut r: Vec<&T> = Vec::new();
        let mut i: usize = 0;
        while i < self.entries.len()
            invariant
                i <= self.entries@.len(),
                r@.len() == i,
                forall|j: int| 0 <= j < i ==> *#[trigger] r@[j] == self.entries@[j].1,
            decreases self.entries@.len() - i,
        {
            r.push(&self.entries[i].1);
            i += 1;
        }
        r
    }

    /// Stores `item` at `index` unless that index already holds a value, in which case
    /// the series is left as it is. Returns whether the series changed.
    pub fn push(&mut self, index: u64, item: T) -> (r: bool)
        requires
            old(self).wf(),
        ensures
            final(self).wf(),
            pushed(old(self).entries(), final(self).entries(), index, item, r),
            r ==> final(self).has_index(index) && final(self).entries().len() > 0,
    {
        let n = self.entries.len();
        let mut p: usize = 0;
        while p < n && self.entries[p].0 < index
            invariant
                n == self.entries@.len(),
                p <= n,
                forall|j: int| 0 <= j < p ==> #[trigger] self.entries@[j].0 < index,
            decreases n - p,
        {
            p += 1;
        }
        if p < n && self.entries[p].0 == index {
            return false;
        }
        proof {
            assert forall|j: int| p <= j < n implies #[trigger] self.entries@[j].0 > index by {
                if j > p {
                    assert(self.entries@[p as int].0 < self.entries@[j].0);
                }
            }
        }
        let ghost before = self.entries@;
        proof {
            lemma_count_below(before, index, p as int);
        }
        self.entries.insert(p, (index, item));
        proof {
            let after = self.entries@;
            assert(after[p as int].0 == index);
            assert forall|i: int, j: int| 0 <= i < j < after.len() implies
                #[trigger] after[i].0 < #[trigger] after[j].0 by {
                if j < p {
                    assert(after[i] == before[i] && after[j] == before[j]);
                } else if j == p {
                    assert(after[i] == before[i]);
                } else if i < p {
                    assert(after[i] == before[i] && after[j] == before[j - 1]);
                } else if i == p {
                    assert(after[j] == before[j - 1]);
                } else {
                    assert(after[i] == before[i - 1] && after[j] == before[j - 1]);
                }
            }
            assert(!(exists|i: int| 0 <= i < before.len() && #[trigger] before[i].0 == index));
        }
        true
    }

    /// The value at the smallest index, if any.
    pub fn first(&self) -> (r: Option<&T>)
        ensures
            r.is_none() == (self.entries().len() == 0),
            r.is_some() ==> *r.unwrap() == self.entries()[0].1,
    {
        if self.entries.len() == 0 {
            None
        } else {
            Some(&self.entries[0].1)
        }
    }

    /// The value at the largest index, if any.
    pub fn last(&self) -> (r: Option<&T>)
        ensures
            r.is_none() == (self.entries().len() == 0),
            r.is_some() ==> *r.unwrap() == self.entries().last().1,
    {
        let n = self.entries.len();
        if n == 0 {
            None
        } else {
            Some(&self.entries[n - 1].1)
        }
    }

    /// The values whose index lies in `[start, end]`, in ascending index order.
    /// Always `Some`: no match gives an empty vector.
    pub fn between(&self, start: &u64, end: &u64) -> (r: Option<Vec<&T>>)
        ensures
            r.is_some(),
            r.unwrap()@.len() == values_in(self.entries(), *start, *end).len(),
            forall|i: int| 0 <= i < r.unwrap()@.len()
                ==> *#[trigger] r.unwrap()@[i] == values_in(self.entries(), *start, *end)[i],
    {
        let lo = *start;
        let hi = *end;
        let mut r: Vec<&T> = Vec::new();
        let mut i: usize = 0;
        while i < self.entries.len()
            invariant
                i <= self.entries@.len(),
                r@.len() == values_in(self.entries@.take(i as int), lo, hi).len(),
                forall|j: int| 0 <= j < r@.len()
                    ==> *#[trigger] r@[j] == values_in(self.entries@.take(i as int), lo, hi)[j],
            decreases self.entries@.len() - i,
        {
            assert(self.entries@.take(i + 1).drop_last() =~= self.entries@.take(i as int));
            let k = self.entries[i].0;
            if lo <= k && k <= hi {
                r.push(&self.entries[i].1);
            }
            i += 1;
        }
        assert(self.entries@.take(i as int) =~= self.entries@);
        Some(r)
    }
}

/// Emptiness: a push that reports a change leaves the index held and the listing one
/// longer, so never empty.
pub proof fn lemma_pushed_holds<T>(
    before: Seq<(u64, T)>,
    after: Seq<(u64, T)>,
    index: u64,
    item: T,
    changed: bool,
)
    requires
        pushed(before, after, index, item, changed),
        changed,
    ensures
        holds_index(after, index),
        after.len() == before.len() + 1,
{
}

/// Two strictly sorted listings of the same entries are the same listing.
proof fn lemma_sorted_listing_unique<T>(a: Seq<(u64, T)>, b: Seq<(u64, T)>)
    requires
        strictly_sorted(a),
        strictly_sorted(b),
        forall|e: (u64, T)| a.contains(e) <==> b.contains(e),
    ensures
        a == b,
    decreases a.len(),
{
    if a.len() == 0 {
        if b.len() > 0 {
            assert(b.contains(b[0]));
        }
        assert(a =~= b);
    } else {
        assert(a.contains(a[0]));
        let j = choose|j: int| 0 <= j < b.len() && b[j] == a[0];
        assert(b.contains(b[0]));
        let k = choose|k: int| 0 <= k < a.len() && a[k] == b[0];
        if k > 0 {
            assert(a[0].0 < a[k].0);
        }
        if j > 0 {
            assert(b[0].0 < b[j].0);
        }
        let a1 = a.drop_first();
        let b1 = b.drop_first();
        assert forall|e: (u64, T)| a1.contains(e) <==> b1.contains(e) by {
            if a1.contains(e) {
                let i = choose|i: int| 0 <= i < a1.len() && a1[i] == e;
                assert(a[i + 1] == e && a[0].0 < a[i + 1].0);
                assert(a.contains(e));
                let m = choose|m: int| 0 <= m < b.len() && b[m] == e;
                assert(m != 0);
                assert(b1[m - 1] == e);
            }
            if b1.contains(e) {
                let i = choose|i: int| 0 <= i < b1.len() && b1[i] == e;
                assert(b[i + 1] == e && b[0].0 < b[i + 1].0);
                assert(b.contains(e));
                let m = choose|m: int| 0 <= m < a.len() && a[m] == e;
                assert(m != 0);
                assert(a1[m - 1] == e);
            }
        }
        assert forall|x: int, y: int| 0 <= x < y < a1.len() implies
            #[trigger] a1[x].0 < #[trigger] a1[y].0 by {
            assert(a[x + 1].0 < a[y + 1].0);
        }
        assert forall|x: int, y: int| 0 <= x < y < b1.len() implies
            #[trigger] b1[x].0 < #[trigger] b1[y].0 by {
            assert(b[x + 1].0 < b[y + 1].0);
        }
        lemma_sorted_listing_unique(a1, b1);
        assert(a =~= b1.insert(0, b[0]));
        assert(b =~= b1.insert(0, b[0]));
    }
}

/// Ordering: a series lists its values in strictly ascending index order, and the
/// listing depends only on which (index, value) pairs it holds, not on the order in
/// which they were pushed.
pub proof fn lemma_listing_follows_index_order<T>(s1: &Series<T>, s2: &Series<T>)
    requires
        s1.wf(),
        s2.wf(),
        forall|e: (u64, T)| s1.entries().contains(e) <==> s2.entries().contains(e),
    ensures
        forall|i: int, j: int|
            0 <= i < j < s1.entries().len() ==> #[trigger] s1.entries()[i].0 < #[trigger] s1.entries()[j].0,
        s1.entries() == s2.entries(),
{
    lemma_sorted_listing_unique(s1.entries(), s2.entries());
}

/// When every index of `entries` lies in `[lo, hi]`, the range holds all the values.
proof fn lemma_values_in_all<T>(entries: Seq<(u64, T)>, lo: u64, hi: u64)
    requires
        forall|i: int| 0 <= i < entries.len() ==> lo <= #[trigger] entries[i].0 <= hi,
    ensures
        values_in(entries, lo, hi) == values_of(entries),
    decreases entries.len(),
{
    if entries.len() > 0 {
        let p = entries.drop_last();
        assert forall|i: int| 0 <= i < p.len() implies lo <= #[trigger] p[i].0 <= hi by {
            assert(p[i] == entries[i]);
        }
        lemma_values_in_all(p, lo, hi);
        assert(values_of(entries) =~= values_of(p).push(entries.last().1));
    } else {
        assert(values_of(entries) =~= Seq::<T>::empty());
    }
}

/// When no index of `entries` lies in `[lo, hi]`, the range is empty.
proof fn lemma_values_in_none<T>(entries: Seq<(u64, T)>, lo: u64, hi: u64)
    requires
        forall|i: int| 0 <= i < entries.len() ==> !(lo <= #[trigger] entries[i].0 <= hi),
    ensures
        values_in(entries, lo, hi) == Seq::<T>::empty(),
    decreases entries.len(),
{
    if entries.len() > 0 {
        let p = entries.drop_last();
        assert forall|i: int| 0 <= i < p.len() implies !(lo <= #[trigger] p[i].0 <= hi) by {
            assert(p[i] == entries[i]);
        }
        lemma_values_in_none(p, lo, hi);
    }
}

/// Range inclusivity: for a series holding exactly the indices `a < b < c`,
/// `[a, c]` yields all three values in order, `[b, b]` yields exactly the value at `b`,
/// and a range that lies wholly below `a` or wholly above `c` yields nothing.
pub proof fn lemma_range_inclusive<T>(s: &Series<T>, a: u64, b: u64, c: u64, lo: u64, hi: u64)
    requires
        s.wf(),
        a < b < c,
        s.entries().len() == 3,
        s.has_index(a),
        s.has_index(b),
        s.has_index(c),
        hi < a || c < lo,
    ensures
        values_in(s.entries(), a, c) == seq![s.entries()[0].1, s.entries()[1].1, s.entries()[2].1],
        s.entries()[1].0 == b,
        values_in(s.entries(), b, b) == seq![s.entries()[1].1],
        values_in(s.entries(), lo, hi) == Seq::<T>::empty(),
{
    let e = s.entries();
    assert(e[0].0 < e[1].0 && e[1].0 < e[2].0 && e[0].0 < e[2].0);
    let ia = choose|i: int| 0 <= i < e.len() && #[trigger] e[i].0 == a;
    let ib = choose|i: int| 0 <= i < e.len() && #[trigger] e[i].0 == b;
    let ic = choose|i: int| 0 <= i < e.len() && #[trigger] e[i].0 == c;
    assert(ia == 0 && ib == 1 && ic == 2);
    lemma_values_in_all(e, a, c);
    assert(values_of(e) =~= seq![e[0].1, e[1].1, e[2].1]);
    lemma_values_in_none(e, lo, hi);
    let p = e.drop_last();
    let q = p.drop_last();
    assert(q.drop_last() =~= Seq::<(u64, T)>::empty());
    assert(values_in(q.drop_last(), b, b) =~= Seq::<T>::empty());
    assert(values_in(q, b, b) =~= Seq::<T>::empty());
    assert(values_in(p, b, b) =~= seq![e[1].1]);
}

/// First/last: in a non-empty series the first entry holds the smallest index and
/// the last entry the largest.
pub proof fn lemma_first_last_extremes<T>(s: &Series<T>)
    requires
        s.wf(),
        s.entries().len() > 0,
    ensures
        forall|i: int| 0 <= i < s.entries().len() ==>
            s.entries()[0].0 <= #[trigger] s.entries()[i].0 <= s.entries().last().0,
{
    let e = s.entries();
    assert forall|i: int| 0 <= i < e.len() implies e[0].0 <= #[trigger] e[i].0 <= e.last().0 by {
        if i > 0 {
            assert(e[0].0 < e[i].0);
        }
        if i < e.len() - 1 {
            assert(e[i].0 < e[e.len() - 1].0);
        }
    }
}

} // verus!

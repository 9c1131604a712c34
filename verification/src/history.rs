//! Bounded, append-only records and most-recent-first views of them.

use std::collections::VecDeque;
use vstd::prelude::*;

verus! {

/// Appending `x` to a record kept to `cap` entries: when the record is full
/// its oldest entry is dropped first.
pub open spec fn bounded_push<T>(s: Seq<T>, x: T, cap: nat) -> Seq<T> {
    if s.len() >= cap && s.len() > 0 {
        s.drop_first().push(x)
    } else {
        s.push(x)
    }
}

/// Appending every element of `xs`, in order, with `bounded_push`.
pub open spec fn bounded_push_all<T>(s: Seq<T>, xs: Seq<T>, cap: nat) -> Seq<T>
    decreases xs.len(),
{
    if xs.len() == 0 {
        s
    } else {
        bounded_push(bounded_push_all(s, xs.drop_last(), cap), xs.last(), cap)
    }
}

/// The last `n` entries of `s` (all of them when there are fewer), most
/// recent first.
pub open spec fn latest<T>(s: Seq<T>, n: nat) -> Seq<T> {
    let k = if n < s.len() { n } else { s.len() };
    Seq::new(k, |i: int| s[s.len() - 1 - i])
}

/// The elements of `s` that satisfy `p`, in their order.
pub open spec fn keep<T>(s: Seq<T>, p: spec_fn(T) -> bool) -> Seq<T>
    decreases s.len(),
{
    if s.len() == 0 {
        seq![]
    } else {
        keep(s.drop_last(), p) + (if p(s.last()) { seq![s.last()] } else { seq![] })
    }
}

/// How many elements of `s` satisfy `p`.
pub open spec fn count<T>(s: Seq<T>, p: spec_fn(T) -> bool) -> nat {
    keep(s, p).len()
}

/// What `keep` keeps is what `Seq::filter` keeps.
pub proof fn lemma_keep_is_filter<T>(s: Seq<T>, p: spec_fn(T) -> bool)
    ensures
        keep(s, p) == s.filter(p),
    decreases s.len(),
{
    reveal(Seq::filter);
    if s.len() > 0 {
        lemma_keep_is_filter(s.drop_last(), p);
        assert(keep(s, p) =~= s.filter(p));
    }
}

/// Extending a prefix by one element extends what is kept by at most that element.
pub proof fn lemma_keep_step<T>(s: Seq<T>, p: spec_fn(T) -> bool, i: int)
    requires
        0 <= i < s.len(),
    ensures
        keep(s.subrange(0, i + 1), p) == keep(s.subrange(0, i), p)
            + (if p(s[i]) { seq![s[i]] } else { seq![] }),
{
    assert(s.subrange(0, i + 1).drop_last() =~= s.subrange(0, i));
}

/// Keeping distributes over concatenation.
pub proof fn lemma_keep_append<T>(a: Seq<T>, b: Seq<T>, p: spec_fn(T) -> bool)
    ensures
        keep(a + b, p) == keep(a, p) + keep(b, p),
    decreases b.len(),
{
    if b.len() == 0 {
        assert(a + b =~= a);
        assert(keep(a, p) + keep(b, p) =~= keep(a, p));
    } else {
        lemma_keep_append(a, b.drop_last(), p);
        assert((a + b).drop_last() =~= a + b.drop_last());
        assert((a + b).last() == b.last());
        assert(keep(a + b, p) =~= keep(a, p) + keep(b, p));
    }
}

/// Keeping with `p`, then with `q`, is keeping with both.
pub proof fn lemma_keep_keep<T>(s: Seq<T>, p: spec_fn(T) -> bool, q: spec_fn(T) -> bool)
    ensures
        keep(keep(s, p), q) == keep(s, |x: T| p(x) && q(x)),
    decreases s.len(),
{
    if s.len() > 0 {
        lemma_keep_keep(s.drop_last(), p, q);
        let tail = if p(s.last()) { seq![s.last()] } else { seq![] };
        lemma_keep_append(keep(s.drop_last(), p), tail, q);
        if p(s.last()) {
            assert(keep(tail, q) =~= (if q(s.last()) { seq![s.last()] } else { seq![] })) by {
                assert(tail.drop_last() =~= Seq::<T>::empty());
                reveal_with_fuel(keep, 2);
            }
        } else {
            assert(keep(tail, q) =~= Seq::<T>::empty());
        }
        assert(keep(keep(s, p), q) =~= keep(s, |x: T| p(x) && q(x)));
    }
}

/// The position of the first element of `s` that satisfies `p`, or -1.
pub open spec fn first_index<T>(s: Seq<T>, p: spec_fn(T) -> bool) -> int
    decreases s.len(),
{
    if s.len() == 0 {
        -1
    } else if p(s[0]) {
        0
    } else {
        let r = first_index(s.drop_first(), p);
        if r < 0 { -1 } else { r + 1 }
    }
}

/// `first_index` is the one position whose element satisfies `p` with no
/// earlier element that does, or -1 when no element does.
pub proof fn lemma_first_index<T>(s: Seq<T>, p: spec_fn(T) -> bool, i: int)
    requires
        0 <= i <= s.len(),
        forall|k: int| 0 <= k < i ==> !p(#[trigger] s[k]),
        i == s.len() || p(s[i]),
    ensures
        first_index(s, p) == (if i == s.len() { -1 } else { i }),
    decreases s.len(),
{
    if s.len() > 0 && i > 0 {
        assert(!p(s[0]));
        let t = s.drop_first();
        assert forall|k: int| 0 <= k < i - 1 implies !p(#[trigger] t[k]) by {
            assert(t[k] == s[k + 1]);
        }
        if i < s.len() {
            assert(t[i - 1] == s[i]);
        }
        lemma_first_index(t, p, i - 1);
    }
}

/// No element before the first one satisfying `p` satisfies it.
pub proof fn lemma_first_index_found<T>(s: Seq<T>, p: spec_fn(T) -> bool, a: int)
    requires
        0 <= a < s.len(),
        p(s[a]),
    ensures
        0 <= first_index(s, p) <= a,
        p(s[first_index(s, p)]),
    decreases s.len(),
{
    if !p(s[0]) {
        let t = s.drop_first();
        assert(t[a - 1] == s[a]);
        lemma_first_index_found(t, p, a - 1);
        assert(t[first_index(t, p)] == s[first_index(t, p) + 1]);
    }
}

/// Sequences whose elements agree on `p` have the same first index.
pub proof fn lemma_same_index<T>(a: Seq<T>, b: Seq<T>, p: spec_fn(T) -> bool)
    requires
        a.len() == b.len(),
        forall|x: int| 0 <= x < a.len() ==> p(#[trigger] a[x]) == p(b[x]),
    ensures
        first_index(a, p) == first_index(b, p),
    decreases a.len(),
{
    if a.len() > 0 {
        let ta = a.drop_first();
        let tb = b.drop_first();
        assert forall|x: int| 0 <= x < ta.len() implies p(#[trigger] ta[x]) == p(tb[x]) by {
            assert(ta[x] == a[x + 1]);
            assert(tb[x] == b[x + 1]);
        }
        lemma_same_index(ta, tb, p);
    }
}

/// `first_index` is -1 or a position of the sequence whose element satisfies `p`.
pub proof fn lemma_first_index_bound<T>(s: Seq<T>, p: spec_fn(T) -> bool)
    ensures
        -1 <= first_index(s, p) < s.len(),
        first_index(s, p) >= 0 ==> p(s[first_index(s, p)]),
    decreases s.len(),
{
    if s.len() > 0 && !p(s[0]) {
        let t = s.drop_first();
        lemma_first_index_bound(t, p);
        if first_index(t, p) >= 0 {
            assert(t[first_index(t, p)] == s[first_index(t, p) + 1]);
        }
    }
}

/// What is kept never outnumbers the sequence.
pub proof fn lemma_keep_len<T>(s: Seq<T>, p: spec_fn(T) -> bool)
    ensures
        keep(s, p).len() <= s.len(),
    decreases s.len(),
{
    if s.len() > 0 {
        lemma_keep_len(s.drop_last(), p);
    }
}

/// Replacing one element changes what is kept by at most that element.
pub proof fn lemma_keep_update_len<T>(s: Seq<T>, p: spec_fn(T) -> bool, i: int, x: T)
    requires
        0 <= i < s.len(),
    ensures
        keep(s.update(i, x), p).len() + (if p(s[i]) { 1int } else { 0int })
            == keep(s, p).len() + (if p(x) { 1int } else { 0int }),
    decreases s.len(),
{
    let u = s.update(i, x);
    if i == s.len() - 1 {
        assert(u.drop_last() =~= s.drop_last());
    } else {
        lemma_keep_update_len(s.drop_last(), p, i, x);
        assert(u.drop_last() =~= s.drop_last().update(i, x));
    }
}

/// Every kept element satisfies the predicate and comes from the sequence.
pub proof fn lemma_keep_members<T>(s: Seq<T>, p: spec_fn(T) -> bool)
    ensures
        forall|i: int| 0 <= i < keep(s, p).len() ==> p(#[trigger] keep(s, p)[i]) && s.contains(keep(s, p)[i]),
    decreases s.len(),
{
    if s.len() > 0 {
        lemma_keep_members(s.drop_last(), p);
        let k = keep(s, p);
        let k0 = keep(s.drop_last(), p);
        assert forall|i: int| 0 <= i < k.len() implies p(#[trigger] k[i]) && s.contains(k[i]) by {
            if i < k0.len() {
                assert(k[i] == k0[i]);
                let j = choose|j: int| 0 <= j < s.drop_last().len() && s.drop_last()[j] == k0[i];
                assert(s[j] == k0[i]);
            } else {
                assert(k[i] == s.last());
                assert(s[s.len() - 1] == s.last());
            }
        }
    }
}

/// Filtering keeps everything when every element passes.
pub proof fn lemma_filter_all<T>(s: Seq<T>, p: spec_fn(T) -> bool)
    requires
        forall|i: int| 0 <= i < s.len() ==> p(#[trigger] s[i]),
    ensures
        s.filter(p) == s,
    decreases s.len(),
{
    reveal(Seq::filter);
    if s.len() > 0 {
        let t = s.drop_last();
        assert forall|i: int| 0 <= i < t.len() implies p(#[trigger] t[i]) by {
            assert(t[i] == s[i]);
        }
        lemma_filter_all(t, p);
        assert(p(s[s.len() - 1]));
        assert(s.filter(p) =~= s);
    }
}

/// Filtering keeps nothing when no element passes.
pub proof fn lemma_filter_none<T>(s: Seq<T>, p: spec_fn(T) -> bool)
    requires
        forall|i: int| 0 <= i < s.len() ==> !p(#[trigger] s[i]),
    ensures
        s.filter(p).len() == 0,
    decreases s.len(),
{
    reveal(Seq::filter);
    if s.len() > 0 {
        let t = s.drop_last();
        assert forall|i: int| 0 <= i < t.len() implies !p(#[trigger] t[i]) by {
            assert(t[i] == s[i]);
        }
        lemma_filter_none(t, p);
        assert(!p(s[s.len() - 1]));
    }
}

/// A bounded record never grows past its capacity.
pub proof fn lemma_bounded_push_len<T>(s: Seq<T>, x: T, cap: nat)
    requires
        s.len() <= cap,
        cap > 0,
    ensures
        bounded_push(s, x, cap).len() <= cap,
        bounded_push(s, x, cap).last() == x,
{
}

/// The last `cap` entries of `s` (all of them when there are fewer).
pub open spec fn last_n<T>(s: Seq<T>, cap: nat) -> Seq<T> {
    if s.len() > cap { s.subrange(s.len() - cap, s.len() as int) } else { s }
}

/// A record kept to `cap` entries holds the last `cap` of all the entries
/// ever appended to it.
pub proof fn lemma_bounded_push_all_keeps_last<T>(h: Seq<T>, a: Seq<T>, cap: nat)
    requires
        h.len() <= cap,
        cap > 0,
    ensures
        bounded_push_all(h, a, cap) == last_n(h + a, cap),
    decreases a.len(),
{
    if a.len() == 0 {
        assert(h + a =~= h);
    } else {
        let a0 = a.drop_last();
        lemma_bounded_push_all_keeps_last(h, a0, cap);
        let prev = last_n(h + a0, cap);
        let x = a.last();
        assert((h + a) =~= (h + a0).push(x));
        if (h + a0).len() >= cap {
            assert(prev.drop_first().push(x) =~= last_n(h + a, cap));
        } else {
            assert(prev.push(x) =~= last_n(h + a, cap));
        }
    }
}

/// Listing the last `cap` entries newest first is listing all of them
/// newest first, at most `cap` of them.
pub proof fn lemma_latest_last_n<T>(s: Seq<T>, cap: nat, n: nat)
    ensures
        latest(last_n(s, cap), n) == latest(s, if n < cap { n } else { cap }),
{
    let t = last_n(s, cap);
    let m: nat = if n < cap { n } else { cap };
    assert(latest(t, n).len() == latest(s, m).len());
    assert forall|i: int| 0 <= i < latest(t, n).len() implies latest(t, n)[i] == latest(s, m)[i] by {
        assert(t[t.len() - 1 - i] == s[s.len() - 1 - i]);
    }
    assert(latest(t, n) =~= latest(s, m));
}

/// Appends `item`, dropping the oldest entry first when `log` holds `cap`.
pub fn push_bounded<T>(log: &mut Vec<T>, item: T, cap: usize)
    ensures
        final(log)@ == bounded_push(old(log)@, item, cap as nat),
{
    if log.len() >= cap && log.len() > 0 {
        log.remove(0);
    }
    log.push(item);
    proof {
        if old(log)@.len() >= cap && old(log)@.len() > 0 {
            assert(final(log)@ =~= old(log)@.drop_first().push(item));
        }
    }
}

/// Appends `item` at the back of `log`, dropping the front entry first when
/// `log` holds `cap`.
pub fn push_back_bounded<T>(log: &mut VecDeque<T>, item: T, cap: usize)
    ensures
        final(log)@ == bounded_push(old(log)@, item, cap as nat),
{
    if log.len() >= cap && log.len() > 0 {
        let _ = log.pop_front();
    }
    log.push_back(item);
    proof {
        if old(log)@.len() >= cap && old(log)@.len() > 0 {
            assert(final(log)@ =~= old(log)@.drop_first().push(item));
        }
    }
}

/// A value that can be copied with a stated result.
pub trait Duplicate: Sized {
    fn duplicate(&self) -> (r: Self)
        ensures
            r == *self,
    ;
}

/// An element-by-element copy of `v`.
pub fn duplicate_all<T: Duplicate>(v: &Vec<T>) -> (r: Vec<T>)
    ensures
        r@ == v@,
{
    let mut r: Vec<T> = Vec::new();
    let mut i: usize = 0;
    while i < v.len()
        invariant
            i <= v@.len(),
            r@ == v@.subrange(0, i as int),
        decreases v@.len() - i,
    {
        r.push(v[i].duplicate());
        i = i + 1;
        assert(r@ =~= v@.subrange(0, i as int));
    }
    assert(v@.subrange(0, v@.len() as int) =~= v@);
    r
}

impl Duplicate for String {
    fn duplicate(&self) -> (r: Self) {
        self.clone()
    }
}

impl Duplicate for u32 {
    fn duplicate(&self) -> (r: Self) {
        *self
    }
}

/// A copy of an optional string.
pub fn duplicate_opt_string(o: &Option<String>) -> (r: Option<String>)
    ensures
        r == *o,
{
    match o {
        Some(s) => Some(s.clone()),
        None => None,
    }
}

/// The last `n` entries of `v`, most recent first.
pub fn latest_first<T: Duplicate>(v: &Vec<T>, n: usize) -> (r: Vec<T>)
    ensures
        r@ == latest(v@, n as nat),
{
    let len = v.len();
    let k: usize = if n < len { n } else { len };
    let mut r: Vec<T> = Vec::new();
    let mut i: usize = 0;
    while i < k
        invariant
            len == v@.len(),
            k <= len,
            k == (if n < len { n } else { len }),
            i <= k,
            r@.len() == i,
            forall|j: int| 0 <= j < i ==> r@[j] == v@[len - 1 - j],
        decreases k - i,
    {
        r.push(v[len - 1 - i].duplicate());
        i = i + 1;
    }
    assert(r@ =~= latest(v@, n as nat));
    r
}

/// The last `n` entries of `v`, most recent first.
pub fn latest_first_of<T: Duplicate>(v: &VecDeque<T>, n: usize) -> (r: Vec<T>)
    ensures
        r@ == latest(v@, n as nat),
{
    let len = v.len();
    let k: usize = if n < len { n } else { len };
    let mut r: Vec<T> = Vec::new();
    let mut i: usize = 0;
    while i < k
        invariant
            len == v@.len(),
            k <= len,
            k == (if n < len { n } else { len }),
            i <= k,
            r@.len() == i,
            forall|j: int| 0 <= j < i ==> r@[j] == v@[len - 1 - j],
        decreases k - i,
    {
        r.push(v[len - 1 - i].duplicate());
        i = i + 1;
    }
    assert(r@ =~= latest(v@, n as nat));
    r
}

} // verus!

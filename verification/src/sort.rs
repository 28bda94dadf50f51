//! Stable ordering of list items by a key, as `slice::sort_by_key` and
//! `slice::sort_by` give it.

use vstd::prelude::*;

use crate::text::{ascii_lower_seq, lower_chars};
use crate::text_std::chars_of;

verus! {

/// A key with a total preorder and an executable comparison.
pub trait SortKey: Sized {
    /// `self` may stand before `other`.
    spec fn key_le(self, other: Self) -> bool;

    proof fn lemma_total(a: Self, b: Self)
        ensures
            a.key_le(b) || b.key_le(a),
    ;

    proof fn lemma_trans(a: Self, b: Self, c: Self)
        requires
            a.key_le(b),
            b.key_le(c),
        ensures
            a.key_le(c),
    ;

    fn le(&self, other: &Self) -> (r: bool)
        ensures
            r == self.key_le(*other),
    ;
}

/// A value that can be copied; the copy has the same view as the value it copies.
pub trait Duplicate: View + Sized {
    fn duplicate(&self) -> (r: Self)
        ensures
            r@ == self@,
    ;
}

impl SortKey for i32 {
    open spec fn key_le(self, other: Self) -> bool {
        self <= other
    }

    proof fn lemma_total(a: Self, b: Self) {
    }

    proof fn lemma_trans(a: Self, b: Self, c: Self) {
    }

    fn le(&self, other: &Self) -> (r: bool) {
        *self <= *other
    }
}

/// Lexicographic order on character sequences by code point, the order of
/// `str`'s `Ord` (which compares the UTF-8 bytes).
pub open spec fn text_le(a: Seq<char>, b: Seq<char>) -> bool
    decreases a.len(),
{
    if a.len() == 0 {
        true
    } else if b.len() == 0 {
        false
    } else if a[0] != b[0] {
        a[0] < b[0]
    } else {
        text_le(a.drop_first(), b.drop_first())
    }
}

proof fn lemma_text_total(a: Seq<char>, b: Seq<char>)
    ensures
        text_le(a, b) || text_le(b, a),
    decreases a.len(),
{
    if a.len() > 0 && b.len() > 0 && a[0] == b[0] {
        lemma_text_total(a.drop_first(), b.drop_first());
    }
}

proof fn lemma_text_trans(a: Seq<char>, b: Seq<char>, c: Seq<char>)
    requires
        text_le(a, b),
        text_le(b, c),
    ensures
        text_le(a, c),
    decreases a.len(),
{
    if a.len() > 0 && b.len() > 0 && c.len() > 0 && a[0] == b[0] && b[0] == c[0] {
        lemma_text_trans(a.drop_first(), b.drop_first(), c.drop_first());
    }
}

/// Lexicographic comparison of two character vectors.
pub fn chars_le(a: &Vec<char>, b: &Vec<char>) -> (r: bool)
    ensures
        r == text_le(a@, b@),
{
    let mut i: usize = 0;
    assert(a@.skip(0) =~= a@);
    assert(b@.skip(0) =~= b@);
    while i < a.len() && i < b.len() && a[i] == b[i]
        invariant
            i <= a@.len(),
            i <= b@.len(),
            forall|j: int| 0 <= j < i ==> a@[j] == b@[j],
            text_le(a@, b@) == text_le(a@.skip(i as int), b@.skip(i as int)),
        decreases a@.len() - i,
    {
        assert(a@.skip(i as int).drop_first() =~= a@.skip(i as int + 1));
        assert(b@.skip(i as int).drop_first() =~= b@.skip(i as int + 1));
        i = i + 1;
    }
    if i == a.len() {
        true
    } else if i == b.len() {
        false
    } else {
        a[i] < b[i]
    }
}

impl SortKey for Vec<char> {
    open spec fn key_le(self, other: Self) -> bool {
        text_le(self@, other@)
    }

    proof fn lemma_total(a: Self, b: Self) {
        lemma_text_total(a@, b@);
    }

    proof fn lemma_trans(a: Self, b: Self, c: Self) {
        lemma_text_trans(a@, b@, c@);
    }

    fn le(&self, other: &Self) -> (r: bool) {
        chars_le(self, other)
    }
}

/// Order by text first, then by number.
pub struct TextThenIndex {
    pub text: String,
    pub index: i32,
}

impl SortKey for TextThenIndex {
    open spec fn key_le(self, other: Self) -> bool {
        ||| (text_le(self.text@, other.text@) && !text_le(other.text@, self.text@))
        ||| (text_le(self.text@, other.text@) && text_le(other.text@, self.text@) && self.index
            <= other.index)
    }

    proof fn lemma_total(a: Self, b: Self) {
        lemma_text_total(a.text@, b.text@);
    }

    proof fn lemma_trans(a: Self, b: Self, c: Self) {
        lemma_text_trans(a.text@, b.text@, c.text@);
        if text_le(c.text@, a.text@) {
            lemma_text_trans(c.text@, a.text@, b.text@);
            lemma_text_trans(b.text@, c.text@, a.text@);
        }
    }

    fn le(&self, other: &Self) -> (r: bool) {
        let x = chars_of(self.text.as_str());
        let y = chars_of(other.text.as_str());
        let ab = chars_le(&x, &y);
        let ba = chars_le(&y, &x);
        (ab && !ba) || (ab && ba && self.index <= other.index)
    }
}

/// `v` occurs in `p`.
pub open spec fn occurs(p: Seq<usize>, v: usize) -> bool {
    exists|i: int| 0 <= i < p.len() && #[trigger] p[i] == v
}

/// `p` lists every position below `n` exactly once.
pub open spec fn is_index_perm(p: Seq<usize>, n: nat) -> bool {
    &&& p.len() == n
    &&& forall|i: int| 0 <= i < p.len() ==> p[i] < n
    &&& forall|i: int, j: int| 0 <= i < j < p.len() ==> p[i] != p[j]
    &&& forall|v: usize| v < n ==> #[trigger] occurs(p, v)
}

/// Following `p`, keys never decrease, and items with equivalent keys keep
/// the relative order they had.
pub open spec fn stably_sorted<K: SortKey>(keys: Seq<K>, p: Seq<usize>) -> bool {
    forall|i: int, j: int|
        #![trigger p[i], p[j]]
        0 <= i < j < p.len() ==> keys[p[i] as int].key_le(keys[p[j] as int]) && (keys[p[j] as int].key_le(
            keys[p[i] as int],
        ) ==> p[i] < p[j])
}

/// `p` is the order in which a stable sort by `keys` visits the items.
pub open spec fn is_stable_order<K: SortKey>(keys: Seq<K>, p: Seq<usize>) -> bool {
    is_index_perm(p, keys.len()) && stably_sorted(keys, p)
}

/// The visiting order of a stable sort by `keys` (there is exactly one).
pub open spec fn sort_order<K: SortKey>(keys: Seq<K>) -> Seq<usize> {
    choose|p: Seq<usize>| is_stable_order(keys, p)
}

/// `items` stably sorted by `key`: keys never decrease, and items with
/// equivalent keys keep their relative order.
pub open spec fn sorted_by<T, K: SortKey>(items: Seq<T>, key: spec_fn(T) -> K) -> Seq<T> {
    let p = sort_order(items.map_values(key));
    Seq::new(p.len(), |i: int| items[p[i] as int])
}

proof fn lemma_stable_order_prefix<K: SortKey>(keys: Seq<K>, p1: Seq<usize>, p2: Seq<usize>, k: int)
    requires
        is_stable_order(keys, p1),
        is_stable_order(keys, p2),
        0 <= k < p1.len(),
    ensures
        forall|j: int| 0 <= j <= k ==> p1[j] == p2[j],
    decreases k,
{
    if k > 0 {
        lemma_stable_order_prefix(keys, p1, p2, k - 1);
    }
    let a = p1[k];
    let b = p2[k];
    if a != b {
        assert(b < keys.len());
        assert(occurs(p1, b));
        assert(occurs(p2, a));
        let i = choose|i: int| 0 <= i < p1.len() && #[trigger] p1[i] == b;
        let j = choose|j: int| 0 <= j < p2.len() && #[trigger] p2[j] == a;
        if i < k {
            assert(p2[i] == b);
        }
        if j < k {
            assert(p1[j] == a);
        }
        assert(i > k);
        assert(j > k);
        assert(keys[p1[k] as int].key_le(keys[p1[i] as int]));
        assert(keys[p2[k] as int].key_le(keys[p2[j] as int]));
        assert(false);
    }
}

/// A stable order is unique.
proof fn lemma_stable_order_unique<K: SortKey>(keys: Seq<K>, p1: Seq<usize>, p2: Seq<usize>)
    requires
        is_stable_order(keys, p1),
        is_stable_order(keys, p2),
    ensures
        p1 == p2,
{
    if p1.len() > 0 {
        lemma_stable_order_prefix(keys, p1, p2, p1.len() - 1);
    }
    assert(p1 =~= p2);
}

/// Scanning down from `pos`, the place where `v` goes among the items of
/// `p`: just after the last one whose key may stand before `v`'s.
pub open spec fn insert_pos<K: SortKey>(keys: Seq<K>, p: Seq<usize>, v: int, pos: int) -> int
    decreases pos,
{
    if pos > 0 && !keys[p[pos - 1] as int].key_le(keys[v]) {
        insert_pos(keys, p, v, pos - 1)
    } else {
        pos
    }
}

proof fn lemma_insert_pos<K: SortKey>(keys: Seq<K>, p: Seq<usize>, v: int, pos: int)
    requires
        0 <= pos <= p.len(),
        forall|q: int| pos <= q < p.len() ==> !keys[p[q] as int].key_le(#[trigger] keys[v]),
    ensures
        0 <= insert_pos(keys, p, v, pos) <= pos,
        forall|q: int|
            insert_pos(keys, p, v, pos) <= q < p.len() ==> !keys[p[q] as int].key_le(
                #[trigger] keys[v],
            ),
        insert_pos(keys, p, v, pos) > 0 ==> keys[p[insert_pos(keys, p, v, pos) - 1] as int].key_le(
            keys[v],
        ),
    decreases pos,
{
    if pos > 0 && !keys[p[pos - 1] as int].key_le(keys[v]) {
        lemma_insert_pos(keys, p, v, pos - 1);
    }
}

/// Every list of keys that a vector can hold has a stable order.
pub proof fn lemma_stable_order_exists<K: SortKey>(keys: Seq<K>)
    requires
        keys.len() <= usize::MAX,
    ensures
        exists|p: Seq<usize>| is_stable_order(keys, p),
    decreases keys.len(),
{
    if keys.len() == 0 {
        let p = Seq::<usize>::empty();
        assert(is_stable_order(keys, p));
    } else {
        let k = keys.len() - 1;
        let ks = keys.drop_last();
        lemma_stable_order_exists(ks);
        let p0 = choose|p: Seq<usize>| is_stable_order(ks, p);
        assert(forall|x: int| 0 <= x < k ==> ks[x] == keys[x]);
        lemma_insert_pos(keys, p0, k, p0.len() as int);
        let pos = insert_pos(keys, p0, k, p0.len() as int);
        assert forall|q: int| 0 <= q < pos implies #[trigger] keys[p0[q] as int].key_le(keys[k]) by {
            if q < pos - 1 {
                assert(ks[p0[q] as int].key_le(ks[p0[pos - 1] as int]));
                K::lemma_trans(keys[p0[q] as int], keys[p0[pos - 1] as int], keys[k]);
            }
        }
        assert forall|q: int| pos <= q < p0.len() implies #[trigger] keys[k].key_le(
            keys[p0[q] as int],
        ) by {
            K::lemma_total(keys[k], keys[p0[q] as int]);
        }
        let p = p0.insert(pos, k as usize);
        assert forall|i: int| 0 <= i < p.len() implies p[i] < keys.len() by {
            if i < pos {
                assert(p[i] == p0[i]);
            } else if i > pos {
                assert(p[i] == p0[i - 1]);
            }
        }
        assert forall|v: usize| v < keys.len() implies #[trigger] occurs(p, v) by {
            if v == k {
                assert(p[pos] == v);
            } else {
                assert(occurs(p0, v));
                let i0 = choose|i: int| 0 <= i < p0.len() && #[trigger] p0[i] == v;
                if i0 < pos {
                    assert(p[i0] == v);
                } else {
                    assert(p[i0 + 1] == v);
                }
            }
        }
        assert forall|i: int, j: int| 0 <= i < j < p.len() implies p[i] != p[j] by {
            if i < pos && j > pos {
                assert(p[j] == p0[j - 1]);
            } else if i > pos {
                assert(p[i] == p0[i - 1]);
                assert(p[j] == p0[j - 1]);
            } else if j < pos {
            } else if i == pos {
                assert(p[j] == p0[j - 1]);
            } else {
                assert(p[i] == p0[i]);
            }
        }
        assert forall|i: int, j: int|
            #![trigger p[i], p[j]]
            0 <= i < j < p.len() implies keys[p[i] as int].key_le(keys[p[j] as int]) && (keys[p[j] as int].key_le(
                keys[p[i] as int],
            ) ==> p[i] < p[j]) by {
            if i < pos && j < pos {
                assert(p[i] == p0[i] && p[j] == p0[j]);
            } else if i < pos && j == pos {
                assert(p[i] == p0[i]);
            } else if i < pos && j > pos {
                assert(p[i] == p0[i] && p[j] == p0[j - 1]);
            } else if i == pos {
                assert(p[j] == p0[j - 1]);
            } else {
                assert(p[i] == p0[i - 1] && p[j] == p0[j - 1]);
            }
        }
        assert(is_stable_order(keys, p));
    }
}

/// Any stable order is the one `sort_order` names.
pub proof fn lemma_sort_order_is<K: SortKey>(keys: Seq<K>, p: Seq<usize>)
    requires
        is_stable_order(keys, p),
    ensures
        sort_order(keys) == p,
{
    lemma_stable_order_unique(keys, sort_order(keys), p);
}

/// Items stably sorted by a key of their views; the result is given by views.
pub fn sort_views<T: Duplicate, K: SortKey>(
    items: &Vec<T>,
    keys: &Vec<K>,
    Ghost(key): Ghost<spec_fn(T::V) -> K>,
) -> (r: Vec<T>)
    requires
        keys@ == items@.map_values(|x: T| x@).map_values(key),
    ensures
        r@.map_values(|x: T| x@) == sorted_by(items@.map_values(|x: T| x@), key),
        r@.len() == items@.len(),
{
    let ghost vs = items@.map_values(|x: T| x@);
    let p = stable_order(keys);
    proof {
        lemma_sort_order_is(keys@, p@);
    }
    let r = take_in_order(items, &p);
    assert(r@.map_values(|x: T| x@) =~= sorted_by(vs, key));
    r
}

impl SortKey for String {
    open spec fn key_le(self, other: Self) -> bool {
        text_le(self@, other@)
    }

    proof fn lemma_total(a: Self, b: Self) {
        lemma_text_total(a@, b@);
    }

    proof fn lemma_trans(a: Self, b: Self, c: Self) {
        lemma_text_trans(a@, b@, c@);
    }

    fn le(&self, other: &Self) -> (r: bool) {
        chars_le(&chars_of(self.as_str()), &chars_of(other.as_str()))
    }
}

/// `items` stably sorted by the keys `keys`, which are the items' keys.
pub fn sort_items<T: Duplicate<V = T>, K: SortKey>(
    items: &Vec<T>,
    keys: &Vec<K>,
    Ghost(key): Ghost<spec_fn(T) -> K>,
) -> (r: Vec<T>)
    requires
        keys@ == items@.map_values(key),
        forall|x: T| #[trigger] x@ == x,
    ensures
        r@ == sorted_by(items@, key),
        r@.len() == items@.len(),
{
    let p = stable_order(keys);
    proof {
        lemma_sort_order_is(keys@, p@);
    }
    let r = take_in_order(items, &p);
    assert forall|i: int| 0 <= i < r@.len() implies r@[i] == sorted_by(items@, key)[i] by {
        assert(r@[i]@ == r@[i]);
        assert(items@[p@[i] as int]@ == items@[p@[i] as int]);
    }
    assert(r@ =~= sorted_by(items@, key));
    r
}

/// The visiting order of a stable sort by `keys`.
pub fn stable_order<K: SortKey>(keys: &Vec<K>) -> (p: Vec<usize>)
    ensures
        is_stable_order(keys@, p@),
{
    let n = keys.len();
    let mut p: Vec<usize> = Vec::new();
    let mut k: usize = 0;
    while k < n
        invariant
            n == keys@.len(),
            k <= n,
            p@.len() == k,
            forall|i: int| 0 <= i < p@.len() ==> p@[i] < k,
            forall|i: int, j: int| 0 <= i < j < p@.len() ==> p@[i] != p@[j],
            forall|v: usize| v < k ==> #[trigger] occurs(p@, v),
            stably_sorted(keys@, p@),
        decreases n - k,
    {
        let mut pos: usize = p.len();
        while pos > 0 && !keys[p[pos - 1]].le(&keys[k])
            invariant
                n == keys@.len(),
                k < n,
                p@.len() == k,
                pos <= p@.len(),
                forall|i: int| 0 <= i < p@.len() ==> p@[i] < k,
                forall|q: int|
                    pos <= q < p@.len() ==> !keys@[p@[q] as int].key_le(#[trigger] keys@[k as int]),
            decreases pos,
        {
            pos = pos - 1;
        }
        let ghost old_p = p@;
        proof {
            assert forall|q: int| 0 <= q < pos implies #[trigger] keys@[old_p[q] as int].key_le(
                keys@[k as int],
            ) by {
                if q < pos - 1 {
                    assert(keys@[old_p[q] as int].key_le(keys@[old_p[pos - 1] as int]));
                    K::lemma_trans(
                        keys@[old_p[q] as int],
                        keys@[old_p[pos - 1] as int],
                        keys@[k as int],
                    );
                }
            }
            assert forall|q: int| pos <= q < old_p.len() implies #[trigger] keys@[k as int].key_le(
                keys@[old_p[q] as int],
            ) by {
                K::lemma_total(keys@[k as int], keys@[old_p[q] as int]);
            }
        }
        p.insert(pos, k);
        proof {
            assert forall|i: int| 0 <= i < p@.len() implies p@[i] < k + 1 by {
                if i < pos {
                    assert(p@[i] == old_p[i]);
                } else if i > pos {
                    assert(p@[i] == old_p[i - 1]);
                }
            }
            assert forall|v: usize| v < k + 1 implies #[trigger] occurs(p@, v) by {
                if v == k {
                    assert(p@[pos as int] == v);
                } else {
                    assert(occurs(old_p, v));
                    let i0 = choose|i: int| 0 <= i < old_p.len() && #[trigger] old_p[i] == v;
                    if i0 < pos {
                        assert(p@[i0] == v);
                    } else {
                        assert(p@[i0 + 1] == v);
                    }
                }
            }
            assert forall|i: int, j: int| 0 <= i < j < p@.len() implies p@[i] != p@[j] by {
                if i < pos && j > pos {
                    assert(p@[j] == old_p[j - 1]);
                } else if i > pos {
                    assert(p@[i] == old_p[i - 1]);
                    assert(p@[j] == old_p[j - 1]);
                } else if j < pos {
                } else if i == pos {
                    assert(p@[j] == old_p[j - 1]);
                } else {
                    assert(p@[i] == old_p[i]);
                }
            }
            assert forall|i: int, j: int|
                #![trigger p@[i], p@[j]]
                0 <= i < j < p@.len() implies keys@[p@[i] as int].key_le(keys@[p@[j] as int]) && (
                keys@[p@[j] as int].key_le(keys@[p@[i] as int]) ==> p@[i] < p@[j]) by {
                if i < pos && j < pos {
                    assert(p@[i] == old_p[i] && p@[j] == old_p[j]);
                } else if i < pos && j == pos {
                    assert(p@[i] == old_p[i]);
                } else if i < pos && j > pos {
                    assert(p@[i] == old_p[i] && p@[j] == old_p[j - 1]);
                } else if i == pos {
                    assert(p@[j] == old_p[j - 1]);
                } else {
                    assert(p@[i] == old_p[i - 1] && p@[j] == old_p[j - 1]);
                }
            }
        }
        k = k + 1;
    }
    p
}

/// The items of `items` taken in the order `p`.
pub fn take_in_order<T: Duplicate>(items: &Vec<T>, p: &Vec<usize>) -> (r: Vec<T>)
    requires
        forall|i: int| 0 <= i < p@.len() ==> p@[i] < items@.len(),
    ensures
        r@.len() == p@.len(),
        forall|i: int| 0 <= i < r@.len() ==> #[trigger] r@[i]@ == items@[p@[i] as int]@,
{
    let mut r: Vec<T> = Vec::new();
    let mut i: usize = 0;
    while i < p.len()
        invariant
            i <= p@.len(),
            forall|j: int| 0 <= j < p@.len() ==> p@[j] < items@.len(),
            r@.len() == i,
            forall|j: int| 0 <= j < i ==> #[trigger] r@[j]@ == items@[p@[j] as int]@,
        decreases p@.len() - i,
    {
        r.push(items[p[i]].duplicate());
        i = i + 1;
    }
    r
}

/// Text compared without regard to ASCII case (as after
/// `to_ascii_lowercase`).
pub struct Caseless {
    pub text: String,
}

impl SortKey for Caseless {
    open spec fn key_le(self, other: Self) -> bool {
        text_le(ascii_lower_seq(self.text@), ascii_lower_seq(other.text@))
    }

    proof fn lemma_total(a: Self, b: Self) {
        lemma_text_total(ascii_lower_seq(a.text@), ascii_lower_seq(b.text@));
    }

    proof fn lemma_trans(a: Self, b: Self, c: Self) {
        lemma_text_trans(
            ascii_lower_seq(a.text@),
            ascii_lower_seq(b.text@),
            ascii_lower_seq(c.text@),
        );
    }

    fn le(&self, other: &Self) -> (r: bool) {
        let x = lower_chars(&chars_of(self.text.as_str()));
        let y = lower_chars(&chars_of(other.text.as_str()));
        chars_le(&x, &y)
    }
}

} // verus!

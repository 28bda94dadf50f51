//! Ordered lists of attributes and links: each item carries a listing index
//! that fixes its place, and editing keeps those indexes consistent.

use vstd::prelude::*;

use crate::sort::{sort_items, sorted_by, Duplicate};
use crate::types::{
    AttributeTemplate, EntityAttribute, EntityIncomingLink, EntityLink, EntityTemplateAttribute,
    EntityTemplateLink, SavedView,
};

verus! {

/// An item with a textual id.
pub trait Identified: Duplicate<V = Self> {
    spec fn item_id(self) -> Seq<char>;

    proof fn lemma_view_is_self(x: Self)
        ensures
            x@ == x,
    ;

    fn id_ref(&self) -> (r: &String)
        ensures
            r@ == self.item_id(),
    ;
}

/// An item of an ordered list: it has an id and a listing index.
pub trait ListItem: Identified {
    spec fn listing(self) -> i32;

    /// The item with its listing index replaced.
    spec fn with_listing(self, i: i32) -> Self;

    proof fn lemma_with_listing(x: Self, i: i32)
        ensures
            x.with_listing(i).listing() == i,
            x.with_listing(i).item_id() == x.item_id(),
    ;

    fn get_listing(&self) -> (r: i32)
        ensures
            r == self.listing(),
    ;

    fn set_listing(&mut self, i: i32)
        ensures
            *final(self) == old(self).with_listing(i),
    ;
}

impl Identified for AttributeTemplate {
    open spec fn item_id(self) -> Seq<char> {
        self.id@
    }

    proof fn lemma_view_is_self(x: Self) {
    }

    fn id_ref(&self) -> (r: &String) {
        &self.id
    }
}

impl Identified for SavedView {
    open spec fn item_id(self) -> Seq<char> {
        self.id@
    }

    proof fn lemma_view_is_self(x: Self) {
    }

    fn id_ref(&self) -> (r: &String) {
        &self.id
    }
}

impl Identified for EntityTemplateAttribute {
    open spec fn item_id(self) -> Seq<char> {
        self.id@
    }

    proof fn lemma_view_is_self(x: Self) {
    }

    fn id_ref(&self) -> (r: &String) {
        &self.id
    }
}

impl ListItem for EntityTemplateAttribute {
    open spec fn listing(self) -> i32 {
        self.listing_index
    }

    open spec fn with_listing(self, i: i32) -> Self {
        EntityTemplateAttribute { listing_index: i, ..self }
    }

    proof fn lemma_with_listing(x: Self, i: i32) {
    }

    fn get_listing(&self) -> (r: i32) {
        self.listing_index
    }

    fn set_listing(&mut self, i: i32) {
        self.listing_index = i;
    }
}

impl Identified for EntityTemplateLink {
    open spec fn item_id(self) -> Seq<char> {
        self.id@
    }

    proof fn lemma_view_is_self(x: Self) {
    }

    fn id_ref(&self) -> (r: &String) {
        &self.id
    }
}

impl ListItem for EntityTemplateLink {
    open spec fn listing(self) -> i32 {
        self.listing_index
    }

    open spec fn with_listing(self, i: i32) -> Self {
        EntityTemplateLink { listing_index: i, ..self }
    }

    proof fn lemma_with_listing(x: Self, i: i32) {
    }

    fn get_listing(&self) -> (r: i32) {
        self.listing_index
    }

    fn set_listing(&mut self, i: i32) {
        self.listing_index = i;
    }
}

impl Identified for EntityAttribute {
    open spec fn item_id(self) -> Seq<char> {
        self.id@
    }

    proof fn lemma_view_is_self(x: Self) {
    }

    fn id_ref(&self) -> (r: &String) {
        &self.id
    }
}

impl ListItem for EntityAttribute {
    open spec fn listing(self) -> i32 {
        self.listing_index
    }

    open spec fn with_listing(self, i: i32) -> Self {
        EntityAttribute { listing_index: i, ..self }
    }

    proof fn lemma_with_listing(x: Self, i: i32) {
    }

    fn get_listing(&self) -> (r: i32) {
        self.listing_index
    }

    fn set_listing(&mut self, i: i32) {
        self.listing_index = i;
    }
}

impl Identified for EntityLink {
    open spec fn item_id(self) -> Seq<char> {
        self.id@
    }

    proof fn lemma_view_is_self(x: Self) {
    }

    fn id_ref(&self) -> (r: &String) {
        &self.id
    }
}

impl ListItem for EntityLink {
    open spec fn listing(self) -> i32 {
        self.listing_index
    }

    open spec fn with_listing(self, i: i32) -> Self {
        EntityLink { listing_index: i, ..self }
    }

    proof fn lemma_with_listing(x: Self, i: i32) {
    }

    fn get_listing(&self) -> (r: i32) {
        self.listing_index
    }

    fn set_listing(&mut self, i: i32) {
        self.listing_index = i;
    }
}

impl Identified for EntityIncomingLink {
    open spec fn item_id(self) -> Seq<char> {
        self.id@
    }

    proof fn lemma_view_is_self(x: Self) {
    }

    fn id_ref(&self) -> (r: &String) {
        &self.id
    }
}

impl ListItem for EntityIncomingLink {
    open spec fn listing(self) -> i32 {
        self.listing_index
    }

    open spec fn with_listing(self, i: i32) -> Self {
        EntityIncomingLink { listing_index: i, ..self }
    }

    proof fn lemma_with_listing(x: Self, i: i32) {
    }

    fn get_listing(&self) -> (r: i32) {
        self.listing_index
    }

    fn set_listing(&mut self, i: i32) {
        self.listing_index = i;
    }
}

/// The listing index of an item, as a sort key.
pub open spec fn listing_key<T: ListItem>() -> spec_fn(T) -> i32 {
    |x: T| x.listing()
}

/// The items in listing order (a stable sort by listing index).
pub open spec fn by_listing<T: ListItem>(s: Seq<T>) -> Seq<T> {
    sorted_by(s, listing_key::<T>())
}

/// The items, each given its position as listing index (truncated to
/// `i32` as `usize as i32` does).
pub open spec fn renumbered<T: ListItem>(s: Seq<T>) -> Seq<T> {
    Seq::new(s.len(), |i: int| s[i].with_listing(i as i32))
}

/// Position of the first item with the given id, or -1 when there is none.
pub open spec fn index_of<T: Identified>(s: Seq<T>, id: Seq<char>) -> int
    decreases s.len(),
{
    if s.len() == 0 {
        -1
    } else {
        let k = index_of(s.drop_last(), id);
        if k >= 0 {
            k
        } else if s.last().item_id() == id {
            s.len() - 1
        } else {
            -1
        }
    }
}

/// The items whose id differs from `id`, in order (`Vec::retain`).
pub open spec fn without_id<T: Identified>(s: Seq<T>, id: Seq<char>) -> Seq<T> {
    s.filter(|x: T| x.item_id() != id)
}

/// The largest listing index, or -1 for an empty list.
pub open spec fn max_listing<T: ListItem>(s: Seq<T>) -> int
    decreases s.len(),
{
    if s.len() == 0 {
        -1
    } else {
        let m = max_listing(s.drop_last());
        if s.last().listing() > m {
            s.last().listing() as int
        } else {
            m
        }
    }
}

proof fn lemma_index_of_prefix<T: Identified>(s: Seq<T>, id: Seq<char>, k: int, m: int)
    requires
        0 <= k < m <= s.len(),
        index_of(s.take(k + 1), id) == k,
    ensures
        index_of(s.take(m), id) == k,
    decreases m - k,
{
    if m > k + 1 {
        lemma_index_of_prefix(s, id, k, m - 1);
        assert(s.take(m).drop_last() =~= s.take(m - 1));
    }
}

pub proof fn lemma_index_of_facts<T: Identified>(s: Seq<T>, id: Seq<char>)
    ensures
        -1 <= index_of(s, id) < s.len(),
        index_of(s, id) >= 0 ==> s[index_of(s, id)].item_id() == id,
        index_of(s, id) >= 0 ==> forall|j: int| 0 <= j < index_of(s, id) ==> #[trigger] s[j].item_id() != id,
        index_of(s, id) < 0 ==> forall|j: int| 0 <= j < s.len() ==> #[trigger] s[j].item_id() != id,
    decreases s.len(),
{
    if s.len() > 0 {
        let t = s.drop_last();
        lemma_index_of_facts(t, id);
        assert forall|j: int| 0 <= j < t.len() implies t[j] == s[j] by {}
    }
}

/// Position of the first item with id `id`.
pub fn find_index<T: Identified>(s: &Vec<T>, id: &String) -> (r: Option<usize>)
    ensures
        match r {
            Some(i) => i as int == index_of(s@, id@) && i < s@.len(),
            None => index_of(s@, id@) == -1,
        },
{
    let mut i: usize = 0;
    while i < s.len()
        invariant
            i <= s@.len(),
            index_of(s@.take(i as int), id@) == -1,
        decreases s@.len() - i,
    {
        assert(s@.take(i as int + 1).drop_last() =~= s@.take(i as int));
        if *s[i].id_ref() == *id {
            proof {
                lemma_index_of_prefix(s@, id@, i as int, s@.len() as int);
                assert(s@.take(s@.len() as int) =~= s@);
            }
            return Some(i);
        }
        i = i + 1;
    }
    assert(s@.take(i as int) =~= s@);
    None
}

/// The largest listing index plus one, or 0 for an empty list.
pub fn next_listing_index<T: ListItem>(s: &Vec<T>) -> (r: i32)
    requires
        max_listing(s@) < i32::MAX,
    ensures
        r == max_listing(s@) + 1,
{
    let mut m: i32 = -1;
    let mut i: usize = 0;
    while i < s.len()
        invariant
            i <= s@.len(),
            m == max_listing(s@.take(i as int)),
            max_listing(s@) < i32::MAX,
        decreases s@.len() - i,
    {
        assert(s@.take(i as int + 1).drop_last() =~= s@.take(i as int));
        let v = s[i].get_listing();
        if v > m {
            m = v;
        }
        i = i + 1;
    }
    assert(s@.take(i as int) =~= s@);
    m + 1
}

/// Gives every item its position as listing index.
pub fn renumber<T: ListItem>(s: &mut Vec<T>)
    ensures
        final(s)@ == renumbered(old(s)@),
{
    let mut i: usize = 0;
    while i < s.len()
        invariant
            i <= s@.len(),
            s@.len() == old(s)@.len(),
            forall|j: int| 0 <= j < i ==> #[trigger] s@[j] == old(s)@[j].with_listing(j as i32),
            forall|j: int| i <= j < s@.len() ==> #[trigger] s@[j] == old(s)@[j],
        decreases s@.len() - i,
    {
        #[verifier::truncate]
        let idx = i as i32;
        let mut item = s[i].duplicate();
        proof {
            T::lemma_view_is_self(item);
            T::lemma_view_is_self(s@[i as int]);
        }
        item.set_listing(idx);
        s.set(i, item);
        i = i + 1;
    }
    assert(s@ =~= renumbered(old(s)@));
}

/// The items in listing order.
pub fn in_listing_order<T: ListItem>(s: &Vec<T>) -> (r: Vec<T>)
    ensures
        r@ == by_listing(s@),
        r@.len() == s@.len(),
{
    let mut keys: Vec<i32> = Vec::new();
    let mut i: usize = 0;
    while i < s.len()
        invariant
            i <= s@.len(),
            keys@ == s@.take(i as int).map_values(listing_key::<T>()),
        decreases s@.len() - i,
    {
        keys.push(s[i].get_listing());
        assert(s@.take(i as int + 1).map_values(listing_key::<T>()) =~= s@.take(i as int).map_values(
            listing_key::<T>(),
        ).push(s@[i as int].listing()));
        i = i + 1;
    }
    assert(s@.take(i as int) =~= s@);
    assert forall|x: T| #[trigger] x@ == x by {
        T::lemma_view_is_self(x);
    }
    sort_items(s, &keys, Ghost(listing_key::<T>()))
}

/// Removes every item whose id is `id`.
pub fn remove_id<T: Identified>(s: &mut Vec<T>, id: &String)
    ensures
        final(s)@ == without_id(old(s)@, id@),
{
    let mut r: Vec<T> = Vec::new();
    let mut i: usize = 0;
    while i < s.len()
        invariant
            i <= s@.len(),
            s@ == old(s)@,
            r@ == without_id(s@.take(i as int), id@),
        decreases s@.len() - i,
    {
        assert(s@.take(i as int + 1).drop_last() =~= s@.take(i as int));
        reveal_with_fuel(Seq::filter, 1);
        if *s[i].id_ref() != *id {
            let x = s[i].duplicate();
            proof {
                T::lemma_view_is_self(x);
                T::lemma_view_is_self(s@[i as int]);
            }
            r.push(x);
        }
        assert(r@ == without_id(s@.take(i as int + 1), id@));
        i = i + 1;
    }
    assert(s@.take(i as int) =~= s@);
    *s = r;
}

/// Position of the first item that satisfies `p`, or -1 when none does.
pub open spec fn first_where<T>(s: Seq<T>, p: spec_fn(T) -> bool) -> int
    decreases s.len(),
{
    if s.len() == 0 {
        -1
    } else {
        let k = first_where(s.drop_last(), p);
        if k >= 0 {
            k
        } else if p(s.last()) {
            s.len() - 1
        } else {
            -1
        }
    }
}

/// Once the first match lies in a prefix, it stays the first match of any
/// longer prefix.
pub proof fn lemma_first_where_prefix<T>(s: Seq<T>, p: spec_fn(T) -> bool, k: int, m: int)
    requires
        0 <= k < m <= s.len(),
        first_where(s.take(k + 1), p) == k,
    ensures
        first_where(s.take(m), p) == k,
    decreases m - k,
{
    if m > k + 1 {
        lemma_first_where_prefix(s, p, k, m - 1);
        assert(s.take(m).drop_last() =~= s.take(m - 1));
    }
}

/// `first_where` is the first match, and -1 means there is none.
pub proof fn lemma_first_where<T>(s: Seq<T>, p: spec_fn(T) -> bool)
    ensures
        -1 <= first_where(s, p) < s.len(),
        first_where(s, p) >= 0 ==> p(s[first_where(s, p)]),
        first_where(s, p) >= 0 ==> forall|j: int| 0 <= j < first_where(s, p) ==> !p(#[trigger] s[j]),
        first_where(s, p) < 0 ==> forall|j: int| 0 <= j < s.len() ==> !p(#[trigger] s[j]),
    decreases s.len(),
{
    if s.len() > 0 {
        let t = s.drop_last();
        lemma_first_where(t, p);
        assert forall|j: int| 0 <= j < t.len() implies t[j] == s[j] by {}
    }
}

} // verus!

//! Stacking of modals and entity windows: each carries a z-index, the one
//! brought forward gets one more than the highest, and a new one opens on
//! top. Places and sizes on screen stay with the user interface.

use vstd::prelude::*;

use crate::entity_editor::EntityDetailsWindow;
use crate::modals::{close_popovers_of, without_popovers};
use crate::types::ModalContent;

verus! {

/// A modal window: what it shows, its id, title and stacking order.
#[derive(Clone, Debug)]
pub struct OpenModal {
    pub content: ModalContent,
    pub id: u32,
    pub title: String,
    pub z_index: u32,
}

/// Something drawn in a stack, with a z-index.
pub trait Layered {
    spec fn layer(&self) -> u32;

    fn z(&self) -> (r: u32)
        ensures
            r == self.layer(),
    ;
}

impl Layered for OpenModal {
    open spec fn layer(&self) -> u32 {
        self.z_index
    }

    fn z(&self) -> (r: u32) {
        self.z_index
    }
}

impl Layered for EntityDetailsWindow {
    open spec fn layer(&self) -> u32 {
        self.z_index
    }

    fn z(&self) -> (r: u32) {
        self.z_index
    }
}

/// The highest z-index of the items, or 20 when there are none.
pub open spec fn highest<T: Layered>(s: Seq<T>) -> int
    decreases s.len(),
{
    if s.len() == 0 {
        20
    } else if s.len() == 1 {
        s[0].layer() as int
    } else {
        let m = highest(s.drop_last());
        if s.last().layer() > m {
            s.last().layer() as int
        } else {
            m
        }
    }
}

/// `highest` is the largest z-index and belongs to one of the items.
pub proof fn lemma_highest<T: Layered>(s: Seq<T>)
    ensures
        s.len() == 0 ==> highest(s) == 20,
        s.len() > 0 ==> exists|i: int| 0 <= i < s.len() && highest(s) == #[trigger] s[i].layer(),
        forall|i: int| 0 <= i < s.len() ==> #[trigger] s[i].layer() <= highest(s),
    decreases s.len(),
{
    if s.len() > 1 {
        let t = s.drop_last();
        lemma_highest(t);
        assert forall|i: int| 0 <= i < t.len() implies t[i] == s[i] by {}
        if s.last().layer() <= highest(t) {
            let k = choose|i: int| 0 <= i < t.len() && highest(t) == #[trigger] t[i].layer();
            assert(s[k].layer() == highest(s));
        } else {
            assert(s[s.len() - 1].layer() == highest(s));
        }
    } else if s.len() == 1 {
        assert(s[0].layer() == highest(s));
    }
}

/// The z-index that brings an item in front of all others.
pub fn next_z_index<T: Layered>(items: &Vec<T>) -> (r: u32)
    requires
        highest(items@) < u32::MAX,
    ensures
        r == highest(items@) + 1,
{
    if items.len() == 0 {
        return 21;
    }
    let mut m: u32 = items[0].z();
    let mut i: usize = 1;
    while i < items.len()
        invariant
            1 <= i <= items@.len(),
            m == highest(items@.take(i as int)),
        decreases items@.len() - i,
    {
        assert(items@.take(i as int + 1).drop_last() =~= items@.take(i as int));
        let z = items[i].z();
        if z > m {
            m = z;
        }
        i = i + 1;
    }
    assert(items@.take(i as int) =~= items@);
    proof {
        assert(items@.take(1) =~= seq![items@[0]]);
    }
    m + 1
}

/// The z-index of the next modal: the highest open one plus one, or 21.
pub fn next_modal_z_index(modals: &Vec<OpenModal>) -> (r: u32)
    requires
        highest(modals@) < u32::MAX,
    ensures
        r == highest(modals@) + 1,
{
    next_z_index(modals)
}

/// Position of the first modal with the given id, or -1.
pub open spec fn modal_index(s: Seq<OpenModal>, id: u32) -> int
    decreases s.len(),
{
    if s.len() == 0 {
        -1
    } else {
        let k = modal_index(s.drop_last(), id);
        if k >= 0 {
            k
        } else if s.last().id == id {
            s.len() - 1
        } else {
            -1
        }
    }
}

proof fn lemma_modal_index_prefix(s: Seq<OpenModal>, id: u32, k: int, m: int)
    requires
        0 <= k < m <= s.len(),
        modal_index(s.take(k + 1), id) == k,
    ensures
        modal_index(s.take(m), id) == k,
    decreases m - k,
{
    if m > k + 1 {
        lemma_modal_index_prefix(s, id, k, m - 1);
        assert(s.take(m).drop_last() =~= s.take(m - 1));
    }
}

/// `modal_index` finds the first modal with the id, and -1 means none has it.
pub proof fn lemma_modal_index(s: Seq<OpenModal>, id: u32)
    ensures
        -1 <= modal_index(s, id) < s.len(),
        modal_index(s, id) >= 0 ==> s[modal_index(s, id)].id == id,
        modal_index(s, id) >= 0 ==> forall|j: int| 0 <= j < modal_index(s, id) ==> #[trigger] s[j].id != id,
        modal_index(s, id) < 0 ==> forall|j: int| 0 <= j < s.len() ==> #[trigger] s[j].id != id,
    decreases s.len(),
{
    if s.len() > 0 {
        let t = s.drop_last();
        lemma_modal_index(t, id);
        assert forall|j: int| 0 <= j < t.len() implies t[j] == s[j] by {}
    }
}

pub fn find_modal(modals: &Vec<OpenModal>, id: u32) -> (r: Option<usize>)
    ensures
        match r {
            Some(i) => i as int == modal_index(modals@, id) && i < modals@.len(),
            None => modal_index(modals@, id) == -1,
        },
{
    let mut i: usize = 0;
    while i < modals.len()
        invariant
            i <= modals@.len(),
            modal_index(modals@.take(i as int), id) == -1,
        decreases modals@.len() - i,
    {
        assert(modals@.take(i as int + 1).drop_last() =~= modals@.take(i as int));
        if modals[i].id == id {
            proof {
                lemma_modal_index_prefix(modals@, id, i as int, modals@.len() as int);
                assert(modals@.take(modals@.len() as int) =~= modals@);
            }
            return Some(i);
        }
        i = i + 1;
    }
    assert(modals@.take(i as int) =~= modals@);
    None
}

/// Brings the modal with the given id in front of all others; the list is
/// unchanged when no modal has that id.
pub fn raise_modal(modals: &mut Vec<OpenModal>, modal_id: u32)
    requires
        highest(old(modals)@) < u32::MAX,
    ensures
        modal_index(old(modals)@, modal_id) < 0 ==> final(modals)@ == old(modals)@,
        modal_index(old(modals)@, modal_id) >= 0 ==> final(modals)@ == old(modals)@.update(
            modal_index(old(modals)@, modal_id),
            OpenModal {
                z_index: (highest(old(modals)@) + 1) as u32,
                ..old(modals)@[modal_index(old(modals)@, modal_id)]
            },
        ),
{
    let z = next_modal_z_index(modals);
    match find_modal(modals, modal_id) {
        Some(i) => {
            let mut m = modals.remove(i);
            m.z_index = z;
            modals.insert(i, m);
        },
        None => {},
    }
}

/// Closes the popovers and menus of the modal with the given id.
pub fn close_modal_popovers(modals: &mut Vec<OpenModal>, modal_id: u32)
    ensures
        modal_index(old(modals)@, modal_id) < 0 ==> final(modals)@ == old(modals)@,
        modal_index(old(modals)@, modal_id) >= 0 ==> final(modals)@ == old(modals)@.update(
            modal_index(old(modals)@, modal_id),
            OpenModal {
                content: without_popovers(
                    old(modals)@[modal_index(old(modals)@, modal_id)].content,
                ),
                ..old(modals)@[modal_index(old(modals)@, modal_id)]
            },
        ),
{
    match find_modal(modals, modal_id) {
        Some(i) => {
            let mut m = modals.remove(i);
            close_popovers_of(&mut m.content);
            modals.insert(i, m);
        },
        None => {},
    }
}

/// Whether the item's id differs from `id`.
pub open spec fn other_modal(id: u32) -> spec_fn(OpenModal) -> bool {
    |m: OpenModal| m.id != id
}

/// Closes the modal with the given id (every modal with that id goes).
pub fn close_modal(modals: &mut Vec<OpenModal>, modal_id: u32)
    ensures
        final(modals)@ == old(modals)@.filter(other_modal(modal_id)),
{
    let ghost start = modals@;
    let ghost mut j: int = 0;
    let mut i: usize = 0;
    while i < modals.len()
        invariant
            0 <= i <= modals@.len(),
            0 <= j <= start.len(),
            modals@.take(i as int) == start.take(j).filter(other_modal(modal_id)),
            modals@.skip(i as int) == start.skip(j),
        decreases modals@.len() - i,
    {
        assert(modals@.skip(i as int).len() > 0);
        assert(j < start.len());
        assert(start.take(j + 1).drop_last() =~= start.take(j));
        assert(modals@.skip(i as int)[0] == modals@[i as int]);
        assert(start.skip(j)[0] == start[j]);
        reveal_with_fuel(Seq::filter, 1);
        let ghost before = modals@;
        let ghost i0 = i as int;
        assert(before.skip(i0 + 1) =~= before.skip(i0).skip(1));
        if modals[i].id == modal_id {
            modals.remove(i);
            assert(modals@.take(i as int) =~= before.take(i as int));
            assert(modals@.skip(i as int) =~= before.skip(i as int + 1));
        } else {
            assert(modals@.take(i as int + 1) =~= before.take(i as int).push(before[i as int]));
            i = i + 1;
        }
        assert(start.skip(j + 1) =~= start.skip(j).skip(1));
        proof {
            j = j + 1;
        }
    }
    assert(modals@.take(i as int) =~= modals@);
    assert(start.take(j) =~= start) by {
        assert(start.skip(j).len() == 0);
    }
}

/// The cascade step of a new modal: its place is shifted by this many steps,
/// going round after six.
pub fn cascade_step(id: u32) -> (r: u32)
    ensures
        r == (if id == 0 { 0 } else { (id - 1) as int }) % 6,
        r < 6,
{
    id.saturating_sub(1) % 6
}

/// Opens a new modal on top of the others and moves the id counter on.
pub fn open_modal(
    modals: &mut Vec<OpenModal>,
    next_modal_id: &mut u32,
    title: String,
    content: ModalContent,
)
    requires
        highest(old(modals)@) < u32::MAX,
        *old(next_modal_id) < u32::MAX,
    ensures
        *final(next_modal_id) == *old(next_modal_id) + 1,
        final(modals)@ == old(modals)@.push(
            OpenModal {
                content,
                id: *old(next_modal_id),
                title,
                z_index: (highest(old(modals)@) + 1) as u32,
            },
        ),
{
    let id = *next_modal_id;
    let z_index = next_modal_z_index(modals);
    *next_modal_id = id + 1;
    modals.push(OpenModal { content, id, title, z_index });
}

} // verus!

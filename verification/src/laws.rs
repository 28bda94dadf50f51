//! Properties that span several operations of the library.

use vstd::prelude::*;

use crate::explorer::{effective, new_view_id, page_count, view_holds, view_summary};
use crate::listing::{index_of, lemma_index_of_facts, renumbered, without_id, Identified, ListItem};
use crate::modals::{other_than, toggled_ids};
use crate::permissions::{holds_any, user_has_any};
use crate::sort::{is_index_perm, lemma_stable_order_exists, sort_order, sorted_by, SortKey};
use crate::stack::{highest, lemma_highest, lemma_modal_index, modal_index, Layered, OpenModal};
use crate::text::byte_len;
use crate::types::{AuthSession, Route, SavedView, Theme, User};
use crate::views::not_admin;

verus! {

/// Storing a theme by its name and reading the name back gives the same theme.
pub proof fn law_theme_name_round_trip(t: Theme)
    ensures
        (if t.spec_name() == "light"@ {
            Some(Theme::Light)
        } else if t.spec_name() == "dark"@ {
            Some(Theme::Dark)
        } else {
            None
        }) == Some(t),
{
    reveal_strlit("light");
    reveal_strlit("dark");
    assert("light"@[0] != "dark"@[0]);
}

/// The theme toggle always changes the theme, and toggling twice gives the
/// theme back.
pub proof fn law_theme_toggle(t: Theme)
    ensures
        other_theme(t) != t,
        other_theme(other_theme(t)) == t,
{
}

/// The theme the toggle switches to.
pub open spec fn other_theme(t: Theme) -> Theme {
    if t == Theme::Light {
        Theme::Dark
    } else {
        Theme::Light
    }
}

/// Navigating to a route and reloading the page at its path opens the same route.
pub proof fn law_route_path_round_trip(r: Route)
    ensures
        Route::spec_from_path(r.spec_path()) == r,
{
    reveal_strlit("/");
    reveal_strlit("/data-explorer");
    reveal_strlit("/templates");
    reveal_strlit("/types");
    reveal_strlit("/security");
    reveal_strlit("/audit");
    reveal_strlit("/user-profile");
    reveal_strlit("/profile");
    reveal_strlit("/login");
    match r {
        Route::Home => {
            assert("/"@.len() != "/data-explorer"@.len());
            assert("/"@.len() != "/templates"@.len());
            assert("/"@.len() != "/types"@.len());
            assert("/"@.len() != "/security"@.len());
            assert("/"@.len() != "/audit"@.len());
            assert("/"@.len() != "/user-profile"@.len());
            assert("/"@.len() != "/profile"@.len());
            assert("/"@.len() != "/login"@.len());
        },
        Route::DataExplorer => {},
        Route::Templates => {
            assert("/templates"@.len() != "/data-explorer"@.len());
        },
        Route::Security => {
            assert("/security"@[1] != "/data-explorer"@[1]);
            assert("/security"@[1] != "/templates"@[1]);
            assert("/security"@.len() != "/types"@.len());
        },
        Route::Audit => {
            assert("/audit"@[1] != "/data-explorer"@[1]);
            assert("/audit"@[1] != "/templates"@[1]);
            assert("/audit"@[1] != "/types"@[1]);
            assert("/audit"@[1] != "/security"@[1]);
        },
        Route::Profile => {
            assert("/user-profile"@[1] != "/data-explorer"@[1]);
            assert("/user-profile"@[1] != "/templates"@[1]);
            assert("/user-profile"@[1] != "/types"@[1]);
            assert("/user-profile"@[1] != "/security"@[1]);
            assert("/user-profile"@[1] != "/audit"@[1]);
        },
        Route::Login => {
            assert("/login"@[1] != "/data-explorer"@[1]);
            assert("/login"@[1] != "/templates"@[1]);
            assert("/login"@[1] != "/types"@[1]);
            assert("/login"@[1] != "/security"@[1]);
            assert("/login"@[1] != "/audit"@[1]);
            assert("/login"@[1] != "/user-profile"@[1]);
            assert("/login"@[1] != "/profile"@[1]);
        },
    }
}

/// Whoever may create entities or templates may also browse them, and
/// whoever may pick owners (an admin) may create.
pub proof fn law_rights_are_nested(session: Option<AuthSession>)
    ensures
        holds_any(session, seq!["Admin", "Editor", "Manage Own Data"]) ==> holds_any(
            session,
            seq!["Admin", "Editor", "Manage Own Data", "Viewer"],
        ),
        holds_any(session, seq!["Admin"]) ==> holds_any(
            session,
            seq!["Admin", "Editor", "Manage Own Data"],
        ),
        holds_any(session, seq!["Admin", "Editor"]) ==> holds_any(
            session,
            seq!["Admin", "Editor", "Manage Own Data"],
        ),
{
    let browse: Seq<&str> = seq!["Admin", "Editor", "Manage Own Data", "Viewer"];
    let create: Seq<&str> = seq!["Admin", "Editor", "Manage Own Data"];
    let admin: Seq<&str> = seq!["Admin"];
    let manage: Seq<&str> = seq!["Admin", "Editor"];
    if session is Some {
        let s = session->0;
        if user_has_any(s, create) {
            let (i, j) = choose|i: int, j: int|
                #![trigger s.user.permissions@[i], create[j]]
                0 <= i < s.user.permissions@.len() && 0 <= j < create.len() && create[j]@
                    == s.user.permissions@[i].name@;
            assert(browse[j] == create[j]);
        }
        if user_has_any(s, admin) {
            let (i, j) = choose|i: int, j: int|
                #![trigger s.user.permissions@[i], admin[j]]
                0 <= i < s.user.permissions@.len() && 0 <= j < admin.len() && admin[j]@
                    == s.user.permissions@[i].name@;
            assert(create[j] == admin[j]);
        }
        if user_has_any(s, manage) {
            let (i, j) = choose|i: int, j: int|
                #![trigger s.user.permissions@[i], manage[j]]
                0 <= i < s.user.permissions@.len() && 0 <= j < manage.len() && manage[j]@
                    == s.user.permissions@[i].name@;
            assert(create[j] == manage[j]);
        }
    }
}

/// Choosing an id that is not selected and then choosing it again leaves
/// the selection as it was; choosing a selected id unselects it.
pub proof fn law_toggle_twice(ids: Seq<u32>, id: u32)
    ensures
        !ids.contains(id) ==> toggled_ids(toggled_ids(ids, id), id) == ids,
        ids.contains(id) ==> !toggled_ids(ids, id).contains(id),
{
    broadcast use vstd::seq_lib::group_filter_ensures;

    if !ids.contains(id) {
        let pushed = ids.push(id);
        assert(pushed[ids.len() as int] == id);
        assert(pushed.contains(id));
        assert(pushed.drop_last() =~= ids);
        reveal_with_fuel(Seq::filter, 1);
        assert(pushed.filter(other_than(id)) =~= ids.filter(other_than(id)));
        lemma_filter_keeps_all(ids, id);
    } else {
        let f = ids.filter(other_than(id));
        if f.contains(id) {
            let k = choose|k: int| 0 <= k < f.len() && f[k] == id;
            assert(other_than(id)(f[k]));
        }
    }
}

proof fn lemma_filter_keeps_all(ids: Seq<u32>, id: u32)
    requires
        !ids.contains(id),
    ensures
        ids.filter(other_than(id)) == ids,
    decreases ids.len(),
{
    reveal_with_fuel(Seq::filter, 1);
    if ids.len() > 0 {
        let t = ids.drop_last();
        assert(!t.contains(id)) by {
            if t.contains(id) {
                let k = choose|k: int| 0 <= k < t.len() && t[k] == id;
                assert(ids[k] == id);
            }
        }
        lemma_filter_keeps_all(t, id);
        assert(ids.last() != id) by {
            assert(ids[ids.len() - 1] == ids.last());
        }
        assert(ids.filter(other_than(id)) =~= t.push(ids.last()));
        assert(t.push(ids.last()) =~= ids);
    } else {
        assert(ids.filter(other_than(id)) =~= ids);
    }
}

/// A modal brought to the front lies above every other open modal.
pub proof fn law_raised_modal_on_top(modals: Seq<OpenModal>, modal_id: u32)
    requires
        highest(modals) < u32::MAX,
        modal_index(modals, modal_id) >= 0,
    ensures
        ({
            let k = modal_index(modals, modal_id);
            let after = modals.update(
                k,
                OpenModal { z_index: (highest(modals) + 1) as u32, ..modals[k] },
            );
            forall|j: int| 0 <= j < after.len() && j != k ==> #[trigger] after[j].z_index < after[k].z_index
        }),
{
    lemma_highest(modals);
    lemma_modal_index(modals, modal_id);
    let k = modal_index(modals, modal_id);
    let after = modals.update(k, OpenModal { z_index: (highest(modals) + 1) as u32, ..modals[k] });
    assert forall|j: int| 0 <= j < after.len() && j != k implies #[trigger] after[j].z_index
        < after[k].z_index by {
        assert(after[j] == modals[j]);
        assert(modals[j].layer() <= highest(modals));
    }
}

/// Renumbering gives every item its position as listing index and keeps
/// its id.
pub proof fn law_renumbered_positions<T: ListItem>(s: Seq<T>)
    requires
        s.len() <= i32::MAX,
    ensures
        renumbered(s).len() == s.len(),
        forall|i: int| 0 <= i < s.len() ==> (#[trigger] renumbered(s)[i]).listing() == i && renumbered(s)[i].item_id() == s[i].item_id(),
{
    assert forall|i: int| 0 <= i < s.len() implies (#[trigger] renumbered(s)[i]).listing() == i && renumbered(s)[i].item_id() == s[i].item_id() by {
        T::lemma_with_listing(s[i], i as i32);
    }
}

/// The security page never lists the built-in admin user.
pub proof fn law_admin_never_listed(users: Seq<User>)
    ensures
        forall|i: int|
            0 <= i < users.filter(not_admin()).len() ==> (#[trigger] users.filter(not_admin())[i]).username@
                != "admin"@,
{
    broadcast use vstd::seq_lib::group_filter_ensures;

}

/// A new saved view can be read back: when no view has the new id yet, it
/// is the one found under that id, with the values that were saved.
pub proof fn law_saved_view_read_back(
    before: Seq<SavedView>,
    after: Seq<SavedView>,
    name: Seq<char>,
    description: Seq<char>,
    search: Seq<char>,
)
    requires
        after.len() == before.len() + 1,
        after.take(before.len() as int) == before,
        view_holds(after[before.len() as int], new_view_id(before.len()), name, description, search),
        forall|j: int| 0 <= j < before.len() ==> (#[trigger] before[j]).id@ != new_view_id(before.len()),
    ensures
        index_of(after, new_view_id(before.len())) == before.len(),
        view_summary(after, new_view_id(before.len())) == name,
{
    let n = before.len() as int;
    let id = new_view_id(before.len());
    lemma_index_of_facts(after, id);
    let k = index_of(after, id);
    if k >= 0 && k < n {
        assert(after[k] == after.take(n)[k]);
        assert(before[k].id@ != id);
    }
    if k < 0 {
        assert(after[n].id@ == id);
    }
}

/// A deleted saved view is gone: no view with its id remains.
pub proof fn law_deleted_view_gone(views: Seq<SavedView>, id: Seq<char>)
    ensures
        index_of(without_id(views, id), id) < 0,
{
    broadcast use vstd::seq_lib::group_filter_ensures;

    let rest = without_id(views, id);
    lemma_index_of_facts(rest, id);
    if index_of(rest, id) >= 0 {
        let k = index_of(rest, id);
        assert(rest[k].item_id() != id);
    }
}

/// The pages of ten hold every entity: there is at least one page, and
/// the last page is not empty unless there are no entities.
pub proof fn law_pages_cover(total: u32)
    ensures
        page_count(total) >= 1,
        page_count(total) * 10 >= total,
        total > 0 ==> (page_count(total) - 1) * 10 < total,
{
    if total > 0 {
        assert((total + 9) / 10 * 10 >= total) by (nonlinear_arith);
        assert(((total + 9) / 10 - 1) * 10 < total) by (nonlinear_arith)
            requires
                total > 0,
        ;
    }
}

/// The search sent to the server is empty or has at least three bytes.
pub proof fn law_effective_search(term: Seq<char>)
    ensures
        effective(term).len() == 0 || byte_len(effective(term)) >= 3,
{
}

/// Ordering a list by a key (as every list of the pages is ordered: by
/// name, by listing index) keeps every item, each as often as it occurred,
/// puts the keys in order, and leaves items with equivalent keys in the
/// order they had.
pub proof fn law_sorted_by<T, K: SortKey>(items: Seq<T>, key: spec_fn(T) -> K)
    requires
        items.len() <= usize::MAX,
    ensures
        sorted_by(items, key).len() == items.len(),
        exists|p: Seq<usize>|
            {
                &&& is_index_perm(p, items.len())
                &&& forall|i: int|
                    0 <= i < items.len() ==> #[trigger] sorted_by(items, key)[i] == items[p[i] as int]
                &&& forall|i: int, j: int|
                    0 <= i < j < items.len() && key(sorted_by(items, key)[j]).key_le(
                        key(sorted_by(items, key)[i]),
                    ) ==> p[i] < p[j]
            },
        forall|i: int, j: int|
            0 <= i < j < items.len() ==> key(#[trigger] sorted_by(items, key)[i]).key_le(
                key(#[trigger] sorted_by(items, key)[j]),
            ),
{
    let keys = items.map_values(key);
    lemma_stable_order_exists(keys);
    let p = sort_order(keys);
    let r = sorted_by(items, key);
    assert forall|i: int, j: int| 0 <= i < j < items.len() implies key(r[i]).key_le(key(r[j]))
        && (key(r[j]).key_le(key(r[i])) ==> p[i] < p[j]) by {
        assert(keys[p[i] as int] == key(items[p[i] as int]));
        assert(keys[p[j] as int] == key(items[p[j] as int]));
    }
    assert(is_index_perm(p, items.len()));
}

} // verus!

//! The data explorer: who may use it, the search and paging of the entity
//! list, saved views, starting a new entity and the entity rows.

use vstd::prelude::*;

use crate::entity_editor::{CreateEntitySource, CreateEntityState, EntityDetailsWindow, EntityTab};
use crate::stack::{highest, next_z_index};
use crate::listing::{
    by_listing, find_index, first_where, index_of, lemma_first_where_prefix, lemma_index_of_facts,
    remove_id, without_id,
};
use crate::permissions::{has_any_permission, holds_any, opt_session};
use crate::pickers::SingleSelectOption;
use crate::text::{byte_len, decimal, push_decimal, push_str, str_byte_len, to_string, trim, trim_str};
use crate::text_std::str_eq;
use crate::template_editor::ordered_attributes;
use crate::types::{
    dup_vec, AuthSession, Entity, EntityAttribute, EntityTemplate, EntityTemplateAttribute, SavedView,
};

verus! {

/// What the signed-in user may do in the data explorer.
#[derive(Clone, Copy, Debug)]
pub struct ExplorerAccess {
    pub is_authenticated: bool,
    pub is_authorized: bool,
    pub can_create: bool,
    pub can_assign_owner: bool,
}

/// Admins, editors, users who manage their own data and viewers may browse;
/// all but viewers may create entities; only admins may pick an owner.
pub fn explorer_access(session: Option<&AuthSession>) -> (r: ExplorerAccess)
    ensures
        r.is_authenticated == session is Some,
        r.is_authorized == holds_any(
            opt_session(session),
            seq!["Admin", "Editor", "Manage Own Data", "Viewer"],
        ),
        r.can_create == holds_any(opt_session(session), seq!["Admin", "Editor", "Manage Own Data"]),
        r.can_assign_owner == holds_any(opt_session(session), seq!["Admin"]),
{
    let browse: [&str; 4] = ["Admin", "Editor", "Manage Own Data", "Viewer"];
    let create: [&str; 3] = ["Admin", "Editor", "Manage Own Data"];
    let admin: [&str; 1] = ["Admin"];
    let is_authorized = has_any_permission(session, browse.as_slice());
    let can_create = has_any_permission(session, create.as_slice());
    let can_assign_owner = has_any_permission(session, admin.as_slice());
    proof {
        assert(browse@ =~= seq!["Admin", "Editor", "Manage Own Data", "Viewer"]);
        assert(create@ =~= seq!["Admin", "Editor", "Manage Own Data"]);
        assert(admin@ =~= seq!["Admin"]);
    }
    ExplorerAccess {
        is_authenticated: session.is_some(),
        is_authorized,
        can_create,
        can_assign_owner,
    }
}

/// The notice shown instead of a section the user may not see.
pub open spec fn denied_notice(is_authenticated: bool) -> Seq<char> {
    if is_authenticated {
        "You are not authorized to access this section."@
    } else {
        "You must be authenticated to access this section."@
    }
}

pub fn access_denied_notice(is_authenticated: bool) -> (r: &'static str)
    ensures
        r@ == denied_notice(is_authenticated),
{
    if is_authenticated {
        "You are not authorized to access this section."
    } else {
        "You must be authenticated to access this section."
    }
}

/// The search sent to the server: the typed text once it has at least
/// three bytes, else nothing.
pub open spec fn effective(term: Seq<char>) -> Seq<char> {
    if byte_len(term) >= 3 {
        term
    } else {
        Seq::empty()
    }
}

pub fn effective_search(term: &str) -> (r: String)
    ensures
        r@ == effective(term@),
{
    if str_byte_len(term) >= 3 {
        term.to_owned()
    } else {
        String::new()
    }
}

/// Pages of ten entities: at least one page.
pub open spec fn page_count(total: u32) -> int {
    if total == 0 {
        1
    } else {
        (total + 9) / 10
    }
}

pub fn total_pages(total: u32) -> (r: u32)
    ensures
        r == page_count(total),
{
    if total == 0 {
        1
    } else {
        (total - 1) / 10 + 1
    }
}

/// The pager shows only when there is more than one page of ten.
pub fn is_pager_shown(total: u32) -> (r: bool)
    ensures
        r == (total > 10),
{
    total > 10
}

/// The previous-page button is disabled on the first page.
pub fn is_previous_page_disabled(page: u32) -> (r: bool)
    ensures
        r == (page <= 1),
{
    page <= 1
}

/// The next-page button is disabled on the last page.
pub fn is_next_page_disabled(page: u32, total: u32) -> (r: bool)
    ensures
        r == (page >= page_count(total)),
{
    page >= total_pages(total)
}

/// A request for one page of the entity list.
#[derive(Clone, Debug)]
pub struct PageRequest {
    pub search: String,
    pub page: u32,
}

/// The search, paging and loading state of the entity list.
#[derive(Clone, Debug)]
pub struct ExplorerState {
    pub search_term: String,
    pub selected_view_id: String,
    pub is_saved_views_menu_open: bool,
    pub page: u32,
    pub total: u32,
    pub is_loading: bool,
    pub error: Option<String>,
}

/// The state right after a page request was sent.
pub open spec fn requesting(s: ExplorerState) -> bool {
    s.is_loading && s.error is None
}

/// A request for page `page` with search `search`.
pub open spec fn asks(r: PageRequest, search: Seq<char>, page: u32) -> bool {
    r.search@ == search && r.page == page
}

impl ExplorerState {
    /// The explorer as it opens: first page, no search; an authorized user's
    /// first page is requested at once.
    pub fn new(is_authorized: bool) -> (r: (ExplorerState, Option<PageRequest>))
        ensures
            r.0.search_term@ == Seq::<char>::empty(),
            r.0.selected_view_id@ == Seq::<char>::empty(),
            !r.0.is_saved_views_menu_open,
            r.0.page == 1,
            r.0.total == 0,
            r.0.is_loading == is_authorized,
            r.0.error is None,
            r.1 is Some <==> is_authorized,
            r.1 matches Some(q) ==> asks(q, Seq::empty(), 1),
    {
        let state = ExplorerState {
            search_term: String::new(),
            selected_view_id: String::new(),
            is_saved_views_menu_open: false,
            page: 1,
            total: 0,
            is_loading: is_authorized,
            error: None,
        };
        let request = if is_authorized {
            Some(PageRequest { search: String::new(), page: 1 })
        } else {
            None
        };
        (state, request)
    }

    fn start_request(&mut self, search: String, page: u32) -> (r: PageRequest)
        ensures
            *final(self) == (ExplorerState { is_loading: true, error: None, ..*old(self) }),
            r.search == search,
            r.page == page,
    {
        self.is_loading = true;
        self.error = None;
        PageRequest { search, page }
    }

    /// Opens or closes the saved-views menu.
    pub fn toggle_saved_views_menu(&mut self)
        ensures
            *final(self) == (ExplorerState {
                is_saved_views_menu_open: !old(self).is_saved_views_menu_open,
                ..*old(self)
            }),
    {
        self.is_saved_views_menu_open = !self.is_saved_views_menu_open;
    }

    /// The user typed in the search box: the saved view is deselected, the
    /// first page is requested with the effective search.
    pub fn on_search_input(&mut self, value: String) -> (r: PageRequest)
        ensures
            final(self).search_term@ == value@,
            final(self).selected_view_id@ == Seq::<char>::empty(),
            final(self).page == 1,
            final(self).total == old(self).total,
            final(self).is_saved_views_menu_open == old(self).is_saved_views_menu_open,
            requesting(*final(self)),
            asks(r, effective(value@), 1),
    {
        let search = effective_search(value.as_str());
        self.selected_view_id = String::new();
        self.search_term = value;
        self.page = 1;
        self.start_request(search, 1)
    }

    /// The user picked an entry of the saved-views menu. The empty value
    /// clears the search; a known view applies its search text; an unknown
    /// one only clears the selection. The menu closes.
    pub fn on_select_saved_view(&mut self, views: &Vec<SavedView>, value: &String) -> (r: Option<
        PageRequest,
    >)
        ensures
            !final(self).is_saved_views_menu_open,
            final(self).total == old(self).total,
            value@.len() == 0 ==> {
                &&& final(self).selected_view_id@ == Seq::<char>::empty()
                &&& final(self).search_term@ == Seq::<char>::empty()
                &&& final(self).page == 1
                &&& requesting(*final(self))
                &&& r matches Some(q) && asks(q, Seq::empty(), 1)
            },
            value@.len() > 0 && index_of(views@, value@) >= 0 ==> {
                let v = views@[index_of(views@, value@)];
                &&& final(self).selected_view_id@ == value@
                &&& final(self).search_term@ == v.search_text@
                &&& final(self).page == 1
                &&& requesting(*final(self))
                &&& r matches Some(q) && asks(q, v.search_text@, 1)
            },
            value@.len() > 0 && index_of(views@, value@) < 0 ==> {
                &&& *final(self) == (ExplorerState {
                    is_saved_views_menu_open: false,
                    selected_view_id: final(self).selected_view_id,
                    ..*old(self)
                })
                &&& final(self).selected_view_id@ == Seq::<char>::empty()
                &&& r is None
            },
    {
        self.is_saved_views_menu_open = false;
        if value.as_str().is_empty() {
            self.selected_view_id = String::new();
            self.search_term = String::new();
            self.page = 1;
            return Some(self.start_request(String::new(), 1));
        }
        match find_index(views, value) {
            Some(k) => {
                let search = views[k].search_text.clone();
                self.selected_view_id = value.clone();
                self.search_term = search.clone();
                self.page = 1;
                Some(self.start_request(search, 1))
            },
            None => {
                self.selected_view_id = String::new();
                None
            },
        }
    }

    /// Asks for the current page again.
    pub fn on_retry(&mut self) -> (r: PageRequest)
        ensures
            *final(self) == (ExplorerState { is_loading: true, error: None, ..*old(self) }),
            asks(r, effective(old(self).search_term@), old(self).page),
    {
        let search = effective_search(self.search_term.as_str());
        let page = self.page;
        self.start_request(search, page)
    }

    /// Goes one page back, if there is one.
    pub fn on_previous_page(&mut self) -> (r: Option<PageRequest>)
        ensures
            old(self).page <= 1 ==> r is None && *final(self) == *old(self),
            old(self).page > 1 ==> {
                &&& *final(self) == (ExplorerState {
                    page: (old(self).page - 1) as u32,
                    is_loading: true,
                    error: None,
                    ..*old(self)
                })
                &&& r matches Some(q) && asks(
                    q,
                    effective(old(self).search_term@),
                    (old(self).page - 1) as u32,
                )
            },
    {
        if self.page > 1 {
            let next = self.page - 1;
            self.page = next;
            let search = effective_search(self.search_term.as_str());
            Some(self.start_request(search, next))
        } else {
            None
        }
    }

    /// Goes one page forward, if there is one.
    pub fn on_next_page(&mut self) -> (r: Option<PageRequest>)
        ensures
            old(self).page >= page_count(old(self).total) ==> r is None && *final(self) == *old(
                self,
            ),
            old(self).page < page_count(old(self).total) ==> {
                &&& *final(self) == (ExplorerState {
                    page: (old(self).page + 1) as u32,
                    is_loading: true,
                    error: None,
                    ..*old(self)
                })
                &&& r matches Some(q) && asks(
                    q,
                    effective(old(self).search_term@),
                    (old(self).page + 1) as u32,
                )
            },
    {
        let pages = total_pages(self.total);
        if self.page < pages {
            let next = self.page + 1;
            self.page = next;
            let search = effective_search(self.search_term.as_str());
            Some(self.start_request(search, next))
        } else {
            None
        }
    }

    /// A page arrived (with the total count of entities), or the request
    /// failed with a message.
    pub fn on_page_loaded(&mut self, outcome: Result<u32, String>)
        ensures
            !final(self).is_loading,
            outcome matches Ok(t) ==> *final(self) == (ExplorerState {
                total: t,
                error: None,
                is_loading: false,
                ..*old(self)
            }),
            outcome matches Err(m) ==> *final(self) == (ExplorerState {
                error: Some(m),
                is_loading: false,
                ..*old(self)
            }),
    {
        match outcome {
            Ok(t) => {
                self.total = t;
                self.error = None;
            },
            Err(m) => {
                self.error = Some(m);
            },
        }
        self.is_loading = false;
    }
}

/// The saved-views menu: "Views" with the empty value, then each view.
pub fn saved_view_options(views: &Vec<SavedView>) -> (r: Vec<SingleSelectOption>)
    ensures
        r@.len() == views@.len() + 1,
        r@[0].label@ == "Views"@,
        r@[0].value@ == Seq::<char>::empty(),
        forall|i: int|
            0 <= i < views@.len() ==> (#[trigger] r@[i + 1]).label@ == views@[i].name@ && r@[i
                + 1].value@ == views@[i].id@,
{
    let mut r: Vec<SingleSelectOption> = Vec::new();
    r.push(SingleSelectOption { label: "Views".to_owned(), value: String::new() });
    let mut i: usize = 0;
    while i < views.len()
        invariant
            i <= views@.len(),
            r@.len() == i + 1,
            r@[0].label@ == "Views"@,
            r@[0].value@ == Seq::<char>::empty(),
            forall|k: int|
                0 <= k < i ==> (#[trigger] r@[k + 1]).label@ == views@[k].name@ && r@[k + 1].value@
                    == views@[k].id@,
        decreases views@.len() - i,
    {
        r.push(SingleSelectOption { label: views[i].name.clone(), value: views[i].id.clone() });
        i = i + 1;
    }
    r
}

/// The name of the selected view, or nothing.
pub open spec fn view_summary(views: Seq<SavedView>, selected_id: Seq<char>) -> Seq<char> {
    if index_of(views, selected_id) >= 0 {
        views[index_of(views, selected_id)].name@
    } else {
        Seq::empty()
    }
}

pub fn selected_view_summary(views: &Vec<SavedView>, selected_id: &String) -> (r: String)
    ensures
        r@ == view_summary(views@, selected_id@),
{
    match find_index(views, selected_id) {
        Some(k) => views[k].name.clone(),
        None => String::new(),
    }
}

/// The search box tooltip: the selected view's description, or its filter
/// when it has none; a hint when no view is selected.
pub open spec fn view_tooltip(views: Seq<SavedView>, selected_id: Seq<char>) -> Seq<char> {
    if index_of(views, selected_id) >= 0 {
        let v = views[index_of(views, selected_id)];
        if v.description@.len() == 0 {
            "View filter: "@ + v.search_text@
        } else {
            v.description@
        }
    } else {
        "Search through entities' attributes and links names and values"@
    }
}

pub fn selected_view_tooltip(views: &Vec<SavedView>, selected_id: &String) -> (r: String)
    ensures
        r@ == view_tooltip(views@, selected_id@),
{
    match find_index(views, selected_id) {
        Some(k) => {
            let v = &views[k];
            if v.description.as_str().is_empty() {
                let mut out: Vec<char> = Vec::new();
                push_str(&mut out, "View filter: ");
                push_str(&mut out, v.search_text.as_str());
                to_string(&out)
            } else {
                v.description.clone()
            }
        },
        None => "Search through entities' attributes and links names and values".to_owned(),
    }
}

/// The editor of the saved-views modal.
#[derive(Clone, Debug)]
pub struct ViewsEditor {
    pub selected_id: Option<String>,
    pub name_input: String,
    pub desc_input: String,
    pub search_input: String,
    pub form_error: Option<String>,
    /// The delete confirmation that is open: `list:` or `editor:` and a view id.
    pub delete_confirm_target: Option<String>,
}

/// `prefix` followed by `id`.
pub open spec fn keyed(prefix: Seq<char>, id: Seq<char>) -> Seq<char> {
    prefix + id
}

fn key_of(prefix: &str, id: &str) -> (r: String)
    ensures
        r@ == keyed(prefix@, id@),
{
    let mut out: Vec<char> = Vec::new();
    push_str(&mut out, prefix);
    push_str(&mut out, id);
    to_string(&out)
}

/// The saved view with id `id`, name, description and search text.
pub open spec fn view_holds(
    v: SavedView,
    id: Seq<char>,
    name: Seq<char>,
    description: Seq<char>,
    search_text: Seq<char>,
) -> bool {
    &&& v.id@ == id
    &&& v.name@ == name
    &&& v.description@ == description
    &&& v.search_text@ == search_text
}

/// The id given to a new saved view when `count` views exist.
pub open spec fn new_view_id(count: nat) -> Seq<char> {
    "sv-"@ + decimal((count + 1) as nat)
}

/// The message of a saved-view form that cannot be saved, if any.
pub open spec fn view_form_error(name: Seq<char>, search: Seq<char>) -> Option<Seq<char>> {
    if trim(name).len() == 0 {
        Some("Name is required"@)
    } else if trim(search).len() == 0 {
        Some("Search filter is required"@)
    } else {
        None
    }
}

impl ViewsEditor {
    /// An empty editor with nothing selected.
    pub fn new() -> (r: ViewsEditor)
        ensures
            r.selected_id is None,
            r.name_input@ == Seq::<char>::empty(),
            r.desc_input@ == Seq::<char>::empty(),
            r.search_input@ == Seq::<char>::empty(),
            r.form_error is None,
            r.delete_confirm_target is None,
    {
        ViewsEditor {
            selected_id: None,
            name_input: String::new(),
            desc_input: String::new(),
            search_input: String::new(),
            form_error: None,
            delete_confirm_target: None,
        }
    }

    /// Loads a view into the editor.
    pub fn pick_view(&mut self, view: &SavedView)
        ensures
            final(self).selected_id matches Some(id) && id@ == view.id@,
            final(self).name_input@ == view.name@,
            final(self).desc_input@ == view.description@,
            final(self).search_input@ == view.search_text@,
            final(self).form_error is None,
            final(self).delete_confirm_target == old(self).delete_confirm_target,
    {
        self.selected_id = Some(view.id.clone());
        self.name_input = view.name.clone();
        self.desc_input = view.description.clone();
        self.search_input = view.search_text.clone();
        self.form_error = None;
    }

    /// The user edited the name.
    pub fn set_name(&mut self, value: String)
        ensures
            *final(self) == (ViewsEditor { name_input: value, form_error: None, ..*old(self) }),
    {
        self.name_input = value;
        self.form_error = None;
    }

    /// The user edited the description.
    pub fn set_description(&mut self, value: String)
        ensures
            *final(self) == (ViewsEditor { desc_input: value, form_error: None, ..*old(self) }),
    {
        self.desc_input = value;
        self.form_error = None;
    }

    /// The user edited the search text.
    pub fn set_search(&mut self, value: String)
        ensures
            *final(self) == (ViewsEditor { search_input: value, form_error: None, ..*old(self) }),
    {
        self.search_input = value;
        self.form_error = None;
    }

    /// Copies the explorer's current search into the form.
    pub fn use_current_search(&mut self, current_search: &str)
        ensures
            final(self).search_input@ == current_search@,
            final(self).form_error is None,
            final(self).selected_id == old(self).selected_id,
            final(self).name_input == old(self).name_input,
            final(self).desc_input == old(self).desc_input,
            final(self).delete_confirm_target == old(self).delete_confirm_target,
    {
        self.search_input = current_search.to_owned();
        self.form_error = None;
    }

    /// Starts a new view from the explorer's current search.
    pub fn start_new_view(&mut self, current_search: &str)
        ensures
            final(self).selected_id is None,
            final(self).name_input@ == Seq::<char>::empty(),
            final(self).desc_input@ == Seq::<char>::empty(),
            final(self).search_input@ == current_search@,
            final(self).form_error is None,
            final(self).delete_confirm_target == old(self).delete_confirm_target,
    {
        self.selected_id = None;
        self.name_input = String::new();
        self.desc_input = String::new();
        self.search_input = current_search.to_owned();
        self.form_error = None;
    }

    /// Opens the delete confirmation of a view in the list.
    pub fn ask_delete_from_list(&mut self, view_id: &str)
        ensures
            final(self).delete_confirm_target matches Some(t) && t@ == keyed("list:"@, view_id@),
            *final(self) == (ViewsEditor {
                delete_confirm_target: final(self).delete_confirm_target,
                ..*old(self)
            }),
    {
        self.delete_confirm_target = Some(key_of("list:", view_id));
    }

    /// Opens the delete confirmation of the selected view, if any.
    pub fn ask_delete_from_editor(&mut self)
        ensures
            old(self).selected_id is None ==> *final(self) == *old(self),
            old(self).selected_id matches Some(id) ==> {
                &&& final(self).delete_confirm_target matches Some(t) && t@ == keyed(
                    "editor:"@,
                    id@,
                )
                &&& *final(self) == (ViewsEditor {
                    delete_confirm_target: final(self).delete_confirm_target,
                    ..*old(self)
                })
            },
    {
        match &self.selected_id {
            Some(id) => {
                let key = key_of("editor:", id.as_str());
                self.delete_confirm_target = Some(key);
            },
            None => {},
        }
    }

    /// Closes the delete confirmation.
    pub fn cancel_delete(&mut self)
        ensures
            *final(self) == (ViewsEditor { delete_confirm_target: None, ..*old(self) }),
    {
        self.delete_confirm_target = None;
    }

    /// Whether the delete confirmation of a listed view is open.
    pub fn is_list_confirm_open(&self, view_id: &str) -> (r: bool)
        ensures
            r == (self.delete_confirm_target matches Some(t) && t@ == keyed("list:"@, view_id@)),
    {
        match &self.delete_confirm_target {
            Some(t) => {
                let key = key_of("list:", view_id);
                str_eq(t.as_str(), key.as_str())
            },
            None => false,
        }
    }

    /// Whether the delete confirmation of the selected view is open.
    pub fn is_editor_confirm_open(&self) -> (r: bool)
        ensures
            r == (self.selected_id matches Some(id) && self.delete_confirm_target matches Some(t)
                && t@ == keyed("editor:"@, id@)),
    {
        match (&self.selected_id, &self.delete_confirm_target) {
            (Some(id), Some(t)) => {
                let key = key_of("editor:", id.as_str());
                str_eq(t.as_str(), key.as_str())
            },
            _ => false,
        }
    }

    /// The save button is enabled when the name is not blank.
    pub fn can_save(&self) -> (r: bool)
        ensures
            r == (trim(self.name_input@).len() > 0),
    {
        trim_str(self.name_input.as_str()).len() > 0
    }

    /// Saves the form: the name and the search text must not be blank. The
    /// selected view is updated, or a new view is added and selected. The
    /// values are trimmed. Returns whether the list changed and must be
    /// stored.
    pub fn save(&mut self, views: &mut Vec<SavedView>) -> (stored: bool)
        requires
            old(views)@.len() < u64::MAX,
        ensures
            stored == (view_form_error(old(self).name_input@, old(self).search_input@) is None),
            final(self).name_input == old(self).name_input,
            final(self).desc_input == old(self).desc_input,
            final(self).search_input == old(self).search_input,
            final(self).delete_confirm_target == old(self).delete_confirm_target,
            view_form_error(old(self).name_input@, old(self).search_input@) matches Some(m) ==> {
                &&& final(self).form_error matches Some(e) && e@ == m
                &&& final(self).selected_id == old(self).selected_id
                &&& final(views)@ == old(views)@
            },
            stored ==> final(self).form_error is None,
            stored && old(self).selected_id is Some ==> {
                let id = old(self).selected_id->0@;
                let k = index_of(old(views)@, id);
                &&& final(self).selected_id == old(self).selected_id
                &&& final(views)@.len() == old(views)@.len()
                &&& k < 0 ==> final(views)@ == old(views)@
                &&& k >= 0 ==> {
                    &&& forall|j: int|
                        0 <= j < old(views)@.len() && j != k ==> #[trigger] final(views)@[j]
                            == old(views)@[j]
                    &&& view_holds(
                        final(views)@[k],
                        id,
                        trim(old(self).name_input@),
                        trim(old(self).desc_input@),
                        trim(old(self).search_input@),
                    )
                }
            },
            stored && old(self).selected_id is None ==> {
                let n = old(views)@.len();
                &&& final(views)@.len() == n + 1
                &&& final(views)@.take(n as int) == old(views)@
                &&& view_holds(
                    final(views)@[n as int],
                    new_view_id(n),
                    trim(old(self).name_input@),
                    trim(old(self).desc_input@),
                    trim(old(self).search_input@),
                )
                &&& final(self).selected_id matches Some(s) && s@ == new_view_id(n)
            },
    {
        let name = trim_str(self.name_input.as_str());
        if name.len() == 0 {
            self.form_error = Some("Name is required".to_owned());
            return false;
        }
        let desc = trim_str(self.desc_input.as_str());
        let search = trim_str(self.search_input.as_str());
        if search.len() == 0 {
            self.form_error = Some("Search filter is required".to_owned());
            return false;
        }
        match &self.selected_id {
            Some(id) => {
                match find_index(views, id) {
                    Some(k) => {
                        proof {
                            lemma_index_of_facts(views@, id@);
                        }
                        let updated = SavedView {
                            description: to_string(&desc),
                            id: views[k].id.clone(),
                            name: to_string(&name),
                            search_text: to_string(&search),
                        };
                        views.set(k, updated);
                    },
                    None => {},
                }
            },
            None => {
                let count = views.len();
                let mut out: Vec<char> = Vec::new();
                push_str(&mut out, "sv-");
                push_decimal(&mut out, count as u64 + 1);
                let new_id = to_string(&out);
                views.push(
                    SavedView {
                        description: to_string(&desc),
                        id: new_id.clone(),
                        name: to_string(&name),
                        search_text: to_string(&search),
                    },
                );
                self.selected_id = Some(new_id);
                assert(views@.take(count as int) =~= old(views)@);
            },
        }
        self.form_error = None;
        true
    }

    /// Confirms deleting a view: the confirmation closes and the view goes.
    pub fn confirm_delete(&mut self, views: &mut Vec<SavedView>, view_id: &String)
        ensures
            final(self).delete_confirm_target is None,
            final(views)@ == without_id(old(views)@, view_id@),
            final(self).form_error is None,
            (old(self).selected_id matches Some(s) && s@ == view_id@) ==> {
                &&& final(self).selected_id is None
                &&& final(self).name_input@ == Seq::<char>::empty()
                &&& final(self).desc_input@ == Seq::<char>::empty()
                &&& final(self).search_input@ == Seq::<char>::empty()
            },
            !(old(self).selected_id matches Some(s) && s@ == view_id@) ==> {
                &&& final(self).selected_id == old(self).selected_id
                &&& final(self).name_input == old(self).name_input
                &&& final(self).desc_input == old(self).desc_input
                &&& final(self).search_input == old(self).search_input
            },
    {
        self.delete_confirm_target = None;
        delete_saved_view(views, self, view_id);
    }
}

/// Removes a saved view; if it was in the editor, the editor is cleared.
pub fn delete_saved_view(views: &mut Vec<SavedView>, editor: &mut ViewsEditor, view_id: &String)
    ensures
        final(views)@ == without_id(old(views)@, view_id@),
        final(editor).form_error is None,
        final(editor).delete_confirm_target == old(editor).delete_confirm_target,
        (old(editor).selected_id matches Some(s) && s@ == view_id@) ==> {
            &&& final(editor).selected_id is None
            &&& final(editor).name_input@ == Seq::<char>::empty()
            &&& final(editor).desc_input@ == Seq::<char>::empty()
            &&& final(editor).search_input@ == Seq::<char>::empty()
        },
        !(old(editor).selected_id matches Some(s) && s@ == view_id@) ==> {
            &&& final(editor).selected_id == old(editor).selected_id
            &&& final(editor).name_input == old(editor).name_input
            &&& final(editor).desc_input == old(editor).desc_input
            &&& final(editor).search_input == old(editor).search_input
        },
{
    remove_id(views, view_id);
    let is_selected = match &editor.selected_id {
        Some(s) => str_eq(s.as_str(), view_id.as_str()),
        None => false,
    };
    if is_selected {
        editor.selected_id = None;
        editor.name_input = String::new();
        editor.desc_input = String::new();
        editor.search_input = String::new();
    }
    editor.form_error = None;
}

/// Where a new entity starts from: the chosen source while there are
/// templates, from scratch otherwise.
pub open spec fn create_source(has_templates: bool, chosen: CreateEntitySource) -> CreateEntitySource {
    if has_templates {
        chosen
    } else {
        CreateEntitySource::Scratch
    }
}

pub fn effective_create_source(has_templates: bool, chosen: CreateEntitySource) -> (r:
    CreateEntitySource)
    ensures
        r == create_source(has_templates, chosen),
{
    if has_templates {
        chosen
    } else {
        CreateEntitySource::Scratch
    }
}

/// The continue button of the create-choice popover is enabled from
/// scratch, or for a template source once a template is chosen.
pub fn can_open_create(has_templates: bool, chosen: CreateEntitySource, selected_template_id: &str) -> (r:
    bool)
    ensures
        r == match create_source(has_templates, chosen) {
            CreateEntitySource::Template => has_templates && selected_template_id@.len() > 0,
            CreateEntitySource::Scratch => true,
        },
{
    match effective_create_source(has_templates, chosen) {
        CreateEntitySource::Template => has_templates && !selected_template_id.is_empty(),
        CreateEntitySource::Scratch => true,
    }
}

/// The template menu: one option per template, by name and id.
pub fn template_options(templates: &Vec<EntityTemplate>) -> (r: Vec<SingleSelectOption>)
    ensures
        r@.len() == templates@.len(),
        forall|i: int|
            0 <= i < templates@.len() ==> (#[trigger] r@[i]).label@ == templates@[i].name@
                && r@[i].value@ == templates@[i].id@,
{
    let mut r: Vec<SingleSelectOption> = Vec::new();
    let mut i: usize = 0;
    while i < templates.len()
        invariant
            i <= templates@.len(),
            r@.len() == i,
            forall|k: int|
                0 <= k < i ==> (#[trigger] r@[k]).label@ == templates@[k].name@ && r@[k].value@
                    == templates@[k].id@,
        decreases templates@.len() - i,
    {
        r.push(
            SingleSelectOption { label: templates[i].name.clone(), value: templates[i].id.clone() },
        );
        i = i + 1;
    }
    r
}

/// Holds of the template with the given id.
pub open spec fn has_template_id(id: Seq<char>) -> spec_fn(EntityTemplate) -> bool {
    |t: EntityTemplate| t.id@ == id
}

/// Position of the first template with the given id.
pub fn find_template(templates: &Vec<EntityTemplate>, id: &str) -> (r: Option<usize>)
    ensures
        match r {
            Some(i) => i as int == first_where(templates@, has_template_id(id@)) && i
                < templates@.len(),
            None => first_where(templates@, has_template_id(id@)) == -1,
        },
{
    let ghost p = has_template_id(id@);
    let mut i: usize = 0;
    while i < templates.len()
        invariant
            i <= templates@.len(),
            p == has_template_id(id@),
            first_where(templates@.take(i as int), p) == -1,
        decreases templates@.len() - i,
    {
        assert(templates@.take(i as int + 1).drop_last() =~= templates@.take(i as int));
        if str_eq(templates[i].id.as_str(), id) {
            proof {
                lemma_first_where_prefix(templates@, p, i as int, templates@.len() as int);
                assert(templates@.take(templates@.len() as int) =~= templates@);
            }
            return Some(i);
        }
        i = i + 1;
    }
    assert(templates@.take(i as int) =~= templates@);
    None
}

/// The name of the chosen template, or nothing.
pub fn template_summary(templates: &Vec<EntityTemplate>, selected_template_id: &str) -> (r: String)
    ensures
        first_where(templates@, has_template_id(selected_template_id@)) >= 0 ==> r@
            == templates@[first_where(templates@, has_template_id(selected_template_id@))].name@,
        first_where(templates@, has_template_id(selected_template_id@)) < 0 ==> r@
            == Seq::<char>::empty(),
{
    match find_template(templates, selected_template_id) {
        Some(k) => templates[k].name.clone(),
        None => String::new(),
    }
}

/// The template a new entity copies its attributes from, if any.
pub open spec fn chosen_template(
    templates: Seq<EntityTemplate>,
    chosen: CreateEntitySource,
    template_id: Seq<char>,
) -> Option<EntityTemplate> {
    let k = first_where(templates, has_template_id(template_id));
    if create_source(templates.len() > 0, chosen) == CreateEntitySource::Template && k >= 0 {
        Some(templates[k])
    } else {
        None
    }
}

/// How many fresh attribute ids a new entity needs.
pub open spec fn ids_needed(
    templates: Seq<EntityTemplate>,
    chosen: CreateEntitySource,
    template_id: Seq<char>,
) -> nat {
    match chosen_template(templates, chosen, template_id) {
        Some(t) => t.attributes@.len(),
        None => 0,
    }
}

pub fn attribute_ids_needed(
    templates: &Vec<EntityTemplate>,
    chosen: CreateEntitySource,
    template_id: &str,
) -> (r: usize)
    ensures
        r == ids_needed(templates@, chosen, template_id@),
{
    match effective_create_source(templates.len() > 0, chosen) {
        CreateEntitySource::Template => match find_template(templates, template_id) {
            Some(k) => templates[k].attributes.len(),
            None => 0,
        },
        CreateEntitySource::Scratch => 0,
    }
}

/// An entity attribute copied from a template attribute, with a new id and
/// an empty value.
pub open spec fn copied_attribute(t: EntityTemplateAttribute, id: Seq<char>, a: EntityAttribute) -> bool {
    &&& a.access_level_id == t.access_level_id
    &&& a.description@ == t.description@
    &&& a.id@ == id
    &&& a.is_required == t.is_required
    &&& a.listing_index == t.listing_index
    &&& a.name@ == t.name@
    &&& a.value@ == Seq::<char>::empty()
    &&& a.value_type@ == t.value_type@
}

/// Position of the last attribute with the given id, or -1.
pub open spec fn last_with_id(s: Seq<EntityTemplateAttribute>, id: Seq<char>) -> int
    decreases s.len(),
{
    if s.len() == 0 {
        -1
    } else if s.last().id@ == id {
        s.len() - 1
    } else {
        last_with_id(s.drop_last(), id)
    }
}

/// The listing attribute of a new entity: the copy of the template's listing
/// attribute, else the first attribute, else none.
pub open spec fn new_listing_id(
    sorted: Seq<EntityTemplateAttribute>,
    ids: Seq<String>,
    listing_attribute_id: Seq<char>,
) -> Seq<char> {
    let k = last_with_id(sorted, listing_attribute_id);
    let found = if k >= 0 {
        ids[k]@
    } else {
        Seq::empty()
    };
    if found.len() > 0 {
        found
    } else if sorted.len() > 0 {
        ids[0]@
    } else {
        Seq::empty()
    }
}

/// The state of the create-entity modal as it opens.
pub open spec fn create_state_opened(
    templates: Seq<EntityTemplate>,
    chosen: CreateEntitySource,
    template_id: Seq<char>,
    ids: Seq<String>,
    r: CreateEntityState,
) -> bool {
    &&& r.source == create_source(templates.len() > 0, chosen)
    &&& r.entity_template_id@ == template_id
    &&& r.error is None
    &&& !r.is_saving
    &&& r.active_tab == EntityTab::Attributes
    &&& r.open_access_level_menu_id is None
    &&& r.open_value_type_menu_id is None
    &&& !r.is_listing_attribute_menu_open
    &&& match chosen_template(templates, chosen, template_id) {
        Some(t) => {
            let sorted = by_listing(t.attributes@);
            &&& r.attributes@.len() == sorted.len()
            &&& forall|k: int|
                0 <= k < sorted.len() ==> copied_attribute(sorted[k], ids[k]@, #[trigger] r.attributes@[k])
            &&& r.listing_attribute_id@ == new_listing_id(sorted, ids, t.listing_attribute_id@)
        },
        None => r.attributes@.len() == 0 && r.listing_attribute_id@ == Seq::<char>::empty(),
    }
}

/// Opens the create-entity modal. From a template, the template's
/// attributes are copied in listing order, each with the next fresh id and
/// an empty value; the copy of the template's listing attribute becomes the
/// listing attribute, else the first one.
pub fn open_create_entity(
    templates: &Vec<EntityTemplate>,
    chosen: CreateEntitySource,
    template_id: &String,
    fresh_ids: &Vec<String>,
) -> (r: CreateEntityState)
    requires
        fresh_ids@.len() >= ids_needed(templates@, chosen, template_id@),
    ensures
        create_state_opened(templates@, chosen, template_id@, fresh_ids@, r),
{
    let source = effective_create_source(templates.len() > 0, chosen);
    let mut attributes: Vec<EntityAttribute> = Vec::new();
    let mut listing_attribute_id = String::new();
    let found = match source {
        CreateEntitySource::Template => find_template(templates, template_id.as_str()),
        CreateEntitySource::Scratch => None,
    };
    match found {
        Some(t) => {
            let template = &templates[t];
            let sorted = ordered_attributes(template);
            let listing = &template.listing_attribute_id;
            let mut i: usize = 0;
            while i < sorted.len()
                invariant
                    i <= sorted@.len(),
                    sorted@.len() <= fresh_ids@.len(),
                    attributes@.len() == i,
                    forall|k: int|
                        0 <= k < i ==> copied_attribute(sorted@[k], fresh_ids@[k]@, #[trigger] attributes@[k]),
                    listing_attribute_id@ == (if last_with_id(sorted@.take(i as int), listing@) >= 0 {
                        fresh_ids@[last_with_id(sorted@.take(i as int), listing@)]@
                    } else {
                        Seq::<char>::empty()
                    }),
                    last_with_id(sorted@.take(i as int), listing@) < i,
                decreases sorted@.len() - i,
            {
                assert(sorted@.take(i as int + 1).drop_last() =~= sorted@.take(i as int));
                let ta = &sorted[i];
                let id = fresh_ids[i].clone();
                if str_eq(ta.id.as_str(), listing.as_str()) {
                    listing_attribute_id = id.clone();
                }
                attributes.push(
                    EntityAttribute {
                        access_level_id: ta.access_level_id,
                        description: ta.description.clone(),
                        id,
                        is_required: ta.is_required,
                        listing_index: ta.listing_index,
                        name: ta.name.clone(),
                        value: String::new(),
                        value_type: ta.value_type.clone(),
                    },
                );
                i = i + 1;
            }
            assert(sorted@.take(i as int) =~= sorted@);
            if listing_attribute_id.as_str().is_empty() && attributes.len() > 0 {
                listing_attribute_id = attributes[0].id.clone();
            }
        },
        None => {},
    }
    CreateEntityState {
        source,
        entity_template_id: template_id.clone(),
        attributes,
        listing_attribute_id,
        error: None,
        is_saving: false,
        active_tab: EntityTab::Attributes,
        open_access_level_menu_id: None,
        open_value_type_menu_id: None,
        is_listing_attribute_menu_open: false,
    }
}

/// What a row of the entity table shows.
#[derive(Clone, Debug)]
pub struct EntityRowSummary {
    pub listing_name: String,
    pub listing_value: String,
    pub outgoing: u32,
    pub incoming: u32,
    pub outgoing_tooltip: String,
    pub incoming_tooltip: String,
}

/// The number of outgoing links: the count the server gave, else the links
/// carried (as `usize as u32` counts them).
pub open spec fn outgoing_count(e: Entity) -> u32 {
    match e.outgoing_links_count {
        Some(n) => n,
        None => e.links@.len() as u32,
    }
}

/// The number of incoming links: the count the server gave, else the
/// incoming links carried, else none.
pub open spec fn incoming_count(e: Entity) -> u32 {
    match e.incoming_links_count {
        Some(n) => n,
        None => match e.incoming_links {
            Some(l) => l@.len() as u32,
            None => 0,
        },
    }
}

/// "1 outgoing link", "2 outgoing links" and the like.
pub open spec fn links_tooltip(n: u32, direction: Seq<char>) -> Seq<char> {
    decimal(n as nat) + seq![' '] + direction + seq![' '] + (if n == 1 {
        "link"@
    } else {
        "links"@
    })
}

fn links_text(n: u32, direction: &str) -> (r: String)
    ensures
        r@ == links_tooltip(n, direction@),
{
    let mut out: Vec<char> = Vec::new();
    push_decimal(&mut out, n as u64);
    out.push(' ');
    push_str(&mut out, direction);
    out.push(' ');
    if n == 1 {
        push_str(&mut out, "link");
    } else {
        push_str(&mut out, "links");
    }
    to_string(&out)
}

/// The row of an entity: the name and value of its listing attribute, and
/// its link counts.
pub fn entity_row_summary(entity: &Entity) -> (r: EntityRowSummary)
    ensures
        index_of(entity.attributes@, entity.listing_attribute_id@) >= 0 ==> {
            let a = entity.attributes@[index_of(entity.attributes@, entity.listing_attribute_id@)];
            r.listing_name@ == a.name@ && r.listing_value@ == a.value@
        },
        index_of(entity.attributes@, entity.listing_attribute_id@) < 0 ==> r.listing_name@
            == Seq::<char>::empty() && r.listing_value@ == Seq::<char>::empty(),
        r.outgoing == outgoing_count(*entity),
        r.incoming == incoming_count(*entity),
        r.outgoing_tooltip@ == links_tooltip(r.outgoing, "outgoing"@),
        r.incoming_tooltip@ == links_tooltip(r.incoming, "incoming"@),
{
    let (listing_name, listing_value) = match find_index(&entity.attributes, &entity.listing_attribute_id) {
        Some(k) => (entity.attributes[k].name.clone(), entity.attributes[k].value.clone()),
        None => (String::new(), String::new()),
    };
    let outgoing = match entity.outgoing_links_count {
        Some(n) => n,
        None => entity.links.len() as u32,
    };
    let incoming = match entity.incoming_links_count {
        Some(n) => n,
        None => match &entity.incoming_links {
            Some(l) => l.len() as u32,
            None => 0,
        },
    };
    EntityRowSummary {
        listing_name,
        listing_value,
        outgoing,
        incoming,
        outgoing_tooltip: links_text(outgoing, "outgoing"),
        incoming_tooltip: links_text(incoming, "incoming"),
    }
}

/// Holds of the window that shows the given entity.
pub open spec fn shows_entity(entity_id: Seq<char>) -> spec_fn(EntityDetailsWindow) -> bool {
    |w: EntityDetailsWindow| w.entity_id@ == entity_id
}

/// Holds of the window with the given id.
pub open spec fn has_window_id(id: Seq<char>) -> spec_fn(EntityDetailsWindow) -> bool {
    |w: EntityDetailsWindow| w.id@ == id
}

fn find_window(windows: &Vec<EntityDetailsWindow>, key: &str, by_entity: bool) -> (r: Option<usize>)
    ensures
        ({
            let p = if by_entity {
                shows_entity(key@)
            } else {
                has_window_id(key@)
            };
            match r {
                Some(i) => i as int == first_where(windows@, p) && i < windows@.len(),
                None => first_where(windows@, p) == -1,
            }
        }),
{
    let ghost p = if by_entity {
        shows_entity(key@)
    } else {
        has_window_id(key@)
    };
    let mut i: usize = 0;
    while i < windows.len()
        invariant
            i <= windows@.len(),
            p == (if by_entity {
                shows_entity(key@)
            } else {
                has_window_id(key@)
            }),
            first_where(windows@.take(i as int), p) == -1,
        decreases windows@.len() - i,
    {
        assert(windows@.take(i as int + 1).drop_last() =~= windows@.take(i as int));
        let w = &windows[i];
        let hit = if by_entity {
            str_eq(w.entity_id.as_str(), key)
        } else {
            str_eq(w.id.as_str(), key)
        };
        if hit {
            proof {
                lemma_first_where_prefix(windows@, p, i as int, windows@.len() as int);
                assert(windows@.take(windows@.len() as int) =~= windows@);
            }
            return Some(i);
        }
        i = i + 1;
    }
    assert(windows@.take(i as int) =~= windows@);
    None
}

/// The id of the `n`th entity window.
pub open spec fn window_id(n: u32) -> Seq<char> {
    "entity-window-"@ + decimal(n as nat)
}

/// A window just opened for an entity: loading, on its attributes tab,
/// nothing open, nothing being edited.
pub open spec fn fresh_window(w: EntityDetailsWindow, id: Seq<char>, entity_id: Seq<char>, z: int) -> bool {
    &&& w.id@ == id
    &&& w.entity_id@ == entity_id
    &&& w.entity is None
    &&& w.active_tab == EntityTab::Attributes
    &&& w.error is None
    &&& w.is_loading
    &&& !w.is_delete_confirm_open
    &&& !w.is_info_open
    &&& !w.is_owner_open
    &&& !w.is_edit_mode
    &&& w.z_index == z
    &&& w.edit_attributes@.len() == 0
    &&& w.edit_error is None
    &&& !w.is_saving
    &&& w.revealed_attribute_ids@.len() == 0
    &&& w.edit_open_access_level_menu_id is None
    &&& w.edit_open_value_type_menu_id is None
    &&& w.edit_listing_attribute_id@ == Seq::<char>::empty()
    &&& w.dragged_edit_attribute_id is None
}

/// Opens the details window of an entity. A window already showing the
/// entity is brought to the front instead. Returns the id of a new window,
/// whose entity is then fetched.
pub fn open_entity_details_window(
    windows: &mut Vec<EntityDetailsWindow>,
    next_window_id: &mut u32,
    entity_id: &str,
) -> (r: Option<String>)
    requires
        highest(old(windows)@) < u32::MAX,
        *old(next_window_id) < u32::MAX,
    ensures
        ({
            let k = first_where(old(windows)@, shows_entity(entity_id@));
            &&& k >= 0 ==> {
                &&& r is None
                &&& *final(next_window_id) == *old(next_window_id)
                &&& final(windows)@ == old(windows)@.update(
                    k,
                    EntityDetailsWindow {
                        z_index: (highest(old(windows)@) + 1) as u32,
                        ..old(windows)@[k]
                    },
                )
            }
            &&& k < 0 ==> {
                let n = old(windows)@.len();
                &&& r matches Some(id) && id@ == window_id(*old(next_window_id))
                &&& *final(next_window_id) == *old(next_window_id) + 1
                &&& final(windows)@.len() == n + 1
                &&& final(windows)@.take(n as int) == old(windows)@
                &&& fresh_window(
                    final(windows)@[n as int],
                    window_id(*old(next_window_id)),
                    entity_id@,
                    highest(old(windows)@) + 1,
                )
            }
        }),
{
    let z_index = next_z_index(windows);
    match find_window(windows, entity_id, true) {
        Some(k) => {
            let mut w = windows.remove(k);
            w.z_index = z_index;
            windows.insert(k, w);
            None
        },
        None => {
            let n = *next_window_id;
            *next_window_id = n + 1;
            let mut out: Vec<char> = Vec::new();
            push_str(&mut out, "entity-window-");
            push_decimal(&mut out, n as u64);
            let id = to_string(&out);
            let count = windows.len();
            windows.push(
                EntityDetailsWindow {
                    id: id.clone(),
                    entity_id: entity_id.to_owned(),
                    entity: None,
                    active_tab: EntityTab::Attributes,
                    error: None,
                    is_loading: true,
                    is_delete_confirm_open: false,
                    is_info_open: false,
                    is_owner_open: false,
                    is_edit_mode: false,
                    z_index,
                    edit_attributes: Vec::new(),
                    edit_error: None,
                    is_saving: false,
                    revealed_attribute_ids: Vec::new(),
                    edit_open_access_level_menu_id: None,
                    edit_open_value_type_menu_id: None,
                    edit_listing_attribute_id: String::new(),
                    dragged_edit_attribute_id: None,
                },
            );
            assert(windows@.take(count as int) =~= old(windows)@);
            Some(id)
        },
    }
}

/// The fetch of a window's entity finished: the window shows the entity and
/// starts editing from its attributes, or shows the error. Nothing changes
/// when the window was closed meanwhile.
pub fn entity_window_loaded(
    windows: &mut Vec<EntityDetailsWindow>,
    window_id: &str,
    outcome: Result<Entity, String>,
)
    ensures
        ({
            let k = first_where(old(windows)@, has_window_id(window_id@));
            &&& k < 0 ==> final(windows)@ == old(windows)@
            &&& k >= 0 ==> {
                &&& final(windows)@.len() == old(windows)@.len()
                &&& forall|j: int|
                    0 <= j < old(windows)@.len() && j != k ==> #[trigger] final(windows)@[j]
                        == old(windows)@[j]
                &&& outcome matches Ok(e) ==> final(windows)@[k] == (EntityDetailsWindow {
                    edit_attributes: final(windows)@[k].edit_attributes,
                    entity: Some(e),
                    is_loading: false,
                    ..old(windows)@[k]
                }) && final(windows)@[k].edit_attributes@ == e.attributes@
                &&& outcome matches Err(m) ==> final(windows)@[k] == (EntityDetailsWindow {
                    error: Some(m),
                    is_loading: false,
                    ..old(windows)@[k]
                })
            }
        }),
{
    match find_window(windows, window_id, false) {
        Some(k) => {
            let mut w = windows.remove(k);
            match outcome {
                Ok(entity) => {
                    w.edit_attributes = dup_vec(&entity.attributes);
                    w.entity = Some(entity);
                    w.is_loading = false;
                },
                Err(message) => {
                    w.error = Some(message);
                    w.is_loading = false;
                },
            }
            windows.insert(k, w);
        },
        None => {},
    }
}

/// The browser storage key of a user's saved views.
pub fn saved_views_key(user_id: &str) -> (r: String)
    ensures
        r@ == "rebirth.data-explorer.views."@ + user_id@,
{
    key_of("rebirth.data-explorer.views.", user_id)
}

} // verus!

//! What the pickers and the home page show, as plain values: the user
//! interface draws these and reports the choices back.

use vstd::prelude::*;

use crate::text_std::str_eq;

verus! {

/// An option of a single-select picker.
#[derive(Clone, Debug)]
pub struct SingleSelectOption {
    pub label: String,
    pub value: String,
}

/// An option of a multi-select picker.
#[derive(Clone, Debug)]
pub struct MultiSelectOption {
    pub id: u32,
    pub label: String,
    pub tooltip: Option<String>,
}

/// A row of an open single-select menu.
#[derive(Clone, Debug)]
pub struct SingleSelectRow {
    pub label: String,
    pub value: String,
    pub is_selected: bool,
}

/// What a single-select picker shows.
#[derive(Clone, Debug)]
pub struct SingleSelectView {
    /// The text on the trigger button: the summary, or the empty text.
    pub trigger_text: String,
    /// The tooltip: the summary when there is one.
    pub tooltip: Option<String>,
    pub is_empty: bool,
    pub is_open: bool,
    pub disabled: bool,
    /// The menu rows; none while the menu is closed.
    pub rows: Vec<SingleSelectRow>,
}

/// A row of an open multi-select menu.
#[derive(Clone, Debug)]
pub struct MultiSelectRow {
    pub id: u32,
    pub label: String,
    pub tooltip: String,
    pub is_checked: bool,
}

/// What a multi-select picker shows.
#[derive(Clone, Debug)]
pub struct MultiSelectView {
    pub trigger_text: String,
    pub is_empty: bool,
    pub is_open: bool,
    pub disabled: bool,
    pub rows: Vec<MultiSelectRow>,
}

/// The summary when there is one, else the empty text.
pub open spec fn trigger_text(empty_text: Seq<char>, summary: Seq<char>) -> Seq<char> {
    if summary.len() == 0 {
        empty_text
    } else {
        summary
    }
}

/// The menu row shown for a single-select option.
pub open spec fn single_row_of(o: SingleSelectOption, selected_value: Seq<char>, r: SingleSelectRow) -> bool {
    &&& r.label@ == o.label@
    &&& r.value@ == o.value@
    &&& r.is_selected == (o.value@ == selected_value)
}

#[allow(non_snake_case)]
/// Lays out a single-select picker: the trigger shows the summary or the
/// empty text, and an open menu lists every option, marking the selected one.
pub fn SingleSelectPicker(
    disabled: bool,
    empty_text: &str,
    is_open: bool,
    options: &Vec<SingleSelectOption>,
    selected_value: &str,
    summary: &str,
) -> (r: SingleSelectView)
    ensures
        r.trigger_text@ == trigger_text(empty_text@, summary@),
        r.tooltip is Some <==> summary@.len() > 0,
        r.tooltip matches Some(t) ==> t@ == summary@,
        r.is_empty == (summary@.len() == 0),
        r.is_open == is_open,
        r.disabled == disabled,
        r.rows@.len() == (if is_open { options@.len() } else { 0 }),
        forall|i: int|
            0 <= i < r.rows@.len() ==> single_row_of(options@[i], selected_value@, #[trigger] r.rows@[i]),
{
    let is_empty = summary.is_empty();
    let trigger_text = if is_empty {
        empty_text.to_owned()
    } else {
        summary.to_owned()
    };
    let tooltip = if is_empty {
        None
    } else {
        Some(summary.to_owned())
    };
    let mut rows: Vec<SingleSelectRow> = Vec::new();
    if is_open {
        let mut i: usize = 0;
        while i < options.len()
            invariant
                i <= options@.len(),
                rows@.len() == i,
                forall|k: int|
                    0 <= k < i ==> single_row_of(options@[k], selected_value@, #[trigger] rows@[k]),
            decreases options@.len() - i,
        {
            let o = &options[i];
            rows.push(
                SingleSelectRow {
                    label: o.label.clone(),
                    value: o.value.clone(),
                    is_selected: str_eq(o.value.as_str(), selected_value),
                },
            );
            i = i + 1;
        }
    }
    SingleSelectView { trigger_text, tooltip, is_empty, is_open, disabled, rows }
}

/// The menu row shown for a multi-select option.
pub open spec fn multi_row_of(o: MultiSelectOption, selected_ids: Seq<u32>, r: MultiSelectRow) -> bool {
    &&& r.id == o.id
    &&& r.label@ == o.label@
    &&& r.tooltip@ == (match o.tooltip {
        Some(t) => t@,
        None => Seq::<char>::empty(),
    })
    &&& r.is_checked == selected_ids.contains(o.id)
}

fn contains_u32(ids: &Vec<u32>, id: u32) -> (r: bool)
    ensures
        r == ids@.contains(id),
{
    let mut i: usize = 0;
    while i < ids.len()
        invariant
            i <= ids@.len(),
            forall|k: int| 0 <= k < i ==> ids@[k] != id,
        decreases ids@.len() - i,
    {
        if ids[i] == id {
            assert(ids@[i as int] == id);
            return true;
        }
        i = i + 1;
    }
    false
}

#[allow(non_snake_case)]
/// Lays out a multi-select picker: the trigger shows the summary or the
/// empty text, and an open menu lists every option with a check box that
/// is ticked for the chosen ids.
pub fn MultiSelectPicker(
    disabled: bool,
    empty_text: &str,
    is_open: bool,
    options: &Vec<MultiSelectOption>,
    selected_ids: &Vec<u32>,
    summary: &str,
) -> (r: MultiSelectView)
    ensures
        r.trigger_text@ == trigger_text(empty_text@, summary@),
        r.is_empty == (summary@.len() == 0),
        r.is_open == is_open,
        r.disabled == disabled,
        r.rows@.len() == (if is_open { options@.len() } else { 0 }),
        forall|i: int|
            0 <= i < r.rows@.len() ==> multi_row_of(options@[i], selected_ids@, #[trigger] r.rows@[i]),
{
    let is_empty = summary.is_empty();
    let trigger_text = if is_empty {
        empty_text.to_owned()
    } else {
        summary.to_owned()
    };
    let mut rows: Vec<MultiSelectRow> = Vec::new();
    if is_open {
        let mut i: usize = 0;
        while i < options.len()
            invariant
                i <= options@.len(),
                rows@.len() == i,
                forall|k: int|
                    0 <= k < i ==> multi_row_of(options@[k], selected_ids@, #[trigger] rows@[k]),
            decreases options@.len() - i,
        {
            let o = &options[i];
            let tooltip = match &o.tooltip {
                Some(t) => t.clone(),
                None => String::new(),
            };
            rows.push(
                MultiSelectRow {
                    id: o.id,
                    label: o.label.clone(),
                    tooltip,
                    is_checked: contains_u32(selected_ids, o.id),
                },
            );
            i = i + 1;
        }
    }
    MultiSelectView { trigger_text, is_empty, is_open, disabled, rows }
}

/// What the home page shows.
#[derive(Clone, Debug)]
pub struct HomeContent {
    pub title: &'static str,
    pub tagline: &'static str,
}

#[allow(non_snake_case)]
/// The home page: the product's name and what it is.
pub fn HomeView() -> (r: HomeContent)
    ensures
        r.title@ == "Rebirth"@,
        r.tagline@ == "An ontology simplified knowledge system"@,
{
    HomeContent { title: "Rebirth", tagline: "An ontology simplified knowledge system" }
}

} // verus!

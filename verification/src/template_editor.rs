//! Editing an entity template in its modal: ordering, including and
//! excluding attributes and links.

use vstd::prelude::*;

use crate::listing::{
    by_listing, find_index, in_listing_order, index_of, max_listing, next_listing_index, remove_id,
    renumber, renumbered, without_id, ListItem, Identified,
};
use crate::sort::{sort_views, sorted_by, Duplicate, TextThenIndex};
use crate::text::{decimal_int, push_decimal_i64, push_str, to_string};
use crate::types::{
    AttributeTemplate, EntityTemplate, EntityTemplateAttribute, EntityTemplateLink,
    EntityTemplateModal, EntityTemplateView, dup_opt, dup_vec,
};

verus! {

/// `m` with its template's attributes replaced by `a`.
pub open spec fn with_attributes(
    m: EntityTemplateModal,
    a: Vec<EntityTemplateAttribute>,
) -> EntityTemplateModal {
    EntityTemplateModal { entity_template: EntityTemplate { attributes: a, ..m.entity_template }, ..m }
}

/// `m` with its template's links replaced by `l`.
pub open spec fn with_links(m: EntityTemplateModal, l: Vec<EntityTemplateLink>) -> EntityTemplateModal {
    EntityTemplateModal { entity_template: EntityTemplate { links: l, ..m.entity_template }, ..m }
}

/// `s` with the item at `from` taken out and put back at `to`.
pub open spec fn moved<T>(s: Seq<T>, from: int, to: int) -> Seq<T> {
    s.remove(from).insert(to, s[from])
}

/// Position of the first item with the smallest listing index (the item
/// `Iterator::min_by_key` picks); 0 for an empty list.
pub open spec fn first_min_listing<T: ListItem>(s: Seq<T>) -> int
    decreases s.len(),
{
    if s.len() <= 1 {
        0
    } else {
        let k = first_min_listing(s.drop_last());
        if s.last().listing() < s[k].listing() {
            s.len() - 1
        } else {
            k
        }
    }
}

/// What dragging the dragged attribute of `m` onto `target` leaves in `r`.
pub open spec fn reorder_outcome(m: EntityTemplateModal, target: Seq<char>, r: EntityTemplateModal) -> bool {
    match m.dragging_attribute_id {
        None => r == m,
        Some(d) => if d@ == target {
            r == m
        } else {
            let o = by_listing(m.entity_template.attributes@);
            let f = index_of(o, d@);
            let t = index_of(o, target);
            if f < 0 || t < 0 {
                r == EntityTemplateModal { dragging_attribute_id: None, ..m }
            } else {
                &&& r.entity_template.attributes@ == renumbered(moved(o, f, t))
                &&& r == with_attributes(m, r.entity_template.attributes)
            }
        },
    }
}

/// The template's attributes in listing order.
pub fn ordered_attributes(entity_template: &EntityTemplate) -> (r: Vec<EntityTemplateAttribute>)
    ensures
        r@ == by_listing(entity_template.attributes@),
        r@.len() == entity_template.attributes@.len(),
{
    in_listing_order(&entity_template.attributes)
}

/// The template's links in listing order.
pub fn ordered_links(entity_template: &EntityTemplate) -> (r: Vec<EntityTemplateLink>)
    ensures
        r@ == by_listing(entity_template.links@),
{
    in_listing_order(&entity_template.links)
}

/// Puts the attributes in listing order and numbers them from zero.
pub fn normalize_attribute_listing_indexes(entity_template: &mut EntityTemplateModal)
    ensures
        final(entity_template).entity_template.attributes@ == renumbered(
            by_listing(old(entity_template).entity_template.attributes@),
        ),
        *final(entity_template) == with_attributes(
            *old(entity_template),
            final(entity_template).entity_template.attributes,
        ),
{
    let mut attributes = ordered_attributes(&entity_template.entity_template);
    renumber(&mut attributes);
    entity_template.entity_template.attributes = attributes;
}

proof fn lemma_first_min_in_range<T: ListItem>(s: Seq<T>)
    ensures
        s.len() > 0 ==> 0 <= first_min_listing(s) < s.len(),
    decreases s.len(),
{
    if s.len() > 1 {
        lemma_first_min_in_range(s.drop_last());
    }
}

fn first_min_position(s: &Vec<EntityTemplateAttribute>) -> (r: usize)
    requires
        s@.len() > 0,
    ensures
        r as int == first_min_listing(s@),
        r < s@.len(),
{
    let mut k: usize = 0;
    let mut i: usize = 1;
    while i < s.len()
        invariant
            1 <= i <= s@.len(),
            k < i,
            k as int == first_min_listing(s@.take(i as int)),
        decreases s@.len() - i,
    {
        assert(s@.take(i as int + 1).drop_last() =~= s@.take(i as int));
        assert(s@.take(i as int + 1)[k as int] == s@[k as int]);
        if s[i].listing_index < s[k].listing_index {
            k = i;
        }
        i = i + 1;
    }
    assert(s@.take(i as int) =~= s@);
    k
}

/// Takes an attribute out of the template. When it was the listing
/// attribute, the remaining attribute listed first becomes the listing
/// attribute (none when nothing remains); the rest are renumbered in
/// listing order and the attribute menus close.
pub fn exclude_attribute(entity_template: &mut EntityTemplateModal, attribute_id: &str)
    ensures
        ({
            let kept = without_id(old(entity_template).entity_template.attributes@, attribute_id@);
            let t = final(entity_template).entity_template;
            &&& t.attributes@ == renumbered(by_listing(kept))
            &&& t.listing_attribute_id@ == (if old(
                entity_template,
            ).entity_template.listing_attribute_id@ == attribute_id@ {
                if kept.len() == 0 {
                    Seq::<char>::empty()
                } else {
                    kept[first_min_listing(kept)].id@
                }
            } else {
                old(entity_template).entity_template.listing_attribute_id@
            })
            &&& *final(entity_template) == EntityTemplateModal {
                entity_template: EntityTemplate {
                    attributes: t.attributes,
                    listing_attribute_id: t.listing_attribute_id,
                    ..old(entity_template).entity_template
                },
                open_attribute_access_level_menu_id: None,
                open_attribute_value_type_menu_id: None,
                ..*old(entity_template)
            }
        }),
{
    let id = attribute_id.to_owned();
    let mut kept = dup_vec(&entity_template.entity_template.attributes);
    remove_id(&mut kept, &id);
    let listing = if entity_template.entity_template.listing_attribute_id == id {
        if kept.len() == 0 {
            String::new()
        } else {
            let k = first_min_position(&kept);
            kept[k].id.clone()
        }
    } else {
        entity_template.entity_template.listing_attribute_id.clone()
    };
    let mut attributes = in_listing_order(&kept);
    renumber(&mut attributes);
    entity_template.entity_template.attributes = attributes;
    entity_template.entity_template.listing_attribute_id = listing;
    entity_template.open_attribute_access_level_menu_id = None;
    entity_template.open_attribute_value_type_menu_id = None;
}

/// Takes a link out of the template; the remaining links are renumbered in
/// listing order and the link target menu closes.
pub fn exclude_link(entity_template: &mut EntityTemplateModal, link_id: &str)
    ensures
        final(entity_template).entity_template.links@ == renumbered(
            by_listing(without_id(old(entity_template).entity_template.links@, link_id@)),
        ),
        *final(entity_template) == (EntityTemplateModal {
            open_link_target_menu_id: None,
            ..with_links(*old(entity_template), final(entity_template).entity_template.links)
        }),
{
    let id = link_id.to_owned();
    remove_id(&mut entity_template.entity_template.links, &id);
    entity_template.open_link_target_menu_id = None;
    let mut links = ordered_links(&entity_template.entity_template);
    renumber(&mut links);
    entity_template.entity_template.links = links;
}

/// Moves the dragged attribute to the place of `target_attribute_id` in
/// listing order and renumbers all attributes. Nothing happens when no
/// attribute is dragged or it is dragged onto itself; when either id is not
/// among the attributes, the drag ends.
pub fn reorder_dragged_attribute(entity_template: &mut EntityTemplateModal, target_attribute_id: &str)
    ensures
        reorder_outcome(*old(entity_template), target_attribute_id@, *final(entity_template)),
{
    let dragging = match &entity_template.dragging_attribute_id {
        Some(d) => d.clone(),
        None => {
            return ;
        },
    };
    let target = target_attribute_id.to_owned();
    if dragging == target {
        return ;
    }
    let mut attributes = ordered_attributes(&entity_template.entity_template);
    let from = match find_index(&attributes, &dragging) {
        Some(i) => i,
        None => {
            entity_template.dragging_attribute_id = None;
            return ;
        },
    };
    let to = match find_index(&attributes, &target) {
        Some(i) => i,
        None => {
            entity_template.dragging_attribute_id = None;
            return ;
        },
    };
    let ghost o = attributes@;
    let dragged = attributes.remove(from);
    attributes.insert(to, dragged);
    assert(attributes@ == moved(o, from as int, to as int));
    renumber(&mut attributes);
    entity_template.entity_template.attributes = attributes;
}

} // verus!

verus! {

/// The view of every template.
pub open spec fn template_views(ts: Seq<EntityTemplate>) -> Seq<EntityTemplateView> {
    ts.map_values(|t: EntityTemplate| t@)
}

/// A template's name, as sort key.
pub open spec fn template_name_key() -> spec_fn(EntityTemplateView) -> String {
    |t: EntityTemplateView| t.name
}

/// Templates a link of the template `current` may point to: all others
/// (all of them while the template has no id yet).
pub open spec fn candidate_filter(current: Seq<char>) -> spec_fn(EntityTemplateView) -> bool {
    |t: EntityTemplateView| current.len() == 0 || t.id@ != current
}

/// The possible link targets of template `current`, ordered by name.
pub open spec fn target_candidates(ts: Seq<EntityTemplateView>, current: Seq<char>) -> Seq<
    EntityTemplateView,
> {
    sorted_by(ts.filter(candidate_filter(current)), template_name_key())
}

/// The possible link targets of the template with id
/// `current_entity_template_id`, ordered by name.
pub fn link_target_candidates(
    entity_templates: &Vec<EntityTemplate>,
    current_entity_template_id: &str,
) -> (r: Vec<EntityTemplate>)
    ensures
        template_views(r@) == target_candidates(
            template_views(entity_templates@),
            current_entity_template_id@,
        ),
{
    let current = current_entity_template_id.to_owned();
    let no_current = current_entity_template_id.is_empty();
    let ghost vs = template_views(entity_templates@);
    let ghost pred = candidate_filter(current_entity_template_id@);
    let mut kept: Vec<EntityTemplate> = Vec::new();
    let mut keys: Vec<String> = Vec::new();
    let mut i: usize = 0;
    while i < entity_templates.len()
        invariant
            i <= entity_templates@.len(),
            vs == template_views(entity_templates@),
            pred == candidate_filter(current_entity_template_id@),
            current@ == current_entity_template_id@,
            no_current == (current_entity_template_id@.len() == 0),
            template_views(kept@) == vs.take(i as int).filter(pred),
            keys@ == template_views(kept@).map_values(template_name_key()),
        decreases entity_templates@.len() - i,
    {
        assert(vs.take(i as int + 1).drop_last() =~= vs.take(i as int));
        reveal_with_fuel(Seq::filter, 1);
        let t = &entity_templates[i];
        if no_current || t.id != current {
            let d = t.duplicate();
            let n = t.name.clone();
            kept.push(d);
            keys.push(n);
            assert(template_views(kept@) =~= vs.take(i as int).filter(pred).push(vs[i as int]));
            assert(keys@ =~= template_views(kept@).map_values(template_name_key()));
        } else {
            assert(!pred(vs[i as int]));
        }
        assert(template_views(kept@) == vs.take(i as int + 1).filter(pred));
        i = i + 1;
    }
    assert(vs.take(i as int) =~= vs);
    let r = sort_views(&kept, &keys, Ghost(template_name_key()));
    assert(template_views(r@) =~= r@.map_values(|x: EntityTemplate| x@));
    assert(template_views(kept@) =~= kept@.map_values(|x: EntityTemplate| x@));
    r
}

/// The id a draft link with listing index `i` gets.
pub open spec fn draft_link_id(i: int) -> Seq<char> {
    "draft-link-"@ + decimal_int(i)
}

/// What adding a link to the template of `m` leaves in `r`.
pub open spec fn link_added(m: EntityTemplateModal, r: EntityTemplateModal) -> bool {
    let c = target_candidates(template_views(m.entity_templates@), m.entity_template.id@);
    if c.len() == 0 {
        r == m
    } else {
        let i = max_listing(m.entity_template.links@) + 1;
        let l = r.entity_template.links@.last();
        &&& r == with_links(m, r.entity_template.links)
        &&& r.entity_template.links@.drop_last() == m.entity_template.links@
        &&& r.entity_template.links@.len() == m.entity_template.links@.len() + 1
        &&& l.description is None
        &&& l.entity_template_id == m.entity_template.id
        &&& l.id@ == draft_link_id(i)
        &&& l.listing_index == i
        &&& l.name@ == Seq::<char>::empty()
        &&& l.target_entity_template_id == Some(c[0].id)
    }
}

/// Adds an empty draft link pointing to the first possible target, listed
/// after all other links; nothing happens when there is no possible target.
pub fn add_entity_template_link(entity_template: &mut EntityTemplateModal)
    requires
        max_listing(old(entity_template).entity_template.links@) < i32::MAX,
    ensures
        link_added(*old(entity_template), *final(entity_template)),
{
    let candidates = link_target_candidates(
        &entity_template.entity_templates,
        entity_template.entity_template.id.as_str(),
    );
    if candidates.len() == 0 {
        return ;
    }
    let target = candidates[0].id.clone();
    assert(target == template_views(candidates@)[0].id);
    let listing_index = next_listing_index(&entity_template.entity_template.links);
    let mut id: Vec<char> = Vec::new();
    push_str(&mut id, "draft-link-");
    push_decimal_i64(&mut id, listing_index as i64);
    assert(id@ =~= draft_link_id(listing_index as int));
    let link = EntityTemplateLink {
        description: None,
        entity_template_id: entity_template.entity_template.id.clone(),
        id: to_string(&id),
        listing_index,
        name: String::new(),
        target_entity_template_id: Some(target),
    };
    let ghost before = entity_template.entity_template.links@;
    entity_template.entity_template.links.push(link);
    assert(entity_template.entity_template.links@.drop_last() =~= before);
}

/// The attribute template `add_selected_attribute_template` adds: the
/// selected one, else the first listed.
pub open spec fn selected_template_id(m: EntityTemplateModal) -> Option<String> {
    match m.selected_attribute_template_id {
        Some(s) => Some(s),
        None => if m.attribute_templates@.len() > 0 {
            Some(m.attribute_templates@[0].id)
        } else {
            None
        },
    }
}

/// The template attribute made from an attribute template.
pub open spec fn attribute_from_template(at: AttributeTemplate, i: i32) -> EntityTemplateAttribute {
    EntityTemplateAttribute {
        access_level_id: at.access_level_id,
        default_value: at.default_value,
        description: at.description,
        id: at.id,
        is_required: at.is_required,
        listing_index: i,
        name: at.name,
        value_type: at.value_type,
    }
}

/// `add_selected_attribute_template` adds an attribute to `m`.
pub open spec fn adds_selected(m: EntityTemplateModal) -> bool {
    match selected_template_id(m) {
        None => false,
        Some(sel) => index_of(m.entity_template.attributes@, sel@) < 0 && index_of(
            m.attribute_templates@,
            sel@,
        ) >= 0,
    }
}

/// What including the selected attribute template in `m` leaves in `r`.
pub open spec fn selected_added(m: EntityTemplateModal, r: EntityTemplateModal) -> bool {
    match selected_template_id(m) {
        None => r == m,
        Some(sel) => if index_of(m.entity_template.attributes@, sel@) >= 0 {
            r == EntityTemplateModal {
                is_attribute_popover_open: false,
                is_attribute_template_menu_open: false,
                ..m
            }
        } else if index_of(m.attribute_templates@, sel@) < 0 {
            r == m
        } else {
            let at = m.attribute_templates@[index_of(m.attribute_templates@, sel@)];
            let i = max_listing(m.entity_template.attributes@) + 1;
            &&& r.entity_template.attributes@ == m.entity_template.attributes@.push(
                attribute_from_template(at, i as i32),
            )
            &&& r == EntityTemplateModal {
                entity_template: EntityTemplate {
                    attributes: r.entity_template.attributes,
                    listing_attribute_id: if m.entity_template.listing_attribute_id@.len() == 0 {
                        at.id
                    } else {
                        m.entity_template.listing_attribute_id
                    },
                    ..m.entity_template
                },
                is_attribute_popover_open: false,
                is_attribute_template_menu_open: false,
                ..m
            }
        },
    }
}

/// Includes the selected attribute template (else the first one) as a
/// template attribute listed last; it becomes the listing attribute when
/// there is none. The popover and menu close unless nothing was selected
/// or the selection is unknown.
fn selected_template(entity_template: &EntityTemplateModal) -> (r: Option<String>)
    ensures
        r == selected_template_id(*entity_template),
{
    match &entity_template.selected_attribute_template_id {
        Some(s) => Some(s.clone()),
        None => {
            if entity_template.attribute_templates.len() > 0 {
                Some(entity_template.attribute_templates[0].id.clone())
            } else {
                None
            }
        },
    }
}

/// The last branch of `selected_added`: adds the attribute made from the
/// attribute template at `k`.
fn include_template_at(entity_template: &mut EntityTemplateModal, k: usize)
    requires
        k < old(entity_template).attribute_templates@.len(),
        max_listing(old(entity_template).entity_template.attributes@) < i32::MAX,
    ensures
        ({
            let m = *old(entity_template);
            let r = *final(entity_template);
            let at = m.attribute_templates@[k as int];
            let i = max_listing(m.entity_template.attributes@) + 1;
            &&& r.entity_template.attributes@ == m.entity_template.attributes@.push(
                attribute_from_template(at, i as i32),
            )
            &&& r == EntityTemplateModal {
                entity_template: EntityTemplate {
                    attributes: r.entity_template.attributes,
                    listing_attribute_id: if m.entity_template.listing_attribute_id@.len() == 0 {
                        at.id
                    } else {
                        m.entity_template.listing_attribute_id
                    },
                    ..m.entity_template
                },
                is_attribute_popover_open: false,
                is_attribute_template_menu_open: false,
                ..m
            }
        }),
{
    let listing_index = next_listing_index(&entity_template.entity_template.attributes);
    let at = &entity_template.attribute_templates[k];
    let attribute = EntityTemplateAttribute {
        access_level_id: at.access_level_id,
        default_value: dup_opt(&at.default_value),
        description: at.description.clone(),
        id: at.id.clone(),
        is_required: at.is_required,
        listing_index,
        name: at.name.clone(),
        value_type: at.value_type.clone(),
    };
    let at_id = at.id.clone();
    entity_template.entity_template.attributes.push(attribute);
    if entity_template.entity_template.listing_attribute_id.as_str().is_empty() {
        entity_template.entity_template.listing_attribute_id = at_id;
    }
    entity_template.is_attribute_popover_open = false;
    entity_template.is_attribute_template_menu_open = false;
}

/// Includes the selected attribute template (else the first one) as a
/// template attribute listed last; it becomes the listing attribute when
/// there is none. The popover and menu close unless nothing was selected
/// or the selection is unknown.
pub fn add_selected_attribute_template(entity_template: &mut EntityTemplateModal)
    requires
        adds_selected(*old(entity_template)) ==> max_listing(
            old(entity_template).entity_template.attributes@,
        ) < i32::MAX,
    ensures
        selected_added(*old(entity_template), *final(entity_template)),
{
    let selected = match selected_template(entity_template) {
        Some(s) => s,
        None => {
            return ;
        },
    };
    if find_index(&entity_template.entity_template.attributes, &selected).is_some() {
        entity_template.is_attribute_popover_open = false;
        entity_template.is_attribute_template_menu_open = false;
        return ;
    }
    match find_index(&entity_template.attribute_templates, &selected) {
        Some(k) => include_template_at(entity_template, k),
        None => {},
    }
}

/// `r` is `m` with a new attribute of the given values included, listed
/// last; it becomes the listing attribute when there is none. The
/// attribute popover, the template and value-type menus close and the
/// new-attribute form is reset (empty name and description, value type
/// `text`, not saved as template).
pub open spec fn new_attribute_added(
    m: EntityTemplateModal,
    name: Seq<char>,
    description: Seq<char>,
    value_type: Seq<char>,
    access_level_id: u32,
    is_required: bool,
    attribute_id: Seq<char>,
    r: EntityTemplateModal,
) -> bool {
    let n = m.entity_template.attributes@.len();
    let a = r.entity_template.attributes@[n as int];
    &&& r.entity_template.attributes@.len() == n + 1
    &&& r.entity_template.attributes@.take(n as int) == m.entity_template.attributes@
    &&& a.access_level_id == access_level_id
    &&& a.default_value is None
    &&& a.description@ == description
    &&& a.id@ == attribute_id
    &&& a.is_required == is_required
    &&& a.listing_index == (max_listing(m.entity_template.attributes@) + 1) as i32
    &&& a.name@ == name
    &&& a.value_type@ == value_type
    &&& r.entity_template.listing_attribute_id@ == (if m.entity_template.listing_attribute_id@.len()
        == 0 {
        attribute_id
    } else {
        m.entity_template.listing_attribute_id@
    })
    &&& r.new_attribute_description@ == Seq::<char>::empty()
    &&& r.new_attribute_name@ == Seq::<char>::empty()
    &&& r.new_attribute_value_type@ == "text"@
    &&& r == EntityTemplateModal {
        entity_template: EntityTemplate {
            attributes: r.entity_template.attributes,
            listing_attribute_id: r.entity_template.listing_attribute_id,
            ..m.entity_template
        },
        is_attribute_popover_open: false,
        is_attribute_template_menu_open: false,
        is_new_attribute_value_type_menu_open: false,
        new_attribute_description: r.new_attribute_description,
        new_attribute_name: r.new_attribute_name,
        new_attribute_save_as_template: false,
        new_attribute_value_type: r.new_attribute_value_type,
        ..m
    }
}

/// Includes a new attribute with the given values (see
/// `new_attribute_added`).
pub fn add_new_attribute_from_values(
    entity_template: &mut EntityTemplateModal,
    name: String,
    description: String,
    value_type: String,
    access_level_id: u32,
    is_required: bool,
    attribute_id: String,
)
    requires
        max_listing(old(entity_template).entity_template.attributes@) < i32::MAX,
    ensures
        new_attribute_added(
            *old(entity_template),
            name@,
            description@,
            value_type@,
            access_level_id,
            is_required,
            attribute_id@,
            *final(entity_template),
        ),
{
    let listing_index = next_listing_index(&entity_template.entity_template.attributes);
    let listing_id = attribute_id.clone();
    entity_template.entity_template.attributes.push(
        EntityTemplateAttribute {
            access_level_id,
            default_value: None,
            description,
            id: attribute_id,
            is_required,
            listing_index,
            name,
            value_type,
        },
    );
    if entity_template.entity_template.listing_attribute_id.as_str().is_empty() {
        entity_template.entity_template.listing_attribute_id = listing_id;
    }
    entity_template.is_attribute_popover_open = false;
    entity_template.is_attribute_template_menu_open = false;
    entity_template.is_new_attribute_value_type_menu_open = false;
    entity_template.new_attribute_description = String::new();
    entity_template.new_attribute_name = String::new();
    entity_template.new_attribute_save_as_template = false;
    entity_template.new_attribute_value_type = "text".to_owned();
    assert(entity_template.entity_template.attributes@.take(
        old(entity_template).entity_template.attributes@.len() as int,
    ) =~= old(entity_template).entity_template.attributes@);
}

impl Duplicate for (EntityTemplateLink, EntityTemplate) {
    fn duplicate(&self) -> (r: Self) {
        (self.0.duplicate(), self.1.duplicate())
    }
}

/// The link points to the template with id `target`.
pub open spec fn points_to(target: Seq<char>) -> spec_fn(EntityTemplateLink) -> bool {
    |l: EntityTemplateLink|
        match l.target_entity_template_id {
            Some(x) => x@ == target,
            None => false,
        }
}

/// Every link of `sources` that points to `target`, paired with its source
/// template, source by source.
pub open spec fn links_into(sources: Seq<EntityTemplateView>, target: Seq<char>) -> Seq<
    (EntityTemplateLink, EntityTemplateView),
>
    decreases sources.len(),
{
    if sources.len() == 0 {
        seq![]
    } else {
        let s = sources.last();
        links_into(sources.drop_last(), target) + s.links.filter(points_to(target)).map_values(
            |l: EntityTemplateLink| (l, s),
        )
    }
}

/// Incoming links are ordered by source template name, then listing index.
pub open spec fn incoming_key() -> spec_fn((EntityTemplateLink, EntityTemplateView)) -> TextThenIndex {
    |p: (EntityTemplateLink, EntityTemplateView)| TextThenIndex { text: p.1.name, index: p.0.listing_index }
}

/// The links of all templates that point to `t`, with their source
/// templates, ordered by source name and then listing index.
pub open spec fn incoming(t: EntityTemplateView, ts: Seq<EntityTemplateView>) -> Seq<
    (EntityTemplateLink, EntityTemplateView),
> {
    sorted_by(links_into(ts, t.id@), incoming_key())
}

/// The links of all templates that point to `entity_template`, each with
/// its source template.
pub fn incoming_links(entity_template: &EntityTemplate, entity_templates: &Vec<EntityTemplate>) -> (r:
    Vec<(EntityTemplateLink, EntityTemplate)>)
    ensures
        r@.map_values(|p: (EntityTemplateLink, EntityTemplate)| p@) == incoming(
            entity_template@,
            template_views(entity_templates@),
        ),
{
    let ghost vs = template_views(entity_templates@);
    let ghost target = entity_template.id@;
    let mut pairs: Vec<(EntityTemplateLink, EntityTemplate)> = Vec::new();
    let mut keys: Vec<TextThenIndex> = Vec::new();
    let mut i: usize = 0;
    while i < entity_templates.len()
        invariant
            i <= entity_templates@.len(),
            vs == template_views(entity_templates@),
            target == entity_template.id@,
            pairs@.map_values(|p: (EntityTemplateLink, EntityTemplate)| p@) == links_into(
                vs.take(i as int),
                target,
            ),
            keys@ == pairs@.map_values(|p: (EntityTemplateLink, EntityTemplate)| p@).map_values(
                incoming_key(),
            ),
        decreases entity_templates@.len() - i,
    {
        let source = &entity_templates[i];
        let ghost sv = vs[i as int];
        let ghost start = pairs@.map_values(|p: (EntityTemplateLink, EntityTemplate)| p@);
        let mut j: usize = 0;
        while j < source.links.len()
            invariant
                j <= source.links@.len(),
                sv == source@,
                target == entity_template.id@,
                pairs@.map_values(|p: (EntityTemplateLink, EntityTemplate)| p@) == start
                    + source.links@.take(j as int).filter(points_to(target)).map_values(
                    |l: EntityTemplateLink| (l, sv),
                ),
                keys@ == pairs@.map_values(|p: (EntityTemplateLink, EntityTemplate)| p@).map_values(
                    incoming_key(),
                ),
            decreases source.links@.len() - j,
        {
            let link = &source.links[j];
            assert(source.links@.take(j as int + 1).drop_last() =~= source.links@.take(j as int));
            reveal_with_fuel(Seq::filter, 1);
            let points = match &link.target_entity_template_id {
                Some(x) => *x == entity_template.id,
                None => false,
            };
            let ghost before = pairs@.map_values(|p: (EntityTemplateLink, EntityTemplate)| p@);
            if points {
                let pair = (link.duplicate(), source.duplicate());
                let key = TextThenIndex { text: source.name.clone(), index: link.listing_index };
                pairs.push(pair);
                keys.push(key);
                assert(pairs@.map_values(|p: (EntityTemplateLink, EntityTemplate)| p@) =~= before.push(
                    (*link, sv),
                ));
                assert(keys@ =~= pairs@.map_values(|p: (EntityTemplateLink, EntityTemplate)| p@).map_values(
                    incoming_key(),
                ));
            }
            assert(source.links@.take(j as int + 1).filter(points_to(target)).map_values(
                |l: EntityTemplateLink| (l, sv),
            ) =~= if points {
                source.links@.take(j as int).filter(points_to(target)).map_values(
                    |l: EntityTemplateLink| (l, sv),
                ).push((*link, sv))
            } else {
                source.links@.take(j as int).filter(points_to(target)).map_values(
                    |l: EntityTemplateLink| (l, sv),
                )
            });
            j = j + 1;
        }
        assert(source.links@.take(j as int) =~= source.links@);
        assert(vs.take(i as int + 1).drop_last() =~= vs.take(i as int));
        i = i + 1;
    }
    assert(vs.take(i as int) =~= vs);
    sort_views(&pairs, &keys, Ghost(incoming_key()))
}

} // verus!

//! What the body of an entity details window shows: a loading notice, the
//! error, "No data", or the entity with its listing attribute, its
//! attributes, outlinks and inlinks in listing order, and its tabs.

use vstd::prelude::*;

use crate::entity_editor::EntityDetailsWindow;
use crate::entity_flows::{default_entity_attribute_access_level_id, default_entity_level};
use crate::listing::{by_listing, find_index, in_listing_order, index_of, lemma_index_of_facts};
use crate::permissions::{
    can_access_attribute_value, entity_attribute_visible_value, may_access_value, opt_session,
    visible_value,
};
use crate::types::{AccessLevel, AuthSession, EntityAttribute, EntityIncomingLink, EntityLink};
use crate::window_edits::{contains_text, texts};

verus! {

/// The entity shown by a window that has one.
#[derive(Clone, Debug)]
pub struct EntityWindowContent {
    /// Name of the listing attribute (empty when the entity has none).
    pub listing_attribute_name: String,
    /// Value of the listing attribute as shown (masked when restricted).
    pub listing_attribute_value: String,
    /// The attributes tab, in listing order: the edited attributes while
    /// editing, else the entity's. Its badge counts them.
    pub attributes: Vec<EntityAttribute>,
    /// The outlinks tab, in listing order. Its badge counts them.
    pub links: Vec<EntityLink>,
    /// The inlinks tab, in listing order. Its badge counts them.
    pub incoming_links: Vec<EntityIncomingLink>,
    /// The inlinks tab is hidden while editing.
    pub shows_inlinks_tab: bool,
    /// The access level of an attribute added while editing.
    pub default_access_level_id: u32,
}

/// The body of an entity details window.
#[derive(Clone, Debug)]
pub enum EntityWindowBody {
    Loading,
    Failed(String),
    NoData,
    Content(EntityWindowContent),
}

/// The incoming links of an entity, none when they were not sent.
pub open spec fn incoming_of(e: Option<Vec<EntityIncomingLink>>) -> Seq<EntityIncomingLink> {
    match e {
        Some(l) => l@,
        None => Seq::empty(),
    }
}

/// `r` is what the window `w` shows to `session`, with the access levels
/// `levels`.
pub open spec fn window_body_is(
    w: EntityDetailsWindow,
    session: Option<AuthSession>,
    levels: Seq<AccessLevel>,
    r: EntityWindowBody,
) -> bool {
    if w.is_loading {
        r is Loading
    } else if w.error is Some {
        r matches EntityWindowBody::Failed(m) && m@ == w.error->0@
    } else if w.entity is None {
        r is NoData
    } else {
        let e = w.entity->0;
        let k = index_of(e.attributes@, e.listing_attribute_id@);
        &&& r is Content
        &&& {
            let c = r->Content_0;
            &&& c.attributes@ == by_listing(
                if w.is_edit_mode {
                    w.edit_attributes@
                } else {
                    e.attributes@
                },
            )
            &&& c.links@ == by_listing(e.links@)
            &&& c.incoming_links@ == by_listing(incoming_of(e.incoming_links))
            &&& c.shows_inlinks_tab == !w.is_edit_mode
            &&& c.default_access_level_id == default_entity_level(levels)
            &&& k >= 0 ==> {
                let a = e.attributes@[k];
                &&& c.listing_attribute_name@ == a.name@
                &&& c.listing_attribute_value@ == visible_value(
                    a,
                    levels,
                    texts(w.revealed_attribute_ids@).contains(a.id@),
                    may_access_value(session, e, a, levels),
                )
            }
            &&& k < 0 ==> c.listing_attribute_name@ == Seq::<char>::empty()
                && c.listing_attribute_value@ == Seq::<char>::empty()
        }
    }
}

/// What the body of an entity window shows.
pub fn entity_window_body(
    w: &EntityDetailsWindow,
    session: Option<&AuthSession>,
    access_levels: &Vec<AccessLevel>,
) -> (r: EntityWindowBody)
    ensures
        window_body_is(*w, opt_session(session), access_levels@, r),
{
    if w.is_loading {
        return EntityWindowBody::Loading;
    }
    match &w.error {
        Some(m) => {
            return EntityWindowBody::Failed(m.clone());
        },
        None => {},
    }
    let e = match &w.entity {
        Some(e) => e,
        None => {
            return EntityWindowBody::NoData;
        },
    };
    proof {
        lemma_index_of_facts(e.attributes@, e.listing_attribute_id@);
    }
    let (listing_attribute_name, listing_attribute_value) = match find_index(
        &e.attributes,
        &e.listing_attribute_id,
    ) {
        Some(k) => {
            let a = &e.attributes[k];
            let revealed = contains_text(&w.revealed_attribute_ids, &a.id);
            let can = can_access_attribute_value(session, e, a, access_levels);
            (a.name.clone(), entity_attribute_visible_value(a, access_levels, revealed, can))
        },
        None => (String::new(), String::new()),
    };
    let attributes = if w.is_edit_mode {
        in_listing_order(&w.edit_attributes)
    } else {
        in_listing_order(&e.attributes)
    };
    let links = in_listing_order(&e.links);
    let incoming_links = match &e.incoming_links {
        Some(l) => in_listing_order(l),
        None => {
            let none: Vec<EntityIncomingLink> = Vec::new();
            in_listing_order(&none)
        },
    };
    EntityWindowBody::Content(
        EntityWindowContent {
            listing_attribute_name,
            listing_attribute_value,
            attributes,
            links,
            incoming_links,
            shows_inlinks_tab: !w.is_edit_mode,
            default_access_level_id: default_entity_attribute_access_level_id(access_levels),
        },
    )
}

} // verus!

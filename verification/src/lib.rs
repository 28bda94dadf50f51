//! Verified core of the Rebirth knowledge-system frontend: domain types,
//! permission rules, request-body encoding, attribute list editing and the
//! small text transformations the user interface relies on.

mod text_std;

pub mod sort;
pub mod text;
pub mod types;
pub mod laws;
pub mod json;
pub mod listing;
pub mod template_editor;
pub mod entity_editor;
pub mod requests;
pub mod permissions;
pub mod modals;
pub mod stack;
pub mod pickers;
pub mod explorer;
pub mod app_state;
pub mod audit;
pub mod encoding;
pub mod security_flows;
pub mod attribute_template_flows;
pub mod entity_template_flows;
pub mod entity_flows;
pub mod views;
pub mod account;
pub mod window_edits;
pub mod template_rows;
pub mod window_content;
pub mod body_laws;

//! Debug-overlay policy: routing, chrome, sections and inspector rows.

pub mod capture;
pub mod consumer;
pub mod interact_status;
pub mod chrome;
pub mod ui_state;
pub mod command;
pub mod summaries;
pub mod overlay;
pub mod aoi_view;
pub mod sections;
pub mod viz;
pub mod entity_inspector;
pub mod agent_log;
pub mod camera;
pub mod collision_history;

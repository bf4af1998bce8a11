//! Verified client-side presentation, input and lifecycle logic.

pub mod text;
pub mod network;
pub mod lifecycle;
pub mod input;
pub mod display;
pub mod debug;
pub mod ids;
pub mod interact;
pub mod headwear;
pub mod jitter;
pub mod map_fade;
pub mod frontend;
pub mod interp;
pub mod interp_history;
pub mod dialogue;

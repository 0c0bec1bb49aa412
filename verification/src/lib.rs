use vstd::prelude::*;

pub mod app_state;
pub mod chars;
pub mod router;
pub mod platform;
pub mod events;
pub mod accessibility;
pub mod accessibility_tree;
pub mod control_state;
pub mod component;
pub mod context;
pub mod tasks;
pub mod text;
pub mod widgets;
pub mod runtime;
pub mod worker_pool;
pub mod editor;
pub mod list_items;
pub mod touch;

verus! {

} // verus!

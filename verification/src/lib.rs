use vstd::prelude::*;

pub mod text;
pub mod track;
pub mod format;
pub mod format_laws;
pub mod queue;
pub mod player;
pub mod player_laws;
pub mod album;
pub mod column;
pub mod filter;
pub mod edit;
pub mod ui;
pub mod spacing;
pub mod folder;
pub mod metadata;
pub mod settings;
pub mod window;
pub mod watch;
pub mod scan;
pub mod bootstrap;
pub mod rows;
pub mod session;
pub mod query;
pub mod grid;
pub mod controls;
pub mod menu;
pub mod form;
pub mod sidebar;
pub mod sorting;
pub mod layout;
pub mod rescan;

verus! {

} // verus!

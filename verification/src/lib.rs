//! Verified core of a terminal email-template builder: the template model,
//! structural edits on the body tree, form mapping, starters and the pure
//! helpers used by storage, preview and MJML tooling.

pub mod text;
pub mod assoc;
pub mod model;
pub mod tree;
pub mod nav;
pub mod edits;
pub mod columns;
pub mod editform;
pub mod cursor;
pub mod paths;
pub mod starters;
pub mod storage;
pub mod mjml;
pub mod preview;
pub mod details;
pub mod chrome;
pub mod editor;
pub mod panes;
pub mod modal;
pub mod picker;
pub mod workflow;
pub mod insert;

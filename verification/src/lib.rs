//! Verified core of a GUI component toolkit: text positions and ropes,
//! soft-wrapped line bookkeeping, table and list selection state, syntax
//! highlighting of lines and of multiline text, a flattened tree of items,
//! the syntax of Oklch colors, the topology of Sankey diagrams, and the
//! small state machines behind menus, notifications, tooltips and
//! go-to-definition.

pub mod errno;
pub mod decimal;
pub mod text_model;
pub mod rope;
pub mod cursor;
pub mod rope_ext;
pub mod text_wrapper;
pub mod marker;
pub mod languages;
pub mod highlight;
pub mod completion;
pub mod hover;
pub mod table;
pub mod list;
pub mod notification;
pub mod tooltip;
pub mod sankey;
pub mod ui_state;
pub mod oklch;
pub mod tree;
pub mod grammars;
pub mod syntax;

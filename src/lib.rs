//! A small creature catalog and the breeding-compatibility rules built on it:
//! which creatures share an egg group, which egg moves a pairing passes on,
//! and the decisions of the menu that asks these questions.
pub mod catalog;
pub mod menu;
pub mod nocase;
pub mod resolver;
pub mod store;
pub mod seed;

//! Metadata registry at the heart of an entity-component-system.
//!
//! The registry assigns stable, dense integer identities to components,
//! resources and relationships (typed edges between an entity and another
//! entity or category), and records, per identity, the memory layout needed
//! to store and destroy values of that type without compile-time knowledge
//! of the type.

pub mod component;
pub mod entity;
pub mod registry;
pub mod relationship_kinds;
pub mod type_info;

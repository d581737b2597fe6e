//! A declarative helper layer for building user-interface entity trees.
//!
//! A caller describes a hierarchy of UI nodes (containers, text, buttons,
//! images, grids) through ordinary function calls instead of filling in
//! component records one field at a time.  The heart of the library is a
//! small composition mechanism: ordered collections of *mutators* ("classes")
//! that edit a freshly created UI value in place, fetching any named
//! dependencies from a shared dependency store, before the value is committed
//! to the entity tree.

use vstd::prelude::*;

pub mod class;
pub mod store;
pub mod style;
pub mod tree;
pub mod widgets;

verus! {

/// Helpers that send a freshly returned entity handle somewhere useful:
/// into an optional slot, or onto the end of a list of handles.
pub trait EntityWriter: Sized {
    /// Stores this handle in `entity`.
    fn set(self, entity: &mut Option<Self>)
        ensures
            *final(entity) == Some(self),
    ;

    /// Appends this handle to `destination`.
    fn push(self, destination: &mut Vec<Self>)
        ensures
            final(destination)@ == old(destination)@.push(self),
    ;
}

impl EntityWriter for tree::EntityId {
    /// Copies this handle into an optional slot.
    fn set(self, entity: &mut Option<tree::EntityId>) {
        *entity = Some(self);
    }

    /// Pushes a copy of this handle onto a list.
    fn push(self, destination: &mut Vec<tree::EntityId>) {
        destination.push(self);
    }
}

} // verus!

use vstd::prelude::*;

verus! {

/// A handle naming one live entity.
///
/// Entity allocation is the business of an outside collaborator; the registry
/// only stores these handles as relationship targets, so the handle is a
/// plain integer identifier here.
#[derive(Debug, Copy, Clone, Hash, Eq, PartialEq, Structural)]
pub struct Entity(pub u64);

impl Entity {
    pub fn new(id: u64) -> (r: Entity)
        ensures
            r.0 == id,
    {
        Entity(id)
    }

    pub fn id(self) -> (r: u64)
        ensures
            r == self.0,
    {
        self.0
    }
}

} // verus!

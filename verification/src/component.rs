use vstd::prelude::*;

use crate::entity::Entity;
use crate::type_info::{DropFn, Layout, TypeInfo};

verus! {

/// Marker for per-entity data that may be shared and moved across threads.
pub trait Component: Send + Sync + 'static {
}

impl<T: Send + Sync + 'static> Component for T {
}

/// Where the storage layer should physically place values: a contiguous
/// table, or a sparse map.
#[derive(Debug, Copy, Clone, Eq, PartialEq, Structural)]
pub enum StorageType {
    Table,
    SparseSet,
}

impl Default for StorageType {
    fn default() -> (r: Self)
        ensures
            r == StorageType::Table,
    {
        StorageType::Table
    }
}

/// The raw memory shape of one concrete type: its name, storage strategy,
/// thread-safety classification, optional process-wide type key, byte layout
/// and destructor.
///
/// The descriptor never changes after construction, and `drop` must name a
/// destructor valid for exactly the recorded layout; when a descriptor is
/// built from raw parts that consistency is the caller's contract.
#[derive(Debug)]
pub struct DataLayout {
    pub name: String,
    pub storage_type: StorageType,
    pub is_send_and_sync: bool,
    pub type_id: Option<u64>,
    pub layout: Layout,
    pub drop: DropFn,
}

/// The descriptor that a statically known type yields under the default
/// storage strategy.
pub open spec fn data_layout_of_type_info(type_info: TypeInfo) -> DataLayout {
    DataLayout {
        name: type_info.name,
        storage_type: StorageType::Table,
        is_send_and_sync: type_info.is_send_and_sync,
        type_id: Some(type_info.type_id),
        layout: type_info.layout,
        drop: type_info.drop,
    }
}

impl DataLayout {
    /// Build a descriptor from caller-supplied raw parts, for dynamically
    /// defined types with no process-wide type key.
    ///
    /// The caller guarantees that `drop` destroys exactly `layout`-shaped
    /// memory and that `is_send_and_sync` is truthful.
    pub fn new(
        name: Option<String>,
        storage_type: StorageType,
        is_send_and_sync: bool,
        layout: Layout,
        drop: DropFn,
    ) -> (r: Self)
        ensures
            r.name@ == (match name {
                Some(n) => n@,
                None => Seq::<char>::empty(),
            }),
            r.storage_type == storage_type,
            r.is_send_and_sync == is_send_and_sync,
            r.type_id is None,
            r.layout == layout,
            r.drop == drop,
    {
        let name = match name {
            Some(n) => n,
            None => String::new(),
        };
        Self { name, storage_type, is_send_and_sync, type_id: None, layout, drop }
    }

    /// Build a descriptor for a statically known, thread-safe type.
    pub fn from_generic(type_info: &TypeInfo, storage_type: StorageType) -> (r: Self)
        requires
            type_info.is_send_and_sync,
        ensures
            r.name == type_info.name,
            r.storage_type == storage_type,
            r.is_send_and_sync,
            r.type_id == Some(type_info.type_id),
            r.layout == type_info.layout,
            r.drop == type_info.drop,
    {
        Self {
            name: type_info.name.clone(),
            storage_type,
            is_send_and_sync: true,
            type_id: Some(type_info.type_id),
            layout: type_info.layout,
            drop: type_info.drop,
        }
    }

    pub fn name(&self) -> (r: &str)
        ensures
            r@ == self.name@,
    {
        self.name.as_str()
    }

    pub fn type_id(&self) -> (r: Option<u64>)
        ensures
            r == self.type_id,
    {
        self.type_id
    }

    pub fn layout(&self) -> (r: Layout)
        ensures
            r == self.layout,
    {
        self.layout
    }

    pub fn drop(&self) -> (r: DropFn)
        ensures
            r == self.drop,
    {
        self.drop
    }

    pub fn storage_type(&self) -> (r: StorageType)
        ensures
            r == self.storage_type,
    {
        self.storage_type
    }

    pub fn is_send_and_sync(&self) -> (r: bool)
        ensures
            r == self.is_send_and_sync,
    {
        self.is_send_and_sync
    }
}

impl From<TypeInfo> for DataLayout {
    fn from(type_info: TypeInfo) -> (r: Self) {
        Self {
            name: type_info.name,
            storage_type: StorageType::Table,
            is_send_and_sync: type_info.is_send_and_sync,
            type_id: Some(type_info.type_id),
            layout: type_info.layout,
            drop: type_info.drop,
        }
    }
}

impl vstd::std_specs::convert::FromSpecImpl<TypeInfo> for DataLayout {
    open spec fn obeys_from_spec() -> bool {
        true
    }

    open spec fn from_spec(type_info: TypeInfo) -> Self {
        data_layout_of_type_info(type_info)
    }
}

/// A dense integer naming one fully resolved (kind, target) relationship.
#[derive(Debug, Copy, Clone, Hash, Eq, PartialEq, PartialOrd, Ord, Structural)]
pub struct RelationshipId(pub usize);

impl RelationshipId {
    pub fn new(index: usize) -> (r: RelationshipId)
        ensures
            r.0 == index,
    {
        RelationshipId(index)
    }

    pub fn index(self) -> (r: usize)
        ensures
            r == self.0,
    {
        self.0
    }
}

/// A dense integer naming a kind of relationship edge.
#[derive(Debug, Copy, Clone, Hash, Eq, PartialEq, Structural)]
pub struct RelationshipKindId(pub usize);

/// What the registry stores per relationship kind.
#[derive(Debug, Copy, Clone, Hash, Eq, PartialEq, Structural)]
pub struct RelationshipKindInfo {
    pub id: RelationshipKindId,
}

/// A dense integer standing in for a kind of thing a relationship can
/// target: a category of values rather than a concrete entity.
#[derive(Debug, Copy, Clone, Hash, Eq, PartialEq, Structural)]
pub struct DummyId(pub usize);

/// What the registry stores per category id: the id itself and, for
/// categories backing a statically known type, that type's key.
#[derive(Debug, Copy, Clone, Hash, Eq, PartialEq, Structural)]
pub struct DummyInfo {
    pub rust_type: Option<u64>,
    pub id: DummyId,
}

/// The target of a relationship edge: a concrete entity, or a category id.
///
/// The category id lets components and resources fit the relationship model
/// without spawning a phantom entity to stand for their type.
#[derive(Debug, Copy, Clone, Hash, Eq, PartialEq, Structural)]
pub enum EntityOrDummyId {
    Entity(Entity),
    DummyId(DummyId),
}

/// The interning key of a relationship: the kind of edge and its target.
#[derive(Debug, Copy, Clone, Hash, Eq, PartialEq, Structural)]
pub struct Relship {
    pub kind: RelationshipKindId,
    pub target: EntityOrDummyId,
}

impl Relship {
    pub fn new(kind: RelationshipKindId, target: EntityOrDummyId) -> (r: Self)
        ensures
            r.kind == kind,
            r.target == target,
    {
        Self { kind, target }
    }
}

/// One interned relationship: its dense id, its key, and the descriptor of
/// the data stored per edge of this relationship.
#[derive(Debug)]
pub struct RelationshipInfo {
    pub id: RelationshipId,
    pub relationship: Relship,
    pub data: DataLayout,
}

impl RelationshipInfo {
    pub fn id(&self) -> (r: RelationshipId)
        ensures
            r == self.id,
    {
        self.id
    }

    pub fn data_layout(&self) -> (r: &DataLayout)
        ensures
            r == &self.data,
    {
        &self.data
    }
}

/// Everything that can go wrong in the registry's strict registration paths.
#[derive(Debug, Copy, Clone, Eq, PartialEq, Structural)]
pub enum RelationshipsError {
    /// The strict registration path found the key already interned.
    RelationshipAlreadyExists(Relship),
    /// A relationship kind was already registered for this category id.
    RelationshipKindAlreadyExists(DummyId),
}

/// Change-tracking marks on one stored value: whether it was freshly added
/// and whether it was mutated since the marks were last cleared.
///
/// The marks round-trip through storage unchanged until the consuming system
/// clears them.
#[derive(Debug, Copy, Clone, Eq, PartialEq, Structural)]
pub struct ComponentFlags {
    pub added: bool,
    pub mutated: bool,
}

impl ComponentFlags {
    pub fn empty() -> (r: Self)
        ensures
            !r.added,
            !r.mutated,
    {
        Self { added: false, mutated: false }
    }

    pub fn set_added(&mut self)
        ensures
            final(self).added,
            final(self).mutated == old(self).mutated,
    {
        self.added = true;
    }

    pub fn set_mutated(&mut self)
        ensures
            final(self).mutated,
            final(self).added == old(self).added,
    {
        self.mutated = true;
    }

    pub fn clear_added(&mut self)
        ensures
            !final(self).added,
            final(self).mutated == old(self).mutated,
    {
        self.added = false;
    }

    pub fn clear_mutated(&mut self)
        ensures
            !final(self).mutated,
            final(self).added == old(self).added,
    {
        self.mutated = false;
    }

    pub fn is_added(&self) -> (r: bool)
        ensures
            r == self.added,
    {
        self.added
    }

    pub fn is_mutated(&self) -> (r: bool)
        ensures
            r == self.mutated,
    {
        self.mutated
    }
}

} // verus!

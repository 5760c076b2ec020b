use vstd::prelude::*;

use std::collections::HashMap;

use crate::component::{
    data_layout_of_type_info, DataLayout, DummyId, DummyInfo, EntityOrDummyId, RelationshipId,
    RelationshipInfo, RelationshipKindId, RelationshipKindInfo, RelationshipsError, Relship,
};
use crate::relationship_kinds::{HAS_COMPONENT_TYPE_KEY, HAS_RESOURCE_TYPE_KEY};
use crate::type_info::TypeInfo;

verus! {

/// The aggregate owning all interning tables: interned relationships,
/// relationship kinds, category ids, and the reverse map from process-wide
/// type keys to category ids.
///
/// The registry only ever grows: ids are dense indices into the tables, and
/// an entry, once stored, is never removed or changed.
pub struct Relationships {
    relationships: Vec<RelationshipInfo>,
    kinds: Vec<RelationshipKindInfo>,
    kind_indices: HashMap<u64, RelationshipKindId>,
    dummy_id_to_type_id: Vec<DummyInfo>,
    type_id_to_dummy_id: HashMap<u64, DummyId>,
}

impl Relationships {
    /// The interned relationships, in order of registration.
    pub closed spec fn spec_rels(self) -> Seq<RelationshipInfo> {
        self.relationships@
    }

    /// The registered relationship kinds, in order of registration.
    pub closed spec fn spec_kinds(self) -> Seq<RelationshipKindInfo> {
        self.kinds@
    }

    /// The map from a category id's value to the kind registered for it.
    pub closed spec fn spec_kind_index(self) -> Map<u64, RelationshipKindId> {
        self.kind_indices@
    }

    /// The allocated category ids, in order of allocation.
    pub closed spec fn spec_dummies(self) -> Seq<DummyInfo> {
        self.dummy_id_to_type_id@
    }

    /// The map from a process-wide type key to its category id.
    pub closed spec fn spec_type_index(self) -> Map<u64, DummyId> {
        self.type_id_to_dummy_id@
    }

    /// Whether this relationship key is already interned.
    pub open spec fn rel_interned(self, relationship: Relship) -> bool {
        exists|i: int|
            0 <= i < self.spec_rels().len() && (#[trigger] self.spec_rels()[i]).relationship
                == relationship
    }

    /// What resolving an id yields: the entry at that index, if the id has
    /// been issued.
    pub open spec fn spec_resolve(self, id: RelationshipId) -> Option<RelationshipInfo> {
        if id.0 < self.spec_rels().len() {
            Some(self.spec_rels()[id.0 as int])
        } else {
            None
        }
    }

    /// The built-in "has-component" relationship kind, re-derived from its
    /// reserved type key.
    pub open spec fn spec_has_component_kind(self) -> RelationshipKindId {
        self.spec_kind_index()[self.spec_type_index()[HAS_COMPONENT_TYPE_KEY].0 as u64]
    }

    /// The built-in "has-resource" relationship kind, re-derived from its
    /// reserved type key.
    pub open spec fn spec_has_resource_kind(self) -> RelationshipKindId {
        self.spec_kind_index()[self.spec_type_index()[HAS_RESOURCE_TYPE_KEY].0 as u64]
    }

    /// The invariants the four tables keep among themselves.
    ///
    /// Ids are dense indices into their tables; interned relationship keys
    /// are distinct; the kind and type maps are injective and consistent
    /// with the tables they index.
    pub open spec fn tables_wf(self) -> bool {
        &&& forall|i: int|
            0 <= i < self.spec_rels().len() ==> (#[trigger] self.spec_rels()[i]).id.0 == i
        &&& forall|i: int, j: int|
            0 <= i < self.spec_rels().len() && 0 <= j < self.spec_rels().len() && i != j ==> (
            #[trigger] self.spec_rels()[i]).relationship != (
            #[trigger] self.spec_rels()[j]).relationship
        &&& forall|i: int|
            0 <= i < self.spec_kinds().len() ==> (#[trigger] self.spec_kinds()[i]).id.0 == i
        &&& forall|d: u64|
            self.spec_kind_index().contains_key(d) ==> (#[trigger] self.spec_kind_index()[d]).0
                < self.spec_kinds().len()
        &&& forall|d1: u64, d2: u64|
            self.spec_kind_index().contains_key(d1) && self.spec_kind_index().contains_key(d2)
                && d1 != d2 ==> (#[trigger] self.spec_kind_index()[d1]) != (
            #[trigger] self.spec_kind_index()[d2])
        &&& forall|i: int|
            0 <= i < self.spec_dummies().len() ==> (#[trigger] self.spec_dummies()[i]).id.0 == i
        &&& forall|k: u64|
            self.spec_type_index().contains_key(k) ==> {
                let d = (#[trigger] self.spec_type_index()[k]).0;
                &&& d < self.spec_dummies().len()
                &&& self.spec_dummies()[d as int].rust_type == Some(k)
            }
        &&& forall|i: int|
            0 <= i < self.spec_dummies().len() ==> match (
            #[trigger] self.spec_dummies()[i]).rust_type {
                Some(k) => self.spec_type_index().contains_key(k)
                    && self.spec_type_index()[k].0 == i,
                None => true,
            }
    }

    /// The two built-in relationship kinds are resolvable from their
    /// reserved type keys.
    pub open spec fn bootstrapped(self) -> bool {
        &&& self.spec_type_index().contains_key(HAS_COMPONENT_TYPE_KEY)
        &&& self.spec_type_index().contains_key(HAS_RESOURCE_TYPE_KEY)
        &&& self.spec_kind_index().contains_key(
            self.spec_type_index()[HAS_COMPONENT_TYPE_KEY].0 as u64,
        )
        &&& self.spec_kind_index().contains_key(
            self.spec_type_index()[HAS_RESOURCE_TYPE_KEY].0 as u64,
        )
    }

    /// A well-formed registry: consistent tables, built-in kinds in place.
    /// Every construction and mutation path maintains this.
    pub open spec fn wf(self) -> bool {
        self.tables_wf() && self.bootstrapped()
    }

    /// How many relationships are interned.
    pub fn len(&self) -> (r: usize)
        ensures
            r == self.spec_rels().len(),
    {
        self.relationships.len()
    }

    pub fn is_empty(&self) -> (r: bool)
        ensures
            r == (self.spec_rels().len() == 0),
    {
        self.relationships.len() == 0
    }

    /// Allocate the next dense category id, optionally binding it to a
    /// process-wide type key.
    ///
    /// Binding a key that is already bound is a programmer error: callers
    /// must check first with [`Self::type_id_to_dummy_id`], so a bound key
    /// is ruled out here rather than silently overwritten.
    pub fn new_dummy_id(&mut self, type_id: Option<u64>) -> (r: DummyId)
        requires
            old(self).tables_wf(),
            type_id matches Some(k) ==> !old(self).spec_type_index().contains_key(k),
        ensures
            final(self).tables_wf(),
            old(self).bootstrapped() ==> final(self).bootstrapped(),
            r.0 == old(self).spec_dummies().len(),
            final(self).spec_dummies() == old(self).spec_dummies().push(
                DummyInfo { rust_type: type_id, id: r },
            ),
            final(self).spec_type_index() == (match type_id {
                Some(k) => old(self).spec_type_index().insert(k, r),
                None => old(self).spec_type_index(),
            }),
            final(self).spec_rels() == old(self).spec_rels(),
            final(self).spec_kinds() == old(self).spec_kinds(),
            final(self).spec_kind_index() == old(self).spec_kind_index(),
    {
        let dummy_id = DummyId(self.dummy_id_to_type_id.len());
        self.dummy_id_to_type_id.push(DummyInfo { rust_type: type_id, id: dummy_id });

        if let Some(key) = type_id {
            self.type_id_to_dummy_id.insert(key, dummy_id);
        }
        proof {
            let od = old(self).spec_dummies();
            let nd = self.spec_dummies();
            let om = old(self).spec_type_index();
            let nm = self.spec_type_index();
            assert(self.spec_kinds() == old(self).spec_kinds());
            assert(self.spec_kind_index() == old(self).spec_kind_index());
            assert forall|i: int| 0 <= i < self.spec_kinds().len() implies (
            #[trigger] self.spec_kinds()[i]).id.0 == i by {
                assert((#[trigger] old(self).spec_kinds()[i]).id.0 == i);
            }
            assert forall|d: u64| self.spec_kind_index().contains_key(d) implies (
            #[trigger] self.spec_kind_index()[d]).0 < self.spec_kinds().len() by {
                assert(old(self).spec_kind_index().contains_key(d));
                assert(old(self).spec_kind_index()[d].0 < old(self).spec_kinds().len());
            }
            assert forall|d1: u64, d2: u64|
                self.spec_kind_index().contains_key(d1) && self.spec_kind_index().contains_key(d2)
                    && d1 != d2 implies (#[trigger] self.spec_kind_index()[d1]) != (
            #[trigger] self.spec_kind_index()[d2]) by {
                assert(old(self).spec_kind_index()[d1] != old(self).spec_kind_index()[d2]);
            }
            assert forall|i: int| 0 <= i < nd.len() implies (#[trigger] nd[i]).id.0 == i by {
                if i < od.len() {
                    assert(nd[i] == od[i]);
                }
            }
            assert forall|k: u64| nm.contains_key(k) implies (#[trigger] nm[k]).0 < nd.len()
                && nd[nm[k].0 as int].rust_type == Some(k) by {
                match type_id {
                    Some(tk) => {
                        if k == tk {
                            assert(nd[od.len() as int] == (DummyInfo {
                                rust_type: type_id,
                                id: dummy_id,
                            }));
                        } else {
                            assert(om.contains_key(k));
                            assert(nd[om[k].0 as int] == od[om[k].0 as int]);
                        }
                    },
                    None => {
                        assert(om.contains_key(k));
                        assert(nd[om[k].0 as int] == od[om[k].0 as int]);
                    },
                }
            }
            assert forall|i: int| 0 <= i < nd.len() implies match (#[trigger] nd[i]).rust_type {
                Some(k) => nm.contains_key(k) && nm[k].0 == i,
                None => true,
            } by {
                if i < od.len() {
                    assert(nd[i] == od[i]);
                    match od[i].rust_type {
                        Some(k) => {
                            assert(om.contains_key(k));
                        },
                        None => {},
                    }
                } else {
                    assert(nd[i] == (DummyInfo { rust_type: type_id, id: dummy_id }));
                }
            }
        }
        dummy_id
    }

    /// Look a process-wide type key up in the reverse map.
    pub fn type_id_to_dummy_id(&self, type_id: u64) -> (r: Option<DummyId>)
        ensures
            r == (if self.spec_type_index().contains_key(type_id) {
                Some(self.spec_type_index()[type_id])
            } else {
                None::<DummyId>
            }),
    {
        match self.type_id_to_dummy_id.get(&type_id) {
            Some(d) => Some(*d),
            None => None,
        }
    }

    /// Append a new dense kind id for this category id, without the
    /// duplicate check; the caller rules the duplicate out.
    fn push_relationship_kind(&mut self, dummy_id: DummyId) -> (r: RelationshipKindId)
        requires
            old(self).tables_wf(),
            !old(self).spec_kind_index().contains_key(dummy_id.0 as u64),
        ensures
            final(self).tables_wf(),
            old(self).bootstrapped() ==> final(self).bootstrapped(),
            r.0 == old(self).spec_kinds().len(),
            final(self).spec_kinds() == old(self).spec_kinds().push(RelationshipKindInfo { id: r }),
            final(self).spec_kind_index() == old(self).spec_kind_index().insert(
                dummy_id.0 as u64,
                r,
            ),
            final(self).spec_rels() == old(self).spec_rels(),
            final(self).spec_dummies() == old(self).spec_dummies(),
            final(self).spec_type_index() == old(self).spec_type_index(),
    {
        let id = RelationshipKindId(self.kinds.len());
        self.kind_indices.insert(dummy_id.0 as u64, id);
        self.kinds.push(RelationshipKindInfo { id });
        proof {
            let ok = old(self).spec_kinds();
            let nk = self.spec_kinds();
            let om = old(self).spec_kind_index();
            let nm = self.spec_kind_index();
            let key = dummy_id.0 as u64;
            assert forall|i: int| 0 <= i < nk.len() implies (#[trigger] nk[i]).id.0 == i by {
                if i < ok.len() {
                    assert(nk[i] == ok[i]);
                }
            }
            assert forall|d: u64| nm.contains_key(d) implies (#[trigger] nm[d]).0 < nk.len() by {
                if d != key {
                    assert(om.contains_key(d));
                    assert(nm[d] == om[d]);
                }
            }
            assert forall|d1: u64, d2: u64|
                nm.contains_key(d1) && nm.contains_key(d2) && d1 != d2 implies (
            #[trigger] nm[d1]) != (#[trigger] nm[d2]) by {
                if d1 != key && d2 != key {
                    assert(nm[d1] == om[d1]);
                    assert(nm[d2] == om[d2]);
                } else if d1 == key {
                    assert(om.contains_key(d2));
                    assert(om[d2].0 < ok.len());
                } else {
                    assert(om.contains_key(d1));
                    assert(om[d1].0 < ok.len());
                }
            }
        }
        id
    }

    /// Register a new relationship kind named by this category id.
    ///
    /// Exactly one kind may exist per category id: registering a second
    /// kind for the same category fails with a duplicate-kind error and
    /// changes nothing.
    pub fn new_relationship_kind(&mut self, dummy_id: DummyId) -> (r: Result<
        RelationshipKindId,
        RelationshipsError,
    >)
        requires
            old(self).wf(),
        ensures
            final(self).wf(),
            old(self).spec_kind_index().contains_key(dummy_id.0 as u64) ==> {
                &&& r == Err::<RelationshipKindId, RelationshipsError>(
                    RelationshipsError::RelationshipKindAlreadyExists(dummy_id),
                )
                &&& *final(self) == *old(self)
            },
            !old(self).spec_kind_index().contains_key(dummy_id.0 as u64) ==> match r {
                Ok(id) => {
                    &&& id.0 == old(self).spec_kinds().len()
                    &&& final(self).spec_kinds() == old(self).spec_kinds().push(
                        RelationshipKindInfo { id },
                    )
                    &&& final(self).spec_kind_index() == old(self).spec_kind_index().insert(
                        dummy_id.0 as u64,
                        id,
                    )
                    &&& final(self).spec_rels() == old(self).spec_rels()
                    &&& final(self).spec_dummies() == old(self).spec_dummies()
                    &&& final(self).spec_type_index() == old(self).spec_type_index()
                },
                Err(_) => false,
            },
    {
        if self.kind_indices.contains_key(&(dummy_id.0 as u64)) {
            Err(RelationshipsError::RelationshipKindAlreadyExists(dummy_id))
        } else {
            Ok(self.push_relationship_kind(dummy_id))
        }
    }

    /// The kind id behind the reserved "has-component" type key.
    pub fn relkind_of_has_component(&self) -> (r: RelationshipKindId)
        requires
            self.wf(),
        ensures
            r == self.spec_has_component_kind(),
    {
        let has_component_id = match self.type_id_to_dummy_id.get(&HAS_COMPONENT_TYPE_KEY) {
            Some(d) => *d,
            None => vstd::pervasive::unreached(),
        };
        match self.kind_indices.get(&(has_component_id.0 as u64)) {
            Some(k) => *k,
            None => vstd::pervasive::unreached(),
        }
    }

    /// The kind id behind the reserved "has-resource" type key.
    pub fn relkind_of_has_resource(&self) -> (r: RelationshipKindId)
        requires
            self.wf(),
        ensures
            r == self.spec_has_resource_kind(),
    {
        let has_resource_id = match self.type_id_to_dummy_id.get(&HAS_RESOURCE_TYPE_KEY) {
            Some(d) => *d,
            None => vstd::pervasive::unreached(),
        };
        match self.kind_indices.get(&(has_resource_id.0 as u64)) {
            Some(k) => *k,
            None => vstd::pervasive::unreached(),
        }
    }

    /// Look up the id interned for this relationship key, if any.
    pub fn get_relationship_id(&self, relationship: Relship) -> (r: Option<RelationshipId>)
        requires
            self.wf(),
        ensures
            match r {
                Some(id) => id.0 < self.spec_rels().len() && self.spec_rels()[
                    id.0 as int
                ].relationship == relationship,
                None => !self.rel_interned(relationship),
            },
    {
        let n = self.relationships.len();
        let mut i: usize = 0;
        while i < n
            invariant
                n == self.spec_rels().len(),
                i <= n,
                self.wf(),
                forall|j: int|
                    0 <= j < i ==> (#[trigger] self.spec_rels()[j]).relationship != relationship,
            decreases n - i,
        {
            if self.relationships[i].relationship == relationship {
                return Some(self.relationships[i].id);
            }
            i = i + 1;
        }
        None
    }

    /// Resolve an id to its stored entry, if the id has been issued by this
    /// registry.
    pub fn get_relationship_info(&self, id: RelationshipId) -> (r: Option<&RelationshipInfo>)
        ensures
            match r {
                Some(info) => self.spec_resolve(id) == Some(*info),
                None => self.spec_resolve(id) is None,
            },
    {
        if id.0 < self.relationships.len() {
            Some(&self.relationships[id.0])
        } else {
            None
        }
    }

    /// Resolve an id without the bounds check.
    ///
    /// The caller proves validity instead: the id must have been issued by
    /// this registry, which only ever grows, so every issued id stays below
    /// the table's length.
    pub fn get_relationship_info_unchecked(&self, id: RelationshipId) -> (r: &RelationshipInfo)
        requires
            id.0 < self.spec_rels().len(),
        ensures
            *r == self.spec_rels()[id.0 as int],
    {
        &self.relationships[id.0]
    }

    /// Strictly register a new relationship under this key with the given
    /// descriptor.
    ///
    /// Fails with a duplicate-relationship error, and changes nothing, when
    /// the key is already interned; first registration is a meaningful event
    /// to callers of this path, never silently collapsed.
    pub fn register_relationship(
        &mut self,
        relationship: Relship,
        comp_descriptor: DataLayout,
    ) -> (r: Result<&RelationshipInfo, RelationshipsError>)
        requires
            old(self).wf(),
        ensures
            final(self).wf(),
            match r {
                Ok(info) => register_new_post(
                    *old(self),
                    *final(self),
                    relationship,
                    comp_descriptor,
                    Ok(*info),
                ),
                Err(e) => register_new_post(
                    *old(self),
                    *final(self),
                    relationship,
                    comp_descriptor,
                    Err(e),
                ),
            },
    {
        if self.get_relationship_id(relationship).is_some() {
            return Err(RelationshipsError::RelationshipAlreadyExists(relationship));
        }

        let rel_id = RelationshipId(self.relationships.len());
        self.relationships.push(
            RelationshipInfo { id: rel_id, relationship, data: comp_descriptor },
        );
        proof {
            lemma_rel_push_keeps_tables_wf(*old(self), *self, relationship);
        }
        let idx = self.relationships.len() - 1;
        Ok(&self.relationships[idx])
    }

    /// The hot path: return the entry interned for this key, interning it
    /// first when absent.
    ///
    /// When the key is already interned the registry is untouched and the
    /// factory is never invoked; otherwise the factory's type description is
    /// turned into the stored descriptor under the next dense id. This never
    /// fails.
    pub fn get_relationship_info_or_insert_with<F: FnOnce() -> TypeInfo>(
        &mut self,
        relationship: Relship,
        data_layout: F,
    ) -> (r: &RelationshipInfo)
        requires
            old(self).wf(),
            call_requires(data_layout, ()),
        ensures
            final(self).wf(),
            get_or_insert_post(*old(self), *final(self), relationship, *r),
            !old(self).rel_interned(relationship) ==> exists|type_info: TypeInfo|
                call_ensures(data_layout, (), type_info) && r.data == data_layout_of_type_info(
                    type_info,
                ),
    {
        match self.get_relationship_id(relationship) {
            Some(id) => {
                proof {
                    assert(old(self).rel_interned(relationship)) by {
                        assert(old(self).spec_rels()[id.0 as int].relationship == relationship);
                    }
                }
                let idx = id.index();
                &self.relationships[idx]
            },
            None => {
                let rel_id = RelationshipId(self.relationships.len());
                let type_info = data_layout();
                let data = DataLayout::from(type_info);
                self.relationships.push(RelationshipInfo { id: rel_id, relationship, data });
                proof {
                    lemma_rel_push_keeps_tables_wf(*old(self), *self, relationship);
                }
                let idx = self.relationships.len() - 1;
                &self.relationships[idx]
            },
        }
    }

    /// The interning key modelling "this category's data is a component".
    pub open spec fn spec_component_relship(self, dummy: DummyId) -> Relship {
        Relship { kind: self.spec_has_component_kind(), target: EntityOrDummyId::DummyId(dummy) }
    }

    /// The interning key modelling "this category's data is a resource".
    pub open spec fn spec_resource_relship(self, dummy: DummyId) -> Relship {
        Relship { kind: self.spec_has_resource_kind(), target: EntityOrDummyId::DummyId(dummy) }
    }

    /// Look up the relationship id under which this type key's data is
    /// registered as a component, if both the category and the relationship
    /// exist.
    pub fn get_component_id(&self, type_id: u64) -> (r: Option<RelationshipId>)
        requires
            self.wf(),
        ensures
            !self.spec_type_index().contains_key(type_id) ==> r is None,
            self.spec_type_index().contains_key(type_id) ==> match r {
                Some(id) => id.0 < self.spec_rels().len() && self.spec_rels()[
                    id.0 as int
                ].relationship == self.spec_component_relship(self.spec_type_index()[type_id]),
                None => !self.rel_interned(
                    self.spec_component_relship(self.spec_type_index()[type_id]),
                ),
            },
    {
        let dummy = match self.type_id_to_dummy_id(type_id) {
            Some(d) => d,
            None => {
                return None;
            },
        };
        self.get_relationship_id(
            Relship::new(self.relkind_of_has_component(), EntityOrDummyId::DummyId(dummy)),
        )
    }

    /// Look up the relationship id under which this type key's data is
    /// registered as a resource, if both the category and the relationship
    /// exist.
    pub fn get_resource_id(&self, type_id: u64) -> (r: Option<RelationshipId>)
        requires
            self.wf(),
        ensures
            !self.spec_type_index().contains_key(type_id) ==> r is None,
            self.spec_type_index().contains_key(type_id) ==> match r {
                Some(id) => id.0 < self.spec_rels().len() && self.spec_rels()[
                    id.0 as int
                ].relationship == self.spec_resource_relship(self.spec_type_index()[type_id]),
                None => !self.rel_interned(
                    self.spec_resource_relship(self.spec_type_index()[type_id]),
                ),
            },
    {
        let dummy = match self.type_id_to_dummy_id(type_id) {
            Some(d) => d,
            None => {
                return None;
            },
        };
        self.get_relationship_id(
            Relship::new(self.relkind_of_has_resource(), EntityOrDummyId::DummyId(dummy)),
        )
    }

    /// Resolve or allocate the category id for this type key, then intern
    /// (has-component, category) with the factory's description if absent.
    fn get_component_info_or_insert_with<F: FnOnce() -> TypeInfo>(
        &mut self,
        type_id: u64,
        data_layout: F,
    ) -> (r: &RelationshipInfo)
        requires
            old(self).wf(),
            call_requires(data_layout, ()),
        ensures
            final(self).wf(),
            final(self).spec_type_index().contains_key(type_id),
            final(self).spec_has_component_kind() == old(self).spec_has_component_kind(),
            final(self).spec_has_resource_kind() == old(self).spec_has_resource_kind(),
            ({
                let rel = final(self).spec_component_relship(
                    final(self).spec_type_index()[type_id],
                );
                &&& r.id.0 < final(self).spec_rels().len()
                &&& final(self).spec_rels()[r.id.0 as int] == *r
                &&& r.relationship == rel
            }),
            old(self).spec_type_index().contains_key(type_id) && old(self).rel_interned(
                old(self).spec_component_relship(old(self).spec_type_index()[type_id]),
            ) ==> *final(self) == *old(self),
            forall|i: int|
                0 <= i < old(self).spec_rels().len() ==> final(self).spec_rels()[i] == (
                #[trigger] old(self).spec_rels()[i]),
            forall|i: int|
                0 <= i < old(self).spec_dummies().len() ==> final(self).spec_dummies()[i] == (
                #[trigger] old(self).spec_dummies()[i]),
            forall|k: u64|
                #[trigger] old(self).spec_type_index().contains_key(k) ==> final(self).spec_type_index().contains_key(k) && final(self).spec_type_index()[k] == old(self).spec_type_index()[k],
            final(self).spec_kinds() == old(self).spec_kinds(),
            final(self).spec_kind_index() == old(self).spec_kind_index(),
            old(self).spec_rels().len() <= final(self).spec_rels().len() <= old(self).spec_rels().len() + 1,
            old(self).spec_dummies().len() <= final(self).spec_dummies().len() <= old(self).spec_dummies().len() + 1,
            final(self).spec_rels().len() > old(self).spec_rels().len() ==> r.id.0 == old(self).spec_rels().len(),
            final(self).spec_rels().len() > old(self).spec_rels().len() ==> exists|type_info: TypeInfo|
                call_ensures(data_layout, (), type_info) && r.data == data_layout_of_type_info(
                    type_info,
                ),
    {
        let component_id = match self.type_id_to_dummy_id(type_id) {
            Some(id) => id,
            None => self.new_dummy_id(Some(type_id)),
        };

        let kind = self.relkind_of_has_component();
        self.get_relationship_info_or_insert_with(
            Relship::new(kind, EntityOrDummyId::DummyId(component_id)),
            data_layout,
        )
    }

    /// Resolve or allocate the category id for this type key, then intern
    /// (has-resource, category) with the factory's description if absent.
    fn get_resource_info_or_insert_with<F: FnOnce() -> TypeInfo>(
        &mut self,
        type_id: u64,
        data_layout: F,
    ) -> (r: &RelationshipInfo)
        requires
            old(self).wf(),
            call_requires(data_layout, ()),
        ensures
            final(self).wf(),
            final(self).spec_type_index().contains_key(type_id),
            final(self).spec_has_component_kind() == old(self).spec_has_component_kind(),
            final(self).spec_has_resource_kind() == old(self).spec_has_resource_kind(),
            ({
                let rel = final(self).spec_resource_relship(
                    final(self).spec_type_index()[type_id],
                );
                &&& r.id.0 < final(self).spec_rels().len()
                &&& final(self).spec_rels()[r.id.0 as int] == *r
                &&& r.relationship == rel
            }),
            old(self).spec_type_index().contains_key(type_id) && old(self).rel_interned(
                old(self).spec_resource_relship(old(self).spec_type_index()[type_id]),
            ) ==> *final(self) == *old(self),
            forall|i: int|
                0 <= i < old(self).spec_rels().len() ==> final(self).spec_rels()[i] == (
                #[trigger] old(self).spec_rels()[i]),
            forall|i: int|
                0 <= i < old(self).spec_dummies().len() ==> final(self).spec_dummies()[i] == (
                #[trigger] old(self).spec_dummies()[i]),
            forall|k: u64|
                #[trigger] old(self).spec_type_index().contains_key(k) ==> final(self).spec_type_index().contains_key(k) && final(self).spec_type_index()[k] == old(self).spec_type_index()[k],
            final(self).spec_kinds() == old(self).spec_kinds(),
            final(self).spec_kind_index() == old(self).spec_kind_index(),
            old(self).spec_rels().len() <= final(self).spec_rels().len() <= old(self).spec_rels().len() + 1,
            old(self).spec_dummies().len() <= final(self).spec_dummies().len() <= old(self).spec_dummies().len() + 1,
            final(self).spec_rels().len() > old(self).spec_rels().len() ==> r.id.0 == old(self).spec_rels().len(),
            final(self).spec_rels().len() > old(self).spec_rels().len() ==> exists|type_info: TypeInfo|
                call_ensures(data_layout, (), type_info) && r.data == data_layout_of_type_info(
                    type_info,
                ),
    {
        let component_id = match self.type_id_to_dummy_id(type_id) {
            Some(id) => id,
            None => self.new_dummy_id(Some(type_id)),
        };

        let kind = self.relkind_of_has_resource();
        self.get_relationship_info_or_insert_with(
            Relship::new(kind, EntityOrDummyId::DummyId(component_id)),
            data_layout,
        )
    }

    /// Register this statically known, thread-safe type's data as a
    /// component, or return the entry it already has.
    pub fn get_component_info_or_insert(&mut self, type_info: TypeInfo) -> (r: &RelationshipInfo)
        requires
            old(self).wf(),
            type_info.is_send_and_sync,
        ensures
            final(self).wf(),
            final(self).spec_type_index().contains_key(type_info.type_id),
            ({
                let rel = final(self).spec_component_relship(
                    final(self).spec_type_index()[type_info.type_id],
                );
                &&& r.id.0 < final(self).spec_rels().len()
                &&& final(self).spec_rels()[r.id.0 as int] == *r
                &&& r.relationship == rel
            }),
            old(self).spec_type_index().contains_key(type_info.type_id) && old(self).rel_interned(
                old(self).spec_component_relship(old(self).spec_type_index()[type_info.type_id]),
            ) ==> *final(self) == *old(self),
            old(self).spec_rels().len() <= final(self).spec_rels().len() <= old(self).spec_rels().len() + 1,
            final(self).spec_rels().len() > old(self).spec_rels().len() ==> r.id.0 == old(self).spec_rels().len(),
            final(self).spec_rels().len() > old(self).spec_rels().len() ==> r.data
                == data_layout_of_type_info(type_info),
    {
        let type_id = type_info.type_id;
        self.get_component_info_or_insert_with(
            type_id,
            (move || -> (t: TypeInfo)
                ensures
                    t == type_info,
                { type_info }),
        )
    }

    /// Register this statically known, thread-safe type's data as a
    /// resource, or return the entry it already has.
    pub fn get_resource_info_or_insert(&mut self, type_info: TypeInfo) -> (r: &RelationshipInfo)
        requires
            old(self).wf(),
            type_info.is_send_and_sync,
        ensures
            final(self).wf(),
            final(self).spec_type_index().contains_key(type_info.type_id),
            ({
                let rel = final(self).spec_resource_relship(
                    final(self).spec_type_index()[type_info.type_id],
                );
                &&& r.id.0 < final(self).spec_rels().len()
                &&& final(self).spec_rels()[r.id.0 as int] == *r
                &&& r.relationship == rel
            }),
            old(self).spec_type_index().contains_key(type_info.type_id) && old(self).rel_interned(
                old(self).spec_resource_relship(old(self).spec_type_index()[type_info.type_id]),
            ) ==> *final(self) == *old(self),
            old(self).spec_rels().len() <= final(self).spec_rels().len() <= old(self).spec_rels().len() + 1,
            final(self).spec_rels().len() > old(self).spec_rels().len() ==> r.id.0 == old(self).spec_rels().len(),
            final(self).spec_rels().len() > old(self).spec_rels().len() ==> r.data
                == data_layout_of_type_info(type_info),
    {
        let type_id = type_info.type_id;
        self.get_resource_info_or_insert_with(
            type_id,
            (move || -> (t: TypeInfo)
                ensures
                    t == type_info,
                { type_info }),
        )
    }

    /// Register this statically known type's data as a resource that must
    /// stay on one thread, or return the entry it already has.
    pub fn get_non_send_resource_info_or_insert(&mut self, type_info: TypeInfo) -> (r:
        &RelationshipInfo)
        requires
            old(self).wf(),
        ensures
            final(self).wf(),
            final(self).spec_type_index().contains_key(type_info.type_id),
            ({
                let rel = final(self).spec_resource_relship(
                    final(self).spec_type_index()[type_info.type_id],
                );
                &&& r.id.0 < final(self).spec_rels().len()
                &&& final(self).spec_rels()[r.id.0 as int] == *r
                &&& r.relationship == rel
            }),
            old(self).spec_type_index().contains_key(type_info.type_id) && old(self).rel_interned(
                old(self).spec_resource_relship(old(self).spec_type_index()[type_info.type_id]),
            ) ==> *final(self) == *old(self),
            old(self).spec_rels().len() <= final(self).spec_rels().len() <= old(self).spec_rels().len() + 1,
            final(self).spec_rels().len() > old(self).spec_rels().len() ==> r.id.0 == old(self).spec_rels().len(),
            final(self).spec_rels().len() > old(self).spec_rels().len() ==> r.data
                == data_layout_of_type_info(type_info),
    {
        let type_id = type_info.type_id;
        self.get_resource_info_or_insert_with(
            type_id,
            (move || -> (t: TypeInfo)
                ensures
                    t == type_info,
                { type_info }),
        )
    }
}

/// What one get-or-insert call does to the registry: either the key was
/// already interned and nothing changes, or exactly the returned entry is
/// appended under the next dense id; either way the returned entry is the
/// one stored for the key.
pub open spec fn get_or_insert_post(
    pre: Relationships,
    post: Relationships,
    relationship: Relship,
    info: RelationshipInfo,
) -> bool {
    &&& post.tables_wf()
    &&& info.id.0 < post.spec_rels().len()
    &&& post.spec_rels()[info.id.0 as int] == info
    &&& info.relationship == relationship
    &&& (pre.rel_interned(relationship) ==> post == pre)
    &&& (!pre.rel_interned(relationship) ==> {
        &&& info.id.0 == pre.spec_rels().len()
        &&& post.spec_rels() == pre.spec_rels().push(info)
        &&& post.spec_kinds() == pre.spec_kinds()
        &&& post.spec_kind_index() == pre.spec_kind_index()
        &&& post.spec_dummies() == pre.spec_dummies()
        &&& post.spec_type_index() == pre.spec_type_index()
    })
}

/// What one strict registration does to the registry: a duplicate key fails
/// with the duplicate-relationship error and changes nothing; a fresh key
/// appends exactly one entry, made of the next dense id, the key and the
/// given descriptor.
pub open spec fn register_new_post(
    pre: Relationships,
    post: Relationships,
    relationship: Relship,
    data: DataLayout,
    outcome: Result<RelationshipInfo, RelationshipsError>,
) -> bool {
    &&& post.tables_wf()
    &&& (pre.rel_interned(relationship) ==> {
        &&& outcome == Err::<RelationshipInfo, RelationshipsError>(
            RelationshipsError::RelationshipAlreadyExists(relationship),
        )
        &&& post == pre
    })
    &&& (!pre.rel_interned(relationship) ==> match outcome {
        Ok(info) => {
            &&& info.id.0 == pre.spec_rels().len()
            &&& info.relationship == relationship
            &&& info.data == data
            &&& post.spec_rels() == pre.spec_rels().push(info)
            &&& post.spec_kinds() == pre.spec_kinds()
            &&& post.spec_kind_index() == pre.spec_kind_index()
            &&& post.spec_dummies() == pre.spec_dummies()
            &&& post.spec_type_index() == pre.spec_type_index()
        },
        Err(_) => false,
    })
}

/// Appending one entry with a fresh key under the next dense id keeps the
/// tables well-formed, the other tables being untouched.
proof fn lemma_rel_push_keeps_tables_wf(pre: Relationships, post: Relationships, relationship: Relship)
    requires
        pre.tables_wf(),
        !pre.rel_interned(relationship),
        post.spec_rels().len() == pre.spec_rels().len() + 1,
        post.spec_rels() == pre.spec_rels().push(post.spec_rels().last()),
        post.spec_rels().last().id.0 == pre.spec_rels().len(),
        post.spec_rels().last().relationship == relationship,
        post.spec_kinds() == pre.spec_kinds(),
        post.spec_kind_index() == pre.spec_kind_index(),
        post.spec_dummies() == pre.spec_dummies(),
        post.spec_type_index() == pre.spec_type_index(),
    ensures
        post.tables_wf(),
{
    let orels = pre.spec_rels();
    let nrels = post.spec_rels();
    assert forall|i: int| 0 <= i < nrels.len() implies (#[trigger] nrels[i]).id.0 == i by {
        if i < orels.len() {
            assert(nrels[i] == orels[i]);
        }
    }
    assert forall|i: int, j: int|
        0 <= i < nrels.len() && 0 <= j < nrels.len() && i != j implies (
    #[trigger] nrels[i]).relationship != (#[trigger] nrels[j]).relationship by {
        if i < orels.len() && j < orels.len() {
            assert(nrels[i] == orels[i]);
            assert(nrels[j] == orels[j]);
        } else if i < orels.len() {
            assert(nrels[i] == orels[i]);
            if nrels[i].relationship == relationship {
                assert(pre.rel_interned(relationship));
            }
        } else {
            assert(nrels[j] == orels[j]);
            if nrels[j].relationship == relationship {
                assert(pre.rel_interned(relationship));
            }
        }
    }
    assert forall|i: int| 0 <= i < post.spec_kinds().len() implies (
    #[trigger] post.spec_kinds()[i]).id.0 == i by {
        assert((#[trigger] pre.spec_kinds()[i]).id.0 == i);
    }
    assert forall|d: u64| post.spec_kind_index().contains_key(d) implies (
    #[trigger] post.spec_kind_index()[d]).0 < post.spec_kinds().len() by {
        assert(pre.spec_kind_index().contains_key(d));
        assert(pre.spec_kind_index()[d].0 < pre.spec_kinds().len());
    }
    assert forall|d1: u64, d2: u64|
        post.spec_kind_index().contains_key(d1) && post.spec_kind_index().contains_key(d2) && d1
            != d2 implies (#[trigger] post.spec_kind_index()[d1]) != (
    #[trigger] post.spec_kind_index()[d2]) by {
        assert(pre.spec_kind_index()[d1] != pre.spec_kind_index()[d2]);
    }
    assert forall|i: int| 0 <= i < post.spec_dummies().len() implies (
    #[trigger] post.spec_dummies()[i]).id.0 == i by {
        assert((#[trigger] pre.spec_dummies()[i]).id.0 == i);
    }
    assert forall|k: u64| post.spec_type_index().contains_key(k) implies (
    #[trigger] post.spec_type_index()[k]).0 < post.spec_dummies().len() && post.spec_dummies()[
        post.spec_type_index()[k].0 as int
    ].rust_type == Some(k) by {
        assert(pre.spec_type_index().contains_key(k));
    }
    assert forall|i: int| 0 <= i < post.spec_dummies().len() implies match (
    #[trigger] post.spec_dummies()[i]).rust_type {
        Some(k) => post.spec_type_index().contains_key(k) && post.spec_type_index()[k].0 == i,
        None => true,
    } by {
        assert(pre.spec_dummies()[i] == post.spec_dummies()[i]);
        match pre.spec_dummies()[i].rust_type {
            Some(k) => {
                assert(pre.spec_type_index().contains_key(k));
            },
            None => {},
        }
    }
}

impl Default for Relationships {
    /// A fresh registry bootstraps its two built-in relationship kinds:
    /// "has-component" and "has-resource", each backed by a fresh category
    /// id bound to its reserved type key.
    fn default() -> (r: Self)
        ensures
            r.wf(),
            r.spec_rels().len() == 0,
            r.spec_kinds().len() == 2,
            r.spec_dummies().len() == 2,
            r.spec_type_index()[HAS_COMPONENT_TYPE_KEY].0 == 0,
            r.spec_type_index()[HAS_RESOURCE_TYPE_KEY].0 == 1,
            r.spec_has_component_kind().0 == 0,
            r.spec_has_resource_kind().0 == 1,
    {
        let mut this = Relationships {
            relationships: Vec::new(),
            kinds: Vec::new(),
            kind_indices: HashMap::new(),
            dummy_id_to_type_id: Vec::new(),
            type_id_to_dummy_id: HashMap::new(),
        };

        let has_component_id = this.new_dummy_id(Some(HAS_COMPONENT_TYPE_KEY));
        this.push_relationship_kind(has_component_id);

        let has_resource_id = this.new_dummy_id(Some(HAS_RESOURCE_TYPE_KEY));
        this.push_relationship_kind(has_resource_id);

        this
    }
}

/// The two category ids behind distinct type keys are distinct: the reverse
/// map from type keys to category ids is injective.
pub proof fn lemma_category_ids_injective(r: Relationships, k1: u64, k2: u64)
    requires
        r.wf(),
        k1 != k2,
        r.spec_type_index().contains_key(k1),
        r.spec_type_index().contains_key(k2),
    ensures
        r.spec_type_index()[k1] != r.spec_type_index()[k2],
{
    if r.spec_type_index()[k1] == r.spec_type_index()[k2] {
        assert(r.spec_dummies()[r.spec_type_index()[k1].0 as int].rust_type == Some(k1));
        assert(r.spec_dummies()[r.spec_type_index()[k2].0 as int].rust_type == Some(k2));
    }
}

/// Any two interned entries with distinct keys carry distinct relationship
/// ids.
pub proof fn lemma_relationship_ids_injective(r: Relationships, i: int, j: int)
    requires
        r.wf(),
        0 <= i < r.spec_rels().len(),
        0 <= j < r.spec_rels().len(),
        r.spec_rels()[i].relationship != r.spec_rels()[j].relationship,
    ensures
        r.spec_rels()[i].id != r.spec_rels()[j].id,
{
    assert(r.spec_rels()[i].id.0 == i);
    assert(r.spec_rels()[j].id.0 == j);
}

/// In every well-formed registry the two built-in relationship kinds are
/// distinct.
pub proof fn lemma_builtin_kinds_distinct(r: Relationships)
    requires
        r.wf(),
    ensures
        r.spec_has_component_kind() != r.spec_has_resource_kind(),
{
    lemma_category_ids_injective(r, HAS_COMPONENT_TYPE_KEY, HAS_RESOURCE_TYPE_KEY);
    let dc = r.spec_type_index()[HAS_COMPONENT_TYPE_KEY];
    let dr = r.spec_type_index()[HAS_RESOURCE_TYPE_KEY];
    assert(dc.0 != dr.0);
    assert(r.spec_kind_index()[dc.0 as u64] != r.spec_kind_index()[dr.0 as u64]);
}

/// Get-or-insert is idempotent: once one call has interned a key, a second
/// call with the same key returns the very same entry, same id included,
/// and leaves the registry unchanged.
pub proof fn lemma_get_or_insert_idempotent(
    s1: Relationships,
    s2: Relationships,
    s3: Relationships,
    relationship: Relship,
    info1: RelationshipInfo,
    info2: RelationshipInfo,
)
    requires
        get_or_insert_post(s1, s2, relationship, info1),
        get_or_insert_post(s2, s3, relationship, info2),
    ensures
        info2 == info1,
        s3 == s2,
{
    assert(s2.rel_interned(relationship)) by {
        assert(s2.spec_rels()[info1.id.0 as int].relationship == relationship);
    }
    if info2.id.0 != info1.id.0 {
        assert(s2.spec_rels()[info1.id.0 as int].relationship != s2.spec_rels()[
            info2.id.0 as int
        ].relationship);
    }
    assert(info2 == s2.spec_rels()[info1.id.0 as int]);
}

/// Strict registration is strict: after a successful registration of a key,
/// a second strict registration of the same key fails with the
/// duplicate-relationship error, changes nothing, and the entry made by the
/// first registration still resolves unchanged.
pub proof fn lemma_register_new_rejects_duplicate(
    s1: Relationships,
    s2: Relationships,
    s3: Relationships,
    relationship: Relship,
    data1: DataLayout,
    data2: DataLayout,
    info: RelationshipInfo,
    outcome2: Result<RelationshipInfo, RelationshipsError>,
)
    requires
        register_new_post(s1, s2, relationship, data1, Ok(info)),
        register_new_post(s2, s3, relationship, data2, outcome2),
    ensures
        outcome2 == Err::<RelationshipInfo, RelationshipsError>(
            RelationshipsError::RelationshipAlreadyExists(relationship),
        ),
        s3 == s2,
        s3.spec_resolve(info.id) == Some(info),
{
    assert(!s1.rel_interned(relationship));
    assert(s1.spec_rels().push(info)[s1.spec_rels().len() as int] == info);
    assert(s2.spec_rels()[info.id.0 as int] == info);
    assert(s2.rel_interned(relationship)) by {
        assert(s2.spec_rels()[info.id.0 as int].relationship == relationship);
    }
}

/// Round trip through get-or-insert: resolving the id of the entry handed
/// back yields that entry, carrying that same id and the key used at
/// insertion.
pub proof fn lemma_get_or_insert_resolve_round_trip(
    pre: Relationships,
    post: Relationships,
    relationship: Relship,
    info: RelationshipInfo,
)
    requires
        get_or_insert_post(pre, post, relationship, info),
    ensures
        post.spec_resolve(info.id) == Some(info),
        info.relationship == relationship,
{
}

/// Ids once issued are stable: a get-or-insert call never moves or changes
/// the entry behind an already issued id, so callers may cache ids for the
/// registry's whole lifetime.
pub proof fn lemma_get_or_insert_keeps_issued_ids(
    pre: Relationships,
    post: Relationships,
    relationship: Relship,
    info: RelationshipInfo,
    id: RelationshipId,
)
    requires
        get_or_insert_post(pre, post, relationship, info),
        id.0 < pre.spec_rels().len(),
    ensures
        post.spec_resolve(id) == pre.spec_resolve(id),
{
    if !pre.rel_interned(relationship) {
        assert(post.spec_rels()[id.0 as int] == pre.spec_rels()[id.0 as int]);
    }
}

/// Ids once issued are stable across strict registration as well, whatever
/// its outcome.
pub proof fn lemma_register_new_keeps_issued_ids(
    pre: Relationships,
    post: Relationships,
    relationship: Relship,
    data: DataLayout,
    outcome: Result<RelationshipInfo, RelationshipsError>,
    id: RelationshipId,
)
    requires
        register_new_post(pre, post, relationship, data, outcome),
        id.0 < pre.spec_rels().len(),
    ensures
        post.spec_resolve(id) == pre.spec_resolve(id),
{
    if !pre.rel_interned(relationship) {
        match outcome {
            Ok(info) => {
                assert(post.spec_rels()[id.0 as int] == pre.spec_rels()[id.0 as int]);
            },
            Err(_) => {},
        }
    }
}

/// Round trip through strict registration: resolving the id of the entry
/// handed back yields that entry, carrying that same id and the key used at
/// registration.
pub proof fn lemma_register_new_resolve_round_trip(
    pre: Relationships,
    post: Relationships,
    relationship: Relship,
    data: DataLayout,
    info: RelationshipInfo,
)
    requires
        register_new_post(pre, post, relationship, data, Ok(info)),
    ensures
        post.spec_resolve(info.id) == Some(info),
        info.relationship == relationship,
{
    assert(!pre.rel_interned(relationship));
    assert(pre.spec_rels().push(info)[pre.spec_rels().len() as int] == info);
    assert(post.spec_rels()[info.id.0 as int] == info);
}

} // verus!

use ecs_registry::component::{
    DataLayout, EntityOrDummyId, RelationshipsError, Relship, StorageType,
};
use ecs_registry::entity::Entity;
use ecs_registry::registry::Relationships;
use ecs_registry::type_info::{DropFn, Layout, TypeInfo};

fn layout_of<T>() -> Layout {
    Layout::from_size_align(std::mem::size_of::<T>(), std::mem::align_of::<T>()).unwrap()
}

fn type_info_of<T>(key: u64, name: &str) -> TypeInfo {
    TypeInfo::of(key, name.to_string(), layout_of::<T>(), DropFn::NoOp)
}

#[test]
fn bootstrap_has_two_kinds() {
    let reg = Relationships::default();
    assert_eq!(reg.len(), 0);
    assert!(reg.is_empty());
    let has_component = reg.relkind_of_has_component();
    let has_resource = reg.relkind_of_has_resource();
    assert_ne!(has_component, has_resource);
}

#[test]
fn get_or_insert_is_idempotent_and_lazy() {
    let mut reg = Relationships::default();
    let dummy = reg.new_dummy_id(None);
    let rel = Relship::new(reg.relkind_of_has_component(), EntityOrDummyId::DummyId(dummy));

    let mut calls: u32 = 0;
    let first = reg
        .get_relationship_info_or_insert_with(rel, || {
            calls += 1;
            type_info_of::<u32>(77, "u32")
        })
        .id();
    assert_eq!(calls, 1);
    assert_eq!(reg.len(), 1);

    let second = reg
        .get_relationship_info_or_insert_with(rel, || {
            calls += 100;
            type_info_of::<u64>(78, "u64")
        })
        .id();
    assert_eq!(calls, 1, "the factory must not run for an interned key");
    assert_eq!(first, second);
    assert_eq!(reg.len(), 1);
}

#[test]
fn distinct_keys_get_distinct_relationship_ids() {
    let mut reg = Relationships::default();
    let d1 = reg.new_dummy_id(None);
    let d2 = reg.new_dummy_id(None);
    assert_ne!(d1, d2);
    let kind = reg.relkind_of_has_component();
    let r1 = reg
        .get_relationship_info_or_insert_with(
            Relship::new(kind, EntityOrDummyId::DummyId(d1)),
            || type_info_of::<u32>(10, "u32"),
        )
        .id();
    let r2 = reg
        .get_relationship_info_or_insert_with(
            Relship::new(kind, EntityOrDummyId::DummyId(d2)),
            || type_info_of::<u32>(11, "u32"),
        )
        .id();
    assert_ne!(r1, r2);
}

#[test]
fn distinct_type_keys_get_distinct_categories() {
    let mut reg = Relationships::default();
    assert!(reg.type_id_to_dummy_id(10).is_none());
    assert!(reg.type_id_to_dummy_id(11).is_none());
    let d1 = reg.new_dummy_id(Some(10));
    let d2 = reg.new_dummy_id(Some(11));
    assert_ne!(d1, d2);
    assert_eq!(reg.type_id_to_dummy_id(10), Some(d1));
    assert_eq!(reg.type_id_to_dummy_id(11), Some(d2));
}

#[test]
fn register_relationship_rejects_duplicates() {
    let mut reg = Relationships::default();
    let dummy = reg.new_dummy_id(None);
    let rel = Relship::new(reg.relkind_of_has_component(), EntityOrDummyId::DummyId(dummy));

    let first = DataLayout::new(
        Some("first".to_string()),
        StorageType::Table,
        true,
        Layout::from_size_align(8, 4).unwrap(),
        DropFn::NoOp,
    );
    let id = reg.register_relationship(rel, first).unwrap().id();

    let second = DataLayout::new(
        Some("second".to_string()),
        StorageType::SparseSet,
        false,
        Layout::from_size_align(32, 16).unwrap(),
        DropFn::Hook(9),
    );
    match reg.register_relationship(rel, second) {
        Ok(_) => panic!("duplicate strict registration must fail"),
        Err(e) => assert_eq!(e, RelationshipsError::RelationshipAlreadyExists(rel)),
    }

    // the entry made by the first registration is untouched
    let info = reg.get_relationship_info(id).unwrap();
    assert_eq!(info.data_layout().name(), "first");
    assert_eq!(info.data_layout().layout(), Layout::new(8, 4));
    assert_eq!(reg.len(), 1);
}

#[test]
fn resolve_round_trips_the_inserted_id() {
    let mut reg = Relationships::default();
    let dummy = reg.new_dummy_id(None);
    let rel = Relship::new(reg.relkind_of_has_resource(), EntityOrDummyId::DummyId(dummy));
    let id = reg
        .get_relationship_info_or_insert_with(rel, || type_info_of::<u64>(5, "u64"))
        .id();
    let info = reg.get_relationship_info(id).unwrap();
    assert_eq!(info.id(), id);
    let unchecked = reg.get_relationship_info_unchecked(id);
    assert_eq!(unchecked.id(), id);
    assert_eq!(reg.get_relationship_id(rel), Some(id));
}

#[test]
fn component_registration_scenario() {
    struct A {
        _x: u64,
        _y: u32,
        _z: bool,
    }
    const A_KEY: u64 = 900;

    let mut reg = Relationships::default();
    assert!(reg.type_id_to_dummy_id(A_KEY).is_none());

    let r0 = reg.get_component_info_or_insert(type_info_of::<A>(A_KEY, "A")).id();
    let c0 = reg.type_id_to_dummy_id(A_KEY).expect("a fresh category id for A");

    {
        let info = reg.get_relationship_info(r0).unwrap();
        assert_eq!(info.data_layout().storage_type(), StorageType::Table);
        assert_eq!(
            info.data_layout().layout(),
            Layout::new(std::mem::size_of::<A>(), std::mem::align_of::<A>()),
        );
        assert_eq!(info.data_layout().type_id(), Some(A_KEY));
        assert_eq!(info.data_layout().name(), "A");
        assert!(info.data_layout().is_send_and_sync());
    }

    // registering the same type as a component again changes nothing
    let r0_again = reg.get_component_info_or_insert(type_info_of::<A>(A_KEY, "A")).id();
    assert_eq!(r0_again, r0);
    assert_eq!(reg.type_id_to_dummy_id(A_KEY), Some(c0));

    // registering A as a resource gives a different relationship id over the
    // same category, under the other built-in kind
    let r1 = reg.get_resource_info_or_insert(type_info_of::<A>(A_KEY, "A")).id();
    assert_ne!(r1, r0);
    assert_eq!(reg.type_id_to_dummy_id(A_KEY), Some(c0));
    let rel0 = reg.get_relationship_info(r0).unwrap().data_layout().type_id();
    let rel1 = reg.get_relationship_info(r1).unwrap().data_layout().type_id();
    assert_eq!(rel0, rel1);
    assert_eq!(reg.get_component_id(A_KEY), Some(r0));
    assert_eq!(reg.get_resource_id(A_KEY), Some(r1));
}

#[test]
fn dynamic_category_with_raw_parts_descriptor() {
    let mut reg = Relationships::default();
    let dummy = reg.new_dummy_id(None);
    let rel = Relship::new(reg.relkind_of_has_component(), EntityOrDummyId::DummyId(dummy));
    let descriptor = DataLayout::new(
        None,
        StorageType::Table,
        false,
        Layout::from_size_align(16, 8).unwrap(),
        DropFn::NoOp,
    );
    let id = reg.register_relationship(rel, descriptor).unwrap().id();

    let info = reg.get_relationship_info(id).unwrap();
    assert_eq!(info.data_layout().layout().size(), 16);
    assert_eq!(info.data_layout().layout().align(), 8);
    assert_eq!(info.data_layout().drop(), DropFn::NoOp);
    assert_eq!(info.data_layout().type_id(), None);
    assert_eq!(info.data_layout().name(), "");
}

#[test]
fn duplicate_kind_registration_fails() {
    let mut reg = Relationships::default();
    let dummy = reg.new_dummy_id(None);
    let kind = reg.new_relationship_kind(dummy).unwrap();
    match reg.new_relationship_kind(dummy) {
        Ok(_) => panic!("a second kind for the same category must fail"),
        Err(e) => assert_eq!(e, RelationshipsError::RelationshipKindAlreadyExists(dummy)),
    }
    // the first registration still stands
    let other = reg.new_dummy_id(None);
    let next = reg.new_relationship_kind(other).unwrap();
    assert_ne!(kind, next);
}

#[test]
fn lookups_miss_before_and_hit_after_insertion() {
    let mut reg = Relationships::default();
    assert_eq!(reg.get_component_id(404), None);
    assert_eq!(reg.get_resource_id(404), None);

    let dummy = reg.new_dummy_id(None);
    let rel = Relship::new(reg.relkind_of_has_component(), EntityOrDummyId::DummyId(dummy));
    assert_eq!(reg.get_relationship_id(rel), None);

    let id = reg
        .get_relationship_info_or_insert_with(rel, || type_info_of::<bool>(1, "bool"))
        .id();
    assert_eq!(reg.get_relationship_id(rel), Some(id));

    let past_the_end = ecs_registry::component::RelationshipId::new(reg.len());
    assert!(reg.get_relationship_info(past_the_end).is_none());
}

#[test]
fn entity_targets_are_interned_like_category_targets() {
    let mut reg = Relationships::default();
    let kind = reg.relkind_of_has_component();
    let to_alice = Relship::new(kind, EntityOrDummyId::Entity(Entity::new(1)));
    let to_bob = Relship::new(kind, EntityOrDummyId::Entity(Entity::new(2)));
    let a = reg
        .get_relationship_info_or_insert_with(to_alice, || type_info_of::<u8>(21, "u8"))
        .id();
    let b = reg
        .get_relationship_info_or_insert_with(to_bob, || type_info_of::<u8>(22, "u8"))
        .id();
    assert_ne!(a, b);
    assert_eq!(reg.get_relationship_id(to_alice), Some(a));
    assert_eq!(reg.len(), 2);
}

#[test]
fn non_send_resources_keep_their_classification() {
    let mut reg = Relationships::default();
    let type_info = TypeInfo::of_non_send_and_sync(
        33,
        "window".to_string(),
        Layout::from_size_align(24, 8).unwrap(),
        DropFn::Hook(3),
    );
    let id = reg.get_non_send_resource_info_or_insert(type_info).id();
    let info = reg.get_relationship_info(id).unwrap();
    assert!(!info.data_layout().is_send_and_sync());
    assert_eq!(info.data_layout().drop(), DropFn::Hook(3));
    assert_eq!(reg.get_resource_id(33), Some(id));
    assert_eq!(reg.get_component_id(33), None);
}

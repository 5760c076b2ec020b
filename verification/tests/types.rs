use ecs_registry::component::{
    ComponentFlags, DataLayout, RelationshipId, RelationshipKindId, Relship, StorageType,
    EntityOrDummyId, DummyId,
};
use ecs_registry::entity::Entity;
use ecs_registry::type_info::{DropFn, Layout, TypeInfo};

#[test]
fn storage_type_defaults_to_table() {
    assert_eq!(StorageType::default(), StorageType::Table);
}

#[test]
fn layout_constructor_checks_alignment() {
    let l = Layout::from_size_align(16, 8).unwrap();
    assert_eq!(l.size(), 16);
    assert_eq!(l.align(), 8);
    assert!(Layout::from_size_align(16, 0).is_none());
    assert!(Layout::from_size_align(16, 3).is_none());
    assert!(Layout::from_size_align(0, 1).is_some());
    assert_eq!(Layout::new(4, 4), Layout::from_size_align(4, 4).unwrap());
}

#[test]
fn raw_parts_descriptor_without_name_or_key() {
    let dl = DataLayout::new(
        None,
        StorageType::SparseSet,
        true,
        Layout::new(8, 8),
        DropFn::Hook(12),
    );
    assert_eq!(dl.name(), "");
    assert_eq!(dl.storage_type(), StorageType::SparseSet);
    assert!(dl.is_send_and_sync());
    assert_eq!(dl.type_id(), None);
    assert_eq!(dl.layout(), Layout::new(8, 8));
    assert_eq!(dl.drop(), DropFn::Hook(12));

    let named = DataLayout::new(
        Some("script data".to_string()),
        StorageType::Table,
        false,
        Layout::new(1, 1),
        DropFn::NoOp,
    );
    assert_eq!(named.name(), "script data");
    assert!(!named.is_send_and_sync());
}

#[test]
fn descriptor_from_a_static_type() {
    let ti = TypeInfo::of(42, "position".to_string(), Layout::new(12, 4), DropFn::NoOp);
    let dl = DataLayout::from_generic(&ti, StorageType::SparseSet);
    assert_eq!(dl.name(), "position");
    assert_eq!(dl.storage_type(), StorageType::SparseSet);
    assert!(dl.is_send_and_sync());
    assert_eq!(dl.type_id(), Some(42));
    assert_eq!(dl.layout(), Layout::new(12, 4));

    let converted = DataLayout::from(ti);
    assert_eq!(converted.storage_type(), StorageType::Table);
    assert_eq!(converted.type_id(), Some(42));
    assert_eq!(converted.name(), "position");
}

#[test]
fn type_info_records_thread_safety() {
    let safe = TypeInfo::of(7, "velocity".to_string(), Layout::new(8, 4), DropFn::NoOp);
    assert!(safe.is_send_and_sync());
    assert_eq!(safe.type_id(), 7);
    assert_eq!(safe.name(), "velocity");
    assert_eq!(safe.layout(), Layout::new(8, 4));
    assert_eq!(safe.drop(), DropFn::NoOp);

    let unsafe_to_move = TypeInfo::of_non_send_and_sync(
        8,
        "gpu handle".to_string(),
        Layout::new(8, 8),
        DropFn::Hook(1),
    );
    assert!(!unsafe_to_move.is_send_and_sync());
}

#[test]
fn relationship_id_wraps_its_index() {
    let id = RelationshipId::new(5);
    assert_eq!(id.index(), 5);
    assert_eq!(id, RelationshipId::new(5));
    assert!(RelationshipId::new(1) < RelationshipId::new(2));
}

#[test]
fn relship_holds_kind_and_target() {
    let kind = RelationshipKindId(3);
    let target = EntityOrDummyId::DummyId(DummyId(4));
    let rel = Relship::new(kind, target);
    assert_eq!(rel.kind, kind);
    assert_eq!(rel.target, target);
    assert_ne!(
        Relship::new(kind, EntityOrDummyId::Entity(Entity::new(4))),
        rel,
    );
}

#[test]
fn component_flags_set_clear_and_test() {
    let mut flags = ComponentFlags::empty();
    assert!(!flags.is_added());
    assert!(!flags.is_mutated());
    flags.set_added();
    assert!(flags.is_added());
    assert!(!flags.is_mutated());
    flags.set_mutated();
    assert!(flags.is_added());
    assert!(flags.is_mutated());
    flags.clear_added();
    assert!(!flags.is_added());
    assert!(flags.is_mutated());
    flags.clear_mutated();
    assert_eq!(flags, ComponentFlags::empty());
}

#[test]
fn entity_wraps_its_id() {
    let e = Entity::new(99);
    assert_eq!(e.id(), 99);
    assert_eq!(e, Entity::new(99));
    assert_ne!(e, Entity::new(98));
}

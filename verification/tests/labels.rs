use bevy_editor::EntityId;
use bevy_editor::entity_label;
use bevy_editor::u32_to_decimal;

#[test]
fn decimal_zero() {
    assert_eq!(u32_to_decimal(0), "0");
}

#[test]
fn decimal_single_digit() {
    assert_eq!(u32_to_decimal(7), "7");
}

#[test]
fn decimal_round_number() {
    assert_eq!(u32_to_decimal(10), "10");
}

#[test]
fn decimal_multi_digit() {
    assert_eq!(u32_to_decimal(305), "305");
}

#[test]
fn decimal_largest() {
    assert_eq!(u32_to_decimal(u32::MAX), "4294967295");
}

#[test]
fn named_entity_keeps_its_name() {
    let id = EntityId::new(5, 1);
    assert_eq!(entity_label(Some("Player"), id), "Player");
}

#[test]
fn named_entity_empty_name() {
    let id = EntityId::new(5, 1);
    assert_eq!(entity_label(Some(""), id), "");
}

#[test]
fn unnamed_entity_gets_fallback() {
    let id = EntityId::new(0, 1);
    assert_eq!(entity_label(None, id), "Entity <0v1>");
}

#[test]
fn unnamed_entity_fallback_multi_digit() {
    let id = EntityId::new(42, 7);
    assert_eq!(entity_label(None, id), "Entity <42v7>");
}

#[test]
fn unnamed_entity_fallback_largest() {
    let id = EntityId::new(u32::MAX, u32::MAX);
    assert_eq!(entity_label(None, id), "Entity <4294967295v4294967295>");
}

#[test]
fn fallback_matches_host_entity_formatting() {
    let entity = bevy::ecs::entity::Entity::from_raw(42);
    let id = EntityId::new(entity.index(), entity.generation());
    assert_eq!(entity_label(None, id), format!("Entity <{entity:?}>"));
}

use horizon::components::componenttypes::ComponentTypes;
use horizon::components::ComponentStorage;

#[test]
fn component_types_from_numbers() {
    assert_eq!(ComponentTypes::from(0u32), ComponentTypes::AssetIdentifier);
    assert_eq!(ComponentTypes::from(1u32), ComponentTypes::PhysicsHandle);
    assert_eq!(ComponentTypes::from(2u32), ComponentTypes::Transform);
    assert_eq!(ComponentTypes::from(3u32), ComponentTypes::PointLight);
    assert_eq!(ComponentTypes::from(4u32), ComponentTypes::CollisionShape);
}

#[test]
fn component_types_unknown_numbers() {
    assert_eq!(ComponentTypes::from(5u32), ComponentTypes::NoComponent);
    assert_eq!(ComponentTypes::from(u32::MAX), ComponentTypes::NoComponent);
}

#[test]
fn component_types_into() {
    let t: ComponentTypes = 2u32.into();
    assert_eq!(t, ComponentTypes::Transform);
}

#[test]
fn component_storage_wraps_value() {
    let _storage = ComponentStorage::new(vec![1u8, 2, 3]);
}

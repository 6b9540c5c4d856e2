use vstd::prelude::*;

verus! {

/// The kinds of component that scripts can address by number.
#[derive(Debug, Clone, Copy, PartialEq, Eq, Structural)]
pub enum ComponentTypes {
    AssetIdentifier,
    PhysicsHandle,
    Transform,
    PointLight,
    CollisionShape,
    NoComponent,
}

/// The component type that a number names: 0 to 4 in declaration order, any other
/// number names no component.
pub open spec fn component_type_of(val: u32) -> ComponentTypes {
    if val == 0 {
        ComponentTypes::AssetIdentifier
    } else if val == 1 {
        ComponentTypes::PhysicsHandle
    } else if val == 2 {
        ComponentTypes::Transform
    } else if val == 3 {
        ComponentTypes::PointLight
    } else if val == 4 {
        ComponentTypes::CollisionShape
    } else {
        ComponentTypes::NoComponent
    }
}

impl From<u32> for ComponentTypes {
    fn from(val: u32) -> (component_type: Self) {
        match val {
            0 => ComponentTypes::AssetIdentifier,
            1 => ComponentTypes::PhysicsHandle,
            2 => ComponentTypes::Transform,
            3 => ComponentTypes::PointLight,
            4 => ComponentTypes::CollisionShape,
            _ => ComponentTypes::NoComponent,
        }
    }
}

impl vstd::std_specs::convert::FromSpecImpl<u32> for ComponentTypes {
    open spec fn obeys_from_spec() -> bool {
        true
    }

    open spec fn from_spec(val: u32) -> Self {
        component_type_of(val)
    }
}

/// Distinct numbers below 5 name distinct component types, and every other number
/// names `NoComponent`.
pub proof fn component_type_numbering(a: u32, b: u32)
    ensures
        a <= 4 && b <= 4 && a != b ==> component_type_of(a) != component_type_of(b),
        a > 4 ==> component_type_of(a) == ComponentTypes::NoComponent,
        a <= 4 ==> component_type_of(a) != ComponentTypes::NoComponent,
{
}

} // verus!

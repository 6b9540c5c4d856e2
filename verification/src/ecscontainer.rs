use vstd::prelude::*;

verus! {

/// Why an entity operation of the component system failed.
#[derive(Debug, Clone)]
pub enum ECSError {
    EntityNotFound,
    InvalidComponentData(String),
}

} // verus!

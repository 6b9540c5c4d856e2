pub mod modelbuilder;
pub mod primitives;

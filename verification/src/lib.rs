pub mod components;
pub mod ecscontainer;
pub mod eventhandling;
pub mod filesystem;
pub mod modelload;
pub mod renderer;

pub mod material;
pub mod mesh;
pub mod texture;
pub mod uniforms;

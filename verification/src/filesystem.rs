pub mod gltflayout;
pub mod modelimporter;
pub mod nativefileloader;
pub mod webfileloader;

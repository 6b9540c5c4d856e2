use horizon::renderer::primitives::material::{
    MaterialTextureKind, MaterialTextures, TextureSource, TextureUpload,
};
use std::collections::HashMap;

fn textures() -> MaterialTextures {
    MaterialTextures {
        base_color_texture: Some(0),
        roughness_texture: Some(1),
        normal_map_texture: Some(2),
        occlusion_texture: None,
        emissive_texture: Some(0),
    }
}

#[test]
fn uploads_follow_slot_order_and_skip_duplicates() {
    let uploaded: HashMap<usize, ()> = HashMap::new();
    assert_eq!(
        textures().textures_to_upload(&uploaded),
        vec![
            TextureUpload { index: 0, kind: MaterialTextureKind::BaseColor },
            TextureUpload { index: 2, kind: MaterialTextureKind::NormalMap },
            TextureUpload { index: 1, kind: MaterialTextureKind::MetallicRoughness },
        ]
    );
}

#[test]
fn uploaded_textures_are_not_uploaded_again() {
    let mut uploaded: HashMap<usize, &str> = HashMap::new();
    uploaded.insert(2, "normal");
    uploaded.insert(0, "diffuse");
    assert_eq!(
        textures().textures_to_upload(&uploaded),
        vec![TextureUpload { index: 1, kind: MaterialTextureKind::MetallicRoughness }]
    );
    uploaded.insert(1, "roughness");
    assert!(textures().textures_to_upload(&uploaded).is_empty());
}

#[test]
fn material_without_textures_uploads_nothing() {
    let none = MaterialTextures {
        base_color_texture: None,
        roughness_texture: None,
        normal_map_texture: None,
        occlusion_texture: None,
        emissive_texture: None,
    };
    let uploaded: HashMap<usize, u8> = HashMap::new();
    assert!(none.textures_to_upload(&uploaded).is_empty());
    assert_eq!(
        none.binding_sources(),
        vec![
            TextureSource::Default(MaterialTextureKind::BaseColor),
            TextureSource::Default(MaterialTextureKind::MetallicRoughness),
            TextureSource::Default(MaterialTextureKind::NormalMap),
            TextureSource::Default(MaterialTextureKind::Occlusion),
            TextureSource::Default(MaterialTextureKind::Emissive),
        ]
    );
}

#[test]
fn bind_group_sources_in_binding_order() {
    assert_eq!(
        textures().binding_sources(),
        vec![
            TextureSource::Loaded(0),
            TextureSource::Loaded(1),
            TextureSource::Loaded(2),
            TextureSource::Default(MaterialTextureKind::Occlusion),
            TextureSource::Loaded(0),
        ]
    );
}

#[test]
fn planned_uploads_cover_bindings() {
    let mut uploaded: HashMap<usize, ()> = HashMap::new();
    for upload in textures().textures_to_upload(&uploaded) {
        uploaded.insert(upload.index, ());
    }
    for source in textures().binding_sources() {
        if let TextureSource::Loaded(index) = source {
            assert!(uploaded.contains_key(&index));
        }
    }
}

#[test]
fn only_normal_maps_are_linear() {
    assert!(MaterialTextureKind::NormalMap.is_normal_map());
    for kind in [
        MaterialTextureKind::BaseColor,
        MaterialTextureKind::MetallicRoughness,
        MaterialTextureKind::Emissive,
        MaterialTextureKind::Occlusion,
    ] {
        assert!(!kind.is_normal_map());
    }
}

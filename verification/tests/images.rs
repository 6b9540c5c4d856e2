use horizon::renderer::modelbuilder::ModelBuilder;
use horizon::renderer::primitives::texture::{
    create_image_from_gltf_texture, image_from_buffer_view, image_from_bytes, GltfImageSource,
    ImageLoadError,
};
use image::GenericImageView;
use std::collections::HashMap;

fn png(width: u32, height: u32) -> Vec<u8> {
    let mut bytes = Vec::new();
    image::DynamicImage::new_rgba8(width, height)
        .write_to(&mut bytes, image::ImageOutputFormat::Png)
        .unwrap();
    bytes
}

#[test]
fn bytes_decode_to_an_image() {
    let image = image_from_bytes(&png(3, 2)).unwrap();
    assert_eq!(image.dimensions(), (3, 2));
    assert!(image_from_bytes(b"not an image").is_err());
}

#[test]
fn buffer_view_is_decoded() {
    let mut buffer = vec![0u8; 5];
    let encoded = png(2, 2);
    buffer.extend_from_slice(&encoded);
    buffer.extend_from_slice(&[9, 9]);
    let image = image_from_buffer_view(&buffer, 5, encoded.len()).unwrap();
    assert_eq!(image.dimensions(), (2, 2));
}

#[test]
fn bad_buffer_view_is_a_parse_error() {
    let buffer = vec![1u8, 2, 3, 4];
    match image_from_buffer_view(&buffer, 1, 2) {
        Err(ImageLoadError::ImageParseError(message)) => {
            let error = image::load_from_memory(&buffer[1..3]).unwrap_err();
            assert_eq!(message, format!("error while parsing image: Inner error: {:?}", error));
        }
        other => panic!("unexpected outcome {:?}", other.map(|i| i.dimensions())),
    }
}

#[test]
fn uri_sources_are_invalid() {
    assert!(matches!(
        create_image_from_gltf_texture(&GltfImageSource::Uri, &[]),
        Err(ImageLoadError::InvalidSource)
    ));
    let encoded = png(1, 1);
    let source = GltfImageSource::View { offset: 0, length: encoded.len() };
    assert!(create_image_from_gltf_texture(&source, &encoded).is_ok());
}

#[test]
fn textures_are_decoded_once() {
    let encoded = png(4, 4);
    let source = GltfImageSource::View { offset: 0, length: encoded.len() };
    let mut loaded = HashMap::new();
    assert_eq!(ModelBuilder::load_texture(&source, &encoded, 7, &mut loaded).unwrap(), 7);
    assert_eq!(loaded.len(), 1);
    assert_eq!(loaded[&7].dimensions(), (4, 4));
    let other = png(1, 1);
    let other_source = GltfImageSource::View { offset: 0, length: other.len() };
    assert_eq!(ModelBuilder::load_texture(&other_source, &other, 7, &mut loaded).unwrap(), 7);
    assert_eq!(loaded[&7].dimensions(), (4, 4));
}

#[test]
fn failed_texture_leaves_the_cache_alone() {
    let mut loaded = HashMap::new();
    let bad = vec![0u8; 8];
    let source = GltfImageSource::View { offset: 0, length: 8 };
    assert!(ModelBuilder::load_texture(&source, &bad, 1, &mut loaded).is_err());
    assert!(loaded.is_empty());
    assert!(matches!(
        ModelBuilder::load_texture(&GltfImageSource::Uri, &[], 2, &mut loaded),
        Err(ImageLoadError::InvalidSource)
    ));
}

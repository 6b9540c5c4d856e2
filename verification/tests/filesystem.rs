use horizon::filesystem::modelimporter::{map_import_result, Importer, ImporterError};
use horizon::filesystem::nativefileloader::NativeFileLoader;
use horizon::filesystem::webfileloader::WebFileLoader;
use std::path::PathBuf;

const MINIMAL_GLTF: &str = r#"{"asset":{"version":"2.0"}}"#;

#[test]
fn failed_load_is_a_load_error() {
    let importer = Importer::new(());
    let loaded: Result<Vec<u8>, anyhow::Error> = Err(anyhow::Error::msg("missing file"));
    assert!(matches!(importer.import_gltf_model(loaded), Err(ImporterError::LoadError)));
}

#[test]
fn bytes_that_are_not_gltf_are_a_load_error() {
    let importer = Importer::new(());
    assert!(matches!(
        importer.import_gltf_model(Ok(b"not a model".to_vec())),
        Err(ImporterError::LoadError)
    ));
}

#[test]
fn minimal_gltf_is_imported() {
    let importer = Importer::new(());
    let (document, buffers, images) =
        importer.import_gltf_model(Ok(MINIMAL_GLTF.as_bytes().to_vec())).unwrap();
    assert_eq!(document.meshes().count(), 0);
    assert!(buffers.is_empty());
    assert!(images.is_empty());
}

#[test]
fn gltf_errors_map_to_load_error() {
    let err = gltf::import_slice(b"{".as_slice()).unwrap_err();
    assert!(matches!(map_import_result(Err(err)), Err(ImporterError::LoadError)));
    let ok = gltf::import_slice(MINIMAL_GLTF.as_bytes()).unwrap();
    assert!(map_import_result(Ok(ok)).is_ok());
}

#[test]
fn importer_keeps_its_loader() {
    let importer = Importer::new(String::from("loader"));
    assert_eq!(importer.file_loader(), "loader");
}

#[test]
fn web_loader_request_url() {
    let loader = WebFileLoader::new("http://localhost:8080".to_string());
    assert_eq!(loader.request_url("models/box.glb"), "http://localhost:8080/models/box.glb");
    assert_eq!(loader.request_url(""), "http://localhost:8080/");
}

#[test]
fn native_loader_root() {
    let loader = NativeFileLoader::new(PathBuf::from("/opt/assets"));
    assert_eq!(loader.root_dir(), &PathBuf::from("/opt/assets"));
}

#[test]
fn error_types_carry_their_messages() {
    let missing = ImporterError::MissingAsset("box.glb".to_string());
    assert!(matches!(missing, ImporterError::MissingAsset(ref m) if m == "box.glb"));
    let e = horizon::ecscontainer::ECSError::InvalidComponentData("bad".to_string());
    assert!(matches!(e, horizon::ecscontainer::ECSError::InvalidComponentData(_)));
    let g = horizon::renderer::modelbuilder::GltfLoadError::InnerError("x".to_string());
    assert!(matches!(g, horizon::renderer::modelbuilder::GltfLoadError::InnerError(_)));
    let i = horizon::renderer::primitives::texture::ImageLoadError::ImageParseError("y".to_string());
    assert!(matches!(i, horizon::renderer::primitives::texture::ImageLoadError::ImageParseError(_)));
}

const PNG_1X1_BASE64: &str = "iVBORw0KGgoAAAANSUhEUgAAAAEAAAABCAYAAAAfFcSJAAAADUlEQVR42mNkYPhfDwAChwGA60e6kgAAAABJRU5ErkJggg==";

fn asset_with_image(view_offset: u32, view_length: u32, image: &str) -> Vec<u8> {
    format!(
        r#"{{"asset":{{"version":"2.0"}},"buffers":[{{"byteLength":70,"uri":"data:application/octet-stream;base64,{}"}}],"bufferViews":[{{"buffer":0,"byteOffset":{},"byteLength":{}}}],"images":[{}]}}"#,
        PNG_1X1_BASE64, view_offset, view_length, image
    )
    .into_bytes()
}

#[test]
fn image_without_source_is_refused() {
    let asset = br#"{"asset":{"version":"2.0"},"images":[{}]}"#.to_vec();
    assert!(matches!(
        horizon::filesystem::modelimporter::import_gltf_slice(&asset),
        Err(ImporterError::LoadError)
    ));
}

#[test]
fn image_view_without_mime_type_is_refused() {
    let asset = asset_with_image(0, 70, r#"{"bufferView":0}"#);
    assert!(matches!(
        horizon::filesystem::modelimporter::import_gltf_slice(&asset),
        Err(ImporterError::LoadError)
    ));
}

#[test]
fn image_view_past_its_buffer_is_refused() {
    let asset = asset_with_image(8, 70, r#"{"bufferView":0,"mimeType":"image/png"}"#);
    assert!(matches!(
        horizon::filesystem::modelimporter::import_gltf_slice(&asset),
        Err(ImporterError::LoadError)
    ));
}

#[test]
fn embedded_png_is_imported() {
    let asset = asset_with_image(0, 70, r#"{"bufferView":0,"mimeType":"image/png"}"#);
    let (_, buffers, images) = horizon::filesystem::modelimporter::import_gltf_slice(&asset).unwrap();
    assert_eq!(buffers.len(), 1);
    assert_eq!(images.len(), 1);
    assert_eq!((images[0].width, images[0].height), (1, 1));
}

#[test]
fn image_behind_a_uri_is_refused_by_the_slice_import() {
    let asset = br#"{"asset":{"version":"2.0"},"images":[{"uri":"texture.png"}]}"#.to_vec();
    assert!(matches!(
        Importer::new(()).import_gltf_model(Ok(asset)),
        Err(ImporterError::LoadError)
    ));
}

fn decode_base64(text: &str) -> Vec<u8> {
    let alphabet = b"ABCDEFGHIJKLMNOPQRSTUVWXYZabcdefghijklmnopqrstuvwxyz0123456789+/";
    let mut bits: u32 = 0;
    let mut held = 0;
    let mut out = Vec::new();
    for c in text.bytes().filter(|c| *c != b'=') {
        let value = alphabet.iter().position(|a| *a == c).unwrap() as u32;
        bits = (bits << 6) | value;
        held += 6;
        if held >= 8 {
            held -= 8;
            out.push((bits >> held) as u8);
            bits &= (1 << held) - 1;
        }
    }
    out
}

fn glb(json: &str, bin: &[u8]) -> Vec<u8> {
    let mut json = json.as_bytes().to_vec();
    while json.len() % 4 != 0 {
        json.push(b' ');
    }
    let mut bin = bin.to_vec();
    while bin.len() % 4 != 0 {
        bin.push(0);
    }
    let total = 12 + 8 + json.len() + 8 + bin.len();
    let mut out = Vec::new();
    out.extend_from_slice(b"glTF");
    out.extend_from_slice(&2u32.to_le_bytes());
    out.extend_from_slice(&(total as u32).to_le_bytes());
    out.extend_from_slice(&(json.len() as u32).to_le_bytes());
    out.extend_from_slice(b"JSON");
    out.extend_from_slice(&json);
    out.extend_from_slice(&(bin.len() as u32).to_le_bytes());
    out.extend_from_slice(b"BIN\0");
    out.extend_from_slice(&bin);
    out
}

#[test]
fn glb_header_shorter_than_itself_is_a_load_error() {
    let mut bytes = Vec::new();
    bytes.extend_from_slice(b"glTF");
    bytes.extend_from_slice(&2u32.to_le_bytes());
    bytes.extend_from_slice(&8u32.to_le_bytes());
    bytes.extend_from_slice(&[0, 0, 0, 0]);
    assert!(horizon::filesystem::gltflayout::glb_header_too_short(&bytes));
    assert!(matches!(
        horizon::filesystem::modelimporter::import_gltf_slice(&bytes),
        Err(ImporterError::LoadError)
    ));
    assert!(matches!(
        Importer::new(()).import_gltf_model(Ok(bytes)),
        Err(ImporterError::LoadError)
    ));
}

#[test]
fn glb_header_of_twelve_bytes_is_not_too_short() {
    let mut bytes = Vec::new();
    bytes.extend_from_slice(b"glTF");
    bytes.extend_from_slice(&2u32.to_le_bytes());
    bytes.extend_from_slice(&12u32.to_le_bytes());
    assert!(!horizon::filesystem::gltflayout::glb_header_too_short(&bytes));
    assert!(!horizon::filesystem::gltflayout::glb_header_too_short(b"glTF"));
    assert!(matches!(
        horizon::filesystem::modelimporter::import_gltf_slice(&bytes),
        Err(ImporterError::LoadError)
    ));
}

#[test]
fn glb_image_past_declared_length_but_within_the_chunk_is_imported() {
    let png = decode_base64(PNG_1X1_BASE64);
    assert_eq!(png.len(), 70);
    let json = format!(
        r#"{{"asset":{{"version":"2.0"}},"buffers":[{{"byteLength":4}}],"bufferViews":[{{"buffer":0,"byteOffset":0,"byteLength":{}}}],"images":[{{"bufferView":0,"mimeType":"image/png"}}]}}"#,
        png.len()
    );
    let asset = glb(&json, &png);
    let (_, buffers, images) = horizon::filesystem::modelimporter::import_gltf_slice(&asset).unwrap();
    assert_eq!(buffers.len(), 1);
    assert_eq!(buffers[0].len(), 72);
    assert_eq!((images[0].width, images[0].height), (1, 1));
}

#[test]
fn glb_image_past_its_chunk_is_refused() {
    let png = decode_base64(PNG_1X1_BASE64);
    let json = r#"{"asset":{"version":"2.0"},"buffers":[{"byteLength":4}],"bufferViews":[{"buffer":0,"byteOffset":0,"byteLength":73}],"images":[{"bufferView":0,"mimeType":"image/png"}]}"#;
    let asset = glb(json, &png);
    assert!(matches!(
        horizon::filesystem::modelimporter::import_gltf_slice(&asset),
        Err(ImporterError::LoadError)
    ));
}

#[test]
fn data_uri_image_past_declared_length_but_within_the_payload_is_imported() {
    let asset = format!(
        r#"{{"asset":{{"version":"2.0"}},"buffers":[{{"byteLength":4,"uri":"data:application/octet-stream;base64,{}"}}],"bufferViews":[{{"buffer":0,"byteLength":70}}],"images":[{{"bufferView":0,"mimeType":"image/png"}}]}}"#,
        PNG_1X1_BASE64
    )
    .into_bytes();
    let (_, _, images) = horizon::filesystem::modelimporter::import_gltf_slice(&asset).unwrap();
    assert_eq!((images[0].width, images[0].height), (1, 1));
}

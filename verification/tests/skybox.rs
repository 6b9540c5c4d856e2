use horizon::renderer::primitives::texture::load_skybox_texture;

fn put(v: u32, out: &mut Vec<u8>) {
    out.extend_from_slice(&v.to_le_bytes());
}

fn dds(width: u32, height: u32, flags: u32, mip_count: u32, dx10: bool, data: &[u8]) -> Vec<u8> {
    let mut bytes = Vec::new();
    bytes.extend_from_slice(b"DDS ");
    for v in [124, flags, height, width, 0, 0, mip_count] {
        put(v, &mut bytes);
    }
    for _ in 0..11 {
        put(0, &mut bytes);
    }
    let (pf_flags, fourcc) = if dx10 { (0x4, 0x3031_5844) } else { (0x41, 0) };
    for v in [32, pf_flags, fourcc, 32, 0x00ff_0000, 0x0000_ff00, 0x0000_00ff, 0xff00_0000] {
        put(v, &mut bytes);
    }
    for v in [0x1000, 0xfe00, 0, 0, 0] {
        put(v, &mut bytes);
    }
    assert_eq!(bytes.len(), 128);
    if dx10 {
        for v in [87, 3, 0x4, 6, 0] {
            put(v, &mut bytes);
        }
    }
    bytes.extend_from_slice(data);
    bytes
}

#[test]
fn skybox_is_a_six_layer_cube_of_the_file_data() {
    let data: Vec<u8> = (0..48).collect();
    let file = dds(2, 1, 0x0002_1007, 2, false, &data);
    let texture = load_skybox_texture(&file).unwrap();
    assert_eq!((texture.width, texture.height), (2, 1));
    assert_eq!(texture.depth_or_array_layers, 6);
    assert_eq!(texture.mip_level_count, 2);
    assert_eq!(texture.data, data);
}

#[test]
fn skybox_without_a_mipmap_count_has_one_level() {
    let file = dds(4, 4, 0x1007, 9, false, &[1, 2, 3]);
    let texture = load_skybox_texture(&file).unwrap();
    assert_eq!(texture.mip_level_count, 1);
    assert_eq!(texture.data, vec![1, 2, 3]);
}

#[test]
fn skybox_data_follows_the_dx10_header() {
    let file = dds(8, 8, 0x1007, 0, true, &[9, 8, 7, 6]);
    assert_eq!(file.len(), 152);
    let texture = load_skybox_texture(&file).unwrap();
    assert_eq!((texture.width, texture.height), (8, 8));
    assert_eq!(texture.data, vec![9, 8, 7, 6]);
}

#[test]
fn bytes_that_are_not_dds_have_no_skybox() {
    assert!(load_skybox_texture(b"not a dds file at all").is_none());
    let mut file = dds(2, 2, 0x1007, 0, false, &[]);
    file[4] = 100;
    assert!(load_skybox_texture(&file).is_none());
    assert!(load_skybox_texture(&[]).is_none());
}

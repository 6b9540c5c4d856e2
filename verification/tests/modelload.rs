use horizon::modelload::{plan_model_load, MeshRecord, ModelLoadError, PrimitiveSummary};
use horizon::renderer::modelbuilder::ModelBuilder;
use horizon::renderer::primitives::mesh::{Mode, PrimitiveTopology, VertexAttributeType};
use std::collections::HashMap;

fn summary(has_positions: bool, material: Option<usize>, index_count: usize) -> PrimitiveSummary {
    PrimitiveSummary {
        has_positions,
        vertex_count: 3,
        attribute_lengths: vec![3, 3],
        index_count: Some(index_count),
        material,
    }
}

#[test]
fn one_record_per_primitive_with_default_material() {
    let plan = plan_model_load(&vec![summary(true, Some(4), 6), summary(true, None, 3)]).unwrap();
    assert_eq!(
        plan,
        vec![
            MeshRecord { primitive: 0, material_index: 4, index_buffer_len: 6, vertex_count: 3 },
            MeshRecord { primitive: 1, material_index: 0, index_buffer_len: 3, vertex_count: 3 },
        ]
    );
}

#[test]
fn primitive_without_positions_fails_the_model() {
    let primitives = vec![
        summary(true, None, 3),
        summary(false, None, 0),
        PrimitiveSummary {
            has_positions: true,
            vertex_count: 3,
            attribute_lengths: vec![1],
            index_count: None,
            material: None,
        },
    ];
    match plan_model_load(&primitives) {
        Err(ModelLoadError::ModelLoadFailed(message)) => {
            assert_eq!(message, "Error while parsing model data")
        }
        other => panic!("unexpected plan {:?}", other),
    }
}

#[test]
fn empty_model_has_no_meshes() {
    assert!(plan_model_load(&Vec::new()).unwrap().is_empty());
}

#[test]
fn materials_are_keyed_by_index_or_zero() {
    let mut materials = HashMap::new();
    ModelBuilder::insert_material(&mut materials, Some(2), "a");
    ModelBuilder::insert_material(&mut materials, None, "b");
    ModelBuilder::insert_material(&mut materials, Some(0), "c");
    assert_eq!(materials.len(), 2);
    assert_eq!(materials[&2], "a");
    assert_eq!(materials[&0], "c");
}

#[test]
fn primitive_mesh_has_what_the_reader_found() {
    let mesh = ModelBuilder::build_primitive_mesh(
        Mode::Triangles,
        Some("positions"),
        None,
        Some("tangents"),
        None,
        Some(vec![0, 1, 2]),
    );
    assert_eq!(mesh.mode(), PrimitiveTopology::TriangleList);
    assert_eq!(mesh.attribute(VertexAttributeType::Position), Some(&"positions"));
    assert_eq!(mesh.attribute(VertexAttributeType::Normal), None);
    assert_eq!(mesh.attribute(VertexAttributeType::Tangent), Some(&"tangents"));
    assert_eq!(mesh.attribute(VertexAttributeType::TextureCoords), None);
    assert_eq!(mesh.indices(), Some(&vec![0, 1, 2]));
}

#[test]
fn materials_table_keeps_the_last_material_per_key() {
    let loaded: Vec<(Option<usize>, Result<&str, String>)> =
        vec![(Some(2), Ok("a")), (None, Ok("b")), (Some(0), Ok("c")), (Some(5), Ok("d"))];
    let table = ModelBuilder::load_materials(loaded).unwrap();
    assert_eq!(table.len(), 3);
    assert_eq!(table[&2], "a");
    assert_eq!(table[&0], "c");
    assert_eq!(table[&5], "d");
}

#[test]
fn materials_table_reports_the_first_failure() {
    let loaded: Vec<(Option<usize>, Result<&str, String>)> = vec![
        (Some(0), Ok("a")),
        (Some(1), Err("InvalidSource".to_string())),
        (Some(2), Err("UnknownError".to_string())),
    ];
    match ModelBuilder::load_materials(loaded) {
        Err(horizon::renderer::modelbuilder::GltfLoadError::InnerError(message)) => assert_eq!(
            message,
            "Error occurred while loading gltf model: Inner Error: InvalidSource"
        ),
        Ok(_) => panic!("a failed material must fail the model"),
    }
}

#[test]
fn model_without_materials_has_an_empty_table() {
    let loaded: Vec<(Option<usize>, Result<u8, String>)> = Vec::new();
    assert!(ModelBuilder::load_materials(loaded).unwrap().is_empty());
}

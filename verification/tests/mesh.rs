use horizon::modelload::attribute_or_default;
use horizon::renderer::primitives::mesh::{GltfMesh, Mode, PrimitiveTopology, VertexAttributeType};

#[test]
fn mesh_topology_follows_mode() {
    assert_eq!(GltfMesh::<u8>::new(Mode::Triangles).mode(), PrimitiveTopology::TriangleList);
    assert_eq!(GltfMesh::<u8>::new(Mode::Points).mode(), PrimitiveTopology::PointList);
    assert_eq!(GltfMesh::<u8>::new(Mode::Lines).mode(), PrimitiveTopology::TriangleStrip);
    assert_eq!(GltfMesh::<u8>::new(Mode::LineStrip).mode(), PrimitiveTopology::TriangleStrip);
    assert_eq!(GltfMesh::<u8>::new(Mode::TriangleFan).mode(), PrimitiveTopology::TriangleStrip);
    for mode in [Mode::Points, Mode::Lines, Mode::LineLoop, Mode::LineStrip, Mode::Triangles, Mode::TriangleStrip, Mode::TriangleFan] {
        let mesh = GltfMesh::<Vec<f32>>::new(mode);
        assert!(mesh.attribute(VertexAttributeType::Position).is_none());
        assert!(mesh.indices().is_none());
    }
}

#[test]
fn attribute_read_after_write() {
    let mut mesh = GltfMesh::new(Mode::Triangles);
    mesh.add_vertex_attribute(VertexAttributeType::Position, vec![[0.0f32, 1.0, 2.0]]);
    assert_eq!(mesh.attribute(VertexAttributeType::Position), Some(&vec![[0.0f32, 1.0, 2.0]]));
    assert_eq!(mesh.attribute(VertexAttributeType::Normal), None);
    mesh.add_vertex_attribute(VertexAttributeType::Normal, vec![[0.0f32, 0.0, 1.0]]);
    mesh.add_vertex_attribute(VertexAttributeType::Position, vec![[5.0f32, 5.0, 5.0]]);
    assert_eq!(mesh.attribute(VertexAttributeType::Position), Some(&vec![[5.0f32, 5.0, 5.0]]));
    assert_eq!(mesh.attribute(VertexAttributeType::Normal), Some(&vec![[0.0f32, 0.0, 1.0]]));
}

#[test]
fn indices_are_replaced() {
    let mut mesh = GltfMesh::<u8>::new(Mode::Points);
    mesh.add_indices(vec![0, 1, 2]);
    assert_eq!(mesh.indices(), Some(&vec![0, 1, 2]));
    mesh.add_indices(vec![3]);
    assert_eq!(mesh.indices(), Some(&vec![3]));
}


#[test]
fn attribute_defaults_fill_every_vertex() {
    let filled = attribute_or_default(3, [1.0f32, 1.0, 1.0, 1.0], None);
    assert_eq!(filled, vec![[1.0f32, 1.0, 1.0, 1.0]; 3]);
    let own = vec![[0.5f32, 0.5], [0.25, 0.75]];
    assert_eq!(attribute_or_default(2, [0.0f32, 0.0], Some(&own)), own);
    assert!(attribute_or_default::<u32>(0, 0, None).is_empty());
}

use std::collections::BTreeMap;
use vstd::prelude::*;

verus! {

broadcast use {vstd::laws_cmp::group_laws_cmp, vstd::std_specs::btree::group_btree_axioms};

/// The kinds of per-vertex data a mesh can carry.
#[derive(Debug, Clone, Copy, PartialEq, Eq, PartialOrd, Ord, Structural)]
pub enum VertexAttributeType {
    Position,
    Normal,
    Tangent,
    TextureCoords,
    VertexColor,
    JointWeight,
    JointIndex,
}

/// How the vertices of a glTF primitive are assembled.
#[derive(Debug, Clone, Copy, PartialEq, Eq, Structural)]
pub enum Mode {
    Points,
    Lines,
    LineLoop,
    LineStrip,
    Triangles,
    TriangleStrip,
    TriangleFan,
}

/// How the GPU assembles vertices into primitives.
#[derive(Debug, Clone, Copy, PartialEq, Eq, Structural)]
pub enum PrimitiveTopology {
    PointList,
    LineList,
    LineStrip,
    TriangleList,
    TriangleStrip,
}

/// Triangles are drawn as a triangle list and points as a point list; every other
/// mode is drawn as a triangle strip.
pub open spec fn topology_for_mode(mode: Mode) -> PrimitiveTopology {
    match mode {
        Mode::Triangles => PrimitiveTopology::TriangleList,
        Mode::Points => PrimitiveTopology::PointList,
        _ => PrimitiveTopology::TriangleStrip,
    }
}

/// The slot of an attribute type, in the order of the type's declaration.
pub open spec fn attribute_slot(attribute: VertexAttributeType) -> int {
    match attribute {
        VertexAttributeType::Position => 0,
        VertexAttributeType::Normal => 1,
        VertexAttributeType::Tangent => 2,
        VertexAttributeType::TextureCoords => 3,
        VertexAttributeType::VertexColor => 4,
        VertexAttributeType::JointWeight => 5,
        VertexAttributeType::JointIndex => 6,
    }
}

fn slot_of(attribute: VertexAttributeType) -> (slot: u8)
    ensures
        slot == attribute_slot(attribute),
{
    match attribute {
        VertexAttributeType::Position => 0,
        VertexAttributeType::Normal => 1,
        VertexAttributeType::Tangent => 2,
        VertexAttributeType::TextureCoords => 3,
        VertexAttributeType::VertexColor => 4,
        VertexAttributeType::JointWeight => 5,
        VertexAttributeType::JointIndex => 6,
    }
}

/// A mesh primitive read from a glTF file: its topology, at most one value per
/// attribute type (ordered as the attribute types are), and an optional index list.
pub struct GltfMesh<V> {
    mode: PrimitiveTopology,
    vertex_attribs: BTreeMap<u8, V>,
    indices: Option<Vec<u32>>,
}

impl<V> GltfMesh<V> {
    pub closed spec fn topology(&self) -> PrimitiveTopology {
        self.mode
    }

    /// The attribute values of the mesh, by attribute type.
    pub closed spec fn attributes(&self) -> Map<VertexAttributeType, V> {
        Map::new(
            |a: VertexAttributeType| self.vertex_attribs@.contains_key(attribute_slot(a) as u8),
            |a: VertexAttributeType| self.vertex_attribs@[attribute_slot(a) as u8],
        )
    }

    pub closed spec fn index_list(&self) -> Option<Seq<u32>> {
        match self.indices {
            Some(v) => Some(v@),
            None => None,
        }
    }

    /// An empty mesh whose topology follows the glTF mode.
    pub fn new(mode: Mode) -> (mesh: Self)
        ensures
            mesh.topology() == topology_for_mode(mode),
            mesh.attributes() == Map::<VertexAttributeType, V>::empty(),
            mesh.index_list() == None::<Seq<u32>>,
    {
        let topology = match mode {
            Mode::Triangles => PrimitiveTopology::TriangleList,
            Mode::Points => PrimitiveTopology::PointList,
            _ => PrimitiveTopology::TriangleStrip,
        };
        let vertex_attribs: BTreeMap<u8, V> = BTreeMap::new();
        let mesh = GltfMesh { mode: topology, vertex_attribs, indices: None };
        assert(mesh.attributes() =~= Map::<VertexAttributeType, V>::empty());
        mesh
    }

    /// Sets the index list, replacing any earlier one.
    pub fn add_indices(&mut self, data: Vec<u32>)
        ensures
            final(self).index_list() == Some(data@),
            final(self).attributes() == old(self).attributes(),
            final(self).topology() == old(self).topology(),
    {
        self.indices = Some(data);
    }

    /// Sets the values of one attribute type, replacing any earlier ones.
    pub fn add_vertex_attribute(&mut self, attrib_type: VertexAttributeType, data: V)
        ensures
            final(self).attributes() == old(self).attributes().insert(attrib_type, data),
            final(self).index_list() == old(self).index_list(),
            final(self).topology() == old(self).topology(),
    {
        let slot: u8 = slot_of(attrib_type);
        self.vertex_attribs.insert(slot, data);
        assert(self.attributes() =~= old(self).attributes().insert(attrib_type, data));
    }

    /// The values of one attribute type, if the mesh has them.
    pub fn attribute(&self, id: VertexAttributeType) -> (values: Option<&V>)
        ensures
            match values {
                Some(v) => self.attributes().contains_key(id) && *v == self.attributes()[id],
                None => !self.attributes().contains_key(id),
            },
    {
        let slot: u8 = slot_of(id);
        self.vertex_attribs.get(&slot)
    }

    /// How the GPU assembles the mesh's vertices.
    pub fn mode(&self) -> (topology: PrimitiveTopology)
        ensures
            topology == self.topology(),
    {
        self.mode
    }

    /// The index list, if the mesh has one.
    pub fn indices(&self) -> (indices: Option<&Vec<u32>>)
        ensures
            match indices {
                Some(v) => self.index_list() == Some(v@),
                None => self.index_list() is None,
            },
    {
        self.indices.as_ref()
    }
}

/// Setting an attribute and then reading it gives back what was set, and leaves every
/// other attribute as it was.
pub proof fn attribute_read_after_write<V>(
    before: Map<VertexAttributeType, V>,
    attrib_type: VertexAttributeType,
    data: V,
    other: VertexAttributeType,
)
    ensures
        before.insert(attrib_type, data).contains_key(attrib_type),
        before.insert(attrib_type, data)[attrib_type] == data,
        other != attrib_type ==> (before.insert(attrib_type, data).contains_key(other)
            == before.contains_key(other)),
        other != attrib_type && before.contains_key(other) ==> before.insert(
            attrib_type,
            data,
        )[other] == before[other],
{
}

/// Only triangles become a triangle list and only points a point list; every other
/// mode is drawn as a triangle strip, and no mode becomes a line topology.
pub proof fn topology_of_modes(mode: Mode)
    ensures
        topology_for_mode(mode) == PrimitiveTopology::TriangleList <==> mode == Mode::Triangles,
        topology_for_mode(mode) == PrimitiveTopology::PointList <==> mode == Mode::Points,
        mode != Mode::Triangles && mode != Mode::Points ==> topology_for_mode(mode)
            == PrimitiveTopology::TriangleStrip,
{
}

} // verus!

use std::collections::HashMap;
use vstd::prelude::*;
use vstd::string::StringExecFns;
use crate::renderer::primitives::mesh::{topology_for_mode, GltfMesh, Mode, VertexAttributeType};
use crate::renderer::primitives::texture::{
    create_image_from_gltf_texture, decoded_image, source_in_buffer, texture_error,
    texture_image_decodes,
    GltfImageSource, ImageLoadError,
};

verus! {

broadcast use vstd::std_specs::hash::group_hash_axioms;

/// Why a glTF model could not be turned into an engine model.
#[derive(Clone, Debug)]
pub enum GltfLoadError {
    InnerError(String),
}

/// Builds engine models from imported glTF documents.
pub struct ModelBuilder;

/// The image a texture source decodes to, where it decodes.
pub open spec fn texture_image(source: GltfImageSource, buffer: Seq<u8>) -> image::DynamicImage {
    match source {
        GltfImageSource::View { offset, length } => decoded_image(
            buffer.subrange(offset as int, offset + length),
        ),
        GltfImageSource::Uri => decoded_image(Seq::empty()),
    }
}

/// The key a material is stored under: its index, or 0 for a material without one.
pub open spec fn material_key(index: Option<usize>) -> usize {
    match index {
        Some(i) => i,
        None => 0,
    }
}

/// The attributes a primitive's mesh carries: each one the reader found, by type.
pub open spec fn read_attributes<V>(
    positions: Option<V>,
    normals: Option<V>,
    tangents: Option<V>,
    tex_coords: Option<V>,
) -> Map<VertexAttributeType, V> {
    let with_positions = match positions {
        Some(v) => Map::empty().insert(VertexAttributeType::Position, v),
        None => Map::empty(),
    };
    let with_normals = match normals {
        Some(v) => with_positions.insert(VertexAttributeType::Normal, v),
        None => with_positions,
    };
    let with_tangents = match tangents {
        Some(v) => with_normals.insert(VertexAttributeType::Tangent, v),
        None => with_normals,
    };
    match tex_coords {
        Some(v) => with_tangents.insert(VertexAttributeType::TextureCoords, v),
        None => with_tangents,
    }
}

/// The text a model load error starts with, before the inner error's text.
pub open spec fn model_error_prefix() -> Seq<char> {
    "Error occurred while loading gltf model: Inner Error: "@
}

/// The materials table built from loaded materials in order, starting from `table`:
/// each material is stored under its key (a later one replacing an earlier one with
/// the same key), and the first material that failed to load ends the build with the
/// text of its error.
pub open spec fn material_table_from<M>(
    table: Map<usize, M>,
    loaded: Seq<(Option<usize>, Result<M, String>)>,
) -> Result<Map<usize, M>, Seq<char>>
    decreases loaded.len(),
{
    if loaded.len() == 0 {
        Ok(table)
    } else {
        match loaded[0].1 {
            Ok(material) => material_table_from(
                table.insert(material_key(loaded[0].0), material),
                loaded.drop_first(),
            ),
            Err(text) => Err(text@),
        }
    }
}

/// The materials table of a model whose materials loaded as `loaded`, in order.
pub open spec fn material_table<M>(loaded: Seq<(Option<usize>, Result<M, String>)>) -> Result<
    Map<usize, M>,
    Seq<char>,
> {
    material_table_from(Map::empty(), loaded)
}

proof fn lemma_table_keeps_untouched_key<M>(
    table: Map<usize, M>,
    loaded: Seq<(Option<usize>, Result<M, String>)>,
    key: usize,
)
    requires
        material_table_from(table, loaded) is Ok,
        forall|j: int| 0 <= j < loaded.len() ==> material_key(#[trigger] loaded[j].0) != key,
    ensures
        material_table_from(table, loaded) matches Ok(result) && (result.contains_key(key)
            <==> table.contains_key(key)) && (table.contains_key(key) ==> result[key]
            == table[key]),
    decreases loaded.len(),
{
    if loaded.len() > 0 {
        let material = loaded[0].1->Ok_0;
        let rest = loaded.drop_first();
        assert(forall|j: int| 0 <= j < rest.len() ==> rest[j] == loaded[j + 1]);
        assert(material_key(loaded[0].0) != key);
        lemma_table_keeps_untouched_key(
            table.insert(material_key(loaded[0].0), material),
            rest,
            key,
        );
    }
}

proof fn lemma_table_keeps_last<M>(
    table: Map<usize, M>,
    loaded: Seq<(Option<usize>, Result<M, String>)>,
    i: int,
)
    requires
        material_table_from(table, loaded) is Ok,
        0 <= i < loaded.len(),
        forall|j: int|
            i < j < loaded.len() ==> material_key(#[trigger] loaded[j].0) != material_key(
                loaded[i].0,
            ),
    ensures
        loaded[i].1 matches Ok(material) && material_table_from(table, loaded) matches Ok(result)
            && result.contains_key(material_key(loaded[i].0)) && result[material_key(loaded[i].0)]
            == material,
    decreases loaded.len(),
{
    let material = loaded[0].1->Ok_0;
    let rest = loaded.drop_first();
    let next = table.insert(material_key(loaded[0].0), material);
    assert(forall|j: int| 0 <= j < rest.len() ==> rest[j] == loaded[j + 1]);
    if i == 0 {
        lemma_table_keeps_untouched_key(next, rest, material_key(loaded[0].0));
    } else {
        lemma_table_keeps_last(next, rest, i - 1);
    }
}

/// When a model's materials all load, each material is found in the table under its
/// key unless a later material with the same key replaced it.
pub proof fn material_table_keeps_last_of_each_key<M>(
    loaded: Seq<(Option<usize>, Result<M, String>)>,
    i: int,
)
    requires
        material_table(loaded) is Ok,
        0 <= i < loaded.len(),
        forall|j: int|
            i < j < loaded.len() ==> material_key(#[trigger] loaded[j].0) != material_key(
                loaded[i].0,
            ),
    ensures
        loaded[i].1 matches Ok(material) && material_table(loaded) matches Ok(table)
            && table.contains_key(material_key(loaded[i].0)) && table[material_key(loaded[i].0)]
            == material,
{
    lemma_table_keeps_last(Map::empty(), loaded, i);
}

proof fn lemma_failure_ends_build<M>(
    table: Map<usize, M>,
    loaded: Seq<(Option<usize>, Result<M, String>)>,
    i: int,
)
    requires
        0 <= i < loaded.len(),
        loaded[i].1 is Err,
    ensures
        material_table_from(table, loaded) is Err,
    decreases loaded.len(),
{
    if loaded[0].1 is Ok {
        let rest = loaded.drop_first();
        assert(rest[i - 1] == loaded[i]);
        lemma_failure_ends_build(table.insert(material_key(loaded[0].0), loaded[0].1->Ok_0), rest, i - 1);
    }
}

/// A material that fails to load fails the whole model, wherever it stands.
pub proof fn failed_material_fails_the_model<M>(
    loaded: Seq<(Option<usize>, Result<M, String>)>,
    i: int,
)
    requires
        0 <= i < loaded.len(),
        loaded[i].1 is Err,
    ensures
        material_table(loaded) is Err,
{
    lemma_failure_ends_build(Map::empty(), loaded, i);
}

/// Each attribute the reader found is in the mesh under its own type, with the values
/// read; an attribute not found is absent, and no other attribute is present.
pub proof fn read_attributes_holds_what_was_read<V>(
    positions: Option<V>,
    normals: Option<V>,
    tangents: Option<V>,
    tex_coords: Option<V>,
)
    ensures
        positions matches Some(a) ==> read_attributes(positions, normals, tangents, tex_coords).contains_key(VertexAttributeType::Position) && read_attributes(positions, normals, tangents, tex_coords)[VertexAttributeType::Position] == a,
        positions is None ==> !read_attributes(positions, normals, tangents, tex_coords).contains_key(VertexAttributeType::Position),
        normals matches Some(a) ==> read_attributes(positions, normals, tangents, tex_coords).contains_key(VertexAttributeType::Normal) && read_attributes(positions, normals, tangents, tex_coords)[VertexAttributeType::Normal] == a,
        normals is None ==> !read_attributes(positions, normals, tangents, tex_coords).contains_key(VertexAttributeType::Normal),
        tangents matches Some(a) ==> read_attributes(positions, normals, tangents, tex_coords).contains_key(VertexAttributeType::Tangent) && read_attributes(positions, normals, tangents, tex_coords)[VertexAttributeType::Tangent] == a,
        tangents is None ==> !read_attributes(positions, normals, tangents, tex_coords).contains_key(VertexAttributeType::Tangent),
        tex_coords matches Some(a) ==> read_attributes(positions, normals, tangents, tex_coords).contains_key(VertexAttributeType::TextureCoords) && read_attributes(positions, normals, tangents, tex_coords)[VertexAttributeType::TextureCoords] == a,
        tex_coords is None ==> !read_attributes(positions, normals, tangents, tex_coords).contains_key(VertexAttributeType::TextureCoords),
        forall|k: VertexAttributeType|
            #[trigger] read_attributes(positions, normals, tangents, tex_coords).contains_key(k) ==> k == VertexAttributeType::Position || k
                == VertexAttributeType::Normal || k == VertexAttributeType::Tangent || k
                == VertexAttributeType::TextureCoords,
{
}

impl ModelBuilder {
    /// Builds a model's materials table from its materials in order, each given by its
    /// index and either the loaded material or the `Debug` text of the error that
    /// stopped it. The first failure is the model's error; otherwise every material is
    /// stored under its index (0 without one), a later one replacing an earlier one.
    pub fn load_materials<M>(loaded: Vec<(Option<usize>, Result<M, String>)>) -> (materials: Result<
        HashMap<usize, M>,
        GltfLoadError,
    >)
        ensures
            match material_table(loaded@) {
                Ok(table) => materials matches Ok(m) && m@ == table,
                Err(text) => materials matches Err(GltfLoadError::InnerError(message))
                    && message@ == model_error_prefix() + text,
            },
    {
        let ghost all = loaded@;
        let mut rest = loaded;
        let mut materials: HashMap<usize, M> = HashMap::new();
        while rest.len() > 0
            invariant
                all == loaded@,
                material_table(all) == material_table_from(materials@, rest@),
            decreases rest@.len(),
        {
            let ghost before = rest@;
            let (index, result) = rest.remove(0);
            assert(rest@ =~= before.drop_first());
            match result {
                Ok(material) => Self::insert_material(&mut materials, index, material),
                Err(text) => {
                    assert(before[0].1 == Err::<M, String>(text));
                    assert(material_table_from(materials@, before) == Err::<Map<usize, M>, Seq<char>>(text@));
                    let prefix = String::from_str("Error occurred while loading gltf model: Inner Error: ");
                    proof {
                        reveal_strlit("Error occurred while loading gltf model: Inner Error: ");
                    }
                    return Err(GltfLoadError::InnerError(prefix.concat(text.as_str())));
                },
            }
        }
        Ok(materials)
    }

    /// Decodes the image of texture `index` unless it is decoded already, and keeps it
    /// under its index. A texture is decoded at most once; a failure leaves the
    /// decoded textures as they were.
    pub fn load_texture(
        source: &GltfImageSource,
        buffer: &[u8],
        index: usize,
        loaded_textures: &mut HashMap<usize, image::DynamicImage>,
    ) -> (loaded: Result<usize, ImageLoadError>)
        requires
            !old(loaded_textures)@.contains_key(index) ==> source_in_buffer(*source, buffer@),
        ensures
            old(loaded_textures)@.contains_key(index) ==> loaded == Ok::<usize, ImageLoadError>(index)
                && final(loaded_textures)@ == old(loaded_textures)@,
            !old(loaded_textures)@.contains_key(index) ==> {
                &&& loaded is Ok <==> texture_image_decodes(*source, buffer@)
                &&& loaded is Ok ==> loaded == Ok::<usize, ImageLoadError>(index)
                    && final(loaded_textures)@ == old(loaded_textures)@.insert(index, texture_image(*source, buffer@))
                &&& loaded is Err ==> final(loaded_textures)@ == old(loaded_textures)@
                &&& loaded matches Err(error) ==> texture_error(error, *source, buffer@)
            },
    {
        if loaded_textures.contains_key(&index) {
            return Ok(index);
        }
        match create_image_from_gltf_texture(source, buffer) {
            Ok(image) => {
                loaded_textures.insert(index, image);
                Ok(index)
            },
            Err(e) => Err(e),
        }
    }

    /// Stores a loaded material under its index, or under 0 when it has none; a later
    /// material with the same key replaces an earlier one.
    pub fn insert_material<M>(materials: &mut HashMap<usize, M>, index: Option<usize>, material: M)
        ensures
            final(materials)@ == old(materials)@.insert(material_key(index), material),
            index matches Some(i) ==> final(materials)@ == old(materials)@.insert(i, material),
            index is None ==> final(materials)@ == old(materials)@.insert(0, material),
    {
        let key: usize = match index {
            Some(i) => i,
            None => 0,
        };
        materials.insert(key, material);
    }

    /// The mesh of one glTF primitive: its mode's topology, the attributes the reader
    /// found, and its index list if it has one.
    pub fn build_primitive_mesh<V>(
        mode: Mode,
        positions: Option<V>,
        normals: Option<V>,
        tangents: Option<V>,
        tex_coords: Option<V>,
        indices: Option<Vec<u32>>,
    ) -> (mesh: GltfMesh<V>)
        ensures
            mesh.topology() == topology_for_mode(mode),
            mesh.attributes() == read_attributes(positions, normals, tangents, tex_coords),
            positions matches Some(a) ==> mesh.attributes().contains_key(VertexAttributeType::Position) && mesh.attributes()[VertexAttributeType::Position] == a,
            positions is None ==> !mesh.attributes().contains_key(VertexAttributeType::Position),
            normals matches Some(a) ==> mesh.attributes().contains_key(VertexAttributeType::Normal) && mesh.attributes()[VertexAttributeType::Normal] == a,
            normals is None ==> !mesh.attributes().contains_key(VertexAttributeType::Normal),
            tangents matches Some(a) ==> mesh.attributes().contains_key(VertexAttributeType::Tangent) && mesh.attributes()[VertexAttributeType::Tangent] == a,
            tangents is None ==> !mesh.attributes().contains_key(VertexAttributeType::Tangent),
            tex_coords matches Some(a) ==> mesh.attributes().contains_key(VertexAttributeType::TextureCoords) && mesh.attributes()[VertexAttributeType::TextureCoords] == a,
            tex_coords is None ==> !mesh.attributes().contains_key(VertexAttributeType::TextureCoords),
            forall|k: VertexAttributeType|
                #[trigger] mesh.attributes().contains_key(k) ==> k == VertexAttributeType::Position || k
                    == VertexAttributeType::Normal || k == VertexAttributeType::Tangent || k
                    == VertexAttributeType::TextureCoords,
            mesh.index_list() == match indices {
                Some(v) => Some(v@),
                None => None::<Seq<u32>>,
            },
    {
        let ghost spec_positions = positions;
        let ghost spec_normals = normals;
        let ghost spec_tangents = tangents;
        let ghost spec_tex_coords = tex_coords;
        proof {
            read_attributes_holds_what_was_read(positions, normals, tangents, tex_coords);
        }
        let mut mesh = GltfMesh::new(mode);
        if let Some(v) = positions {
            mesh.add_vertex_attribute(VertexAttributeType::Position, v);
        }
        if let Some(v) = normals {
            mesh.add_vertex_attribute(VertexAttributeType::Normal, v);
        }
        if let Some(v) = tangents {
            mesh.add_vertex_attribute(VertexAttributeType::Tangent, v);
        }
        if let Some(v) = tex_coords {
            mesh.add_vertex_attribute(VertexAttributeType::TextureCoords, v);
        }
        if let Some(list) = indices {
            mesh.add_indices(list);
        }
        assert(mesh.attributes() =~= read_attributes(
            spec_positions,
            spec_normals,
            spec_tangents,
            spec_tex_coords,
        ));
        mesh
    }
}

} // verus!

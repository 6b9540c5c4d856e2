use vstd::prelude::*;
use vstd::string::StringExecFns;

verus! {

/// The values of one vertex attribute of a primitive with `vertex_count` vertices:
/// the primitive's own values when it has them, otherwise `default` for every vertex.
pub open spec fn attribute_values<T>(vertex_count: nat, default: T, values: Option<Seq<T>>) -> Seq<T> {
    match values {
        Some(v) => v,
        None => Seq::new(vertex_count, |i: int| default),
    }
}

/// Fills one vertex attribute for upload: the primitive's own values, which must
/// number one per vertex, or `default` for every vertex when it has none.
pub fn attribute_or_default<T: Copy>(vertex_count: usize, default: T, values: Option<&Vec<T>>) -> (filled: Vec<T>)
    requires
        values matches Some(v) ==> v@.len() == vertex_count,
    ensures
        filled@ == attribute_values(
            vertex_count as nat,
            default,
            match values {
                Some(v) => Some(v@),
                None => None,
            },
        ),
        filled@.len() == vertex_count,
{
    let mut filled: Vec<T> = Vec::new();
    let mut i: usize = 0;
    while i < vertex_count
        invariant
            i <= vertex_count,
            values matches Some(v) ==> v@.len() == vertex_count,
            filled@.len() == i,
            forall|j: int|
                0 <= j < i ==> filled@[j] == match values {
                    Some(v) => v@[j],
                    None => default,
                },
        decreases vertex_count - i,
    {
        let value = match values {
            Some(v) => v[i],
            None => default,
        };
        filled.push(value);
        i = i + 1;
    }
    assert(filled@ =~= attribute_values(
        vertex_count as nat,
        default,
        match values {
            Some(v) => Some(v@),
            None => None,
        },
    ));
    filled
}

/// What uploading a model reads of one of its primitives: whether it has vertex
/// positions (three floats each) and how many, the lengths of the other vertex
/// attributes that are copied beside them, its index count, and its material.
#[derive(Debug, Clone)]
pub struct PrimitiveSummary {
    pub has_positions: bool,
    pub vertex_count: usize,
    pub attribute_lengths: Vec<usize>,
    pub index_count: Option<usize>,
    pub material: Option<usize>,
}

/// The GPU mesh made for one primitive: which primitive, its material (0 when it has
/// none), the length of its index buffer as a `u32`, and its vertex count.
#[derive(Debug, Clone, Copy, PartialEq, Eq, Structural)]
pub struct MeshRecord {
    pub primitive: usize,
    pub material_index: usize,
    pub index_buffer_len: u32,
    pub vertex_count: usize,
}

/// Why a model could not be uploaded.
#[derive(Debug, Clone)]
pub enum ModelLoadError {
    ModelLoadFailed(String),
}

/// A primitive that can be uploaded: it has an index list, and every other attribute
/// has one value per vertex.
pub open spec fn primitive_uploadable(p: PrimitiveSummary) -> bool {
    &&& p.index_count is Some
    &&& forall|k: int| 0 <= k < p.attribute_lengths@.len() ==> #[trigger] p.attribute_lengths@[k] == p.vertex_count
}

/// The primitives are uploaded in order until one lacks positions; each primitive that
/// is reached with positions must be uploadable.
pub open spec fn primitives_uploadable(primitives: Seq<PrimitiveSummary>) -> bool {
    forall|i: int|
        0 <= i < primitives.len() && (forall|j: int| 0 <= j <= i ==> (#[trigger] primitives[j]).has_positions)
            ==> primitive_uploadable(#[trigger] primitives[i])
}

/// The mesh record of primitive `i`.
pub open spec fn mesh_record(i: int, p: PrimitiveSummary) -> MeshRecord {
    MeshRecord {
        primitive: i as usize,
        material_index: match p.material {
            Some(m) => m,
            None => 0,
        },
        index_buffer_len: (p.index_count->Some_0) as u32,
        vertex_count: p.vertex_count,
    }
}

/// Plans the GPU meshes of a model: one record per primitive, in order. A primitive
/// without positions fails the whole model, and nothing is uploaded.
pub fn plan_model_load(primitives: &Vec<PrimitiveSummary>) -> (plan: Result<Vec<MeshRecord>, ModelLoadError>)
    requires
        primitives_uploadable(primitives@),
    ensures
        plan is Err <==> exists|i: int| 0 <= i < primitives@.len() && !(#[trigger] primitives@[i]).has_positions,
        plan matches Err(ModelLoadError::ModelLoadFailed(message)) ==> message@ == "Error while parsing model data"@,
        plan matches Ok(records) ==> records@.len() == primitives@.len() && forall|i: int|
            0 <= i < primitives@.len() ==> #[trigger] records@[i] == mesh_record(i, primitives@[i]),
        plan matches Ok(records) ==> forall|i: int|
            0 <= i < primitives@.len() ==> {
                &&& (#[trigger] records@[i]).primitive == i
                &&& records@[i].vertex_count == primitives@[i].vertex_count
                &&& primitives@[i].material matches Some(m) ==> records@[i].material_index == m
                &&& primitives@[i].material is None ==> records@[i].material_index == 0
                &&& primitives@[i].index_count matches Some(c) ==> records@[i].index_buffer_len
                    == c as u32
            },
{
    let mut records: Vec<MeshRecord> = Vec::new();
    let mut i: usize = 0;
    while i < primitives.len()
        invariant
            i <= primitives@.len(),
            primitives_uploadable(primitives@),
            records@.len() == i,
            forall|j: int| 0 <= j < i ==> (#[trigger] primitives@[j]).has_positions,
            forall|j: int| 0 <= j < i ==> #[trigger] records@[j] == mesh_record(j, primitives@[j]),
        decreases primitives@.len() - i,
    {
        let p = &primitives[i];
        if !p.has_positions {
            return Err(ModelLoadError::ModelLoadFailed(String::from_str("Error while parsing model data")));
        }
        assert(forall|j: int| 0 <= j <= i ==> (#[trigger] primitives@[j]).has_positions);
        assert(primitive_uploadable(primitives@[i as int]));
        let index_count: usize = match p.index_count {
            Some(c) => c,
            None => 0,
        };
        let material_index: usize = match p.material {
            Some(m) => m,
            None => 0,
        };
        records.push(MeshRecord {
            primitive: i,
            material_index,
            index_buffer_len: index_count as u32,
            vertex_count: p.vertex_count,
        });
        i = i + 1;
    }
    Ok(records)
}

} // verus!

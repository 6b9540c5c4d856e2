use std::collections::HashMap;
use vstd::prelude::*;

verus! {

broadcast use vstd::std_specs::hash::group_hash_axioms;

/// The texture slots of a PBR material.
#[derive(Debug, Clone, Copy, PartialEq, Eq, Structural)]
pub enum MaterialTextureKind {
    BaseColor,
    NormalMap,
    MetallicRoughness,
    Emissive,
    Occlusion,
}

impl MaterialTextureKind {
    /// Whether textures of this slot are uploaded in a linear format rather than as
    /// sRGB colors: only normal maps are.
    pub fn is_normal_map(&self) -> (linear: bool)
        ensures
            linear == (*self == MaterialTextureKind::NormalMap),
    {
        match self {
            MaterialTextureKind::NormalMap => true,
            _ => false,
        }
    }
}

/// The textures a glTF material refers to, by texture index.
#[derive(Debug, Clone, Copy, PartialEq, Eq, Structural)]
pub struct MaterialTextures {
    pub base_color_texture: Option<usize>,
    pub roughness_texture: Option<usize>,
    pub normal_map_texture: Option<usize>,
    pub occlusion_texture: Option<usize>,
    pub emissive_texture: Option<usize>,
}

/// A texture to decode and upload to the GPU, and the slot it is first needed for.
#[derive(Debug, Clone, Copy, PartialEq, Eq, Structural)]
pub struct TextureUpload {
    pub index: usize,
    pub kind: MaterialTextureKind,
}

/// Where a bind group takes the texture of one slot from.
#[derive(Debug, Clone, Copy, PartialEq, Eq, Structural)]
pub enum TextureSource {
    /// The uploaded texture with this index.
    Loaded(usize),
    /// The engine's default texture for this slot.
    Default(MaterialTextureKind),
}

/// The slots in the order their textures are uploaded.
pub open spec fn upload_slots(t: MaterialTextures) -> Seq<(Option<usize>, MaterialTextureKind)> {
    seq![
        (t.base_color_texture, MaterialTextureKind::BaseColor),
        (t.normal_map_texture, MaterialTextureKind::NormalMap),
        (t.roughness_texture, MaterialTextureKind::MetallicRoughness),
        (t.emissive_texture, MaterialTextureKind::Emissive),
        (t.occlusion_texture, MaterialTextureKind::Occlusion),
    ]
}

pub open spec fn upload_indices(uploads: Seq<TextureUpload>) -> Seq<usize> {
    uploads.map_values(|u: TextureUpload| u.index)
}

/// Going through the slots in order, each texture that is neither uploaded yet nor
/// already planned is planned for upload, once.
pub open spec fn plan_uploads(
    slots: Seq<(Option<usize>, MaterialTextureKind)>,
    uploaded: Set<usize>,
) -> Seq<TextureUpload>
    decreases slots.len(),
{
    if slots.len() == 0 {
        Seq::empty()
    } else {
        let prior = plan_uploads(slots.drop_last(), uploaded);
        match slots.last().0 {
            Some(index) => if uploaded.contains(index) || upload_indices(prior).contains(index) {
                prior
            } else {
                prior.push(TextureUpload { index, kind: slots.last().1 })
            },
            None => prior,
        }
    }
}

/// The source of one slot: its own texture if it has one, else the slot's default.
pub open spec fn source_of(texture: Option<usize>, kind: MaterialTextureKind) -> TextureSource {
    match texture {
        Some(index) => TextureSource::Loaded(index),
        None => TextureSource::Default(kind),
    }
}

/// The bind group's textures in binding order: base color, metallic-roughness, normal
/// map, occlusion, emissive.
pub open spec fn binding_sources(t: MaterialTextures) -> Seq<TextureSource> {
    seq![
        source_of(t.base_color_texture, MaterialTextureKind::BaseColor),
        source_of(t.roughness_texture, MaterialTextureKind::MetallicRoughness),
        source_of(t.normal_map_texture, MaterialTextureKind::NormalMap),
        source_of(t.occlusion_texture, MaterialTextureKind::Occlusion),
        source_of(t.emissive_texture, MaterialTextureKind::Emissive),
    ]
}

/// Each binding, in the order base color, metallic-roughness, normal map, occlusion,
/// emissive, takes the material's own texture for its slot when the material names
/// one, and the slot's default texture otherwise.
pub proof fn bindings_follow_fields(t: MaterialTextures)
    ensures
        binding_sources(t).len() == 5,
        binding_sources(t)[0] == match t.base_color_texture {
            Some(i) => TextureSource::Loaded(i),
            None => TextureSource::Default(MaterialTextureKind::BaseColor),
        },
        binding_sources(t)[1] == match t.roughness_texture {
            Some(i) => TextureSource::Loaded(i),
            None => TextureSource::Default(MaterialTextureKind::MetallicRoughness),
        },
        binding_sources(t)[2] == match t.normal_map_texture {
            Some(i) => TextureSource::Loaded(i),
            None => TextureSource::Default(MaterialTextureKind::NormalMap),
        },
        binding_sources(t)[3] == match t.occlusion_texture {
            Some(i) => TextureSource::Loaded(i),
            None => TextureSource::Default(MaterialTextureKind::Occlusion),
        },
        binding_sources(t)[4] == match t.emissive_texture {
            Some(i) => TextureSource::Loaded(i),
            None => TextureSource::Default(MaterialTextureKind::Emissive),
        },
{
}

fn planned(uploads: &Vec<TextureUpload>, index: usize) -> (found: bool)
    ensures
        found == upload_indices(uploads@).contains(index),
{
    let mut i: usize = 0;
    while i < uploads.len()
        invariant
            i <= uploads@.len(),
            forall|j: int| 0 <= j < i ==> uploads@[j].index != index,
        decreases uploads@.len() - i,
    {
        if uploads[i].index == index {
            assert(upload_indices(uploads@)[i as int] == index);
            return true;
        }
        i = i + 1;
    }
    assert forall|j: int| 0 <= j < uploads@.len() implies upload_indices(uploads@)[j] != index by {}
    false
}

impl MaterialTextures {
    /// The textures of this material that are not among the `uploaded` ones, each once,
    /// in the order base color, normal map, metallic-roughness, emissive, occlusion.
    pub fn textures_to_upload<T>(&self, uploaded: &HashMap<usize, T>) -> (uploads: Vec<TextureUpload>)
        ensures
            uploads@ == plan_uploads(upload_slots(*self), uploaded@.dom()),
            self.base_color_texture matches Some(i) ==> (!uploaded@.contains_key(i) ==> uploads@.contains(
                TextureUpload { index: i, kind: MaterialTextureKind::BaseColor },
            )),
            self.normal_map_texture matches Some(i) ==> (!uploaded@.contains_key(i) && self.base_color_texture != Some(i) ==> uploads@.contains(
                TextureUpload { index: i, kind: MaterialTextureKind::NormalMap },
            )),
            self.roughness_texture matches Some(i) ==> (!uploaded@.contains_key(i) && self.base_color_texture != Some(i) && self.normal_map_texture != Some(i) ==> uploads@.contains(
                TextureUpload { index: i, kind: MaterialTextureKind::MetallicRoughness },
            )),
            self.emissive_texture matches Some(i) ==> (!uploaded@.contains_key(i) && self.base_color_texture != Some(i) && self.normal_map_texture != Some(i) && self.roughness_texture != Some(i) ==> uploads@.contains(
                TextureUpload { index: i, kind: MaterialTextureKind::Emissive },
            )),
            self.occlusion_texture matches Some(i) ==> (!uploaded@.contains_key(i) && self.base_color_texture != Some(i) && self.normal_map_texture != Some(i) && self.roughness_texture != Some(i) && self.emissive_texture != Some(i) ==> uploads@.contains(
                TextureUpload { index: i, kind: MaterialTextureKind::Occlusion },
            )),
            forall|j: int|
                0 <= j < uploads@.len() && (#[trigger] uploads@[j]).kind
                    == MaterialTextureKind::NormalMap ==> self.normal_map_texture == Some(
                    uploads@[j].index,
                ) && self.base_color_texture != Some(uploads@[j].index),
    {
        proof {
            uploads_take_the_kind_of_their_first_slot(*self, uploaded@.dom());
        }
        let slots: [(Option<usize>, MaterialTextureKind); 5] = [
            (self.base_color_texture, MaterialTextureKind::BaseColor),
            (self.normal_map_texture, MaterialTextureKind::NormalMap),
            (self.roughness_texture, MaterialTextureKind::MetallicRoughness),
            (self.emissive_texture, MaterialTextureKind::Emissive),
            (self.occlusion_texture, MaterialTextureKind::Occlusion),
        ];
        assert(slots@ =~= upload_slots(*self));
        let mut uploads: Vec<TextureUpload> = Vec::new();
        let mut i: usize = 0;
        while i < 5
            invariant
                i <= 5,
                slots@ == upload_slots(*self),
                uploads@ == plan_uploads(slots@.take(i as int), uploaded@.dom()),
            decreases 5 - i,
        {
            let (texture, kind) = slots[i];
            assert(slots@.take(i + 1).drop_last() =~= slots@.take(i as int));
            if let Some(index) = texture {
                if !uploaded.contains_key(&index) && !planned(&uploads, index) {
                    uploads.push(TextureUpload { index, kind });
                }
            }
            i = i + 1;
        }
        assert(slots@.take(5) =~= slots@);
        uploads
    }

    /// Where the material's bind group takes each of its textures from, in binding order.
    pub fn binding_sources(&self) -> (sources: Vec<TextureSource>)
        ensures
            sources@ == binding_sources(*self),
            sources@.len() == 5,
            sources@[0] == match self.base_color_texture {
                Some(i) => TextureSource::Loaded(i),
                None => TextureSource::Default(MaterialTextureKind::BaseColor),
            },
            sources@[1] == match self.roughness_texture {
                Some(i) => TextureSource::Loaded(i),
                None => TextureSource::Default(MaterialTextureKind::MetallicRoughness),
            },
            sources@[2] == match self.normal_map_texture {
                Some(i) => TextureSource::Loaded(i),
                None => TextureSource::Default(MaterialTextureKind::NormalMap),
            },
            sources@[3] == match self.occlusion_texture {
                Some(i) => TextureSource::Loaded(i),
                None => TextureSource::Default(MaterialTextureKind::Occlusion),
            },
            sources@[4] == match self.emissive_texture {
                Some(i) => TextureSource::Loaded(i),
                None => TextureSource::Default(MaterialTextureKind::Emissive),
            },
    {
        proof {
            bindings_follow_fields(*self);
        }
        let mut sources: Vec<TextureSource> = Vec::new();
        sources.push(Self::source(self.base_color_texture, MaterialTextureKind::BaseColor));
        sources.push(Self::source(self.roughness_texture, MaterialTextureKind::MetallicRoughness));
        sources.push(Self::source(self.normal_map_texture, MaterialTextureKind::NormalMap));
        sources.push(Self::source(self.occlusion_texture, MaterialTextureKind::Occlusion));
        sources.push(Self::source(self.emissive_texture, MaterialTextureKind::Emissive));
        assert(sources@ =~= binding_sources(*self));
        sources
    }

    fn source(texture: Option<usize>, kind: MaterialTextureKind) -> (source: TextureSource)
        ensures
            source == source_of(texture, kind),
    {
        match texture {
            Some(index) => TextureSource::Loaded(index),
            None => TextureSource::Default(kind),
        }
    }
}

/// A planned upload is never one that is already uploaded, no texture is planned twice,
/// and after the plan every texture of the slots is uploaded or planned.
pub proof fn plan_uploads_is_complete_and_once(
    slots: Seq<(Option<usize>, MaterialTextureKind)>,
    uploaded: Set<usize>,
)
    ensures
        forall|j: int|
            0 <= j < plan_uploads(slots, uploaded).len() ==> !uploaded.contains(
                #[trigger] plan_uploads(slots, uploaded)[j].index,
            ),
        forall|j: int, k: int|
            0 <= j < k < plan_uploads(slots, uploaded).len() ==> #[trigger] plan_uploads(
                slots,
                uploaded,
            )[j].index != #[trigger] plan_uploads(slots, uploaded)[k].index,
        forall|s: int|
            0 <= s < slots.len() && (#[trigger] slots[s]).0 is Some ==> uploaded.contains(
                slots[s].0->Some_0,
            ) || upload_indices(plan_uploads(slots, uploaded)).contains(slots[s].0->Some_0),
    decreases slots.len(),
{
    if slots.len() > 0 {
        let rest = slots.drop_last();
        plan_uploads_is_complete_and_once(rest, uploaded);
        let prior = plan_uploads(rest, uploaded);
        let plan = plan_uploads(slots, uploaded);
        assert forall|s: int|
            0 <= s < slots.len() && (#[trigger] slots[s]).0 is Some implies uploaded.contains(
            slots[s].0->Some_0,
        ) || upload_indices(plan).contains(slots[s].0->Some_0) by {
            let index = slots[s].0->Some_0;
            if s < slots.len() - 1 {
                assert(rest[s] == slots[s]);
                if !uploaded.contains(index) {
                    let j: int = choose|j: int| 0 <= j < prior.len() && upload_indices(prior)[j] == index;
                    assert(plan[j] == prior[j]);
                    assert(upload_indices(plan)[j] == index);
                }
            } else if !uploaded.contains(index) && !upload_indices(prior).contains(index) {
                assert(upload_indices(plan)[prior.len() as int] == index);
            }
        }
        if let Some(index) = slots.last().0 {
            if !uploaded.contains(index) && !upload_indices(prior).contains(index) {
                assert forall|j: int| 0 <= j < prior.len() implies #[trigger] prior[j].index
                    != index by {
                    assert(upload_indices(prior)[j] == prior[j].index);
                }
            }
        }
    }
}

/// Slot `s` is the first of the slots to name texture `index`.
pub open spec fn first_naming(slots: Seq<(Option<usize>, MaterialTextureKind)>, index: usize, s: int) -> bool {
    &&& 0 <= s < slots.len()
    &&& slots[s].0 == Some(index)
    &&& forall|r: int| 0 <= r < s ==> (#[trigger] slots[r]).0 != Some(index)
}

/// The upload is planned for the first slot that names its texture, with that slot's kind.
pub open spec fn from_first_slot(slots: Seq<(Option<usize>, MaterialTextureKind)>, upload: TextureUpload) -> bool {
    exists|s: int| first_naming(slots, upload.index, s) && slots[s].1 == upload.kind
}

proof fn lemma_plan_entries_from_first_slot(
    slots: Seq<(Option<usize>, MaterialTextureKind)>,
    uploaded: Set<usize>,
)
    ensures
        forall|j: int|
            0 <= j < plan_uploads(slots, uploaded).len() ==> from_first_slot(
                slots,
                #[trigger] plan_uploads(slots, uploaded)[j],
            ),
    decreases slots.len(),
{
    if slots.len() > 0 {
        let rest = slots.drop_last();
        lemma_plan_entries_from_first_slot(rest, uploaded);
        plan_uploads_is_complete_and_once(rest, uploaded);
        let prior = plan_uploads(rest, uploaded);
        let plan = plan_uploads(slots, uploaded);
        assert forall|j: int| 0 <= j < plan.len() implies from_first_slot(slots, #[trigger] plan[j]) by {
            if j < prior.len() {
                assert(plan[j] == prior[j]);
                assert(from_first_slot(rest, prior[j]));
                let s = choose|s: int| first_naming(rest, prior[j].index, s) && rest[s].1 == prior[j].kind;
                assert forall|r: int| 0 <= r < s implies (#[trigger] slots[r]).0 != Some(plan[j].index) by {
                    assert(rest[r] == slots[r]);
                }
                assert(rest[s] == slots[s]);
                assert(first_naming(slots, plan[j].index, s));
                assert(from_first_slot(slots, plan[j]));
            } else {
                let index = slots.last().0->Some_0;
                let s = slots.len() - 1;
                assert forall|r: int| 0 <= r < s implies (#[trigger] slots[r]).0 != Some(index) by {
                    if slots[r].0 == Some(index) {
                        assert(rest[r] == slots[r]);
                    }
                }
                assert(first_naming(slots, plan[j].index, s));
                assert(from_first_slot(slots, plan[j]));
            }
        }
    }
}

proof fn lemma_first_slot_is_planned(
    slots: Seq<(Option<usize>, MaterialTextureKind)>,
    uploaded: Set<usize>,
    index: usize,
    s: int,
)
    requires
        first_naming(slots, index, s),
        !uploaded.contains(index),
    ensures
        plan_uploads(slots, uploaded).contains(TextureUpload { index, kind: slots[s].1 }),
{
    plan_uploads_is_complete_and_once(slots, uploaded);
    lemma_plan_entries_from_first_slot(slots, uploaded);
    let plan = plan_uploads(slots, uploaded);
    assert(slots[s].0 is Some);
    assert(upload_indices(plan).contains(index));
    let j = choose|j: int| 0 <= j < upload_indices(plan).len() && upload_indices(plan)[j] == index;
    assert(plan[j].index == index);
    assert(from_first_slot(slots, plan[j]));
    let s2 = choose|s2: int| first_naming(slots, plan[j].index, s2) && slots[s2].1 == plan[j].kind;
    assert(s2 == s) by {
        if s2 < s {
            assert(slots[s2].0 != Some(index));
        } else if s < s2 {
            assert(slots[s].0 != Some(index));
        }
    }
    assert(plan[j] == TextureUpload { index, kind: slots[s].1 });
}

/// Each planned upload carries the slot its texture is first named by, in the order
/// base color, normal map, metallic-roughness, emissive, occlusion: a texture not yet
/// uploaded is planned with the kind of the first of the material's fields that names
/// it, and only a texture first named by the normal map field is planned as a normal
/// map (the one linear format).
pub proof fn uploads_take_the_kind_of_their_first_slot(t: MaterialTextures, uploaded: Set<usize>)
    ensures
        t.base_color_texture matches Some(i) ==> (!uploaded.contains(i) ==> plan_uploads(
            upload_slots(t),
            uploaded,
        ).contains(TextureUpload { index: i, kind: MaterialTextureKind::BaseColor })),
        t.normal_map_texture matches Some(i) ==> (!uploaded.contains(i) && t.base_color_texture != Some(i) ==> plan_uploads(
            upload_slots(t),
            uploaded,
        ).contains(TextureUpload { index: i, kind: MaterialTextureKind::NormalMap })),
        t.roughness_texture matches Some(i) ==> (!uploaded.contains(i) && t.base_color_texture != Some(i) && t.normal_map_texture != Some(i) ==> plan_uploads(
            upload_slots(t),
            uploaded,
        ).contains(TextureUpload { index: i, kind: MaterialTextureKind::MetallicRoughness })),
        t.emissive_texture matches Some(i) ==> (!uploaded.contains(i) && t.base_color_texture != Some(i) && t.normal_map_texture != Some(i) && t.roughness_texture != Some(i) ==> plan_uploads(
            upload_slots(t),
            uploaded,
        ).contains(TextureUpload { index: i, kind: MaterialTextureKind::Emissive })),
        t.occlusion_texture matches Some(i) ==> (!uploaded.contains(i) && t.base_color_texture != Some(i) && t.normal_map_texture != Some(i) && t.roughness_texture != Some(i) && t.emissive_texture != Some(i) ==> plan_uploads(
            upload_slots(t),
            uploaded,
        ).contains(TextureUpload { index: i, kind: MaterialTextureKind::Occlusion })),
        forall|j: int|
            0 <= j < plan_uploads(upload_slots(t), uploaded).len() && (#[trigger] plan_uploads(
                upload_slots(t),
                uploaded,
            )[j]).kind == MaterialTextureKind::NormalMap ==> t.normal_map_texture == Some(
                plan_uploads(upload_slots(t), uploaded)[j].index,
            ) && t.base_color_texture != Some(plan_uploads(upload_slots(t), uploaded)[j].index),
{
    let slots = upload_slots(t);
    let plan = plan_uploads(slots, uploaded);
    if let Some(i) = t.base_color_texture {
        if !uploaded.contains(i) {
            lemma_first_slot_is_planned(slots, uploaded, i, 0);
        }
    }
    if let Some(i) = t.normal_map_texture {
        if !uploaded.contains(i) && t.base_color_texture != Some(i) {
            assert(first_naming(slots, i, 1));
            lemma_first_slot_is_planned(slots, uploaded, i, 1);
        }
    }
    if let Some(i) = t.roughness_texture {
        if !uploaded.contains(i) && t.base_color_texture != Some(i) && t.normal_map_texture != Some(i) {
            assert(first_naming(slots, i, 2));
            lemma_first_slot_is_planned(slots, uploaded, i, 2);
        }
    }
    if let Some(i) = t.emissive_texture {
        if !uploaded.contains(i) && t.base_color_texture != Some(i) && t.normal_map_texture != Some(i)
            && t.roughness_texture != Some(i) {
            assert(first_naming(slots, i, 3));
            lemma_first_slot_is_planned(slots, uploaded, i, 3);
        }
    }
    if let Some(i) = t.occlusion_texture {
        if !uploaded.contains(i) && t.base_color_texture != Some(i) && t.normal_map_texture != Some(i)
            && t.roughness_texture != Some(i) && t.emissive_texture != Some(i) {
            assert(first_naming(slots, i, 4));
            lemma_first_slot_is_planned(slots, uploaded, i, 4);
        }
    }
    lemma_plan_entries_from_first_slot(slots, uploaded);
    assert forall|j: int|
        0 <= j < plan.len() && (#[trigger] plan[j]).kind == MaterialTextureKind::NormalMap implies t.normal_map_texture
        == Some(plan[j].index) && t.base_color_texture != Some(plan[j].index) by {
        assert(from_first_slot(slots, plan[j]));
        let s = choose|s: int| first_naming(slots, plan[j].index, s) && slots[s].1 == plan[j].kind;
        assert(s == 1);
        assert(slots[0].0 != Some(plan[j].index));
    }
}

/// Once the planned textures are uploaded, every texture the bind group names is
/// uploaded, so building the bind group finds all of them.
pub proof fn uploaded_plan_covers_bindings(t: MaterialTextures, uploaded: Set<usize>)
    ensures
        forall|b: int|
            0 <= b < 5 && (#[trigger] binding_sources(t)[b]) is Loaded ==> uploaded.contains(
                binding_sources(t)[b]->Loaded_0,
            ) || upload_indices(plan_uploads(upload_slots(t), uploaded)).contains(
                binding_sources(t)[b]->Loaded_0,
            ),
{
    plan_uploads_is_complete_and_once(upload_slots(t), uploaded);
    let slots = upload_slots(t);
    assert(slots[0] == (t.base_color_texture, MaterialTextureKind::BaseColor));
    assert(slots[1] == (t.normal_map_texture, MaterialTextureKind::NormalMap));
    assert(slots[2] == (t.roughness_texture, MaterialTextureKind::MetallicRoughness));
    assert(slots[3] == (t.emissive_texture, MaterialTextureKind::Emissive));
    assert(slots[4] == (t.occlusion_texture, MaterialTextureKind::Occlusion));
}

} // verus!

use crate::filesystem::gltflayout::{
    glb_header_too_short, glb_length_underflows, layout_is_sound, layout_sound,
    uri_only_layouts_are_sound, GltfBufferRef,
    GltfImageRef, GltfLayout, GltfViewRange, LayoutView,
};
use vstd::prelude::*;

verus! {

#[verifier::external_type_specification]
#[verifier::external_body]
pub struct ExAnyhowError(anyhow::Error);

#[verifier::external_type_specification]
#[verifier::external_body]
pub struct ExGltfDocument(gltf::Document);

#[verifier::external_type_specification]
#[verifier::external_body]
pub struct ExGltfBufferData(gltf::buffer::Data);

#[verifier::external_type_specification]
#[verifier::external_body]
pub struct ExGltfImageData(gltf::image::Data);

#[verifier::external_type_specification]
#[verifier::external_body]
pub struct ExGltfError(gltf::Error);

/// A glTF document with the data of its buffers and images.
pub type GltfImport = (gltf::Document, Vec<gltf::buffer::Data>, Vec<gltf::image::Data>);

/// The layout that `gltf::Gltf::from_slice` reads from these bytes, or `None` where
/// it refuses them.
pub uninterp spec fn gltf_layout(bytes: Seq<u8>) -> Option<LayoutView>;

/// Calls `gltf::Gltf::from_slice`, which parses and validates a glTF or GLB asset
/// without loading its resources, and copies out the image sources, the buffer views,
/// the buffers and the length of the binary chunk it declares. The contract claims
/// that this layout is a function of the bytes alone; the rest of the document is left
/// unsaid. For bytes that start with `glTF`, `from_slice` subtracts the header's twelve
/// bytes from the total length the header declares, which overflows (and panics where
/// overflow is checked) when that length is below twelve: such bytes are not admitted.
#[verifier::external_body]
fn gltf_read_layout(bytes: &[u8]) -> (layout: Option<GltfLayout>)
    requires
        !glb_length_underflows(bytes@),
    ensures
        match layout {
            Some(l) => gltf_layout(bytes@) == Some(l@),
            None => gltf_layout(bytes@) is None,
        },
{
    let gltf::Gltf { document, blob } = gltf::Gltf::from_slice(bytes).ok()?;
    let root = document.into_json();
    Some(GltfLayout::new(
        root.images.into_iter().map(|i| GltfImageRef::new(
            i.buffer_view.map(|v| v.value()), i.mime_type.map(|m| m.0), i.uri,
        )).collect(),
        root.buffer_views.into_iter().map(|v| GltfViewRange::new(
            v.buffer.value(), v.byte_offset, v.byte_length,
        )).collect(),
        root.buffers.into_iter().map(|b| GltfBufferRef::new(
            b.byte_length, b.uri.map(String::into_bytes),
        )).collect(),
        blob.map(|b| b.len()),
    ))
}

/// Bytes that `gltf::import_slice` can be handed: the GLB header (if any) declares at
/// least its own length, and either `from_slice` refuses the bytes (and so does the
/// import, before it reads any image) or every image can be found in what the import
/// loads.
pub open spec fn import_admissible(bytes: Seq<u8>) -> bool {
    &&& !glb_length_underflows(bytes)
    &&& gltf_layout(bytes) matches Some(layout) ==> layout_sound(layout)
}

/// Whether `gltf::import_slice` accepts these bytes as a self-contained glTF asset.
pub uninterp spec fn gltf_slice_imports(bytes: Seq<u8>) -> bool;

/// What `gltf::import_slice` gives for these bytes when it accepts them.
pub uninterp spec fn gltf_slice_import(bytes: Seq<u8>) -> GltfImport;

/// Calls `gltf::import_slice`, which parses a glTF or GLB asset from memory and
/// decodes the buffers and images it embeds (an external reference is an error,
/// since a slice has no base path). It reads the GLB header as `from_slice` does,
/// loads every buffer (padding each with zeros to a multiple of four bytes) before it
/// reads any image, unwraps the MIME type of an image with a buffer view and the URI
/// of an image without one, and slices each image's view out of the loaded buffer;
/// each of these panics on bytes that are not admissible. The contract claims that
/// whether it succeeds, and what it gives when it does, are functions of the bytes
/// alone.
#[verifier::external_body]
fn gltf_import_slice(bytes: &[u8]) -> (imported: Result<GltfImport, gltf::Error>)
    requires
        import_admissible(bytes@),
    ensures
        imported is Ok <==> gltf_slice_imports(bytes@),
        imported matches Ok(i) ==> i == gltf_slice_import(bytes@),
{
    gltf::import_slice(bytes)
}

/// Whether the import succeeds: the asset is either refused by the parser or has
/// every image in reach, and `gltf::import_slice` accepts it.
pub open spec fn slice_import_succeeds(bytes: Seq<u8>) -> bool {
    import_admissible(bytes) && gltf_slice_imports(bytes)
}

/// An asset whose images are all given by URIs is not refused by the layout check: it
/// imports exactly when `gltf::import_slice` accepts it.
pub proof fn uri_image_assets_go_to_the_import(bytes: Seq<u8>, layout: LayoutView)
    requires
        !glb_length_underflows(bytes),
        gltf_layout(bytes) == Some(layout),
        forall|i: int|
            0 <= i < layout.0.len() ==> (#[trigger] layout.0[i]).buffer_view is None
                && layout.0[i].uri is Some,
    ensures
        slice_import_succeeds(bytes) == gltf_slice_imports(bytes),
{
    uri_only_layouts_are_sound(layout);
}

/// Imports a glTF asset held in memory. A GLB header that declares less than its own
/// length, and an asset with an image that cannot be found (a buffer view without a
/// MIME type or past the data its buffer loads, or neither a view nor a URI), are
/// refused before the import is tried.
pub fn import_gltf_slice(bytes: &[u8]) -> (imported: Result<GltfImport, ImporterError>)
    ensures
        imported is Ok <==> slice_import_succeeds(bytes@),
        imported is Ok ==> imported == Ok::<GltfImport, ImporterError>(gltf_slice_import(bytes@)),
        imported is Err ==> imported == Err::<GltfImport, ImporterError>(ImporterError::LoadError),
{
    if glb_header_too_short(bytes) {
        return Err(ImporterError::LoadError);
    }
    if let Some(layout) = gltf_read_layout(bytes) {
        if !layout_is_sound(&layout) {
            return Err(ImporterError::LoadError);
        }
    }
    map_import_result(gltf_import_slice(bytes))
}

/// Why an asset could not be imported.
#[derive(Clone, Debug)]
pub enum ImporterError {
    InvalidAssetPath,
    LoadError,
    MissingAsset(String),
}

/// Loads assets through a file loader.
pub struct Importer<L> {
    file_loader: L,
}

/// What importing a model gives for what the file loader returned: a load failure
/// or bytes that are no glTF asset are both a `LoadError`.
pub open spec fn import_succeeds(loaded: Result<Vec<u8>, anyhow::Error>) -> bool {
    match loaded {
        Ok(bytes) => slice_import_succeeds(bytes@),
        Err(_) => false,
    }
}

impl<L> Importer<L> {
    /// The loader that files are read through.
    pub closed spec fn loader(&self) -> L {
        self.file_loader
    }

    pub fn new(file_loader: L) -> (importer: Self)
        ensures
            importer.loader() == file_loader,
    {
        Self { file_loader }
    }

    pub fn file_loader(&self) -> (loader: &L)
        ensures
            *loader == self.loader(),
    {
        &self.file_loader
    }

    /// Turns what the file loader returned for a model file into a glTF import.
    pub fn import_gltf_model(&self, loaded: Result<Vec<u8>, anyhow::Error>) -> (imported: Result<
        GltfImport,
        ImporterError,
    >)
        ensures
            imported is Ok <==> import_succeeds(loaded),
            imported is Err ==> imported == Err::<GltfImport, ImporterError>(
                ImporterError::LoadError,
            ),
            loaded matches Ok(bytes) ==> (imported is Ok ==> imported == Ok::<
                GltfImport,
                ImporterError,
            >(gltf_slice_import(bytes@))),
    {
        match loaded {
            Ok(bytes) => import_gltf_slice(bytes.as_slice()),
            Err(_) => Err(ImporterError::LoadError),
        }
    }
}

/// Keeps a successful import and reports any glTF error as a `LoadError`.
pub fn map_import_result(imported: Result<GltfImport, gltf::Error>) -> (result: Result<
    GltfImport,
    ImporterError,
>)
    ensures
        match imported {
            Ok(import) => result == Ok::<GltfImport, ImporterError>(import),
            Err(_) => result == Err::<GltfImport, ImporterError>(ImporterError::LoadError),
        },
{
    match imported {
        Ok(import) => Ok(import),
        Err(_) => Err(ImporterError::LoadError),
    }
}

} // verus!

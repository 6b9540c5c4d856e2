use vstd::prelude::*;

verus! {

/// How an image of a glTF asset names its data: a buffer view and a MIME type, or a URI.
#[derive(Debug, Clone, PartialEq, Eq)]
pub struct GltfImageRef {
    pub buffer_view: Option<usize>,
    pub mime_type: Option<String>,
    pub uri: Option<String>,
}

/// The part of a buffer that a buffer view covers.
#[derive(Debug, Clone, Copy, PartialEq, Eq, Structural)]
pub struct GltfViewRange {
    pub buffer: usize,
    pub byte_offset: Option<u32>,
    pub byte_length: u32,
}

/// A buffer of a glTF asset: its declared length and, unless it is the binary chunk
/// of a GLB file, the bytes of its URI.
#[derive(Debug, Clone)]
pub struct GltfBufferRef {
    pub byte_length: u32,
    pub uri: Option<Vec<u8>>,
}

/// What a glTF asset declares about its images, buffer views and buffers, and the
/// length of its binary chunk.
#[derive(Debug, Clone)]
pub struct GltfLayout {
    pub images: Vec<GltfImageRef>,
    pub views: Vec<GltfViewRange>,
    pub buffers: Vec<GltfBufferRef>,
    pub blob_length: Option<usize>,
}

impl GltfImageRef {
    /// An image reference with these fields.
    pub fn new(buffer_view: Option<usize>, mime_type: Option<String>, uri: Option<String>) -> (image: Self)
        ensures
            image == (GltfImageRef { buffer_view, mime_type, uri }),
    {
        GltfImageRef { buffer_view, mime_type, uri }
    }
}

impl GltfViewRange {
    /// A view range with these fields.
    pub fn new(buffer: usize, byte_offset: Option<u32>, byte_length: u32) -> (view: Self)
        ensures
            view == (GltfViewRange { buffer, byte_offset, byte_length }),
    {
        GltfViewRange { buffer, byte_offset, byte_length }
    }
}

impl GltfBufferRef {
    /// A buffer reference with these fields.
    pub fn new(byte_length: u32, uri: Option<Vec<u8>>) -> (buffer: Self)
        ensures
            buffer == (GltfBufferRef { byte_length, uri }),
    {
        GltfBufferRef { byte_length, uri }
    }
}

impl GltfLayout {
    /// A layout with these parts.
    pub fn new(
        images: Vec<GltfImageRef>,
        views: Vec<GltfViewRange>,
        buffers: Vec<GltfBufferRef>,
        blob_length: Option<usize>,
    ) -> (layout: Self)
        ensures
            layout == (GltfLayout { images, views, buffers, blob_length }),
    {
        GltfLayout { images, views, buffers, blob_length }
    }
}

/// A buffer as plain values: declared length and the bytes of its URI.
pub type BufferSource = (u32, Option<Seq<u8>>);

/// The layout as plain values.
pub type LayoutView = (Seq<GltfImageRef>, Seq<GltfViewRange>, Seq<BufferSource>, Option<usize>);

pub open spec fn buffer_source(b: GltfBufferRef) -> BufferSource {
    (
        b.byte_length,
        match b.uri {
            Some(u) => Some(u@),
            None => None,
        },
    )
}

impl View for GltfLayout {
    type V = LayoutView;

    open spec fn view(&self) -> LayoutView {
        (
            self.images@,
            self.views@,
            self.buffers@.map_values(|b: GltfBufferRef| buffer_source(b)),
            self.blob_length,
        )
    }
}

/// `"data:"`, the start of a data URI.
pub open spec fn data_prefix() -> Seq<u8> {
    seq![100u8, 97u8, 116u8, 97u8, 58u8]
}

/// `";base64,"`, which separates a data URI's media type from its payload.
pub open spec fn base64_marker() -> Seq<u8> {
    seq![59u8, 98u8, 97u8, 115u8, 101u8, 54u8, 52u8, 44u8]
}

pub open spec fn occurs_at(s: Seq<u8>, pattern: Seq<u8>, i: int) -> bool {
    0 <= i && i + pattern.len() <= s.len() && s.subrange(i, i + pattern.len()) == pattern
}

/// The first position at or after `i` where `pattern` occurs in `s`.
pub open spec fn first_from(s: Seq<u8>, pattern: Seq<u8>, i: int) -> Option<int>
    decreases s.len() + 1 - i,
{
    if i < 0 || i + pattern.len() > s.len() {
        None
    } else if occurs_at(s, pattern, i) {
        Some(i)
    } else {
        first_from(s, pattern, i + 1)
    }
}

/// The base64 text of a data URI: the piece after the first `";base64,"` up to the
/// next one, or, without a marker, everything after `"data:"`.
pub open spec fn data_uri_payload(uri: Seq<u8>) -> Seq<u8> {
    let rest = uri.skip(5);
    match first_from(rest, base64_marker(), 0) {
        None => rest,
        Some(k) => {
            let after = rest.skip(k + 8);
            match first_from(after, base64_marker(), 0) {
                None => after,
                Some(m) => after.take(m),
            }
        },
    }
}

/// How many bytes of `s` are not the padding character `=`.
pub open spec fn non_padding_count(s: Seq<u8>) -> nat
    decreases s.len(),
{
    if s.len() == 0 {
        0
    } else {
        non_padding_count(s.drop_last()) + if s.last() == 61u8 {
            0nat
        } else {
            1nat
        }
    }
}

/// The number of bytes a base64 text decodes to, where it decodes: six bits for every
/// symbol that is not padding.
pub open spec fn decoded_length(payload: Seq<u8>) -> int {
    (3 * non_padding_count(payload) / 4) as int
}

pub open spec fn starts_with(s: Seq<u8>, prefix: Seq<u8>) -> bool {
    prefix.len() <= s.len() && s.take(prefix.len() as int) == prefix
}

/// The number of bytes the import loads for buffer `i`, where loading it can succeed:
/// a data URI loads its decoded payload, and the first buffer without a URI loads the
/// binary chunk. Any other buffer makes the import fail before it reads an image.
pub open spec fn loaded_length(buffers: Seq<BufferSource>, blob_length: Option<usize>, i: int) -> Option<int> {
    match buffers[i].1 {
        Some(uri) => if starts_with(uri, data_prefix()) {
            Some(decoded_length(data_uri_payload(uri)))
        } else {
            None
        },
        None => if forall|j: int| 0 <= j < i ==> (#[trigger] buffers[j]).1 is Some {
            match blob_length {
                Some(n) => Some(n as int),
                None => None,
            }
        } else {
            None
        },
    }
}

/// A loaded buffer is padded with zeros to a multiple of four bytes.
pub open spec fn padded_length(n: int) -> int {
    (n + 3) / 4 * 4
}

/// A buffer view that the import can slice out of its loaded buffer.
pub open spec fn view_in_buffer(view: GltfViewRange, buffers: Seq<BufferSource>, blob_length: Option<usize>) -> bool {
    &&& view.buffer < buffers.len()
    &&& loaded_length(buffers, blob_length, view.buffer as int) matches Some(n) ==> (match view.byte_offset {
        Some(o) => o as int,
        None => 0,
    }) + view.byte_length <= padded_length(n)
}

/// An image whose data can be found: a buffer view within its loaded buffer together
/// with a MIME type, or, without a buffer view, a URI.
pub open spec fn image_ref_sound(image: GltfImageRef, layout: LayoutView) -> bool {
    match image.buffer_view {
        Some(v) => image.mime_type is Some && v < layout.1.len() && view_in_buffer(
            layout.1[v as int],
            layout.2,
            layout.3,
        ),
        None => image.uri is Some,
    }
}

/// Every image of the layout can be found.
pub open spec fn layout_sound(layout: LayoutView) -> bool {
    forall|i: int| 0 <= i < layout.0.len() ==> image_ref_sound(#[trigger] layout.0[i], layout)
}

/// The GLB header of these bytes declares a total length below the header's own
/// twelve bytes (read as a little-endian `u32` at byte 8).
pub open spec fn glb_length_underflows(bytes: Seq<u8>) -> bool {
    &&& bytes.len() >= 12
    &&& bytes.take(4) == seq![103u8, 108u8, 84u8, 70u8]
    &&& bytes[8] as int + bytes[9] as int * 256 + bytes[10] as int * 65536 + bytes[11] as int
        * 16777216 < 12
}

/// Whether the GLB header declares a length below its own size.
pub fn glb_header_too_short(bytes: &[u8]) -> (short: bool)
    ensures
        short == glb_length_underflows(bytes@),
{
    if bytes.len() < 12 {
        return false;
    }
    let magic = bytes[0] == 103 && bytes[1] == 108 && bytes[2] == 84 && bytes[3] == 70;
    assert(magic == (bytes@.take(4) =~= seq![103u8, 108u8, 84u8, 70u8]));
    let length: u64 = bytes[8] as u64 + bytes[9] as u64 * 256 + bytes[10] as u64 * 65536
        + bytes[11] as u64 * 16777216;
    magic && length < 12
}

fn occurs_at_exec(s: &[u8], pattern: &[u8], i: usize) -> (found: bool)
    ensures
        found == occurs_at(s@, pattern@, i as int),
{
    if i > s.len() || pattern.len() > s.len() - i {
        return false;
    }
    let mut k: usize = 0;
    while k < pattern.len()
        invariant
            i + pattern@.len() <= s@.len(),
            s@.len() <= usize::MAX,
            k <= pattern@.len(),
            forall|j: int| 0 <= j < k ==> s@[i + j] == pattern@[j],
        decreases pattern@.len() - k,
    {
        assert(i + k < s@.len());
        if s[i + k] != pattern[k] {
            assert(s@.subrange(i as int, i + pattern@.len())[k as int] != pattern@[k as int]);
            return false;
        }
        k = k + 1;
    }
    assert(s@.subrange(i as int, i + pattern@.len()) =~= pattern@);
    true
}

fn first_from_exec(s: &[u8], pattern: &[u8], start: usize) -> (found: Option<usize>)
    ensures
        match found {
            Some(k) => first_from(s@, pattern@, start as int) == Some(k as int),
            None => first_from(s@, pattern@, start as int) is None,
        },
{
    if pattern.len() > s.len() {
        return None;
    }
    let last = s.len() - pattern.len();
    let mut i: usize = start;
    while i <= last
        invariant
            start <= i,
            last == s@.len() - pattern@.len(),
            first_from(s@, pattern@, start as int) == first_from(s@, pattern@, i as int),
        decreases last + 1 - i,
    {
        if occurs_at_exec(s, pattern, i) {
            return Some(i);
        }
        if i == last {
            assert(first_from(s@, pattern@, i + 1) is None);
            return None;
        }
        i = i + 1;
    }
    None
}

fn data_uri_payload_exec(uri: &[u8]) -> (payload: &[u8])
    requires
        uri@.len() >= 5,
    ensures
        payload@ == data_uri_payload(uri@),
{
    let marker: [u8; 8] = [59, 98, 97, 115, 101, 54, 52, 44];
    assert(marker@ =~= base64_marker());
    let rest = vstd::slice::slice_subrange(uri, 5, uri.len());
    assert(rest@ =~= uri@.skip(5));
    match first_from_exec(rest, &marker, 0) {
        None => rest,
        Some(k) => {
            proof {
                lemma_first_from_occurs(rest@, base64_marker(), 0);
            }
            let after = vstd::slice::slice_subrange(rest, k + 8, rest.len());
            assert(after@ =~= rest@.skip(k + 8));
            match first_from_exec(after, &marker, 0) {
                None => after,
                Some(m) => {
                    proof {
                        lemma_first_from_occurs(after@, base64_marker(), 0);
                    }
                    let piece = vstd::slice::slice_subrange(after, 0, m);
                    assert(piece@ =~= after@.take(m as int));
                    piece
                },
            }
        },
    }
}

proof fn lemma_first_from_occurs(s: Seq<u8>, pattern: Seq<u8>, i: int)
    ensures
        first_from(s, pattern, i) matches Some(k) ==> occurs_at(s, pattern, k) && i <= k,
    decreases s.len() + 1 - i,
{
    if !(i < 0 || i + pattern.len() > s.len()) && !occurs_at(s, pattern, i) {
        lemma_first_from_occurs(s, pattern, i + 1);
    }
}

fn non_padding_count_exec(s: &[u8]) -> (count: usize)
    ensures
        count == non_padding_count(s@),
{
    let mut count: usize = 0;
    let mut i: usize = 0;
    while i < s.len()
        invariant
            i <= s@.len(),
            count == non_padding_count(s@.take(i as int)),
            count <= i,
        decreases s@.len() - i,
    {
        assert(s@.take(i + 1).drop_last() =~= s@.take(i as int));
        if s[i] != 61 {
            count = count + 1;
        }
        i = i + 1;
    }
    assert(s@.take(s@.len() as int) =~= s@);
    count
}

fn first_blob_buffer(buffers: &Vec<GltfBufferRef>) -> (first: Option<usize>)
    ensures
        match first {
            Some(k) => k < buffers@.len() && buffers@[k as int].uri is None && forall|j: int|
                0 <= j < k ==> (#[trigger] buffers@[j]).uri is Some,
            None => forall|j: int| 0 <= j < buffers@.len() ==> (#[trigger] buffers@[j]).uri is Some,
        },
{
    let mut i: usize = 0;
    while i < buffers.len()
        invariant
            i <= buffers@.len(),
            forall|j: int| 0 <= j < i ==> (#[trigger] buffers@[j]).uri is Some,
        decreases buffers@.len() - i,
    {
        if buffers[i].uri.is_none() {
            return Some(i);
        }
        i = i + 1;
    }
    None
}

fn loaded_length_exec(layout: &GltfLayout, i: usize, first_blob: Option<usize>) -> (length: Option<u128>)
    requires
        i < layout.buffers@.len(),
        match first_blob {
            Some(k) => k < layout.buffers@.len() && layout.buffers@[k as int].uri is None
                && forall|j: int| 0 <= j < k ==> (#[trigger] layout.buffers@[j]).uri is Some,
            None => forall|j: int|
                0 <= j < layout.buffers@.len() ==> (#[trigger] layout.buffers@[j]).uri is Some,
        },
    ensures
        match length {
            Some(n) => n <= usize::MAX && loaded_length(layout@.2, layout@.3, i as int) == Some(
                n as int,
            ),
            None => loaded_length(layout@.2, layout@.3, i as int) is None,
        },
{
    let ghost buffers = layout@.2;
    assert(buffers[i as int] == buffer_source(layout.buffers@[i as int]));
    match &layout.buffers[i].uri {
        Some(uri) => {
            let prefix: [u8; 5] = [100, 97, 116, 97, 58];
            assert(prefix@ =~= data_prefix());
            if uri.len() >= 5 && occurs_at_exec(uri.as_slice(), &prefix, 0) {
                assert(uri@.take(5) =~= uri@.subrange(0, 5));
                let payload = data_uri_payload_exec(uri.as_slice());
                let count: usize = non_padding_count_exec(payload);
                Some(3 * (count as u128) / 4)
            } else {
                assert(!starts_with(uri@, data_prefix())) by {
                    if starts_with(uri@, data_prefix()) {
                        assert(uri@.subrange(0, 5) =~= uri@.take(5));
                    }
                }
                None
            }
        },
        None => {
            if first_blob == Some(i) {
                assert forall|j: int| 0 <= j < i implies (#[trigger] buffers[j]).1 is Some by {
                    assert(buffers[j] == buffer_source(layout.buffers@[j]));
                }
                match layout.blob_length {
                    Some(n) => Some(n as u128),
                    None => None,
                }
            } else {
                let k = first_blob.unwrap();
                assert(k < i);
                assert(buffers[k as int] == buffer_source(layout.buffers@[k as int]));
                None
            }
        },
    }
}

fn image_ref_is_sound(image: &GltfImageRef, layout: &GltfLayout, first_blob: Option<usize>) -> (sound: bool)
    requires
        match first_blob {
            Some(k) => k < layout.buffers@.len() && layout.buffers@[k as int].uri is None
                && forall|j: int| 0 <= j < k ==> (#[trigger] layout.buffers@[j]).uri is Some,
            None => forall|j: int|
                0 <= j < layout.buffers@.len() ==> (#[trigger] layout.buffers@[j]).uri is Some,
        },
    ensures
        sound == image_ref_sound(*image, layout@),
{
    match image.buffer_view {
        Some(v) => {
            if image.mime_type.is_none() || v >= layout.views.len() {
                return false;
            }
            let view = layout.views[v];
            if view.buffer >= layout.buffers.len() {
                return false;
            }
            match loaded_length_exec(layout, view.buffer, first_blob) {
                None => true,
                Some(n) => {
                    let offset: u128 = match view.byte_offset {
                        Some(o) => o as u128,
                        None => 0,
                    };
                    offset + view.byte_length as u128 <= (n + 3) / 4 * 4
                },
            }
        },
        None => image.uri.is_some(),
    }
}

/// Whether every image of the layout can be found.
pub fn layout_is_sound(layout: &GltfLayout) -> (sound: bool)
    ensures
        sound == layout_sound(layout@),
{
    let first_blob = first_blob_buffer(&layout.buffers);
    let mut i: usize = 0;
    while i < layout.images.len()
        invariant
            i <= layout.images@.len(),
            match first_blob {
                Some(k) => k < layout.buffers@.len() && layout.buffers@[k as int].uri is None
                    && forall|j: int| 0 <= j < k ==> (#[trigger] layout.buffers@[j]).uri is Some,
                None => forall|j: int|
                    0 <= j < layout.buffers@.len() ==> (#[trigger] layout.buffers@[j]).uri is Some,
            },
            forall|j: int| 0 <= j < i ==> image_ref_sound(#[trigger] layout.images@[j], layout@),
        decreases layout.images@.len() - i,
    {
        if !image_ref_is_sound(&layout.images[i], layout, first_blob) {
            assert(layout@.0[i as int] == layout.images@[i as int]);
            return false;
        }
        i = i + 1;
    }
    true
}

/// An image without a buffer view but with a URI can always be found: the check never
/// refuses it, whatever the rest of the layout holds.
pub proof fn uri_images_are_reachable(image: GltfImageRef, layout: LayoutView)
    requires
        image.buffer_view is None,
        image.uri is Some,
    ensures
        image_ref_sound(image, layout),
{
}

/// A layout whose images all name URIs (and no buffer view) passes the check.
pub proof fn uri_only_layouts_are_sound(layout: LayoutView)
    requires
        forall|i: int|
            0 <= i < layout.0.len() ==> (#[trigger] layout.0[i]).buffer_view is None
                && layout.0[i].uri is Some,
    ensures
        layout_sound(layout),
{
    assert forall|i: int| 0 <= i < layout.0.len() implies image_ref_sound(
        #[trigger] layout.0[i],
        layout,
    ) by {
        uri_images_are_reachable(layout.0[i], layout);
    }
}

/// A loaded buffer's length is the least multiple of four at or above the data's length.
pub proof fn padded_length_is_next_multiple_of_four(n: int)
    requires
        0 <= n,
    ensures
        padded_length(n) % 4 == 0,
        n <= padded_length(n) < n + 4,
{
}

proof fn lemma_first_from_finds(s: Seq<u8>, pattern: Seq<u8>, i: int, k: int)
    requires
        0 <= i <= k,
        occurs_at(s, pattern, k),
        forall|j: int| i <= j < k ==> !occurs_at(s, pattern, j),
    ensures
        first_from(s, pattern, i) == Some(k),
    decreases k - i,
{
    if i < k {
        lemma_first_from_finds(s, pattern, i + 1, k);
    }
}

proof fn lemma_first_from_none(s: Seq<u8>, pattern: Seq<u8>, i: int)
    requires
        0 <= i,
        forall|j: int| i <= j ==> !occurs_at(s, pattern, j),
    ensures
        first_from(s, pattern, i) is None,
    decreases s.len() + 1 - i,
{
    if i + pattern.len() <= s.len() {
        lemma_first_from_none(s, pattern, i + 1);
    }
}

proof fn lemma_no_marker_without_semicolon(s: Seq<u8>, from: int)
    requires
        0 <= from,
        forall|j: int| from <= j < s.len() ==> s[j] != 59u8,
    ensures
        forall|j: int| from <= j ==> !occurs_at(s, base64_marker(), j),
{
    assert forall|j: int| from <= j implies !occurs_at(s, base64_marker(), j) by {
        if occurs_at(s, base64_marker(), j) {
            assert(s.subrange(j, j + 8)[0] == s[j]);
        }
    }
}

/// The payload of a data URI `data:<media type>;base64,<payload>`, or `data:<payload>`
/// without a marker, is the text after the marker (or after `data:`), for media types
/// and payloads without a `;` (base64 text has none).
pub proof fn data_uri_payload_of_standard_uri(media: Seq<u8>, payload: Seq<u8>)
    requires
        forall|j: int| 0 <= j < media.len() ==> media[j] != 59u8,
        forall|j: int| 0 <= j < payload.len() ==> payload[j] != 59u8,
    ensures
        data_uri_payload(data_prefix() + media + base64_marker() + payload) == payload,
        data_uri_payload(data_prefix() + payload) == payload,
{
    let uri = data_prefix() + media + base64_marker() + payload;
    let rest = uri.skip(5);
    assert(rest =~= media + base64_marker() + payload);
    let k = media.len() as int;
    assert(rest.subrange(k, k + 8) =~= base64_marker());
    assert forall|j: int| 0 <= j < k implies !occurs_at(rest, base64_marker(), j) by {
        if occurs_at(rest, base64_marker(), j) {
            assert(rest.subrange(j, j + 8)[0] == rest[j]);
            assert(rest[j] == media[j]);
        }
    }
    lemma_first_from_finds(rest, base64_marker(), 0, k);
    let after = rest.skip(k + 8);
    assert(after =~= payload);
    lemma_no_marker_without_semicolon(payload, 0);
    lemma_first_from_none(payload, base64_marker(), 0);
    let plain = data_prefix() + payload;
    assert(plain.skip(5) =~= payload);
}

proof fn lemma_count_without_padding(s: Seq<u8>)
    requires
        forall|j: int| 0 <= j < s.len() ==> s[j] != 61u8,
    ensures
        non_padding_count(s) == s.len(),
    decreases s.len(),
{
    if s.len() > 0 {
        lemma_count_without_padding(s.drop_last());
    }
}

proof fn lemma_count_padding_suffix(s: Seq<u8>, pads: nat)
    ensures
        non_padding_count(s + Seq::new(pads, |j: int| 61u8)) == non_padding_count(s),
    decreases pads,
{
    if pads > 0 {
        let longer = s + Seq::new(pads, |j: int| 61u8);
        assert(longer.drop_last() =~= s + Seq::new((pads - 1) as nat, |j: int| 61u8));
        lemma_count_padding_suffix(s, (pads - 1) as nat);
    }
}

/// Base64 text decodes to three bytes for every four symbols: `n` symbols followed by
/// any amount of `=` padding decode to `3n/4` bytes (rounded down).
pub proof fn decoded_length_of_padded_text(symbols: Seq<u8>, pads: nat)
    requires
        forall|j: int| 0 <= j < symbols.len() ==> symbols[j] != 61u8,
    ensures
        decoded_length(symbols + Seq::new(pads, |j: int| 61u8)) == 3 * symbols.len() / 4,
{
    lemma_count_padding_suffix(symbols, pads);
    lemma_count_without_padding(symbols);
}

/// What the import loads for a buffer does not depend on the length the buffer
/// declares: only on its URI (or, for the binary chunk, the chunk).
pub proof fn loaded_length_ignores_declared_length(
    buffers: Seq<BufferSource>,
    blob_length: Option<usize>,
    i: int,
    declared: u32,
)
    requires
        0 <= i < buffers.len(),
    ensures
        loaded_length(buffers.update(i, (declared, buffers[i].1)), blob_length, i)
            == loaded_length(buffers, blob_length, i),
{
    let changed = buffers.update(i, (declared, buffers[i].1));
    assert forall|j: int| 0 <= j < i implies (#[trigger] changed[j]).1 == buffers[j].1 by {}
    if buffers[i].1 is None {
        if forall|j: int| 0 <= j < i ==> (#[trigger] buffers[j]).1 is Some {
            assert forall|j: int| 0 <= j < i implies (#[trigger] changed[j]).1 is Some by {
                assert(buffers[j].1 is Some);
            }
        }
        if forall|j: int| 0 <= j < i ==> (#[trigger] changed[j]).1 is Some {
            assert forall|j: int| 0 <= j < i implies (#[trigger] buffers[j]).1 is Some by {
                assert(changed[j].1 is Some);
            }
        }
    }
}

/// An image stored in a buffer view is found exactly when it has a MIME type, its view
/// exists and names an existing buffer, and the view ends within the data the import
/// loads for that buffer, padded to four bytes (no bound where loading fails anyway).
pub proof fn view_images_are_checked_against_loaded_data(image: GltfImageRef, layout: LayoutView)
    requires
        image.buffer_view is Some,
    ensures
        image_ref_sound(image, layout) <==> ({
            let v = image.buffer_view->Some_0;
            &&& image.mime_type is Some
            &&& v < layout.1.len()
            &&& layout.1[v as int].buffer < layout.2.len()
            &&& loaded_length(layout.2, layout.3, layout.1[v as int].buffer as int) matches Some(n)
                ==> (match layout.1[v as int].byte_offset {
                Some(o) => o as int,
                None => 0,
            }) + layout.1[v as int].byte_length <= n + (4 - n % 4) % 4
        }),
{
    let v = image.buffer_view->Some_0;
    if v < layout.1.len() {
        let view = layout.1[v as int];
        if view.buffer < layout.2.len() {
            if let Some(n) = loaded_length(layout.2, layout.3, view.buffer as int) {
                assert(padded_length(n) == n + (4 - n % 4) % 4);
            }
        }
    }
}

} // verus!

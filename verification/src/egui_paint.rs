use vstd::prelude::*;
use crate::render::EguiTextureSlot;

verus! {

// ---------------------------------------------------------------------------
// Colours
// ---------------------------------------------------------------------------

/// What `Color32::to_srgba_unmultiplied` gives for the premultiplied sRGBA bytes
/// `premultiplied` (a function of the four bytes alone).
pub uninterp spec fn srgba_unmultiplied(premultiplied: [u8; 4]) -> [u8; 4];

/// `Color32::from_rgba_premultiplied(..).to_srgba_unmultiplied()`: the colour with its
/// alpha divided out. egui keeps the alpha byte, and returns fully transparent and fully
/// opaque colours unchanged; the float rounding it applies to the other colours is not
/// restated here.
#[verifier::external_body]
fn unmultiply_srgba(premultiplied: [u8; 4]) -> (r: [u8; 4])
    ensures
        r == srgba_unmultiplied(premultiplied),
        r[3] == premultiplied[3],
        premultiplied[3] == 0 || premultiplied[3] == 255 ==> r == premultiplied,
{
    egui::Color32::from_rgba_premultiplied(
        premultiplied[0],
        premultiplied[1],
        premultiplied[2],
        premultiplied[3],
    ).to_srgba_unmultiplied()
}

/// Byte `i` of the flattened, unmultiplied RGBA bytes of `pixels`.
pub open spec fn unmultiplied_byte(pixels: Seq<[u8; 4]>, i: int) -> u8 {
    srgba_unmultiplied(pixels[i / 4])[i % 4]
}

/// The RGBA8 bytes of an image of premultiplied pixels, each pixel unmultiplied, in
/// order.
pub open spec fn image_bytes_spec(pixels: Seq<[u8; 4]>) -> Seq<u8> {
    Seq::new(4 * pixels.len(), |i: int| unmultiplied_byte(pixels, i))
}

/// The RGBA8 bytes of an image of premultiplied pixels (see `image_bytes_spec`).
pub fn egui_image_bytes(pixels: &Vec<[u8; 4]>) -> (r: Vec<u8>)
    requires
        4 * pixels.len() <= usize::MAX,
    ensures
        r@ == image_bytes_spec(pixels@),
{
    let mut out: Vec<u8> = Vec::new();
    let mut i: usize = 0;
    while i < pixels.len()
        invariant
            4 * pixels.len() <= usize::MAX,
            i <= pixels.len(),
            out@.len() == 4 * i,
            forall|k: int| 0 <= k < 4 * i ==> #[trigger] out@[k] == unmultiplied_byte(pixels@, k),
        decreases pixels.len() - i,
    {
        let rgba = unmultiply_srgba(pixels[i]);
        let ghost before = out@;
        out.push(rgba[0]);
        out.push(rgba[1]);
        out.push(rgba[2]);
        out.push(rgba[3]);
        proof {
            assert forall|k: int| 0 <= k < 4 * (i + 1) implies #[trigger] out@[k]
                == unmultiplied_byte(pixels@, k) by {
                if k >= 4 * i {
                    assert(k / 4 == i as int);
                    assert(k % 4 == k - 4 * i);
                } else {
                    assert(out@[k] == before[k]);
                }
            }
        }
        i = i + 1;
    }
    assert(out@ =~= image_bytes_spec(pixels@));
    out
}

// ---------------------------------------------------------------------------
// Textures
// ---------------------------------------------------------------------------

/// The library's copy of egui's `TextureId`.
#[derive(Copy, Clone, Debug, PartialEq, Eq, Structural)]
pub enum TextureKey {
    /// A texture egui manages; `Managed(0)` is its font atlas.
    Managed(u64),
    /// A texture of the application's own.
    User(u64),
}

/// Only the font atlas of egui is uploaded from texture deltas.
pub open spec fn is_font_atlas(key: TextureKey) -> bool {
    key == TextureKey::Managed(0)
}

/// Whether a texture delta is for the font atlas (see `is_font_atlas`).
pub fn accepts_texture_delta(key: TextureKey) -> (r: bool)
    ensures
        r == is_font_atlas(key),
{
    match key {
        TextureKey::Managed(id) => id == 0,
        TextureKey::User(_) => false,
    }
}

/// The texture a mesh is drawn with: the font atlas, else the material icon texture when
/// that is the mesh's texture; meshes on any other texture are not drawn.
pub open spec fn mesh_texture_slot_spec(key: TextureKey, material_icons: Option<TextureKey>) -> Option<EguiTextureSlot> {
    if is_font_atlas(key) {
        Some(EguiTextureSlot::EguiAtlas)
    } else if material_icons == Some(key) {
        Some(EguiTextureSlot::MaterialIcons)
    } else {
        None
    }
}

/// The texture slot of a mesh (see `mesh_texture_slot_spec`).
pub fn mesh_texture_slot(key: TextureKey, material_icons: Option<TextureKey>) -> (r: Option<EguiTextureSlot>)
    ensures
        r == mesh_texture_slot_spec(key, material_icons),
{
    if accepts_texture_delta(key) {
        return Some(EguiTextureSlot::EguiAtlas);
    }
    match material_icons {
        Some(icons) => {
            let same = match (icons, key) {
                (TextureKey::Managed(a), TextureKey::Managed(b)) => a == b,
                (TextureKey::User(a), TextureKey::User(b)) => a == b,
                _ => false,
            };
            if same {
                Some(EguiTextureSlot::MaterialIcons)
            } else {
                None
            }
        },
        None => None,
    }
}

// ---------------------------------------------------------------------------
// Meshes
// ---------------------------------------------------------------------------

/// The vertices an index list names, in index order; indices past the end of the vertex
/// list are skipped.
pub open spec fn expanded_vertices<T>(vertices: Seq<T>, indices: Seq<u32>) -> Seq<T>
    decreases indices.len(),
{
    if indices.len() == 0 {
        Seq::empty()
    } else {
        let rest = expanded_vertices(vertices, indices.drop_last());
        let last = indices.last();
        if (last as int) < vertices.len() {
            rest.push(vertices[last as int])
        } else {
            rest
        }
    }
}

/// Unroll an indexed mesh into a plain triangle list (see `expanded_vertices`).
pub fn expand_indexed_vertices<T: Copy>(vertices: &Vec<T>, indices: &Vec<u32>) -> (r: Vec<T>)
    ensures
        r@ == expanded_vertices(vertices@, indices@),
{
    let mut out: Vec<T> = Vec::new();
    let mut i: usize = 0;
    while i < indices.len()
        invariant
            i <= indices.len(),
            out@ == expanded_vertices(vertices@, indices@.take(i as int)),
        decreases indices.len() - i,
    {
        let index = indices[i];
        proof {
            assert(indices@.take(i + 1).drop_last() =~= indices@.take(i as int));
            assert(indices@.take(i + 1).last() == index);
        }
        if (index as usize) < vertices.len() {
            out.push(vertices[index as usize]);
        }
        i = i + 1;
    }
    assert(indices@.take(indices.len() as int) =~= indices@);
    out
}

/// Unrolling keeps only vertices that the indices name: there are never more of them than
/// indices, and exactly as many when every index is in range.
pub proof fn lemma_expanded_vertices_len<T>(vertices: Seq<T>, indices: Seq<u32>)
    ensures
        expanded_vertices(vertices, indices).len() <= indices.len(),
        (forall|k: int| 0 <= k < indices.len() ==> (#[trigger] indices[k] as int) < vertices.len())
            ==> expanded_vertices(vertices, indices).len() == indices.len(),
    decreases indices.len(),
{
    if indices.len() > 0 {
        let init = indices.drop_last();
        lemma_expanded_vertices_len(vertices, init);
        if forall|k: int| 0 <= k < indices.len() ==> (#[trigger] indices[k] as int) < vertices.len() {
            assert forall|k: int| 0 <= k < init.len() implies (#[trigger] init[k] as int) < vertices.len() by {
                assert(init[k] == indices[k]);
            }
            assert(indices[indices.len() - 1] == indices.last());
        }
    }
}

} // verus!

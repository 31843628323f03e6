use vstd::prelude::*;
use vulkano::format::Format;

verus! {

// ---------------------------------------------------------------------------
// Vulkan image formats
// ---------------------------------------------------------------------------

/// Vulkan image formats (`vulkano::format::Format`), carried through opaquely.
#[verifier::external_type_specification]
#[verifier::external_body]
pub struct ExFormat(Format);

/// The texel extent of one block of `format`, as vulkano's `Format::block_extent`
/// gives it.
pub uninterp spec fn block_extent_of(format: Format) -> [u32; 3];

/// The size in bytes of one texel block of `format`, as vulkano's `Format::block_size`
/// gives it.
pub uninterp spec fn block_size_of(format: Format) -> u64;

/// `Format::block_extent`: the texel extent of one block of the format, a function of the
/// format alone. vulkano returns `[1, 1, 1]` for every uncompressed format, the block
/// extent from the Vulkan registry (at least 1 on every axis) for the compressed ones,
/// and `[0, 0, 0]` for `Format::UNDEFINED`; which extent a given format has is named
/// (`block_extent_of`), not restated.
#[verifier::external_body]
fn format_block_extent(format: &Format) -> (r: [u32; 3])
    ensures
        r == block_extent_of(*format),
        (r[0] >= 1 && r[1] >= 1 && r[2] >= 1) || (r[0] == 0 && r[1] == 0 && r[2] == 0),
{
    format.block_extent()
}

/// `Format::block_size`: the size in bytes of one texel block of the format, taken from
/// the Vulkan registry (0 for `Format::UNDEFINED`), a function of the format alone;
/// which size a given format has is named (`block_size_of`), not restated.
#[verifier::external_body]
fn format_block_size(format: &Format) -> (r: u64)
    ensures
        r == block_size_of(*format),
{
    format.block_size()
}

/// `Format`'s derived `==`: two formats are equal exactly when they are the same format.
#[verifier::external_body]
fn formats_equal(a: &Format, b: &Format) -> (r: bool)
    ensures
        r == (*a == *b),
{
    *a == *b
}

// ---------------------------------------------------------------------------
// Screen capture buffer size
// ---------------------------------------------------------------------------

/// `a * b`, or `u64::MAX` where that does not fit (`u64::saturating_mul`).
pub open spec fn sat_mul_u64(a: int, b: int) -> int {
    if a * b > u64::MAX {
        u64::MAX as int
    } else {
        a * b
    }
}

/// `n / d` rounded up.
pub open spec fn div_ceil_spec(n: int, d: int) -> int {
    (n + d - 1) / d
}

/// Bytes a CPU copy of a `width` by `height` image needs, for blocks of `block_extent`
/// texels and `block_size` bytes: the blocks that cover each axis, multiplied with
/// saturation, taken as `usize`.
pub open spec fn capture_len_spec(width: u32, height: u32, block_extent: [u32; 3], block_size: u64) -> usize {
    let blocks_x = div_ceil_spec(width as int, block_extent[0] as int);
    let blocks_y = div_ceil_spec(height as int, block_extent[1] as int);
    sat_mul_u64(sat_mul_u64(blocks_x, blocks_y), block_size as int) as usize
}

fn div_ceil_u32(n: u32, d: u32) -> (r: u32)
    requires
        d >= 1,
    ensures
        r == div_ceil_spec(n as int, d as int),
{
    let q = n / d;
    let rounded = if n % d != 0 {
        proof {
            assert(d >= 2);
            assert(q <= n) by (nonlinear_arith)
                requires
                    d >= 1,
                    q == n / d,
            ;
            assert(q < u32::MAX) by (nonlinear_arith)
                requires
                    d >= 2,
                    q == n / d,
                    n <= u32::MAX,
            ;
        }
        q + 1
    } else {
        q
    };
    proof {
        vstd::arithmetic::div_mod::lemma_fundamental_div_mod(n as int, d as int);
        vstd::arithmetic::div_mod::lemma_fundamental_div_mod((n + d - 1) as int, d as int);
        assert(rounded == (n + d - 1) / (d as int)) by (nonlinear_arith)
            requires
                d >= 1,
                q == n / d,
                n == d * q + n % d,
                0 <= n % d < d,
                rounded == (if n % d != 0 { q + 1 } else { q as int }),
                (n + d - 1) == d * ((n + d - 1) / (d as int)) + (n + d - 1) % (d as int),
                0 <= (n + d - 1) % (d as int) < d,
        ;
    }
    rounded
}

fn sat_mul(a: u64, b: u64) -> (r: u64)
    ensures
        r == sat_mul_u64(a as int, b as int),
{
    match a.checked_mul(b) {
        Some(p) => p,
        None => u64::MAX,
    }
}

/// Bytes a CPU copy of an image needs for the given block extent and block size (see
/// `capture_len_spec`).
pub fn capture_byte_len(width: u32, height: u32, block_extent: [u32; 3], block_size: u64) -> (r: usize)
    requires
        block_extent[0] >= 1,
        block_extent[1] >= 1,
    ensures
        r == capture_len_spec(width, height, block_extent, block_size),
{
    let blocks_x = div_ceil_u32(width, block_extent[0]) as u64;
    let blocks_y = div_ceil_u32(height, block_extent[1]) as u64;
    sat_mul(sat_mul(blocks_x, blocks_y), block_size) as usize
}

/// Bytes a CPU copy of a `width` by `height` image in `format` needs: the format's block
/// extent and block size, as vulkano gives them, put through `capture_byte_len`. A format
/// without a block extent (`Format::UNDEFINED`) has no such size: `None`.
pub fn screencapture_byte_len(width: u32, height: u32, format: &Format) -> (r: Option<usize>)
    ensures
        r == (if block_extent_of(*format)[0] >= 1 && block_extent_of(*format)[1] >= 1 {
            Some(capture_len_spec(width, height, block_extent_of(*format), block_size_of(*format)))
        } else {
            None
        }),
{
    let extent = format_block_extent(format);
    let size = format_block_size(format);
    if extent[0] == 0 || extent[1] == 0 {
        return None;
    }
    Some(capture_byte_len(width, height, extent, size))
}

// ---------------------------------------------------------------------------
// Swapchain format choice
// ---------------------------------------------------------------------------

/// Index of the first entry of `avail`, from `i` on, whose format is `f`.
pub open spec fn find_format<C>(avail: Seq<(Format, C)>, f: Format, i: int) -> Option<int>
    decreases avail.len() - i,
{
    if i < 0 || i >= avail.len() {
        None
    } else if avail[i].0 == f {
        Some(i)
    } else {
        find_format(avail, f, i + 1)
    }
}

/// Index of the first entry of `avail` with the first format of `pref`, from `j` on, that
/// `avail` has at all.
pub open spec fn find_preferred<C>(avail: Seq<(Format, C)>, pref: Seq<Format>, j: int) -> Option<int>
    decreases pref.len() - j,
{
    if j < 0 || j >= pref.len() {
        None
    } else {
        match find_format(avail, pref[j], 0) {
            Some(i) => Some(i),
            None => find_preferred(avail, pref, j + 1),
        }
    }
}

/// Index of the first block size of 4 bytes in `sizes`, from `i` on.
pub open spec fn find_four_byte(sizes: Seq<u64>, i: int) -> Option<int>
    decreases sizes.len() - i,
{
    if i < 0 || i >= sizes.len() {
        None
    } else if sizes[i] == 4 {
        Some(i)
    } else {
        find_four_byte(sizes, i + 1)
    }
}

/// The swapchain format chosen among `avail`, whose block sizes are `sizes`: the first
/// preferred format that is available; else the first format with 4-byte texels; else
/// the first format.
pub open spec fn swapchain_choice<C>(avail: Seq<(Format, C)>, pref: Seq<Format>, sizes: Seq<u64>) -> int {
    match find_preferred(avail, pref, 0) {
        Some(i) => i,
        None => match find_four_byte(sizes, 0) {
            Some(i) => i,
            None => 0,
        },
    }
}

proof fn lemma_find_format_in_range<C>(avail: Seq<(Format, C)>, f: Format, i: int)
    ensures
        find_format(avail, f, i) matches Some(k) ==> 0 <= k < avail.len() && avail[k].0 == f,
    decreases avail.len() - i,
{
    if 0 <= i < avail.len() && avail[i].0 != f {
        lemma_find_format_in_range(avail, f, i + 1);
    }
}

proof fn lemma_find_preferred_in_range<C>(avail: Seq<(Format, C)>, pref: Seq<Format>, j: int)
    ensures
        find_preferred(avail, pref, j) matches Some(k) ==> 0 <= k < avail.len(),
    decreases pref.len() - j,
{
    if 0 <= j < pref.len() {
        lemma_find_format_in_range(avail, pref[j], 0);
        lemma_find_preferred_in_range(avail, pref, j + 1);
    }
}

proof fn lemma_find_four_byte_in_range(sizes: Seq<u64>, i: int)
    ensures
        find_four_byte(sizes, i) matches Some(k) ==> 0 <= k < sizes.len() && sizes[k] == 4,
    decreases sizes.len() - i,
{
    if 0 <= i < sizes.len() && sizes[i] != 4 {
        lemma_find_four_byte_in_range(sizes, i + 1);
    }
}

fn index_of_format<C>(avail: &Vec<(Format, C)>, f: &Format) -> (r: Option<usize>)
    ensures
        r matches Some(i) ==> find_format(avail@, *f, 0) == Some(i as int),
        r is None ==> find_format(avail@, *f, 0) is None,
{
    let mut i: usize = 0;
    while i < avail.len()
        invariant
            i <= avail.len(),
            find_format(avail@, *f, 0) == find_format(avail@, *f, i as int),
        decreases avail.len() - i,
    {
        if formats_equal(&avail[i].0, f) {
            return Some(i);
        }
        i = i + 1;
    }
    None
}

/// The index of the swapchain format to use, given the block size of each available
/// format (see `swapchain_choice`).
pub fn choose_swapchain_format_by_sizes<C>(
    avail: &Vec<(Format, C)>,
    pref: &Vec<Format>,
    sizes: &Vec<u64>,
) -> (r: usize)
    requires
        avail.len() >= 1,
        sizes.len() == avail.len(),
    ensures
        r == swapchain_choice(avail@, pref@, sizes@),
        r < avail.len(),
{
    let mut j: usize = 0;
    while j < pref.len()
        invariant
            j <= pref.len(),
            find_preferred(avail@, pref@, 0) == find_preferred(avail@, pref@, j as int),
        decreases pref.len() - j,
    {
        match index_of_format(avail, &pref[j]) {
            Some(i) => {
                proof {
                    lemma_find_preferred_in_range(avail@, pref@, 0);
                }
                return i;
            },
            None => {},
        }
        j = j + 1;
    }
    let mut k: usize = 0;
    while k < sizes.len()
        invariant
            k <= sizes.len(),
            sizes.len() == avail.len(),
            find_preferred(avail@, pref@, 0) is None,
            find_four_byte(sizes@, 0) == find_four_byte(sizes@, k as int),
        decreases sizes.len() - k,
    {
        if sizes[k] == 4 {
            return k;
        }
        k = k + 1;
    }
    0
}

/// The block size of each format of `avail`, in order.
pub open spec fn block_sizes<C>(avail: Seq<(Format, C)>) -> Seq<u64> {
    Seq::new(avail.len(), |i: int| block_size_of(avail[i].0))
}

/// The index of the swapchain format to use among `avail`: the block sizes are read from
/// vulkano and the choice is `choose_swapchain_format_by_sizes`.
pub fn choose_swapchain_format<C>(avail: &Vec<(Format, C)>, pref: &Vec<Format>) -> (r: usize)
    requires
        avail.len() >= 1,
    ensures
        r < avail.len(),
        r == swapchain_choice(avail@, pref@, block_sizes(avail@)),
{
    let mut sizes: Vec<u64> = Vec::new();
    let mut i: usize = 0;
    while i < avail.len()
        invariant
            i <= avail.len(),
            sizes@ == block_sizes(avail@).take(i as int),
        decreases avail.len() - i,
    {
        sizes.push(format_block_size(&avail[i].0));
        proof {
            assert(sizes@ =~= block_sizes(avail@).take(i + 1));
        }
        i = i + 1;
    }
    proof {
        assert(sizes@ =~= block_sizes(avail@));
    }
    choose_swapchain_format_by_sizes(avail, pref, &sizes)
}

// ---------------------------------------------------------------------------
// Framebuffer read-back
// ---------------------------------------------------------------------------

/// Byte order of a captured framebuffer.
#[derive(Copy, Clone, Debug, PartialEq, Eq, Structural)]
pub enum CaptureLayout {
    /// Red, green, blue, alpha (`R8G8B8A8_UNORM` or `_SRGB`).
    Rgba,
    /// Blue, green, red, alpha (`B8G8R8A8_UNORM` or `_SRGB`).
    Bgra,
    /// Any other format: not captured.
    Unsupported,
}

/// `a * b`, or `usize::MAX` where that does not fit (`usize::saturating_mul`).
pub open spec fn sat_mul_usize(a: int, b: int) -> int {
    if a * b > usize::MAX {
        usize::MAX as int
    } else {
        a * b
    }
}

/// Bytes of a `width` by `height` RGBA image, with saturation.
pub open spec fn rgba_len(width: u32, height: u32) -> int {
    sat_mul_usize(sat_mul_usize(width as int, height as int), 4)
}

/// Byte `i` of BGRA data `src` put in RGBA order: within each whole pixel of
/// `n` bytes the first and third bytes trade places; bytes past the last whole pixel
/// are zero.
pub open spec fn bgra_to_rgba_byte(src: Seq<u8>, n: int, i: int) -> u8 {
    if i >= n - n % 4 {
        0
    } else if i % 4 == 0 {
        src[i + 2]
    } else if i % 4 == 2 {
        src[i - 2]
    } else {
        src[i]
    }
}

/// The first `n` bytes of BGRA data `src` in RGBA order.
pub open spec fn bgra_to_rgba(src: Seq<u8>, n: int) -> Seq<u8> {
    Seq::new(n as nat, |i: int| bgra_to_rgba_byte(src, n, i))
}

/// The RGBA bytes of a captured framebuffer: none for an unsupported layout or a buffer
/// too short for the image; else the image's bytes, swapped into RGBA order for BGRA.
pub open spec fn framebuffer_rgba_spec(buffer: Seq<u8>, width: u32, height: u32, layout: CaptureLayout) -> Option<Seq<u8>> {
    let n = rgba_len(width, height);
    match layout {
        CaptureLayout::Unsupported => None,
        _ => if buffer.len() < n {
            None
        } else {
            match layout {
                CaptureLayout::Rgba => Some(buffer.take(n)),
                _ => Some(bgra_to_rgba(buffer, n)),
            }
        },
    }
}

fn sat_mul_size(a: usize, b: usize) -> (r: usize)
    ensures
        r == sat_mul_usize(a as int, b as int),
{
    match a.checked_mul(b) {
        Some(p) => p,
        None => usize::MAX,
    }
}

/// Turn a framebuffer read back from the GPU into RGBA bytes (see
/// `framebuffer_rgba_spec`).
pub fn framebuffer_to_rgba(buffer: &[u8], width: u32, height: u32, layout: CaptureLayout) -> (r: Option<Vec<u8>>)
    ensures
        match r {
            Some(v) => framebuffer_rgba_spec(buffer@, width, height, layout) == Some(v@),
            None => framebuffer_rgba_spec(buffer@, width, height, layout) is None,
        },
{
    let n = sat_mul_size(sat_mul_size(width as usize, height as usize), 4);
    match layout {
        CaptureLayout::Unsupported => {
            return None;
        },
        _ => {},
    }
    if buffer.len() < n {
        return None;
    }
    let mut out: Vec<u8> = Vec::new();
    let whole = n - n % 4;
    let mut i: usize = 0;
    while i < n
        invariant
            n == rgba_len(width, height),
            buffer@.len() >= n,
            whole == n - n % 4,
            layout != CaptureLayout::Unsupported,
            i <= n,
            out@.len() == i,
            forall|k: int|
                0 <= k < i ==> #[trigger] out@[k] == (if layout == CaptureLayout::Rgba {
                    buffer@[k]
                } else {
                    bgra_to_rgba_byte(buffer@, n as int, k)
                }),
        decreases n - i,
    {
        let byte = if matches!(layout, CaptureLayout::Rgba) {
            buffer[i]
        } else if i >= whole {
            0
        } else if i % 4 == 0 {
            buffer[i + 2]
        } else if i % 4 == 2 {
            buffer[i - 2]
        } else {
            buffer[i]
        };
        out.push(byte);
        i = i + 1;
    }
    proof {
        if layout == CaptureLayout::Rgba {
            assert(out@ =~= buffer@.take(n as int));
        } else {
            assert(out@ =~= bgra_to_rgba(buffer@, n as int));
        }
    }
    Some(out)
}

/// Putting BGRA bytes in RGBA order is its own inverse: doing it twice gives back the
/// first `n` bytes when `n` is a whole number of pixels.
pub proof fn lemma_bgra_swap_involution(src: Seq<u8>, n: int)
    requires
        0 <= n <= src.len(),
        n % 4 == 0,
    ensures
        bgra_to_rgba(bgra_to_rgba(src, n), n) == src.take(n),
{
    let once = bgra_to_rgba(src, n);
    assert forall|i: int| 0 <= i < n implies #[trigger] bgra_to_rgba(once, n)[i] == src.take(n)[i] by {
        if i % 4 == 0 {
            assert((i + 2) % 4 == 2);
            assert(i + 2 < n);
        } else if i % 4 == 2 {
            assert((i - 2) % 4 == 0);
        }
    }
    assert(bgra_to_rgba(once, n) =~= src.take(n));
}

} // verus!

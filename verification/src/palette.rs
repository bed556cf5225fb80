//! Palette expansion: turns the engine's grid of 8-bit palette indices into
//! the byte stream the host displays, four bytes per pixel.

use vstd::prelude::*;

verus! {

/// Width of the engine's framebuffer, in pixels.
pub const FRAME_WIDTH: usize = 128;

/// Height of the engine's framebuffer, in pixels.
pub const FRAME_HEIGHT: usize = 128;

/// Number of cells in the engine's framebuffer.
pub const FRAME_PIXELS: usize = 128 * 128;

/// Bytes the host receives for one pixel.
pub const BYTES_PER_PIXEL: usize = 4;

/// Number of bytes in one expanded frame.
pub const FRAME_BYTES: usize = 128 * 128 * 4;

/// Number of entries in a palette.
pub const PALETTE_SIZE: usize = 256;

/// The four bytes the host's pixel format wants for a palette colour given as
/// (red, green, blue, alpha): blue first, then green, red and alpha.
pub open spec fn pixel_bytes(color: (u8, u8, u8, u8)) -> Seq<u8> {
    seq![color.2, color.1, color.0, color.3]
}

/// The expanded image of a grid of palette indices: cell `k / 4` of the grid
/// decides byte `k`, through its palette entry.
pub open spec fn color_image(framebuffer: Seq<u8>, color_map: Seq<(u8, u8, u8, u8)>) -> Seq<u8> {
    Seq::new(
        4 * framebuffer.len(),
        |k: int| pixel_bytes(color_map[framebuffer[k / 4] as int])[k % 4],
    )
}

/// Looks one palette index up and orders its channels for the host. This is
/// the only place where the channel order of the host's pixel format is known.
pub fn depalettize(index: u8, color_map: &[(u8, u8, u8, u8); 256]) -> (pixel: [u8; 4])
    ensures
        pixel@ == pixel_bytes(color_map@[index as int]),
{
    let (r, g, b, a) = color_map[index as usize];
    let pixel = [b, g, r, a];
    assert(pixel@ =~= pixel_bytes(color_map@[index as int]));
    pixel
}

/// Expands a full engine framebuffer into host pixels, row by row in the
/// order the engine stores them.
pub fn buffer_to_color_image(
    framebuffer: &[u8; 16384],
    color_map: &[(u8, u8, u8, u8); 256],
) -> (pixels: Vec<u8>)
    ensures
        pixels@.len() == FRAME_BYTES,
        pixels@ == color_image(framebuffer@, color_map@),
{
    let mut pixels: Vec<u8> = Vec::with_capacity(FRAME_BYTES);
    let mut cell: usize = 0;
    while cell < FRAME_PIXELS
        invariant
            cell <= FRAME_PIXELS,
            pixels@.len() == 4 * cell,
            forall|k: int|
                0 <= k < 4 * cell ==> pixels@[k] == #[trigger] color_image(
                    framebuffer@,
                    color_map@,
                )[k],
        decreases FRAME_PIXELS - cell,
    {
        let pixel = depalettize(framebuffer[cell], color_map);
        pixels.push(pixel[0]);
        pixels.push(pixel[1]);
        pixels.push(pixel[2]);
        pixels.push(pixel[3]);
        cell = cell + 1;
    }
    assert(pixels@ =~= color_image(framebuffer@, color_map@));
    pixels
}

/// Two palette indices expand to the same pixel exactly when the palette
/// gives them the same colour: the expansion itself never merges colours.
pub proof fn lemma_depalettize_faithful(color_map: Seq<(u8, u8, u8, u8)>, first: u8, second: u8)
    ensures
        pixel_bytes(color_map[first as int]) == pixel_bytes(color_map[second as int])
            <==> color_map[first as int] == color_map[second as int],
{
    let a = pixel_bytes(color_map[first as int]);
    let b = pixel_bytes(color_map[second as int]);
    if a == b {
        assert(a[0] == b[0] && a[1] == b[1] && a[2] == b[2] && a[3] == b[3]);
    }
}

} // verus!

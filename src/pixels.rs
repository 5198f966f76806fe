use vstd::prelude::*;

verus! {

/// The value of a pixel with the given channels: `0xRRGGBB` in the low 24
/// bits.
pub open spec fn rgb(red: int, green: int, blue: int) -> int {
    red * 0x10000 + green * 0x100 + blue
}

/// The colour of the pixel at row-major position `index` of the gradient
/// drawn on a buffer `width` pixels wide: red follows the column, green the
/// row, blue their product, each modulo 255.
pub open spec fn gradient_pixel(width: nat, index: nat) -> int
    recommends
        width > 0,
{
    let x = index % width;
    let y = index / width;
    rgb((x % 255) as int, (y % 255) as int, ((x * y) % 255) as int)
}

/// Packs three channels into one pixel value.
pub fn pack_rgb(red: u8, green: u8, blue: u8) -> (r: u32)
    ensures
        r == rgb(red as int, green as int, blue as int),
{
    let r32 = red as u32;
    let g32 = green as u32;
    let b32 = blue as u32;
    assert(r32 < 256 && g32 < 256 && b32 < 256 ==> (b32 | (g32 << 8u32) | (r32 << 16u32))
        == r32 * 0x10000 + g32 * 0x100 + b32) by (bit_vector);
    b32 | (g32 << 8u32) | (r32 << 16u32)
}

/// Sets every pixel of `buffer` to `color`.
pub fn fill(buffer: &mut [u32], color: u32)
    ensures
        final(buffer)@.len() == old(buffer)@.len(),
        forall|i: int| 0 <= i < final(buffer)@.len() ==> final(buffer)@[i] == color,
{
    let n = buffer.len();
    let mut i: usize = 0;
    while i < n
        invariant
            n == old(buffer)@.len(),
            buffer@.len() == n,
            i <= n,
            forall|j: int| 0 <= j < i ==> buffer@[j] == color,
        decreases n - i,
    {
        buffer[i] = color;
        i = i + 1;
    }
}

/// Draws the gradient on the first `width * height` pixels of a row-major
/// buffer `width` pixels wide; the pixels after them are left as they were.
pub fn draw_gradient(buffer: &mut [u32], width: u32, height: u32)
    requires
        width * height <= u32::MAX,
        width * height <= old(buffer)@.len(),
    ensures
        final(buffer)@.len() == old(buffer)@.len(),
        forall|i: int|
            0 <= i < width * height ==> final(buffer)@[i] == gradient_pixel(
                width as nat,
                i as nat,
            ),
        forall|i: int| width * height <= i < old(buffer)@.len() ==> final(buffer)@[i] == old(
            buffer,
        )@[i],
{
    let n: u32 = width * height;
    let mut index: u32 = 0;
    while index < n
        invariant
            n == width * height,
            n <= buffer@.len(),
            buffer@.len() == old(buffer)@.len(),
            index <= n,
            forall|j: int| 0 <= j < index ==> buffer@[j] == gradient_pixel(width as nat, j as nat),
            forall|j: int| index <= j < buffer@.len() ==> buffer@[j] == old(buffer)@[j],
        decreases n - index,
    {
        assert(width > 0) by (nonlinear_arith)
            requires
                index < width * height,
        ;
        let y = index / width;
        let x = index % width;
        assert(x * y < width * height) by (nonlinear_arith)
            requires
                width > 0,
                x < width,
                y == index / width,
                index < width * height,
        {
            assert(index / width < height) by (nonlinear_arith)
                requires
                    width > 0,
                    index < width * height,
            ;
        }
        let red = (x % 255) as u8;
        let green = (y % 255) as u8;
        let blue = ((x * y) % 255) as u8;
        buffer[index as usize] = pack_rgb(red, green, blue);
        index = index + 1;
    }
}

} // verus!

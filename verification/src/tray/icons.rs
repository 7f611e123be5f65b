//! Drawn tray icons: a small microphone in the colour of the state.
//!
//! An icon is a square of `ICON_SIZE` pixels, four bytes each: red, green,
//! blue and opacity, row after row. Shapes are painted one over the other in
//! one opaque colour.

use vstd::prelude::*;

verus! {

/// Width and height of an icon in pixels.
pub const ICON_SIZE: usize = 32;

/// Bytes per pixel.
pub const BYTES_PER_PIXEL: usize = 4;

/// An image.
#[derive(Debug, Clone)]
pub struct Icon {
    /// Pixels, four bytes each, row after row.
    pub rgba: Vec<u8>,
    /// Width in pixels.
    pub width: u32,
    /// Height in pixels.
    pub height: u32,
}

/// What can be painted.
#[derive(Debug, Clone, Copy, PartialEq, Eq, Structural)]
pub enum Shape {
    /// The pixels from column `x` and row `y` on, `w` wide and `h` high.
    Rect { x: usize, y: usize, w: usize, h: usize },
    /// The pixels no farther than `radius` from the pixel at column `cx` and
    /// row `cy`.
    Disc { cx: usize, cy: usize, radius: usize },
}

/// True when the shape covers the pixel at column `px` and row `py`.
pub open spec fn covers(shape: Shape, px: int, py: int) -> bool {
    match shape {
        Shape::Rect { x, y, w, h } => x <= px < x + w && y <= py < y + h,
        Shape::Disc { cx, cy, radius } => (px - cx) * (px - cx) + (py - cy) * (py - cy) <= radius
            * radius,
    }
}

/// The byte at position `i` of an image of `size` columns and rows after
/// `shape` has been painted over `before` in the colour `color`: a covered
/// pixel takes the colour and becomes opaque, every other pixel stays, and so
/// does whatever the buffer holds behind the image.
pub open spec fn painted_byte(
    before: Seq<u8>,
    size: int,
    shape: Shape,
    color: (u8, u8, u8),
    i: int,
) -> u8
    recommends
        size > 0,
        0 <= i < before.len(),
{
    let pixel = i / 4;
    if 0 <= i < size * size * 4 && covers(shape, pixel % size, pixel / size) {
        if i % 4 == 0 {
            color.0
        } else if i % 4 == 1 {
            color.1
        } else if i % 4 == 2 {
            color.2
        } else {
            255u8
        }
    } else {
        before[i]
    }
}

/// The image after `shape` has been painted over `before`.
pub open spec fn painted(before: Seq<u8>, size: int, shape: Shape, color: (u8, u8, u8)) -> Seq<u8> {
    Seq::new(before.len(), |i: int| painted_byte(before, size, shape, color, i))
}

/// The distance between two coordinates.
fn distance(a: usize, b: usize) -> (d: usize)
    ensures
        d == if a >= b {
            a - b
        } else {
            b - a
        },
{
    if a >= b {
        a - b
    } else {
        b - a
    }
}

/// Tells whether the shape covers a pixel.
fn shape_covers(shape: Shape, px: usize, py: usize) -> (r: bool)
    ensures
        r == covers(shape, px as int, py as int),
{
    match shape {
        Shape::Rect { x, y, w, h } => px >= x && px - x < w && py >= y && py - y < h,
        Shape::Disc { cx, cy, radius } => {
            let dx: usize = distance(px, cx);
            let dy: usize = distance(py, cy);
            let ghost sx = (px - cx) * (px - cx);
            let ghost sy = (py - cy) * (py - cy);
            proof {
                assert(sx == dx * dx) by (nonlinear_arith)
                    requires
                        sx == (px - cx) * (px - cx),
                        dx == px - cx || dx == cx - px,
                ;
                assert(sy == dy * dy) by (nonlinear_arith)
                    requires
                        sy == (py - cy) * (py - cy),
                        dy == py - cy || dy == cy - py,
                ;
                assert(sx >= 0 && sy >= 0) by (nonlinear_arith)
                    requires
                        sx == dx * dx,
                        sy == dy * dy,
                ;
            }
            if dx > radius || dy > radius {
                proof {
                    assert(dx > radius ==> dx * dx > radius * radius) by (nonlinear_arith)
                        requires
                            dx >= 0,
                            radius >= 0,
                    ;
                    assert(dy > radius ==> dy * dy > radius * radius) by (nonlinear_arith)
                        requires
                            dy >= 0,
                            radius >= 0,
                    ;
                }
                false
            } else {
                proof {
                    assert(dx * dx <= radius * radius) by (nonlinear_arith)
                        requires
                            0 <= dx <= radius,
                    ;
                    assert(dy * dy <= radius * radius) by (nonlinear_arith)
                        requires
                            0 <= dy <= radius,
                    ;
                    assert(radius * radius <= 0xFFFF_FFFF_FFFF_FFFF * 0xFFFF_FFFF_FFFF_FFFF)
                        by (nonlinear_arith)
                        requires
                            0 <= radius <= 0xFFFF_FFFF_FFFF_FFFF,
                    ;
                }
                let limit: u128 = (radius as u128) * (radius as u128);
                let across: u128 = (dx as u128) * (dx as u128);
                let down: u128 = (dy as u128) * (dy as u128);
                down <= limit - across
            }
        },
    }
}

/// Paints `shape` in the colour (`r`, `g`, `b`) over a square image of `size`
/// columns and rows, which is the beginning of `rgba`.
pub fn draw(rgba: &mut Vec<u8>, size: usize, shape: Shape, r: u8, g: u8, b: u8)
    requires
        old(rgba)@.len() >= size * size * 4,
    ensures
        final(rgba)@ == painted(old(rgba)@, size as int, shape, (r, g, b)),
{
    let ghost before = rgba@;
    let ghost color = (r, g, b);
    if size == 0 {
        assert(size * size * 4 == 0) by (nonlinear_arith)
            requires
                size == 0,
        ;
        assert(rgba@ =~= painted(before, size as int, shape, color));
        return ;
    }
    let len: usize = rgba.len();
    proof {
        assert(size * size * 4 == (size * size) * 4) by (nonlinear_arith);
        assert(size * size >= 0) by (nonlinear_arith);
    }
    let pixels: usize = size * size;
    let mut k: usize = 0;
    while k < pixels
        invariant
            0 <= k <= pixels,
            size > 0,
            pixels == size * size,
            rgba@.len() == before.len(),
            before.len() >= pixels * 4,
            before.len() <= usize::MAX,
            color == (r, g, b),
            forall|i: int|
                0 <= i < 4 * k ==> rgba@[i] == painted_byte(before, size as int, shape, color, i),
            forall|i: int| 4 * k <= i < before.len() ==> rgba@[i] == before[i],
        decreases pixels - k,
    {
        let px: usize = k % size;
        let py: usize = k / size;
        if shape_covers(shape, px, py) {
            let base: usize = k * 4;
            rgba[base] = r;
            rgba[base + 1] = g;
            rgba[base + 2] = b;
            rgba[base + 3] = 255;
        }
        proof {
            assert(size * size * 4 == pixels * 4) by (nonlinear_arith)
                requires
                    pixels == size * size,
            ;
            assert forall|i: int| 0 <= i < 4 * (k + 1) implies rgba@[i] == painted_byte(
                before,
                size as int,
                shape,
                color,
                i,
            ) by {
                if i >= 4 * k {
                    assert(i / 4 == k);
                }
            }
        }
        k = k + 1;
    }
    proof {
        assert(size * size * 4 == pixels * 4) by (nonlinear_arith)
            requires
                pixels == size * size,
        ;
    }
    assert(rgba@ =~= painted(before, size as int, shape, color));
}

/// Paints a rectangle: the pixels from column `x` and row `y` on, `w` wide
/// and `h` high, as far as they lie within the image.
pub fn draw_rect(
    rgba: &mut Vec<u8>,
    size: usize,
    x: usize,
    y: usize,
    w: usize,
    h: usize,
    r: u8,
    g: u8,
    b: u8,
)
    requires
        old(rgba)@.len() >= size * size * 4,
    ensures
        final(rgba)@ == painted(old(rgba)@, size as int, Shape::Rect { x, y, w, h }, (r, g, b)),
{
    draw(rgba, size, Shape::Rect { x, y, w, h }, r, g, b)
}

/// Paints a disc: the pixels no farther than `radius` from the pixel at
/// column `cx` and row `cy`.
pub fn draw_circle(
    rgba: &mut Vec<u8>,
    size: usize,
    cx: usize,
    cy: usize,
    radius: usize,
    r: u8,
    g: u8,
    b: u8,
)
    requires
        old(rgba)@.len() >= size * size * 4,
    ensures
        final(rgba)@ == painted(old(rgba)@, size as int, Shape::Disc { cx, cy, radius }, (r, g, b)),
{
    draw(rgba, size, Shape::Disc { cx, cy, radius }, r, g, b)
}

/// The head of the microphone.
pub open spec fn mic_head() -> Shape {
    Shape::Disc { cx: 16, cy: 10, radius: 6 }
}

/// The body of the microphone.
pub open spec fn mic_body() -> Shape {
    Shape::Rect { x: 13, y: 10, w: 6, h: 12 }
}

/// The base of the microphone.
pub open spec fn mic_base() -> Shape {
    Shape::Rect { x: 10, y: 24, w: 12, h: 2 }
}

/// The stand of the microphone.
pub open spec fn mic_stand() -> Shape {
    Shape::Rect { x: 15, y: 22, w: 2, h: 4 }
}

/// The pixels of the microphone in the colour `color` on a transparent
/// ground.
pub open spec fn spec_mic_icon(color: (u8, u8, u8)) -> Seq<u8> {
    let size = ICON_SIZE as int;
    let blank = Seq::new((ICON_SIZE * ICON_SIZE * 4) as nat, |i: int| 0u8);
    painted(
        painted(painted(painted(blank, size, mic_head(), color), size, mic_body(), color), size, mic_base(), color),
        size,
        mic_stand(),
        color,
    )
}

/// Draws the microphone in the colour `color`.
pub fn generate_mic_icon(color: (u8, u8, u8)) -> (icon: Icon)
    ensures
        icon.rgba@ == spec_mic_icon(color),
        icon.width == ICON_SIZE,
        icon.height == ICON_SIZE,
{
    let size: usize = ICON_SIZE;
    let mut rgba: Vec<u8> = vec![0u8; 4096];
    assert(rgba@ =~= Seq::new((ICON_SIZE * ICON_SIZE * 4) as nat, |i: int| 0u8));
    let (r, g, b) = color;
    draw_circle(&mut rgba, size, 16, 10, 6, r, g, b);
    draw_rect(&mut rgba, size, 13, 10, 6, 12, r, g, b);
    draw_rect(&mut rgba, size, 10, 24, 12, 2, r, g, b);
    draw_rect(&mut rgba, size, 15, 22, 2, 4, r, g, b);
    Icon { rgba, width: 32, height: 32 }
}

/// The icon of the idle state: a grey microphone.
pub fn idle_icon() -> (icon: Icon)
    ensures
        icon.rgba@ == spec_mic_icon((128u8, 128u8, 128u8)),
{
    generate_mic_icon((128, 128, 128))
}

/// The icon of the recording state: a red microphone.
pub fn recording_icon() -> (icon: Icon)
    ensures
        icon.rgba@ == spec_mic_icon((220u8, 53u8, 69u8)),
{
    generate_mic_icon((220, 53, 69))
}

/// The icon of the processing state: an amber microphone.
pub fn processing_icon() -> (icon: Icon)
    ensures
        icon.rgba@ == spec_mic_icon((255u8, 193u8, 7u8)),
{
    generate_mic_icon((255, 193, 7))
}

/// Painting changes covered pixels of the image only, and painting the same
/// shape twice is painting it once.
pub proof fn lemma_painting(before: Seq<u8>, size: int, shape: Shape, color: (u8, u8, u8))
    requires
        size > 0,
    ensures
        painted(before, size, shape, color).len() == before.len(),
        forall|i: int|
            0 <= i < before.len() && (i >= size * size * 4 || !covers(
                shape,
                (i / 4) % size,
                (i / 4) / size,
            )) ==> painted(
                before,
                size,
                shape,
                color,
            )[i] == before[i],
        painted(painted(before, size, shape, color), size, shape, color) == painted(
            before,
            size,
            shape,
            color,
        ),
{
    assert(painted(painted(before, size, shape, color), size, shape, color) =~= painted(
        before,
        size,
        shape,
        color,
    ));
}

} // verus!

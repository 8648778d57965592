use vstd::prelude::*;

use crate::pos::Rect;

verus! {

// Vertex positions are normalized device coordinates kept exact as integer
// numerators: an x coordinate `n` stands for `n / width` and a y coordinate
// `n` for `n / height`, with width and height those of the framebuffer.
// Pixel space has its origin at the top left with Y pointing down; device
// space has its origin at the centre with Y pointing up.

/// Numerator of `p / dim * 2 - 1` over `dim`.
pub open spec fn ndc(p: int, dim: int) -> int {
    2 * p - dim
}

/// The device-space corners of a rectangle before the Y axis is flipped.
pub open spec fn spec_min_max(r: Rect, width: int, height: int) -> ((int, int), (int, int)) {
    (
        (ndc(r.x as int, width), ndc(r.y as int, height)),
        (ndc(r.x + r.width, width), ndc(r.y + r.height, height)),
    )
}

/// Two triangles covering a rectangle, as x/y pairs with Y flipped.
pub open spec fn spec_quad(r: Rect, width: int, height: int) -> Seq<int> {
    let ((min_x, min_y), (max_x, max_y)) = spec_min_max(r, width, height);
    seq![
        min_x, -min_y, min_x, -max_y, max_x, -max_y,
        min_x, -min_y, max_x, -min_y, max_x, -max_y,
    ]
}

pub open spec fn ints_of(s: Seq<i64>) -> Seq<int> {
    s.map_values(|v: i64| v as int)
}

/// Converts a rectangle to its minimum and maximum corners in device space,
/// without flipping the Y axis.
pub fn rect_to_min_max(rect: &Rect, width: u32, height: u32) -> (r: ((i64, i64), (i64, i64)))
    ensures
        (((r.0).0 as int, (r.0).1 as int), ((r.1).0 as int, (r.1).1 as int)) == spec_min_max(
            *rect,
            width as int,
            height as int,
        ),
{
    let w = width as i64;
    let h = height as i64;
    let min_x = 2 * (rect.x as i64) - w;
    let max_x = 2 * (rect.x as i64 + rect.width as i64) - w;
    let min_y = 2 * (rect.y as i64) - h;
    let max_y = 2 * (rect.y as i64 + rect.height as i64) - h;
    ((min_x, min_y), (max_x, max_y))
}

/// Converts a rectangle to the six vertices of two triangles in device
/// space, Y flipped so that the top of the screen is at +1.
pub fn rect_to_vertices(rect: &Rect, width: u32, height: u32) -> (v: Vec<i64>)
    ensures
        ints_of(v@) == spec_quad(*rect, width as int, height as int),
        v@.len() == 12,
{
    let ((min_x, min_y), (max_x, max_y)) = rect_to_min_max(rect, width, height);
    let top = -min_y;
    let bottom = -max_y;
    let v = vec![
        min_x, top, min_x, bottom, max_x, bottom,
        min_x, top, max_x, top, max_x, bottom,
    ];
    assert(ints_of(v@) =~= spec_quad(*rect, width as int, height as int));
    v
}

/// A full-framebuffer rectangle maps to the whole device square, with the
/// top edge of the screen at +1 and the bottom edge at -1: each y coordinate
/// is the negation of the unflipped mapping.
pub proof fn lemma_full_rect_flips_y(width: i32, height: i32)
    requires
        width > 0,
        height > 0,
    ensures
        ({
            let r = Rect { x: 0, y: 0, width, height };
            let q = spec_quad(r, width as int, height as int);
            let ((min_x, min_y), (max_x, max_y)) = spec_min_max(r, width as int, height as int);
            &&& min_x == -(width as int) && max_x == width as int
            &&& min_y == -(height as int) && max_y == height as int
            &&& q[1] == -min_y && q[3] == -max_y && q[5] == -max_y
            &&& q[7] == -min_y && q[9] == -min_y && q[11] == -max_y
            &&& q[1] == height as int
            &&& q[3] == -(height as int)
        }),
{
}

/// A rectangle along the top edge of the screen lands in the upper half of
/// device space: its top at +1, its bottom above its top less two heights.
pub proof fn lemma_top_rect_is_up(x: i32, width: i32, height: i32, fb_width: u32, fb_height: u32)
    requires
        fb_height > 0,
        0 < height <= fb_height,
    ensures
        ({
            let q = spec_quad(Rect { x, y: 0, width, height }, fb_width as int, fb_height as int);
            &&& q[1] == fb_height as int
            &&& q[3] == fb_height - 2 * height
            &&& q[3] < q[1]
        }),
{
}

} // verus!

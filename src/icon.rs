//! Tray icon bitmaps, as RGBA bytes row by row.
use vstd::prelude::*;

verus! {

/// Icon size in pixels.
pub const ICON_SIZE: u32 = 32;

/// The four bytes of pixel (`x`, `y`) of a `size` × `size` RGBA image.
pub open spec fn pixel(s: Seq<u8>, size: int, x: int, y: int) -> (u8, u8, u8, u8) {
    let i = (y * size + x) * 4;
    (s[i], s[i + 1], s[i + 2], s[i + 3])
}

/// Distinct pixels occupy disjoint four-byte runs inside the image.
proof fn lemma_pixel_offsets(size: int, x: int, y: int, x2: int, y2: int)
    requires
        0 <= x < size,
        0 <= y < size,
        0 <= x2 < size,
        0 <= y2 < size,
    ensures
        0 <= (y * size + x) * 4,
        (y * size + x) * 4 + 4 <= size * size * 4,
        x != x2 || y != y2 ==> (y * size + x) * 4 + 4 <= (y2 * size + x2) * 4 || (y2 * size + x2)
            * 4 + 4 <= (y * size + x) * 4,
{
    assert(0 <= y * size) by (nonlinear_arith)
        requires
            0 <= y,
            0 <= size,
    ;
    assert(y * size + x < size * size) by (nonlinear_arith)
        requires
            0 <= x < size,
            0 <= y < size,
    ;
    if y < y2 {
        assert(y * size + x < y2 * size) by (nonlinear_arith)
            requires
                0 <= x < size,
                y < y2,
        ;
    } else if y2 < y {
        assert(y2 * size + x2 < y * size) by (nonlinear_arith)
            requires
                0 <= x2 < size,
                y2 < y,
        ;
    }
}

/// Writes all four bytes of pixel (`x`, `y`).
fn put_pixel(rgba: &mut Vec<u8>, size: usize, x: usize, y: usize, p: (u8, u8, u8, u8))
    requires
        old(rgba)@.len() == size * size * 4,
        x < size,
        y < size,
    ensures
        final(rgba)@.len() == old(rgba)@.len(),
        pixel(final(rgba)@, size as int, x as int, y as int) == p,
        forall|x2: int, y2: int|
            0 <= x2 < size && 0 <= y2 < size && (x2 != x || y2 != y) ==> #[trigger] pixel(
                final(rgba)@,
                size as int,
                x2,
                y2,
            ) == pixel(old(rgba)@, size as int, x2, y2),
{
    let len = rgba.len();
    proof {
        lemma_pixel_offsets(size as int, x as int, y as int, x as int, y as int);
    }
    let idx = (y * size + x) * 4;
    rgba.set(idx, p.0);
    rgba.set(idx + 1, p.1);
    rgba.set(idx + 2, p.2);
    rgba.set(idx + 3, p.3);
    proof {
        assert forall|x2: int, y2: int|
            0 <= x2 < size && 0 <= y2 < size && (x2 != x || y2 != y) implies #[trigger] pixel(
            rgba@,
            size as int,
            x2,
            y2,
        ) == pixel(old(rgba)@, size as int, x2, y2) by {
            lemma_pixel_offsets(size as int, x as int, y as int, x2, y2);
            lemma_pixel_offsets(size as int, x2, y2, x2, y2);
        }
    }
}

/// Writes the colour bytes of pixel (`x`, `y`) and keeps its alpha.
fn put_color(rgba: &mut Vec<u8>, size: usize, x: usize, y: usize, color: u8)
    requires
        old(rgba)@.len() == size * size * 4,
        x < size,
        y < size,
    ensures
        final(rgba)@.len() == old(rgba)@.len(),
        pixel(final(rgba)@, size as int, x as int, y as int) == (
            color,
            color,
            color,
            pixel(old(rgba)@, size as int, x as int, y as int).3,
        ),
        forall|x2: int, y2: int|
            0 <= x2 < size && 0 <= y2 < size && (x2 != x || y2 != y) ==> #[trigger] pixel(
                final(rgba)@,
                size as int,
                x2,
                y2,
            ) == pixel(old(rgba)@, size as int, x2, y2),
{
    let len = rgba.len();
    proof {
        lemma_pixel_offsets(size as int, x as int, y as int, x as int, y as int);
    }
    let idx = (y * size + x) * 4;
    let alpha = rgba[idx + 3];
    put_pixel(rgba, size, x, y, (color, color, color, alpha));
}

/// The alpha of the anti-aliased rim at squared distance `d2` from the
/// centre: 255 × (14 − √d2), rounded down, written over integers.
pub open spec fn is_rim_alpha(d2: int, a: int) -> bool {
    &&& 0 <= a <= 255
    &&& 65025 * d2 <= (3570 - a) * (3570 - a)
    &&& (3569 - a) * (3569 - a) < 65025 * d2
}

/// The rim alpha at squared distance `d2`.
pub open spec fn rim_alpha(d2: int) -> int {
    choose|a: int| is_rim_alpha(d2, a)
}

/// At most one alpha meets the rim's definition.
pub proof fn lemma_rim_alpha_unique(d2: int, a: int, b: int)
    requires
        is_rim_alpha(d2, a),
        is_rim_alpha(d2, b),
    ensures
        a == b,
{
    if a < b {
        assert((3570 - b) * (3570 - b) <= (3569 - a) * (3569 - a)) by (nonlinear_arith)
            requires
                a < b <= 255,
        ;
    } else if b < a {
        assert((3570 - a) * (3570 - a) <= (3569 - b) * (3569 - b)) by (nonlinear_arith)
            requires
                b < a <= 255,
        ;
    }
}

/// The square of `v`.
fn square(v: u32) -> (r: u32)
    requires
        v <= 4000,
    ensures
        r == v * v,
{
    assert(v * v <= 16000000) by (nonlinear_arith)
        requires
            v <= 4000,
    ;
    v * v
}

/// Computes the rim alpha at squared distance `d2`.
fn rim_alpha_at(d2: u32) -> (r: u8)
    requires
        169 <= d2 < 196,
    ensures
        r == rim_alpha(d2 as int),
{
    let target: u32 = 65025 * d2;
    let mut a: u32 = 0;
    assert(65025 * d2 <= 3570 * 3570);
    while a < 255 && target <= square(3569 - a)
        invariant
            target == 65025 * d2,
            169 <= d2 < 196,
            a <= 255,
            65025 * d2 <= (3570 - a) * (3570 - a),
        decreases 255 - a,
    {
        a = a + 1;
    }
    proof {
        if a == 255 {
            assert(3314 * 3314 < 65025 * 169);
        }
        assert(is_rim_alpha(d2 as int, a as int));
        lemma_rim_alpha_unique(d2 as int, a as int, rim_alpha(d2 as int));
    }
    a as u8
}

/// Squared distance of pixel (`x`, `y`) from the icon's centre.
pub open spec fn center_dist2(x: int, y: int) -> int {
    (x - 16) * (x - 16) + (y - 16) * (y - 16)
}

/// The fill colour: red when muted, green otherwise.
pub open spec fn fill_color(muted: bool) -> (u8, u8, u8) {
    if muted {
        (220, 60, 60)
    } else {
        (60, 180, 60)
    }
}

/// The filled disc: opaque within radius 13, fading out over the next pixel.
pub open spec fn disc_pixel(muted: bool, x: int, y: int) -> (u8, u8, u8, u8) {
    let (r, g, b) = fill_color(muted);
    let d2 = center_dist2(x, y);
    if d2 < 169 {
        (r, g, b, 255)
    } else if d2 < 196 {
        (r, g, b, rim_alpha(d2) as u8)
    } else {
        (0, 0, 0, 0)
    }
}

/// Whether (`x`, `y`) lies in the microphone's body or its stand.
pub open spec fn in_microphone(size: int, x: int, y: int) -> bool {
    let top = size / 4;
    let bottom = size / 4 + size / 2;
    let half_width = size / 4 / 2;
    ||| (top <= y < bottom && size / 2 - half_width <= x < size / 2 + half_width)
    ||| (bottom + 2 < size && x == size / 2 && bottom <= y < bottom + 3)
}

/// A pixel after the microphone shape is drawn in grey level `color`: shape
/// pixels that are not transparent take the colour and keep their alpha.
pub open spec fn shaped(p: (u8, u8, u8, u8), size: int, x: int, y: int, color: u8) -> (u8, u8, u8, u8) {
    if in_microphone(size, x, y) && p.3 > 0 {
        (color, color, color, p.3)
    } else {
        p
    }
}

/// Whether (`x`, `y`) lies on the two-pixel diagonal strike-through line.
pub open spec fn on_strike(size: int, x: int, y: int) -> bool {
    4 <= x < size - 4 && (y == x || y == x + 1)
}

/// A pixel after the strike-through line is drawn in opaque white.
pub open spec fn struck(p: (u8, u8, u8, u8), size: int, x: int, y: int) -> (u8, u8, u8, u8) {
    if on_strike(size, x, y) {
        (255, 255, 255, 255)
    } else {
        p
    }
}

/// The microphone icon's pixel (`x`, `y`): a red disc with a dark microphone
/// and a white strike-through when muted, a green disc with a white
/// microphone otherwise.
pub open spec fn icon_pixel(muted: bool, x: int, y: int) -> (u8, u8, u8, u8) {
    let color: u8 = if muted { 40 } else { 255 };
    let p = shaped(disc_pixel(muted, x, y), 32, x, y, color);
    if muted {
        struck(p, 32, x, y)
    } else {
        p
    }
}

/// Generates the microphone icon as RGBA data.
pub fn generate_microphone_icon(muted: bool) -> (r: Vec<u8>)
    ensures
        r@.len() == 32 * 32 * 4,
        forall|x: int, y: int|
            0 <= x < 32 && 0 <= y < 32 ==> #[trigger] pixel(r@, 32, x, y) == icon_pixel(muted, x, y),
{
    let size = ICON_SIZE as usize;
    let mut rgba: Vec<u8> = Vec::new();
    while rgba.len() < size * size * 4
        invariant
            size == 32,
            rgba@.len() <= size * size * 4,
            forall|i: int| 0 <= i < rgba@.len() ==> rgba@[i] == 0,
        decreases size * size * 4 - rgba@.len(),
    {
        rgba.push(0);
    }
    let (r, g, b) = if muted {
        (220u8, 60u8, 60u8)
    } else {
        (60u8, 180u8, 60u8)
    };
    let mut y: usize = 0;
    while y < size
        invariant
            size == 32,
            y <= size,
            (r, g, b) == fill_color(muted),
            rgba@.len() == size * size * 4,
            forall|x2: int, y2: int|
                0 <= x2 < 32 && 0 <= y2 < 32 ==> #[trigger] pixel(rgba@, 32, x2, y2) == if y2 < y {
                    disc_pixel(muted, x2, y2)
                } else {
                    (0u8, 0u8, 0u8, 0u8)
                },
        decreases size - y,
    {
        let mut x: usize = 0;
        while x < size
            invariant
                size == 32,
                y < size,
                x <= size,
                (r, g, b) == fill_color(muted),
                rgba@.len() == size * size * 4,
                forall|x2: int, y2: int|
                    0 <= x2 < 32 && 0 <= y2 < 32 ==> #[trigger] pixel(rgba@, 32, x2, y2) == if y2
                        < y || (y2 == y && x2 < x) {
                        disc_pixel(muted, x2, y2)
                    } else {
                        (0u8, 0u8, 0u8, 0u8)
                    },
            decreases size - x,
        {
            let dx: i32 = x as i32 - 16;
            let dy: i32 = y as i32 - 16;
            assert(dx * dx <= 256 && dy * dy <= 256 && dx * dx >= 0 && dy * dy >= 0) by (nonlinear_arith)
                requires
                    -16 <= dx <= 16,
                    -16 <= dy <= 16,
            ;
            let d2: u32 = (dx * dx + dy * dy) as u32;
            assert(d2 as int == center_dist2(x as int, y as int));
            if d2 < 169 {
                put_pixel(&mut rgba, size, x, y, (r, g, b, 255));
            } else if d2 < 196 {
                let alpha = rim_alpha_at(d2);
                put_pixel(&mut rgba, size, x, y, (r, g, b, alpha));
            }
            x = x + 1;
        }
        y = y + 1;
    }
    draw_microphone_shape(&mut rgba, size, !muted);
    if muted {
        draw_strike_through(&mut rgba, size);
    }
    rgba
}

/// Draws a simplified microphone: a vertical bar with a short stand below
/// it, white or dark grey, over the pixels that are not transparent.
fn draw_microphone_shape(rgba: &mut Vec<u8>, size: usize, white: bool)
    requires
        old(rgba)@.len() == size * size * 4,
    ensures
        final(rgba)@.len() == old(rgba)@.len(),
        forall|x: int, y: int|
            0 <= x < size && 0 <= y < size ==> #[trigger] pixel(final(rgba)@, size as int, x, y)
                == shaped(
                pixel(old(rgba)@, size as int, x, y),
                size as int,
                x,
                y,
                if white { 255u8 } else { 40u8 },
            ),
{
    let color: u8 = if white { 255 } else { 40 };
    let center_x = size / 2;
    let body_width = size / 4;
    let body_height = size / 2;
    let body_top = size / 4;
    let ghost before = rgba@;

    let mut y = body_top;
    while y < body_top + body_height
        invariant
            color == (if white { 255u8 } else { 40u8 }),
            center_x == size / 2,
            body_width == size / 4,
            body_height == size / 2,
            body_top == size / 4,
            body_top <= y <= body_top + body_height,
            rgba@.len() == size * size * 4,
            forall|x2: int, y2: int|
                0 <= x2 < size && 0 <= y2 < size ==> #[trigger] pixel(rgba@, size as int, x2, y2)
                    == if y2 < y && !(body_top + body_height + 2 < size && x2 == center_x
                    && body_top + body_height <= y2) {
                    shaped(pixel(before, size as int, x2, y2), size as int, x2, y2, color)
                } else {
                    pixel(before, size as int, x2, y2)
                },
        decreases body_top + body_height - y,
    {
        let mut x = center_x - body_width / 2;
        while x < center_x + body_width / 2
            invariant
                color == (if white { 255u8 } else { 40u8 }),
                center_x == size / 2,
                body_width == size / 4,
                body_height == size / 2,
                body_top == size / 4,
                body_top <= y < body_top + body_height,
                center_x - body_width / 2 <= x <= center_x + body_width / 2,
                rgba@.len() == size * size * 4,
                forall|x2: int, y2: int|
                    0 <= x2 < size && 0 <= y2 < size ==> #[trigger] pixel(
                        rgba@,
                        size as int,
                        x2,
                        y2,
                    ) == if (y2 < y || (y2 == y && center_x - body_width / 2 <= x2 < x)) && !(
                    body_top + body_height + 2 < size && x2 == center_x && body_top + body_height
                        <= y2) {
                        shaped(pixel(before, size as int, x2, y2), size as int, x2, y2, color)
                    } else {
                        pixel(before, size as int, x2, y2)
                    },
            decreases center_x + body_width / 2 - x,
        {
            if x < size && y < size {
                let len = rgba.len();
                proof {
                    lemma_pixel_offsets(size as int, x as int, y as int, x as int, y as int);
                }
                let idx = (y * size + x) * 4;
                if rgba[idx + 3] > 0 {
                    put_color(rgba, size, x, y, color);
                }
            }
            x = x + 1;
        }
        y = y + 1;
    }

    let stand_y = body_top + body_height;
    if stand_y + 2 < size {
        let mut y = stand_y;
        while y < stand_y + 3
            invariant
                color == (if white { 255u8 } else { 40u8 }),
                center_x == size / 2,
                stand_y == size / 4 + size / 2,
                stand_y + 2 < size,
                stand_y <= y <= stand_y + 3,
                rgba@.len() == size * size * 4,
                forall|x2: int, y2: int|
                    0 <= x2 < size && 0 <= y2 < size ==> #[trigger] pixel(
                        rgba@,
                        size as int,
                        x2,
                        y2,
                    ) == if y2 < stand_y || (x2 == center_x && y2 < y) {
                        shaped(pixel(before, size as int, x2, y2), size as int, x2, y2, color)
                    } else {
                        pixel(before, size as int, x2, y2)
                    },
            decreases stand_y + 3 - y,
        {
            let len = rgba.len();
            proof {
                lemma_pixel_offsets(size as int, center_x as int, y as int, center_x as int, y as int);
            }
            let idx = (y * size + center_x) * 4;
            if rgba[idx + 3] > 0 {
                put_color(rgba, size, center_x, y, color);
            }
            y = y + 1;
        }
    }
}

/// Draws a two-pixel-thick white diagonal from the top left to the bottom
/// right, four pixels in from the edges.
fn draw_strike_through(rgba: &mut Vec<u8>, size: usize)
    requires
        old(rgba)@.len() == size * size * 4,
        size >= 4,
    ensures
        final(rgba)@.len() == old(rgba)@.len(),
        forall|x: int, y: int|
            0 <= x < size && 0 <= y < size ==> #[trigger] pixel(final(rgba)@, size as int, x, y)
                == struck(pixel(old(rgba)@, size as int, x, y), size as int, x, y),
{
    let thickness: usize = 2;
    let ghost before = rgba@;
    let mut i: usize = 4;
    while i < size - 4
        invariant
            thickness == 2,
            size >= 4,
            4 <= i,
            i <= size - 4 || i == 4,
            rgba@.len() == size * size * 4,
            forall|x2: int, y2: int|
                0 <= x2 < size && 0 <= y2 < size ==> #[trigger] pixel(rgba@, size as int, x2, y2)
                    == if on_strike(size as int, x2, y2) && x2 < i {
                    (255u8, 255u8, 255u8, 255u8)
                } else {
                    pixel(before, size as int, x2, y2)
                },
        decreases size - i,
    {
        let mut t: usize = 0;
        while t < thickness
            invariant
                thickness == 2,
                4 <= i < size - 4,
                t <= thickness,
                rgba@.len() == size * size * 4,
                forall|x2: int, y2: int|
                    0 <= x2 < size && 0 <= y2 < size ==> #[trigger] pixel(
                        rgba@,
                        size as int,
                        x2,
                        y2,
                    ) == if on_strike(size as int, x2, y2) && (x2 < i || (x2 == i && y2 < i + t)) {
                        (255u8, 255u8, 255u8, 255u8)
                    } else {
                        pixel(before, size as int, x2, y2)
                    },
            decreases thickness - t,
        {
            let x = i;
            let y = i + t;
            if x < size && y < size {
                put_pixel(rgba, size, x, y, (255, 255, 255, 255));
            }
            t = t + 1;
        }
        i = i + 1;
    }
}


/// Whether (`x`, `y`) lies on the tray bitmap's strike-through: the diagonal
/// and the pixels just right of it, four pixels in from the edges.
pub open spec fn on_tray_strike(x: int, y: int) -> bool {
    4 <= y < 28 && (x == y || x == y + 1)
}

/// The tray bitmap's pixel (`x`, `y`): an opaque disc of radius 14, red with
/// a white strike-through when muted, green otherwise.
pub open spec fn tray_pixel(muted: bool, x: int, y: int) -> (u8, u8, u8, u8) {
    let (r, g, b) = fill_color(muted);
    if muted && on_tray_strike(x, y) {
        (255, 255, 255, 255)
    } else if center_dist2(x, y) < 196 {
        (r, g, b, 255)
    } else {
        (0, 0, 0, 0)
    }
}

/// The 32 × 32 RGBA bitmap of the tray icon for the given mute state.
pub fn tray_icon_rgba(muted: bool) -> (r: Vec<u8>)
    ensures
        r@.len() == 32 * 32 * 4,
        forall|x: int, y: int|
            0 <= x < 32 && 0 <= y < 32 ==> #[trigger] pixel(r@, 32, x, y) == tray_pixel(muted, x, y),
{
    let size: usize = 32;
    let mut rgba: Vec<u8> = Vec::new();
    while rgba.len() < size * size * 4
        invariant
            size == 32,
            rgba@.len() <= size * size * 4,
            forall|i: int| 0 <= i < rgba@.len() ==> rgba@[i] == 0,
        decreases size * size * 4 - rgba@.len(),
    {
        rgba.push(0);
    }
    let (r, g, b) = if muted {
        (220u8, 60u8, 60u8)
    } else {
        (60u8, 180u8, 60u8)
    };
    let mut y: usize = 0;
    while y < size
        invariant
            size == 32,
            y <= size,
            (r, g, b) == fill_color(muted),
            rgba@.len() == size * size * 4,
            forall|x2: int, y2: int|
                0 <= x2 < 32 && 0 <= y2 < 32 ==> #[trigger] pixel(rgba@, 32, x2, y2) == if y2 < y
                    && center_dist2(x2, y2) < 196 {
                    (r, g, b, 255u8)
                } else {
                    (0u8, 0u8, 0u8, 0u8)
                },
        decreases size - y,
    {
        let mut x: usize = 0;
        while x < size
            invariant
                size == 32,
                y < size,
                x <= size,
                (r, g, b) == fill_color(muted),
                rgba@.len() == size * size * 4,
                forall|x2: int, y2: int|
                    0 <= x2 < 32 && 0 <= y2 < 32 ==> #[trigger] pixel(rgba@, 32, x2, y2) == if (y2
                        < y || (y2 == y && x2 < x)) && center_dist2(x2, y2) < 196 {
                        (r, g, b, 255u8)
                    } else {
                        (0u8, 0u8, 0u8, 0u8)
                    },
            decreases size - x,
        {
            let dx: i32 = x as i32 - 16;
            let dy: i32 = y as i32 - 16;
            assert(dx * dx <= 256 && dy * dy <= 256 && dx * dx >= 0 && dy * dy >= 0) by (nonlinear_arith)
                requires
                    -16 <= dx <= 16,
                    -16 <= dy <= 16,
            ;
            if dx * dx + dy * dy < 196 {
                put_pixel(&mut rgba, size, x, y, (r, g, b, 255));
            }
            x = x + 1;
        }
        y = y + 1;
    }
    if muted {
        let mut i: usize = 4;
        while i < size - 4
            invariant
                size == 32,
                4 <= i <= size - 4,
                muted,
                (r, g, b) == fill_color(muted),
                rgba@.len() == size * size * 4,
                forall|x2: int, y2: int|
                    0 <= x2 < 32 && 0 <= y2 < 32 ==> #[trigger] pixel(rgba@, 32, x2, y2) == if
                    on_tray_strike(x2, y2) && y2 < i {
                        (255u8, 255u8, 255u8, 255u8)
                    } else if center_dist2(x2, y2) < 196 {
                        (r, g, b, 255u8)
                    } else {
                        (0u8, 0u8, 0u8, 0u8)
                    },
            decreases size - i,
        {
            put_pixel(&mut rgba, size, i, i, (255, 255, 255, 255));
            put_pixel(&mut rgba, size, i + 1, i, (255, 255, 255, 255));
            i = i + 1;
        }
    }
    rgba
}

} // verus!

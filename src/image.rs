use vstd::arithmetic::div_mod::{
    lemma_fundamental_div_mod, lemma_fundamental_div_mod_converse, lemma_mod_pos_bound,
};
use vstd::prelude::*;

verus! {

/// Bytes in one RGBA8 pixel.
pub const BYTES_PER_PIXEL: usize = 4;

/// An RGBA8 image: `width * height` pixels of four bytes each, stored row by
/// row from the top-left corner.
pub struct RgbaImage {
    pub width: usize,
    pub height: usize,
    pub data: Vec<u8>,
}

/// Offset of the first byte of pixel `(x, y)` in a buffer `w` pixels wide.
pub open spec fn pixel_offset(w: int, x: int, y: int) -> int {
    (y * w + x) * 4
}

/// The bytes of a `w` by `h` buffer `s` turned a quarter turn counter-clockwise:
/// a buffer `h` pixels wide and `w` high whose pixel `(dx, dy)` is the source
/// pixel `(w - 1 - dy, dx)`.
pub open spec fn rotated_ccw(s: Seq<u8>, w: nat, h: nat) -> Seq<u8> {
    Seq::new(
        w * h * 4,
        |i: int|
            s[pixel_offset(w as int, w - 1 - (i / 4) / (h as int), (i / 4) % (h as int)) + i % 4],
    )
}

impl RgbaImage {
    /// The buffer holds exactly four bytes for each pixel.
    pub open spec fn wf(&self) -> bool {
        self.data@.len() == self.width * self.height * 4
    }

    /// Wraps a pixel buffer; `None` unless it holds exactly `width * height`
    /// pixels.
    pub fn new(width: usize, height: usize, data: Vec<u8>) -> (r: Option<RgbaImage>)
        ensures
            r is Some <==> data@.len() == width * height * 4,
            r matches Some(img) ==> img.width == width && img.height == height && img.data@
                == data@,
    {
        let len = data.len();
        match width.checked_mul(height) {
            Some(n) => match n.checked_mul(BYTES_PER_PIXEL) {
                Some(total) => {
                    if len == total {
                        Some(RgbaImage { width, height, data })
                    } else {
                        None
                    }
                },
                None => None,
            },
            None => {
                proof {
                    assert(width * height * 4 >= width * height) by (nonlinear_arith)
                        requires
                            width * height >= 0,
                    ;
                }
                None
            },
        }
    }
}

/// Where destination byte `(dy * h + dx) * 4 + c` of a quarter turn reads from,
/// and that both offsets stay inside the buffers.
proof fn lemma_rotated_index(w: int, h: int, dx: int, dy: int, c: int)
    requires
        0 <= dx < h,
        0 <= dy < w,
        0 <= c < 4,
    ensures
        ((dy * h + dx) * 4 + c) / 4 == dy * h + dx,
        ((dy * h + dx) * 4 + c) % 4 == c,
        (dy * h + dx) / h == dy,
        (dy * h + dx) % h == dx,
        0 <= (dy * h + dx) * 4 + c < w * h * 4,
        0 <= pixel_offset(w, w - 1 - dy, dx) + c < w * h * 4,
{
    lemma_fundamental_div_mod_converse((dy * h + dx) * 4 + c, 4, dy * h + dx, c);
    lemma_fundamental_div_mod_converse(dy * h + dx, h, dy, dx);
    assert(0 <= dy * h + dx < w * h) by (nonlinear_arith)
        requires
            0 <= dx < h,
            0 <= dy < w,
    ;
    assert(0 <= dx * w + (w - 1 - dy) < w * h) by (nonlinear_arith)
        requires
            0 <= dx < h,
            0 <= dy < w,
    ;
}

/// Byte `c` of destination pixel `(dx, dy)` of a quarter turn is byte `c` of
/// source pixel `(w - 1 - dy, dx)`.
proof fn lemma_rotated_pixel(s: Seq<u8>, w: nat, h: nat, dx: int, dy: int, c: int)
    requires
        s.len() == w * h * 4,
        0 <= dx < h,
        0 <= dy < w,
        0 <= c < 4,
    ensures
        rotated_ccw(s, w, h).len() == h * w * 4,
        rotated_ccw(s, w, h)[pixel_offset(h as int, dx, dy) + c] == s[pixel_offset(
            w as int,
            w - 1 - dy,
            dx,
        ) + c],
{
    lemma_rotated_index(w as int, h as int, dx, dy, c);
    assert(w * h == h * w) by (nonlinear_arith);
}

/// A quarter turn moves source pixel `(x, y)` of a `w` by `h` buffer to pixel
/// `(y, w - x - 1)` of the result, byte for byte.
pub proof fn lemma_rotation_moves_pixel(s: Seq<u8>, w: nat, h: nat, x: int, y: int, c: int)
    requires
        s.len() == w * h * 4,
        0 <= x < w,
        0 <= y < h,
        0 <= c < 4,
    ensures
        rotated_ccw(s, w, h)[pixel_offset(h as int, y, w - x - 1) + c] == s[pixel_offset(
            w as int,
            x,
            y,
        ) + c],
{
    lemma_rotated_pixel(s, w, h, y, w - x - 1, c);
}

/// Four quarter turns give back the image unchanged.
pub proof fn lemma_four_rotations_identity(s: Seq<u8>, w: nat, h: nat)
    requires
        s.len() == w * h * 4,
    ensures
        rotated_ccw(rotated_ccw(rotated_ccw(rotated_ccw(s, w, h), h, w), w, h), h, w) == s,
{
    let r1 = rotated_ccw(s, w, h);
    let r2 = rotated_ccw(r1, h, w);
    let r3 = rotated_ccw(r2, w, h);
    let r4 = rotated_ccw(r3, h, w);
    assert(w * h == h * w) by (nonlinear_arith);
    assert forall|i: int| 0 <= i < s.len() implies r4[i] == s[i] by {
        let p = i / 4;
        let c = i % 4;
        let x = p % (w as int);
        let y = p / (w as int);
        lemma_fundamental_div_mod_converse(i, 4, p, c);
        assert(0 <= p < w * h);
        assert(w > 0) by (nonlinear_arith)
            requires
                0 <= i < w * h * 4,
        ;
        lemma_fundamental_div_mod(p, w as int);
        lemma_mod_pos_bound(p, w as int);
        assert(0 <= y < h) by (nonlinear_arith)
            requires
                0 <= p < w * h,
                y == p / (w as int),
                w > 0,
                p == w * y + x,
                0 <= x < w,
        ;
        lemma_rotated_pixel(r3, h, w, x, y, c);
        lemma_rotated_pixel(r2, w, h, h - 1 - y, x, c);
        lemma_rotated_pixel(r1, h, w, w - 1 - x, h - 1 - y, c);
        lemma_rotated_pixel(s, w, h, y, w - 1 - x, c);
        assert(i == pixel_offset(w as int, x, y) + c);
    }
    assert(r4 =~= s);
}

/// Turns an image a quarter turn counter-clockwise, copying each pixel's four
/// bytes unchanged: the result is `height` pixels wide and `width` high.
pub fn rotate_image_90_ccw(source: &RgbaImage) -> (r: RgbaImage)
    requires
        source.wf(),
    ensures
        r.wf(),
        r.width == source.height,
        r.height == source.width,
        r.data@ == rotated_ccw(source.data@, source.width as nat, source.height as nat),
{
    let w = source.width;
    let h = source.height;
    let ghost s = source.data@;
    let ghost target = rotated_ccw(s, w as nat, h as nat);
    let total = source.data.len();
    let mut out: Vec<u8> = Vec::new();
    let mut dy: usize = 0;
    while dy < w
        invariant
            source.wf(),
            w == source.width,
            h == source.height,
            s == source.data@,
            target == rotated_ccw(s, w as nat, h as nat),
            total == w * h * 4,
            0 <= dy <= w,
            out@.len() == dy * h * 4,
            forall|i: int| 0 <= i < out@.len() ==> out@[i] == target[i],
        decreases w - dy,
    {
        let mut dx: usize = 0;
        while dx < h
            invariant
                source.wf(),
                w == source.width,
                h == source.height,
                s == source.data@,
                target == rotated_ccw(s, w as nat, h as nat),
                total == w * h * 4,
                0 <= dy < w,
                0 <= dx <= h,
                out@.len() == (dy * h + dx) * 4,
                forall|i: int| 0 <= i < out@.len() ==> out@[i] == target[i],
            decreases h - dx,
        {
            proof {
                lemma_rotated_index(w as int, h as int, dx as int, dy as int, 0);
                lemma_rotated_index(w as int, h as int, dx as int, dy as int, 3);
            }
            let base: usize = (dx * w + (w - 1 - dy)) * BYTES_PER_PIXEL;
            let mut c: usize = 0;
            while c < BYTES_PER_PIXEL
                invariant
                    source.wf(),
                    w == source.width,
                    h == source.height,
                    s == source.data@,
                    target == rotated_ccw(s, w as nat, h as nat),
                    total == w * h * 4,
                    0 <= dy < w,
                    0 <= dx < h,
                    0 <= c <= 4,
                    base == pixel_offset(w as int, w - 1 - dy, dx as int),
                    out@.len() == (dy * h + dx) * 4 + c,
                    forall|i: int| 0 <= i < out@.len() ==> out@[i] == target[i],
                decreases 4 - c,
            {
                proof {
                    lemma_rotated_index(w as int, h as int, dx as int, dy as int, c as int);
                }
                out.push(source.data[base + c]);
                c += 1;
            }
            dx += 1;
        }
        proof {
            assert((dy * h + h) * 4 == (dy + 1) * h * 4) by (nonlinear_arith);
        }
        dy += 1;
    }
    proof {
        assert(out@ =~= target);
        assert(w * h == h * w) by (nonlinear_arith);
    }
    RgbaImage { width: h, height: w, data: out }
}

} // verus!

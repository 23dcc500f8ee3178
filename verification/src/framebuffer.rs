//! The framebuffer: a color buffer and a parallel depth buffer with a
//! less-than depth test, a clear operation, and a current-color register.

use vstd::prelude::*;

verus! {

/// The far sentinel stored in the depth buffer by `clear`: every real
/// fragment depth compares strictly less than it.
pub const DEPTH_FAR: i64 = 0x7fff_ffff_ffff_ffff;

/// Largest framebuffer extent on either axis.
pub const DIM_MAX: usize = 4096;

/// A width x height color buffer (packed 24-bit RGB, row-major, origin
/// top-left) and a parallel depth buffer.
pub struct Framebuffer {
    pub width: usize,
    pub height: usize,
    pub buffer: Vec<u32>,
    pub zbuffer: Vec<i64>,
    pub background_color: u32,
    pub current_color: u32,
}

/// A depth-tested write lands iff the pixel is in bounds and the incoming
/// depth is strictly nearer than the stored one.
pub open spec fn write_hits(depths: Seq<i64>, w: int, h: int, x: int, y: int, depth: i64) -> bool {
    0 <= x < w && 0 <= y < h && depth < depths[y * w + x]
}

/// The color buffer after a depth-tested write.
pub open spec fn write_colors(
    colors: Seq<u32>,
    depths: Seq<i64>,
    w: int,
    h: int,
    x: int,
    y: int,
    depth: i64,
    color: u32,
) -> Seq<u32> {
    if write_hits(depths, w, h, x, y, depth) {
        colors.update(y * w + x, color)
    } else {
        colors
    }
}

/// The depth buffer after a depth-tested write.
pub open spec fn write_depths(
    depths: Seq<i64>,
    w: int,
    h: int,
    x: int,
    y: int,
    depth: i64,
) -> Seq<i64> {
    if write_hits(depths, w, h, x, y, depth) {
        depths.update(y * w + x, depth)
    } else {
        depths
    }
}

impl Framebuffer {
    /// Both buffers cover exactly width x height pixels, and the extent is
    /// small enough for index arithmetic.
    pub open spec fn wf(self) -> bool {
        &&& self.buffer.len() == self.width * self.height
        &&& self.zbuffer.len() == self.width * self.height
        &&& self.width <= DIM_MAX
        &&& self.height <= DIM_MAX
    }

    /// A fresh black framebuffer with every depth at the far sentinel.
    pub fn new(width: usize, height: usize) -> (fb: Framebuffer)
        requires
            width <= DIM_MAX,
            height <= DIM_MAX,
        ensures
            fb.wf(),
            fb.width == width,
            fb.height == height,
            fb.background_color == 0,
            fb.current_color == 0,
            forall|i: int| 0 <= i < width * height ==> fb.buffer@[i] == 0,
            forall|i: int| 0 <= i < width * height ==> fb.zbuffer@[i] == DEPTH_FAR,
    {
        proof {
            assert(width * height <= DIM_MAX * DIM_MAX) by (nonlinear_arith)
                requires
                    width <= DIM_MAX,
                    height <= DIM_MAX,
            ;
        }
        let n: usize = width * height;
        let mut buffer: Vec<u32> = Vec::new();
        let mut zbuffer: Vec<i64> = Vec::new();
        let mut i: usize = 0;
        while i < n
            invariant
                i <= n,
                buffer@.len() == i,
                zbuffer@.len() == i,
                forall|j: int| 0 <= j < i ==> buffer@[j] == 0,
                forall|j: int| 0 <= j < i ==> zbuffer@[j] == DEPTH_FAR,
            decreases n - i,
        {
            buffer.push(0);
            zbuffer.push(DEPTH_FAR);
            i = i + 1;
        }
        Framebuffer { width, height, buffer, zbuffer, background_color: 0, current_color: 0 }
    }

    /// Reset every pixel to the background color and every depth cell to the
    /// far sentinel; run once per frame before any body is rendered.
    pub fn clear(&mut self)
        requires
            old(self).wf(),
        ensures
            final(self).wf(),
            final(self).width == old(self).width,
            final(self).height == old(self).height,
            final(self).background_color == old(self).background_color,
            final(self).current_color == old(self).current_color,
            forall|i: int|
                0 <= i < final(self).buffer@.len() ==> final(self).buffer@[i] == old(
                    self,
                ).background_color,
            forall|i: int|
                0 <= i < final(self).zbuffer@.len() ==> final(self).zbuffer@[i] == DEPTH_FAR,
    {
        let n: usize = self.buffer.len();
        let bg: u32 = self.background_color;
        let mut i: usize = 0;
        while i < n
            invariant
                i <= n,
                self.wf(),
                n == self.buffer@.len(),
                self.width == old(self).width,
                self.height == old(self).height,
                self.background_color == old(self).background_color,
                self.current_color == old(self).current_color,
                bg == self.background_color,
                forall|j: int| 0 <= j < i ==> self.buffer@[j] == bg,
                forall|j: int| 0 <= j < i ==> self.zbuffer@[j] == DEPTH_FAR,
            decreases n - i,
        {
            self.buffer[i] = bg;
            self.zbuffer[i] = DEPTH_FAR;
            i = i + 1;
        }
    }

    /// Choose the background color that the next `clear` paints.
    pub fn set_background_color(&mut self, color: u32)
        ensures
            *final(self) == (Framebuffer { background_color: color, ..*old(self) }),
    {
        self.background_color = color;
    }

    /// Choose the color that the next `point` writes.
    pub fn set_current_color(&mut self, color: u32)
        ensures
            *final(self) == (Framebuffer { current_color: color, ..*old(self) }),
    {
        self.current_color = color;
    }

    /// Depth-tested point write of the current color: the pixel is written
    /// iff (x, y) is in bounds and `depth` is strictly nearer than the
    /// stored depth; otherwise both buffers are left unchanged.
    pub fn point(&mut self, x: usize, y: usize, depth: i64)
        requires
            old(self).wf(),
        ensures
            final(self).wf(),
            final(self).width == old(self).width,
            final(self).height == old(self).height,
            final(self).background_color == old(self).background_color,
            final(self).current_color == old(self).current_color,
            final(self).buffer@ == write_colors(
                old(self).buffer@,
                old(self).zbuffer@,
                old(self).width as int,
                old(self).height as int,
                x as int,
                y as int,
                depth,
                old(self).current_color,
            ),
            final(self).zbuffer@ == write_depths(
                old(self).zbuffer@,
                old(self).width as int,
                old(self).height as int,
                x as int,
                y as int,
                depth,
            ),
    {
        if x < self.width && y < self.height {
            proof {
                assert(y * self.width + x < self.width * self.height) by (nonlinear_arith)
                    requires
                        x < self.width,
                        y < self.height,
                ;
                assert(y * self.width + x <= DIM_MAX * DIM_MAX) by (nonlinear_arith)
                    requires
                        x < self.width <= DIM_MAX,
                        y < self.height <= DIM_MAX,
                ;
            }
            let idx: usize = y * self.width + x;
            if depth < self.zbuffer[idx] {
                let color: u32 = self.current_color;
                self.buffer[idx] = color;
                self.zbuffer[idx] = depth;
            }
        }
    }
}

/// Depth-test idempotence: writing the same point twice leaves the buffers
/// exactly as a single write does, because the second write's depth is not
/// strictly less than the depth it just stored.
pub proof fn lemma_depth_test_idempotent(
    colors: Seq<u32>,
    depths: Seq<i64>,
    w: int,
    h: int,
    x: int,
    y: int,
    depth: i64,
    color: u32,
)
    requires
        depths.len() == w * h,
        colors.len() == w * h,
        0 <= w,
        0 <= h,
    ensures
        write_colors(
            write_colors(colors, depths, w, h, x, y, depth, color),
            write_depths(depths, w, h, x, y, depth),
            w,
            h,
            x,
            y,
            depth,
            color,
        ) == write_colors(colors, depths, w, h, x, y, depth, color),
        write_depths(write_depths(depths, w, h, x, y, depth), w, h, x, y, depth)
            == write_depths(depths, w, h, x, y, depth),
{
    if write_hits(depths, w, h, x, y, depth) {
        assert(0 <= y * w + x < w * h) by (nonlinear_arith)
            requires
                0 <= x < w,
                0 <= y < h,
        ;
    }
}

/// Depth-test correctness: for two writes to the same pixel with strictly
/// ordered depths, the buffers end in the same state whichever write comes
/// first — the nearer fragment's color and depth win.
pub proof fn lemma_depth_test_order(
    colors: Seq<u32>,
    depths: Seq<i64>,
    w: int,
    h: int,
    x: int,
    y: int,
    d1: i64,
    c1: u32,
    d2: i64,
    c2: u32,
)
    requires
        depths.len() == w * h,
        colors.len() == w * h,
        0 <= x < w,
        0 <= y < h,
        d1 < d2,
    ensures
        write_colors(
            write_colors(colors, depths, w, h, x, y, d1, c1),
            write_depths(depths, w, h, x, y, d1),
            w,
            h,
            x,
            y,
            d2,
            c2,
        ) == write_colors(
            write_colors(colors, depths, w, h, x, y, d2, c2),
            write_depths(depths, w, h, x, y, d2),
            w,
            h,
            x,
            y,
            d1,
            c1,
        ),
        write_depths(write_depths(depths, w, h, x, y, d1), w, h, x, y, d2) == write_depths(
            write_depths(depths, w, h, x, y, d2),
            w,
            h,
            x,
            y,
            d1,
        ),
{
    assert(0 <= y * w + x < w * h) by (nonlinear_arith)
        requires
            0 <= x < w,
            0 <= y < h,
    ;
    let idx = y * w + x;
    let s = depths[idx];
    if d1 < s {
        if d2 < s {
            assert(colors.update(idx, c2).update(idx, c1) =~= colors.update(idx, c1));
            assert(depths.update(idx, d2).update(idx, d1) =~= depths.update(idx, d1));
        }
    }
}

} // verus!

//! The framebuffer: a colour buffer of BGRX bytes and a depth buffer, and the scan
//! of a triangle's pixels with its depth test.
//!
//! The depth values are of a type chosen by the caller. Which pixels a triangle
//! covers, at which depth, which of two depths is the nearer, and what colour a
//! covered pixel gets are the caller's functions; this module decides which pixels
//! are visited, in which order, and what is written where.
use vstd::prelude::*;

verus! {

pub open spec fn min_int(a: int, b: int) -> int {
    if a < b {
        a
    } else {
        b
    }
}

pub open spec fn max_int(a: int, b: int) -> int {
    if a > b {
        a
    } else {
        b
    }
}

pub open spec fn clamp_int(v: int, lo: int, hi: int) -> int {
    if v < lo {
        lo
    } else if v > hi {
        hi
    } else {
        v
    }
}

/// The pixels scanned for a triangle whose corners lie at the (truncated) screen
/// positions `xs`, `ys`: `[x0, x1) x [y0, y1)`, the corners' bounding box grown by one
/// pixel on every side and clamped to the `w` x `h` buffer.
pub open spec fn scan_box(w: int, h: int, xs: [i32; 3], ys: [i32; 3]) -> (int, int, int, int) {
    (
        clamp_int(min_int(min_int(min_int(w, xs[0] as int), xs[1] as int), xs[2] as int) - 1, 0, w),
        clamp_int(min_int(min_int(min_int(h, ys[0] as int), ys[1] as int), ys[2] as int) - 1, 0, h),
        clamp_int(max_int(max_int(max_int(0, xs[0] as int), xs[1] as int), xs[2] as int) + 1, 0, w),
        clamp_int(max_int(max_int(max_int(0, ys[0] as int), ys[1] as int), ys[2] as int) + 1, 0, h),
    )
}

/// Pixel (x, y) lies in the box `b`.
pub open spec fn in_box(b: (int, int, int, int), x: int, y: int) -> bool {
    b.0 <= x < b.2 && b.1 <= y < b.3
}

/// Pixel i of a buffer `w` pixels wide has been reached by a scan of the box `b`
/// that is now at column `cx` of row `cy`.
pub open spec fn scanned(b: (int, int, int, int), w: int, cy: int, cx: int, i: int) -> bool {
    let (x, y) = (i % w, i / w);
    in_box(b, x, y) && (y < cy || (y == cy && x < cx))
}

/// The fragment at (x, y) was drawn: the coverage function gave it depth `z` and
/// data `f`, `z` is nearer than the depth `old` that the pixel held, and the
/// shading of `f` is the colour (`red`, `green`, `blue`).
pub open spec fn drawn<D, F, C, L, S>(
    cover: C,
    nearer: L,
    shade: S,
    x: int,
    y: int,
    old: D,
    z: D,
    red: u8,
    green: u8,
    blue: u8,
) -> bool where C: Fn(i32, i32) -> Option<(D, F)>, L: Fn(D, D) -> bool, S: Fn(F) -> [u8; 3] {
    exists|f: F, c: [u8; 3]|
        #[trigger] shade.ensures((f,), c) && cover.ensures((x as i32, y as i32), Some((z, f)))
            && nearer.ensures((z, old), true) && c[0] == red && c[1] == green && c[2] == blue
}

/// The pixel at (x, y) was left alone: the coverage function found it outside the
/// triangle, or its depth was not nearer than the depth `old` that the pixel held.
pub open spec fn kept<D, F, C, L>(cover: C, nearer: L, x: int, y: int, old: D) -> bool where
    C: Fn(i32, i32) -> Option<(D, F)>,
    L: Fn(D, D) -> bool,
 {
    exists|r: Option<(D, F)>|
        #[trigger] cover.ensures((x as i32, y as i32), r) && (r matches Some(p) ==> nearer.ensures(
            (p.0, old),
            false,
        ))
}

/// A colour buffer and a depth buffer of `width` x `height` pixels, rows first. The
/// colour of pixel i takes bytes 4i to 4i + 3: blue, green, red, and one unused.
pub struct Framebuffer<D> {
    pub width: usize,
    pub height: usize,
    pub color: Vec<u8>,
    pub depth: Vec<D>,
}

impl<D: Copy> Framebuffer<D> {
    pub open spec fn wf(&self) -> bool {
        &&& self.color.len() == self.width * self.height * 4
        &&& self.depth.len() == self.width * self.height
        &&& self.width <= i32::MAX
        &&& self.height <= i32::MAX
    }

    /// The number of pixels.
    pub open spec fn cells(&self) -> int {
        self.width * self.height
    }

    /// Every colour byte is zero and every depth is `far`.
    pub open spec fn is_cleared(&self, far: D) -> bool {
        &&& forall|i: int| 0 <= i < self.color.len() ==> #[trigger] self.color@[i] == 0
        &&& forall|i: int| 0 <= i < self.depth.len() ==> #[trigger] self.depth@[i] == far
    }

    /// A `width` x `height` framebuffer: colour zero, every depth `far`.
    pub fn new(width: usize, height: usize, far: D) -> (r: Framebuffer<D>)
        requires
            width <= i32::MAX,
            height <= i32::MAX,
            width * height * 4 <= usize::MAX,
        ensures
            r.wf(),
            r.width == width && r.height == height,
            r.is_cleared(far),
    {
        let n = width * height;
        let mut color: Vec<u8> = Vec::new();
        let mut depth: Vec<D> = Vec::new();
        let mut i: usize = 0;
        while i < n
            invariant
                i <= n,
                n == width * height,
                color.len() == 4 * i,
                depth.len() == i,
                forall|k: int| 0 <= k < color.len() ==> #[trigger] color@[k] == 0,
                forall|k: int| 0 <= k < depth.len() ==> #[trigger] depth@[k] == far,
            decreases n - i,
        {
            color.push(0);
            color.push(0);
            color.push(0);
            color.push(0);
            depth.push(far);
            i = i + 1;
        }
        Framebuffer { width, height, color, depth }
    }

    /// Sets every colour byte to zero and every depth to `far`.
    pub fn clear(&mut self, far: D)
        requires
            old(self).wf(),
        ensures
            final(self).wf(),
            final(self).width == old(self).width && final(self).height == old(self).height,
            final(self).is_cleared(far),
    {
        let mut i: usize = 0;
        while i < self.color.len()
            invariant
                self.wf(),
                self.width == old(self).width && self.height == old(self).height,
                forall|k: int| 0 <= k < i ==> #[trigger] self.color@[k] == 0,
            decreases self.color.len() - i,
        {
            self.color.set(i, 0);
            i = i + 1;
        }
        let mut j: usize = 0;
        while j < self.depth.len()
            invariant
                self.wf(),
                self.width == old(self).width && self.height == old(self).height,
                forall|k: int| 0 <= k < self.color.len() ==> #[trigger] self.color@[k] == 0,
                forall|k: int| 0 <= k < j ==> #[trigger] self.depth@[k] == far,
            decreases self.depth.len() - j,
        {
            self.depth.set(j, far);
            j = j + 1;
        }
    }

    /// The colour bytes after pixel i is written with `c` (red, green, blue).
    pub open spec fn painted(color: Seq<u8>, i: int, c: [u8; 3]) -> Seq<u8> {
        color.update(4 * i, c[2]).update(4 * i + 1, c[1]).update(4 * i + 2, c[0])
    }

    /// Writes colour `c` (red, green, blue) at pixel (x, y); a position outside the
    /// buffer writes nothing.
    pub fn draw_pixel(&mut self, x: i32, y: i32, c: [u8; 3])
        requires
            old(self).wf(),
        ensures
            final(self).wf(),
            final(self).width == old(self).width && final(self).height == old(self).height,
            final(self).depth@ == old(self).depth@,
            final(self).color@ == if 0 <= x < old(self).width && 0 <= y < old(self).height {
                Self::painted(old(self).color@, x + y * old(self).width, c)
            } else {
                old(self).color@
            },
    {
        if 0 <= x && x < self.width as i32 && 0 <= y && y < self.height as i32 {
            proof {
                assert(x + y * self.width < self.width * self.height) by (nonlinear_arith)
                    requires
                        0 <= x < self.width,
                        0 <= y < self.height,
                ;
            }
            let i = (x as usize + y as usize * self.width) * 4;
            self.color.set(i, c[2]);
            self.color.set(i + 1, c[1]);
            self.color.set(i + 2, c[0]);
        }
    }

    /// The pixels that `draw_triangle` scans for corners at `xs`, `ys`, as
    /// `(x0, y0, x1, y1)`: columns `x0..x1` of rows `y0..y1`.
    pub fn scan_bounds(&self, xs: [i32; 3], ys: [i32; 3]) -> (r: (i32, i32, i32, i32))
        requires
            self.wf(),
        ensures
            (r.0 as int, r.1 as int, r.2 as int, r.3 as int) == scan_box(
                self.width as int,
                self.height as int,
                xs,
                ys,
            ),
    {
        let w = self.width as i64;
        let h = self.height as i64;
        let mut min_x: i64 = w;
        let mut min_y: i64 = h;
        let mut max_x: i64 = 0;
        let mut max_y: i64 = 0;
        let mut k: usize = 0;
        while k < 3
            invariant
                k <= 3,
                w == self.width && h == self.height,
                min_x == if k == 0 {
                    w as int
                } else if k == 1 {
                    min_int(w as int, xs[0] as int)
                } else if k == 2 {
                    min_int(min_int(w as int, xs[0] as int), xs[1] as int)
                } else {
                    min_int(min_int(min_int(w as int, xs[0] as int), xs[1] as int), xs[2] as int)
                },
                min_y == if k == 0 {
                    h as int
                } else if k == 1 {
                    min_int(h as int, ys[0] as int)
                } else if k == 2 {
                    min_int(min_int(h as int, ys[0] as int), ys[1] as int)
                } else {
                    min_int(min_int(min_int(h as int, ys[0] as int), ys[1] as int), ys[2] as int)
                },
                max_x == if k == 0 {
                    0
                } else if k == 1 {
                    max_int(0, xs[0] as int)
                } else if k == 2 {
                    max_int(max_int(0, xs[0] as int), xs[1] as int)
                } else {
                    max_int(max_int(max_int(0, xs[0] as int), xs[1] as int), xs[2] as int)
                },
                max_y == if k == 0 {
                    0
                } else if k == 1 {
                    max_int(0, ys[0] as int)
                } else if k == 2 {
                    max_int(max_int(0, ys[0] as int), ys[1] as int)
                } else {
                    max_int(max_int(max_int(0, ys[0] as int), ys[1] as int), ys[2] as int)
                },
            decreases 3 - k,
        {
            let vx = xs[k] as i64;
            let vy = ys[k] as i64;
            if vx < min_x {
                min_x = vx;
            }
            if vy < min_y {
                min_y = vy;
            }
            if vx > max_x {
                max_x = vx;
            }
            if vy > max_y {
                max_y = vy;
            }
            k = k + 1;
        }
        (clamp(min_x - 1, w), clamp(min_y - 1, h), clamp(max_x + 1, w), clamp(max_y + 1, h))
    }

    /// What scanning a triangle leaves at pixel i: the unused fourth byte is kept;
    /// a pixel that was not `visited` is kept whole; a visited one either is kept,
    /// where the fragment was outside or not nearer, or has been drawn: it holds
    /// the fragment's depth and its colour.
    pub open spec fn cell_after<F, C, L, S>(
        before: Framebuffer<D>,
        after: Framebuffer<D>,
        i: int,
        visited: bool,
        cover: C,
        nearer: L,
        shade: S,
    ) -> bool where
        C: Fn(i32, i32) -> Option<(D, F)>,
        L: Fn(D, D) -> bool,
        S: Fn(F) -> [u8; 3],
     {
        let (x, y) = (i % before.width as int, i / before.width as int);
        let unchanged = after.depth@[i] == before.depth@[i] && after.color@[4 * i]
            == before.color@[4 * i] && after.color@[4 * i + 1] == before.color@[4 * i + 1]
            && after.color@[4 * i + 2] == before.color@[4 * i + 2];
        &&& after.color@[4 * i + 3] == before.color@[4 * i + 3]
        &&& if visited {
            ||| (unchanged && kept::<D, F, C, L>(cover, nearer, x, y, before.depth@[i]))
            ||| drawn::<D, F, C, L, S>(
                cover,
                nearer,
                shade,
                x,
                y,
                before.depth@[i],
                after.depth@[i],
                after.color@[4 * i + 2],
                after.color@[4 * i + 1],
                after.color@[4 * i],
            )
        } else {
            unchanged
        }
    }

    /// Draws one triangle. The pixels of its scan box (see `scan_bounds`) are
    /// visited once each, rows from the lowest y up and each row by increasing x.
    /// `cover(x, y)` gives the fragment at a pixel, its depth and the data to shade
    /// it with, or `None` outside the triangle. A fragment whose depth is `nearer`
    /// than the pixel's is drawn: its depth is stored and `shade` gives its colour.
    /// Nothing else changes.
    pub fn draw_triangle<F, C, L, S>(
        &mut self,
        xs: [i32; 3],
        ys: [i32; 3],
        cover: C,
        nearer: L,
        shade: S,
    ) where C: Fn(i32, i32) -> Option<(D, F)>, L: Fn(D, D) -> bool, S: Fn(F) -> [u8; 3]
        requires
            old(self).wf(),
            forall|x: i32, y: i32| #[trigger] cover.requires((x, y)),
            forall|z: D, d: D| #[trigger] nearer.requires((z, d)),
            forall|f: F| #[trigger] shade.requires((f,)),
        ensures
            final(self).wf(),
            final(self).width == old(self).width && final(self).height == old(self).height,
            forall|i: int|
                0 <= i < old(self).cells() ==> #[trigger] Self::cell_after(
                    *old(self),
                    *final(self),
                    i,
                    in_box(
                        scan_box(old(self).width as int, old(self).height as int, xs, ys),
                        i % old(self).width as int,
                        i / old(self).width as int,
                    ),
                    cover,
                    nearer,
                    shade,
                ),
    {
        let ghost before = *self;
        let ghost w = self.width as int;
        let (x0, y0, x1, y1) = self.scan_bounds(xs, ys);
        let ghost b = (x0 as int, y0 as int, x1 as int, y1 as int);
        let mut cy = y0;
        while cy < y1
            invariant
                self.wf(),
                self.width == before.width && self.height == before.height,
                w == self.width,
                b == scan_box(w, self.height as int, xs, ys),
                b == (x0 as int, y0 as int, x1 as int, y1 as int),
                0 <= x0 <= x1 <= w && 0 <= y0 <= cy && y0 <= y1 <= self.height,
                cy <= y1,
                forall|x: i32, y: i32| #[trigger] cover.requires((x, y)),
                forall|z: D, d: D| #[trigger] nearer.requires((z, d)),
                forall|f: F| #[trigger] shade.requires((f,)),
                forall|i: int|
                    0 <= i < before.cells() ==> #[trigger] Self::cell_after(
                        before,
                        *self,
                        i,
                        scanned(b, w, cy as int, x0 as int, i),
                        cover,
                        nearer,
                        shade,
                    ),
            decreases y1 - cy,
        {
            let mut cx = x0;
            while cx < x1
                invariant
                    self.wf(),
                    self.width == before.width && self.height == before.height,
                    w == self.width,
                    b == scan_box(w, self.height as int, xs, ys),
                    b == (x0 as int, y0 as int, x1 as int, y1 as int),
                b == (x0 as int, y0 as int, x1 as int, y1 as int),
                    0 <= x0 <= cx <= x1 <= w && 0 <= y0 <= cy < y1 <= self.height,
                    forall|x: i32, y: i32| #[trigger] cover.requires((x, y)),
                    forall|z: D, d: D| #[trigger] nearer.requires((z, d)),
                    forall|f: F| #[trigger] shade.requires((f,)),
                    forall|i: int|
                        0 <= i < before.cells() ==> #[trigger] Self::cell_after(
                            before,
                            *self,
                            i,
                            scanned(b, w, cy as int, cx as int, i),
                            cover,
                            nearer,
                            shade,
                        ),
                decreases x1 - cx,
            {
                let ghost mid = *self;
                let ghost j = cx + cy * w;
                proof {
                    assert(0 <= j < w * self.height && j % w == cx as int && j / w == cy as int)
                        by (nonlinear_arith)
                        requires
                            j == cx + cy * w,
                            0 <= cx < w,
                            0 <= cy < self.height,
                    ;
                }
                let k = cx as usize + cy as usize * self.width;
                proof {
                    assert((j % w) as i32 == cx && (j / w) as i32 == cy);
                    assert(Self::cell_after(
                        before,
                        mid,
                        j,
                        scanned(b, w, cy as int, cx as int, j),
                        cover,
                        nearer,
                        shade,
                    ));
                    assert(!scanned(b, w, cy as int, cx as int, j));
                }
                let fragment = cover(cx, cy);
                let ghost seen = fragment;
                match fragment {
                    Some((z, f)) => {
                        let d = self.depth[k];
                        if nearer(z, d) {
                            let ghost gf = f;
                            self.depth.set(k, z);
                            let c = shade(f);
                            self.draw_pixel(cx, cy, c);
                            proof {
                                assert(self.color@[4 * j + 2] == c[0]);
                                assert(self.color@[4 * j + 1] == c[1]);
                                assert(self.color@[4 * j] == c[2]);
                                assert(drawn::<D, F, C, L, S>(
                                    cover,
                                    nearer,
                                    shade,
                                    j % w,
                                    j / w,
                                    before.depth@[j],
                                    self.depth@[j],
                                    self.color@[4 * j + 2],
                                    self.color@[4 * j + 1],
                                    self.color@[4 * j],
                                ));
                            }
                        } else {
                            proof {
                                assert(kept::<D, F, C, L>(cover, nearer, j % w, j / w, before.depth@[j]));
                            }
                        }
                    },
                    None => {
                        proof {
                            assert(kept::<D, F, C, L>(cover, nearer, j % w, j / w, before.depth@[j]));
                        }
                    },
                }
                proof {
                    assert(Self::cell_after(before, *self, j, true, cover, nearer, shade));
                    assert(scanned(b, w, cy as int, cx + 1, j));
                    assert forall|i: int| 0 <= i < before.cells() implies #[trigger] Self::cell_after(
                        before,
                        *self,
                        i,
                        scanned(b, w, cy as int, cx + 1, i),
                        cover,
                        nearer,
                        shade,
                    ) by {
                        assert(Self::cell_after(
                            before,
                            mid,
                            i,
                            scanned(b, w, cy as int, cx as int, i),
                            cover,
                            nearer,
                            shade,
                        ));
                        if i != j {
                            if i % w == cx && i / w == cy {
                                assert(i == j) by (nonlinear_arith)
                                    requires
                                        i % w == cx,
                                        i / w == cy,
                                        j == cx + cy * w,
                                        w > 0,
                                        i >= 0,
                                ;
                            }
                            assert(scanned(b, w, cy as int, cx + 1, i) == scanned(
                                b,
                                w,
                                cy as int,
                                cx as int,
                                i,
                            ));
                            assert(self.depth@[i] == mid.depth@[i]);
                            assert(self.color@[4 * i] == mid.color@[4 * i]);
                            assert(self.color@[4 * i + 1] == mid.color@[4 * i + 1]);
                            assert(self.color@[4 * i + 2] == mid.color@[4 * i + 2]);
                            assert(self.color@[4 * i + 3] == mid.color@[4 * i + 3]);
                        }
                    }
                }
                cx = cx + 1;
            }
            proof {
                assert forall|i: int| 0 <= i < before.cells() implies #[trigger] Self::cell_after(
                    before,
                    *self,
                    i,
                    scanned(b, w, cy + 1, x0 as int, i),
                    cover,
                    nearer,
                    shade,
                ) by {
                    assert(Self::cell_after(
                        before,
                        *self,
                        i,
                        scanned(b, w, cy as int, cx as int, i),
                        cover,
                        nearer,
                        shade,
                    ));
                    assert(scanned(b, w, cy + 1, x0 as int, i) == scanned(b, w, cy as int, cx as int, i));
                }
            }
            cy = cy + 1;
        }
        proof {
            assert forall|i: int| 0 <= i < before.cells() implies #[trigger] Self::cell_after(
                before,
                *self,
                i,
                in_box(b, i % w, i / w),
                cover,
                nearer,
                shade,
            ) by {
                assert(Self::cell_after(
                    before,
                    *self,
                    i,
                    scanned(b, w, cy as int, x0 as int, i),
                    cover,
                    nearer,
                    shade,
                ));
                assert(in_box(b, i % w, i / w) == scanned(b, w, cy as int, x0 as int, i));
            }
        }
    }
}

/// Within the drawing of one triangle a pixel's depth only moves nearer, and its
/// colour changes at most once, to a colour of a fragment of that triangle: where
/// the depth changed, `nearer` judged the new depth nearer than the old one; where
/// the colour changed, the triangle covers the pixel and its shading gave that
/// colour.
pub proof fn lemma_draw_moves_nearer<D: Copy, F, C, L, S>(
    before: Framebuffer<D>,
    after: Framebuffer<D>,
    i: int,
    visited: bool,
    cover: C,
    nearer: L,
    shade: S,
) where C: Fn(i32, i32) -> Option<(D, F)>, L: Fn(D, D) -> bool, S: Fn(F) -> [u8; 3]
    requires
        Framebuffer::<D>::cell_after(before, after, i, visited, cover, nearer, shade),
    ensures
        after.depth@[i] != before.depth@[i] ==> nearer.ensures(
            (after.depth@[i], before.depth@[i]),
            true,
        ),
        (after.depth@[i] != before.depth@[i] || after.color@[4 * i] != before.color@[4 * i]
            || after.color@[4 * i + 1] != before.color@[4 * i + 1] || after.color@[4 * i + 2]
            != before.color@[4 * i + 2]) ==> drawn::<D, F, C, L, S>(
            cover,
            nearer,
            shade,
            i % before.width as int,
            i / before.width as int,
            before.depth@[i],
            after.depth@[i],
            after.color@[4 * i + 2],
            after.color@[4 * i + 1],
            after.color@[4 * i],
        ),
        after.color@[4 * i + 3] == before.color@[4 * i + 3],
{
}

/// `v` clamped to `[0, hi]`.
fn clamp(v: i64, hi: i64) -> (r: i32)
    requires
        0 <= hi <= i32::MAX,
    ensures
        r == clamp_int(v as int, 0, hi as int),
{
    if v < 0 {
        0
    } else if v > hi {
        hi as i32
    } else {
        v as i32
    }
}

} // verus!

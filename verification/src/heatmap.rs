//! Diagnostic heatmap pipeline.
//!
//! The diagnostic-data object pages raw sensor samples out 128 bytes at a
//! time: two header bytes (the echoed object id and the page index) and then
//! packed little-endian signed 16-bit samples, two per sensor node. The
//! sweep walks those pages, maps each sample's linear node index to a pixel
//! coordinate (row-major over the un-swapped matrix, then x-invert, then
//! y-invert, then swap), normalizes the sample against the caller's bounds
//! and writes the resulting color into the output grid. The surrounding
//! application performs the page reads and the advance-page writes; every
//! address, page count, staleness test, transform and pixel value is decided
//! and verified here.

use crate::objects::{le_i16_at, DEBUG_OBJECT_ID};
use vstd::arithmetic::div_mod::{lemma_fundamental_div_mod, lemma_mod_bound};
use vstd::prelude::*;

verus! {

/// Bytes of sample data in one diagnostic page.
pub const DIAG_PAGE_SIZE: usize = 128;

/// Header bytes preceding the sample data of a page: the echoed object id
/// and the page index.
pub const DIAG_HEADER_SIZE: usize = 2;

/// Sensor nodes covered by one page: two bytes per sample.
pub const NODES_PER_PAGE: usize = 64;

/// Diagnostic selector value that advances to the next page.
pub const ADVANCE_PAGE: u8 = 1;

/// Width of the output grid: the x extent, or the y extent when the axes
/// are swapped.
pub open spec fn out_width(sx: int, sy: int, sw: bool) -> int {
    if sw {
        sy
    } else {
        sx
    }
}

/// Height of the output grid: the y extent, or the x extent when the axes
/// are swapped.
pub open spec fn out_height(sx: int, sy: int, sw: bool) -> int {
    if sw {
        sx
    } else {
        sy
    }
}

/// Whether the transform keeps every node inside the output grid. Axis
/// inversion uses the output extents while the raw coordinates range over
/// the matrix extents, so combining a swap with an inversion is only
/// in-bounds on a square matrix.
pub open spec fn square_ok(sx: int, sy: int, ix: bool, iy: bool, sw: bool) -> bool {
    sw && (ix || iy) ==> sx == sy
}

/// The x pixel coordinate of linear node index `idx`: row-major over the
/// un-swapped matrix, then x-invert, then y-invert, then swap.
pub open spec fn t_x(idx: int, sx: int, sy: int, ix: bool, iy: bool, sw: bool) -> int {
    let x0 = idx / sy;
    let y0 = idx % sy;
    let x1 = if ix {
        out_width(sx, sy, sw) - 1 - x0
    } else {
        x0
    };
    let y1 = if iy {
        out_height(sx, sy, sw) - 1 - y0
    } else {
        y0
    };
    if sw {
        y1
    } else {
        x1
    }
}

/// The y pixel coordinate of linear node index `idx`.
pub open spec fn t_y(idx: int, sx: int, sy: int, ix: bool, iy: bool, sw: bool) -> int {
    let x0 = idx / sy;
    let y0 = idx % sy;
    let x1 = if ix {
        out_width(sx, sy, sw) - 1 - x0
    } else {
        x0
    };
    let y1 = if iy {
        out_height(sx, sy, sw) - 1 - y0
    } else {
        y0
    };
    if sw {
        x1
    } else {
        y1
    }
}

/// Every node of the matrix lands inside the output grid.
pub proof fn lemma_transform_bounds(idx: int, sx: int, sy: int, ix: bool, iy: bool, sw: bool)
    requires
        0 < sx,
        0 < sy,
        0 <= idx < sx * sy,
        square_ok(sx, sy, ix, iy, sw),
    ensures
        0 <= idx / sy < sx,
        0 <= idx % sy < sy,
        ix ==> idx / sy <= out_width(sx, sy, sw) - 1,
        iy ==> idx % sy <= out_height(sx, sy, sw) - 1,
        0 <= t_x(idx, sx, sy, ix, iy, sw) < out_width(sx, sy, sw),
        0 <= t_y(idx, sx, sy, ix, iy, sw) < out_height(sx, sy, sw),
{
    lemma_fundamental_div_mod(idx, sy);
    lemma_mod_bound(idx, sy);
    let x0 = idx / sy;
    let y0 = idx % sy;
    assert(0 <= x0) by (nonlinear_arith)
        requires
            idx == sy * x0 + y0,
            0 <= y0 < sy,
            0 <= idx,
            0 < sy,
    ;
    assert(x0 < sx) by (nonlinear_arith)
        requires
            idx == sy * x0 + y0,
            0 <= y0 < sy,
            idx < sx * sy,
            0 < sy,
    ;
}

/// Distinct node indices land on distinct pixels.
pub proof fn lemma_transform_injective(
    i1: int,
    i2: int,
    sx: int,
    sy: int,
    ix: bool,
    iy: bool,
    sw: bool,
)
    requires
        0 < sx,
        0 < sy,
        0 <= i1 < sx * sy,
        0 <= i2 < sx * sy,
        i1 != i2,
        square_ok(sx, sy, ix, iy, sw),
    ensures
        t_x(i1, sx, sy, ix, iy, sw) != t_x(i2, sx, sy, ix, iy, sw) || t_y(
            i1,
            sx,
            sy,
            ix,
            iy,
            sw,
        ) != t_y(i2, sx, sy, ix, iy, sw),
{
    lemma_transform_bounds(i1, sx, sy, ix, iy, sw);
    lemma_transform_bounds(i2, sx, sy, ix, iy, sw);
    lemma_fundamental_div_mod(i1, sy);
    lemma_fundamental_div_mod(i2, sy);
    if t_x(i1, sx, sy, ix, iy, sw) == t_x(i2, sx, sy, ix, iy, sw) && t_y(
        i1,
        sx,
        sy,
        ix,
        iy,
        sw,
    ) == t_y(i2, sx, sy, ix, iy, sw) {
        assert(i1 / sy == i2 / sy && i1 % sy == i2 % sy);
        assert(i1 == i2);
    }
}

/// Clamp a non-negative scaled value to the top of a color channel.
pub open spec fn clamp255(m: int) -> int {
    if m > 255 {
        255
    } else {
        m
    }
}

/// The (red, green, blue) color a sample normalizes to.
///
/// A negative `low` makes the range symmetric: the sample is scaled by
/// `max(-low, high)` and clamped to `[-1, 1]`; negative samples saturate
/// the red channel while green and blue fall off together, positive samples
/// saturate blue. A non-negative `low` maps `(sample - low) / (high - low)`
/// clamped to `[0, 1]` onto a white-to-blue gradient only. Channel values
/// scale the fraction by 255, truncated.
pub open spec fn color_of(sample: int, low: int, high: int) -> (int, int, int) {
    if low < 0 {
        let range = if -low >= high {
            -low
        } else {
            high
        };
        if sample < 0 {
            let m = clamp255((-sample) * 255 / range);
            (255, 255 - m, 255 - m)
        } else {
            let m = clamp255(sample * 255 / range);
            (255 - m, 255 - m, 255)
        }
    } else {
        let d = if sample <= low {
            0
        } else {
            sample - low
        };
        let m = clamp255(d * 255 / (high - low));
        (255 - m, 255 - m, 255)
    }
}

/// The sample of node slot `k` within a page: two bytes little-endian after
/// the page header.
pub open spec fn sample_at(d: Seq<u8>, k: int) -> i16 {
    le_i16_at(d, DIAG_HEADER_SIZE + 2 * k)
}

/// Compute the color a sample normalizes to.
pub fn pixel_color(sample: i16, low: i16, high: i16) -> (c: (u8, u8, u8))
    requires
        low >= 0 ==> high > low,
    ensures
        c.0 == color_of(sample as int, low as int, high as int).0,
        c.1 == color_of(sample as int, low as int, high as int).1,
        c.2 == color_of(sample as int, low as int, high as int).2,
{
    if low < 0 {
        let neg_low: i32 = -(low as i32);
        let range: i32 = if neg_low >= high as i32 {
            neg_low
        } else {
            high as i32
        };
        if sample < 0 {
            let scaled: i32 = (-(sample as i32)) * 255 / range;
            let m: i32 = if scaled > 255 {
                255
            } else {
                scaled
            };
            (255, (255 - m) as u8, (255 - m) as u8)
        } else {
            let scaled: i32 = (sample as i32) * 255 / range;
            let m: i32 = if scaled > 255 {
                255
            } else {
                scaled
            };
            ((255 - m) as u8, (255 - m) as u8, 255)
        }
    } else {
        let d: i32 = if sample as i32 <= low as i32 {
            0
        } else {
            sample as i32 - low as i32
        };
        let scaled: i32 = d * 255 / (high as i32 - low as i32);
        let m: i32 = if scaled > 255 {
            255
        } else {
            scaled
        };
        ((255 - m) as u8, (255 - m) as u8, 255)
    }
}

/// A pixel's three bytes at `3 * (y * width + x)` lie inside the grid
/// buffer.
proof fn lemma_pixel_index(w: int, h: int, x: int, y: int)
    requires
        0 <= x < w,
        0 <= y < h,
    ensures
        0 <= 3 * (y * w + x),
        3 * (y * w + x) + 3 <= 3 * (w * h),
{
    assert(0 <= y * w + x && y * w + x < w * h) by (nonlinear_arith)
        requires
            0 <= x < w,
            0 <= y < h,
    ;
}

/// Distinct pixel coordinates occupy distinct byte offsets.
proof fn lemma_pixel_index_distinct(w: int, x1: int, y1: int, x2: int, y2: int)
    requires
        0 <= x1 < w,
        0 <= x2 < w,
        0 <= y1,
        0 <= y2,
        x1 != x2 || y1 != y2,
    ensures
        y1 * w + x1 != y2 * w + x2,
{
    if y1 == y2 {
    } else {
        assert(y1 * w + x1 != y2 * w + x2) by (nonlinear_arith)
            requires
                0 <= x1 < w,
                0 <= x2 < w,
                y1 != y2,
        ;
    }
}

/// A width-by-height grid of RGB pixels, rows stored top to bottom as three
/// bytes per pixel.
pub struct PixelGrid {
    width: usize,
    height: usize,
    pixels: Vec<u8>,
}

impl PixelGrid {
    /// Width of the grid in pixels.
    pub closed spec fn spec_width(&self) -> int {
        self.width as int
    }

    /// Height of the grid in pixels.
    pub closed spec fn spec_height(&self) -> int {
        self.height as int
    }

    /// The buffer holds exactly three bytes per pixel, and the extents are
    /// those of a sensor matrix.
    pub closed spec fn wf(&self) -> bool {
        &&& self.pixels@.len() == 3 * (self.spec_width() * self.spec_height())
        &&& self.spec_width() <= 255
        &&& self.spec_height() <= 255
    }

    /// The (red, green, blue) value stored at a coordinate.
    pub closed spec fn spec_pixel(&self, x: int, y: int) -> (int, int, int) {
        (
            self.pixels@[3 * (y * self.spec_width() + x)] as int,
            self.pixels@[3 * (y * self.spec_width() + x) + 1] as int,
            self.pixels@[3 * (y * self.spec_width() + x) + 2] as int,
        )
    }

    /// A grid of the given extents with every pixel black.
    pub fn new(width: usize, height: usize) -> (g: PixelGrid)
        requires
            width <= 255,
            height <= 255,
        ensures
            g.wf(),
            g.spec_width() == width,
            g.spec_height() == height,
            forall|x: int, y: int|
                0 <= x < width && 0 <= y < height ==> g.spec_pixel(x, y) == (
                    0int,
                    0int,
                    0int,
                ),
    {
        proof {
            assert(width * height <= 65025) by (nonlinear_arith)
                requires
                    width <= 255,
                    height <= 255,
            ;
        }
        let total = 3 * (width * height);
        let mut pixels: Vec<u8> = Vec::new();
        let mut i: usize = 0;
        while i < total
            invariant
                i <= total,
                pixels@.len() == i,
                forall|j: int| 0 <= j < i ==> pixels@[j] == 0u8,
            decreases total - i,
        {
            pixels.push(0);
            i = i + 1;
        }
        let g = PixelGrid { width, height, pixels };
        proof {
            assert forall|x: int, y: int| 0 <= x < width && 0 <= y < height implies g.spec_pixel(
                x,
                y,
            ) == (0int, 0int, 0int) by {
                lemma_pixel_index(width as int, height as int, x, y);
            }
        }
        g
    }

    /// Width of the grid in pixels.
    pub fn width(&self) -> (w: usize)
        ensures
            w == self.spec_width(),
    {
        self.width
    }

    /// Height of the grid in pixels.
    pub fn height(&self) -> (h: usize)
        ensures
            h == self.spec_height(),
    {
        self.height
    }

    /// Write one pixel; every other pixel keeps its value.
    pub fn put(&mut self, x: usize, y: usize, c: (u8, u8, u8))
        requires
            old(self).wf(),
            x < old(self).spec_width(),
            y < old(self).spec_height(),
        ensures
            final(self).wf(),
            final(self).spec_width() == old(self).spec_width(),
            final(self).spec_height() == old(self).spec_height(),
            final(self).spec_pixel(x as int, y as int) == (c.0 as int, c.1 as int, c.2 as int),
            forall|x2: int, y2: int|
                0 <= x2 < old(self).spec_width() && 0 <= y2 < old(self).spec_height() && !(x2
                    == x && y2 == y) ==> final(self).spec_pixel(x2, y2) == old(
                    self,
                ).spec_pixel(x2, y2),
    {
        proof {
            lemma_pixel_index(
                self.spec_width(),
                self.spec_height(),
                x as int,
                y as int,
            );
            assert(self.spec_width() * self.spec_height() <= 65025) by (nonlinear_arith)
                requires
                    self.spec_width() <= 255,
                    self.spec_height() <= 255,
            ;
        }
        let base = 3 * (y * self.width + x);
        self.pixels.set(base, c.0);
        self.pixels.set(base + 1, c.1);
        self.pixels.set(base + 2, c.2);
        proof {
            assert forall|x2: int, y2: int|
                0 <= x2 < self.spec_width() && 0 <= y2 < self.spec_height() && !(x2 == x && y2
                    == y) implies final(self).spec_pixel(x2, y2) == old(self).spec_pixel(
                x2,
                y2,
            ) by {
                lemma_pixel_index(self.spec_width(), self.spec_height(), x2, y2);
                lemma_pixel_index_distinct(
                    self.spec_width(),
                    x2,
                    y2,
                    x as int,
                    y as int,
                );
            }
        }
    }

    /// Read one pixel.
    pub fn get(&self, x: usize, y: usize) -> (c: (u8, u8, u8))
        requires
            self.wf(),
            x < self.spec_width(),
            y < self.spec_height(),
        ensures
            c.0 == self.spec_pixel(x as int, y as int).0,
            c.1 == self.spec_pixel(x as int, y as int).1,
            c.2 == self.spec_pixel(x as int, y as int).2,
    {
        proof {
            lemma_pixel_index(
                self.spec_width(),
                self.spec_height(),
                x as int,
                y as int,
            );
            assert(self.spec_width() * self.spec_height() <= 65025) by (nonlinear_arith)
                requires
                    self.spec_width() <= 255,
                    self.spec_height() <= 255,
            ;
        }
        let base = 3 * (y * self.width + x);
        (self.pixels[base], self.pixels[base + 1], self.pixels[base + 2])
    }

    /// Hand out the raw buffer for the container encoder: three bytes per
    /// pixel, row-major.
    pub fn into_bytes(self) -> (r: Vec<u8>)
        requires
            self.wf(),
        ensures
            r@.len() == 3 * (self.spec_width() * self.spec_height()),
            forall|x: int, y: int|
                0 <= x < self.spec_width() && 0 <= y < self.spec_height() ==> {
                    &&& r@[3 * (y * self.spec_width() + x)] as int == self.spec_pixel(x, y).0
                    &&& r@[3 * (y * self.spec_width() + x) + 1] as int == self.spec_pixel(
                        x,
                        y,
                    ).1
                    &&& r@[3 * (y * self.spec_width() + x) + 2] as int == self.spec_pixel(
                        x,
                        y,
                    ).2
                },
    {
        proof {
            assert forall|x: int, y: int|
                0 <= x < self.spec_width() && 0 <= y < self.spec_height() implies {
                &&& self.pixels@[3 * (y * self.spec_width() + x)] as int == self.spec_pixel(
                    x,
                    y,
                ).0
                &&& self.pixels@[3 * (y * self.spec_width() + x) + 1] as int
                    == self.spec_pixel(x, y).1
                &&& self.pixels@[3 * (y * self.spec_width() + x) + 2] as int
                    == self.spec_pixel(x, y).2
            } by {
                lemma_pixel_index(self.spec_width(), self.spec_height(), x, y);
            }
        }
        self.pixels
    }
}

/// Some node of this page lands on pixel `(x, y)`.
pub open spec fn page_touches_upto(
    page: int,
    nodes: int,
    sx: int,
    sy: int,
    ix: bool,
    iy: bool,
    sw: bool,
    x: int,
    y: int,
    kmax: int,
) -> bool {
    exists|k: int|
        0 <= k < kmax && page * NODES_PER_PAGE + k < nodes && #[trigger] t_x(
            page * NODES_PER_PAGE + k,
            sx,
            sy,
            ix,
            iy,
            sw,
        ) == x && t_y(page * NODES_PER_PAGE + k, sx, sy, ix, iy, sw) == y
}

/// The running minimum sample after the first `k` node slots of a page,
/// starting from `acc`; slots beyond the node count do not take part.
pub open spec fn min_after(d: Seq<u8>, base: int, nodes: int, k: int, acc: int) -> int
    decreases k,
{
    if k <= 0 {
        acc
    } else {
        let prev = min_after(d, base, nodes, k - 1, acc);
        if base + (k - 1) < nodes && sample_at(d, k - 1) < prev {
            sample_at(d, k - 1) as int
        } else {
            prev
        }
    }
}

/// The running maximum sample after the first `k` node slots of a page.
pub open spec fn max_after(d: Seq<u8>, base: int, nodes: int, k: int, acc: int) -> int
    decreases k,
{
    if k <= 0 {
        acc
    } else {
        let prev = max_after(d, base, nodes, k - 1, acc);
        if base + (k - 1) < nodes && sample_at(d, k - 1) > prev {
            sample_at(d, k - 1) as int
        } else {
            prev
        }
    }
}

/// A diagnostic sweep in flight: pages taken so far, the output grid, and
/// the running sample range for out-of-range diagnostics.
pub struct HeatmapSweep {
    /// Sensor matrix extent along x.
    pub sx: u8,
    /// Sensor matrix extent along y.
    pub sy: u8,
    /// Mirror the x axis.
    pub invert_x: bool,
    /// Mirror the y axis.
    pub invert_y: bool,
    /// Swap the axes.
    pub swap_xy: bool,
    /// Lower normalization bound.
    pub low: i16,
    /// Upper normalization bound.
    pub high: i16,
    /// Pages taken so far.
    pub pages_done: usize,
    /// Smallest sample seen so far.
    pub min_sample: i16,
    /// Largest sample seen so far.
    pub max_sample: i16,
    /// The output grid.
    pub grid: PixelGrid,
}

impl HeatmapSweep {
    /// Total sensor nodes of the matrix.
    pub open spec fn spec_nodes(&self) -> int {
        self.sx as int * self.sy as int
    }

    /// Pages the sweep takes: `ceil(nodes * 2 / page size)`.
    pub open spec fn spec_page_count(&self) -> int {
        (self.spec_nodes() * 2 + DIAG_PAGE_SIZE - 1) / DIAG_PAGE_SIZE as int
    }

    /// The sweep's bookkeeping is consistent.
    pub open spec fn wf(&self) -> bool {
        &&& self.grid.wf()
        &&& self.grid.spec_width() == out_width(self.sx as int, self.sy as int, self.swap_xy)
        &&& self.grid.spec_height() == out_height(
            self.sx as int,
            self.sy as int,
            self.swap_xy,
        )
        &&& square_ok(self.sx as int, self.sy as int, self.invert_x, self.invert_y,
        self.swap_xy)
        &&& self.low >= 0 ==> self.high > self.low
        &&& 0 <= self.pages_done <= self.spec_page_count()
    }

    /// Every page has been taken.
    pub open spec fn spec_done(&self) -> bool {
        self.pages_done == self.spec_page_count()
    }

    /// Start a sweep for a matrix of the given extents and orientation,
    /// normalizing against `low` and `high`. The grid starts black.
    pub fn new(sx: u8, sy: u8, invert_x: bool, invert_y: bool, swap_xy: bool, low: i16, high: i16)
        -> (s: HeatmapSweep)
        requires
            square_ok(sx as int, sy as int, invert_x, invert_y, swap_xy),
            low >= 0 ==> high > low,
        ensures
            s.wf(),
            s.sx == sx && s.sy == sy,
            s.invert_x == invert_x && s.invert_y == invert_y && s.swap_xy == swap_xy,
            s.low == low && s.high == high,
            s.pages_done == 0,
            s.min_sample == i16::MAX,
            s.max_sample == i16::MIN,
            forall|x: int, y: int|
                0 <= x < s.grid.spec_width() && 0 <= y < s.grid.spec_height()
                    ==> s.grid.spec_pixel(x, y) == (0int, 0int, 0int),
    {
        let width: usize = if swap_xy {
            sy as usize
        } else {
            sx as usize
        };
        let height: usize = if swap_xy {
            sx as usize
        } else {
            sy as usize
        };
        HeatmapSweep {
            sx,
            sy,
            invert_x,
            invert_y,
            swap_xy,
            low,
            high,
            pages_done: 0,
            min_sample: i16::MAX,
            max_sample: i16::MIN,
            grid: PixelGrid::new(width, height),
        }
    }

    /// Number of pages the sweep takes in all.
    pub fn page_count(&self) -> (n: usize)
        ensures
            n == self.spec_page_count(),
    {
        proof {
            assert(self.sx as int * self.sy as int <= 65025) by (nonlinear_arith)
                requires
                    self.sx <= 255,
                    self.sy <= 255,
            ;
        }
        let nodes = (self.sx as usize) * (self.sy as usize);
        (nodes * 2 + (DIAG_PAGE_SIZE - 1)) / DIAG_PAGE_SIZE
    }

    /// Whether every page has been taken and the grid is complete.
    pub fn is_done(&self) -> (done: bool)
        requires
            self.wf(),
        ensures
            done == self.spec_done(),
    {
        self.pages_done == self.page_count()
    }

    /// Whether freshly read page data is stale: neither the echoed object
    /// id nor the page index is the expected one. The protocol's answer is
    /// a single best-effort re-read, not a loop.
    pub fn page_stale(&self, data: &Vec<u8>) -> (stale: bool)
        requires
            data@.len() >= DIAG_HEADER_SIZE,
        ensures
            stale == (data@[0] != DEBUG_OBJECT_ID && data@[1] != self.pages_done as u8),
    {
        data[0] != DEBUG_OBJECT_ID && data[1] != self.pages_done as u8
    }

    /// Take one page of diagnostic data: each sample in it that falls on a
    /// real node is normalized and written at its transformed coordinate,
    /// every other pixel keeps its value, and the sample range is folded in.
    /// Node slots at or past the node count are discarded.
    #[verifier::loop_isolation(false)]
    pub fn accept_page(&mut self, data: &Vec<u8>)
        requires
            old(self).wf(),
            !old(self).spec_done(),
            data@.len() >= DIAG_HEADER_SIZE + 2 * NODES_PER_PAGE,
        ensures
            final(self).wf(),
            final(self).sx == old(self).sx && final(self).sy == old(self).sy,
            final(self).invert_x == old(self).invert_x && final(self).invert_y == old(
                self,
            ).invert_y && final(self).swap_xy == old(self).swap_xy,
            final(self).low == old(self).low && final(self).high == old(self).high,
            final(self).pages_done == old(self).pages_done + 1,
            forall|k: int|
                0 <= k < NODES_PER_PAGE && old(self).pages_done * NODES_PER_PAGE + k < old(
                    self,
                ).spec_nodes() ==> #[trigger] final(self).grid.spec_pixel(
                    t_x(
                        old(self).pages_done * NODES_PER_PAGE + k,
                        old(self).sx as int,
                        old(self).sy as int,
                        old(self).invert_x,
                        old(self).invert_y,
                        old(self).swap_xy,
                    ),
                    t_y(
                        old(self).pages_done * NODES_PER_PAGE + k,
                        old(self).sx as int,
                        old(self).sy as int,
                        old(self).invert_x,
                        old(self).invert_y,
                        old(self).swap_xy,
                    ),
                ) == color_of(
                    sample_at(data@, k) as int,
                    old(self).low as int,
                    old(self).high as int,
                ),
            forall|x: int, y: int|
                0 <= x < old(self).grid.spec_width() && 0 <= y < old(self).grid.spec_height()
                    && !page_touches_upto(
                    old(self).pages_done as int,
                    old(self).spec_nodes(),
                    old(self).sx as int,
                    old(self).sy as int,
                    old(self).invert_x,
                    old(self).invert_y,
                    old(self).swap_xy,
                    x,
                    y,
                    NODES_PER_PAGE as int,
                ) ==> final(self).grid.spec_pixel(x, y) == old(self).grid.spec_pixel(x, y),
            final(self).min_sample == min_after(
                data@,
                old(self).pages_done * NODES_PER_PAGE,
                old(self).spec_nodes(),
                NODES_PER_PAGE as int,
                old(self).min_sample as int,
            ),
            final(self).max_sample == max_after(
                data@,
                old(self).pages_done * NODES_PER_PAGE,
                old(self).spec_nodes(),
                NODES_PER_PAGE as int,
                old(self).max_sample as int,
            ),
    {
        let ghost base = old(self).pages_done * NODES_PER_PAGE as int;
        let ghost gsx = old(self).sx as int;
        let ghost gsy = old(self).sy as int;
        let ghost gix = old(self).invert_x;
        let ghost giy = old(self).invert_y;
        let ghost gsw = old(self).swap_xy;
        let ghost nodes = old(self).spec_nodes();
        proof {
            assert(self.sx as int * self.sy as int <= 65025) by (nonlinear_arith)
                requires
                    self.sx <= 255,
                    self.sy <= 255,
            ;
            vstd::arithmetic::div_mod::lemma_div_is_ordered(
                self.spec_nodes() * 2 + DIAG_PAGE_SIZE - 1,
                130177,
                DIAG_PAGE_SIZE as int,
            );
            assert(self.spec_page_count() <= 1017);
        }
        let nodes_exec: usize = (self.sx as usize) * (self.sy as usize);
        let page_base: usize = self.pages_done * NODES_PER_PAGE;
        let mut k: usize = 0;
        while k < NODES_PER_PAGE
            invariant
                k <= NODES_PER_PAGE,
                self.sx == old(self).sx,
                self.sy == old(self).sy,
                self.invert_x == old(self).invert_x,
                self.invert_y == old(self).invert_y,
                self.swap_xy == old(self).swap_xy,
                self.low == old(self).low,
                self.high == old(self).high,
                self.pages_done == old(self).pages_done,
                self.grid.wf(),
                self.grid.spec_width() == old(self).grid.spec_width(),
                self.grid.spec_height() == old(self).grid.spec_height(),
                forall|k2: int|
                    0 <= k2 < k && base + k2 < nodes ==> #[trigger] self.grid.spec_pixel(
                        t_x(base + k2, gsx, gsy, gix, giy, gsw),
                        t_y(base + k2, gsx, gsy, gix, giy, gsw),
                    ) == color_of(
                        sample_at(data@, k2) as int,
                        old(self).low as int,
                        old(self).high as int,
                    ),
                forall|x: int, y: int|
                    0 <= x < old(self).grid.spec_width() && 0 <= y < old(
                        self,
                    ).grid.spec_height() && !page_touches_upto(
                        old(self).pages_done as int,
                        nodes,
                        gsx,
                        gsy,
                        gix,
                        giy,
                        gsw,
                        x,
                        y,
                        k as int,
                    ) ==> self.grid.spec_pixel(x, y) == old(self).grid.spec_pixel(x, y),
                self.min_sample == min_after(
                    data@,
                    base,
                    nodes,
                    k as int,
                    old(self).min_sample as int,
                ),
                self.max_sample == max_after(
                    data@,
                    base,
                    nodes,
                    k as int,
                    old(self).max_sample as int,
                ),
            decreases NODES_PER_PAGE - k,
        {
            let full = page_base + k;
            if full < nodes_exec {
                let sample = crate::objects::diag_sample(data, k);
                if sample < self.min_sample {
                    self.min_sample = sample;
                }
                if sample > self.max_sample {
                    self.max_sample = sample;
                }
                proof {
                    assert(gsx > 0 && gsy > 0) by (nonlinear_arith)
                        requires
                            0 <= full < gsx * gsy,
                            0 <= gsx,
                            0 <= gsy,
                    ;
                    lemma_transform_bounds(full as int, gsx, gsy, gix, giy, gsw);
                }
                let (px, py) = transform_point(
                    full,
                    self.sx,
                    self.sy,
                    self.invert_x,
                    self.invert_y,
                    self.swap_xy,
                );
                let c = pixel_color(sample, self.low, self.high);
                let ghost grid_before = self.grid;
                self.grid.put(px, py, c);
                proof {
                    assert forall|k2: int| 0 <= k2 < k + 1 && base + k2 < nodes implies #[trigger]
                    self.grid.spec_pixel(
                        t_x(base + k2, gsx, gsy, gix, giy, gsw),
                        t_y(base + k2, gsx, gsy, gix, giy, gsw),
                    ) == color_of(
                        sample_at(data@, k2) as int,
                        old(self).low as int,
                        old(self).high as int,
                    ) by {
                        if k2 < k as int {
                            lemma_transform_bounds(base + k2, gsx, gsy, gix, giy, gsw);
                            lemma_transform_injective(
                                base + k2,
                                full as int,
                                gsx,
                                gsy,
                                gix,
                                giy,
                                gsw,
                            );
                        }
                    }
                    assert forall|x: int, y: int|
                        0 <= x < old(self).grid.spec_width() && 0 <= y < old(
                            self,
                        ).grid.spec_height() && !page_touches_upto(
                            old(self).pages_done as int,
                            nodes,
                            gsx,
                            gsy,
                            gix,
                            giy,
                            gsw,
                            x,
                            y,
                            k + 1 as int,
                        ) implies self.grid.spec_pixel(x, y) == old(self).grid.spec_pixel(
                        x,
                        y,
                    ) by {
                        assert(!(x == px as int && y == py as int));
                        assert(!page_touches_upto(
                            old(self).pages_done as int,
                            nodes,
                            gsx,
                            gsy,
                            gix,
                            giy,
                            gsw,
                            x,
                            y,
                            k as int,
                        ));
                        assert(grid_before.spec_pixel(x, y) == old(self).grid.spec_pixel(x, y));
                    }
                }
            } else {
                proof {
                    assert forall|x: int, y: int|
                        0 <= x < old(self).grid.spec_width() && 0 <= y < old(
                            self,
                        ).grid.spec_height() && !page_touches_upto(
                            old(self).pages_done as int,
                            nodes,
                            gsx,
                            gsy,
                            gix,
                            giy,
                            gsw,
                            x,
                            y,
                            k + 1 as int,
                        ) implies self.grid.spec_pixel(x, y) == old(self).grid.spec_pixel(
                        x,
                        y,
                    ) by {
                        assert(!page_touches_upto(
                            old(self).pages_done as int,
                            nodes,
                            gsx,
                            gsy,
                            gix,
                            giy,
                            gsw,
                            x,
                            y,
                            k as int,
                        ));
                    }
                }
            }
            k = k + 1;
        }
        self.pages_done = self.pages_done + 1;
    }

    /// The sample range seen across the pages taken so far, for optional
    /// out-of-range diagnostics.
    pub fn sample_range(&self) -> (r: (i16, i16))
        ensures
            r.0 == self.min_sample,
            r.1 == self.max_sample,
    {
        (self.min_sample, self.max_sample)
    }

    /// Hand out the finished grid.
    pub fn finish(self) -> (g: PixelGrid)
        requires
            self.wf(),
            self.spec_done(),
        ensures
            g == self.grid,
            g.wf(),
    {
        self.grid
    }
}

/// Map a linear node index to its output pixel coordinate.
pub fn transform_point(idx: usize, sx: u8, sy: u8, ix: bool, iy: bool, sw: bool) -> (p: (
    usize,
    usize,
))
    requires
        idx < sx as int * sy as int,
        square_ok(sx as int, sy as int, ix, iy, sw),
    ensures
        p.0 == t_x(idx as int, sx as int, sy as int, ix, iy, sw),
        p.1 == t_y(idx as int, sx as int, sy as int, ix, iy, sw),
        p.0 < out_width(sx as int, sy as int, sw),
        p.1 < out_height(sx as int, sy as int, sw),
{
    proof {
        assert(sx as int * sy as int > 0);
        assert(sx > 0 && sy > 0) by (nonlinear_arith)
            requires
                sx as int * sy as int > 0,
        ;
        lemma_transform_bounds(idx as int, sx as int, sy as int, ix, iy, sw);
    }
    let x0 = idx / (sy as usize);
    let y0 = idx % (sy as usize);
    let w: usize = if sw {
        sy as usize
    } else {
        sx as usize
    };
    let h: usize = if sw {
        sx as usize
    } else {
        sy as usize
    };
    let x1 = if ix {
        w - 1 - x0
    } else {
        x0
    };
    let y1 = if iy {
        h - 1 - y0
    } else {
        y0
    };
    if sw {
        (y1, x1)
    } else {
        (x1, y1)
    }
}

} // verus!

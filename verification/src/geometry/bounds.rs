//! Rectangles of pixels, and their division into tiles.
use vstd::prelude::*;
use vstd::arithmetic::div_mod::{
    lemma_fundamental_div_mod,
    lemma_fundamental_div_mod_converse,
    lemma_mod_bound,
};
use crate::geometry::Point2i;

verus! {

/// The pixels `(x, y)` with `min.x <= x < max.x` and `min.y <= y < max.y`.
#[derive(Clone, Copy, Debug, PartialEq, Eq, Structural)]
pub struct Bounds2i {
    pub min: Point2i,
    pub max: Point2i,
}

pub open spec fn least(a: int, b: int) -> int {
    if a <= b {
        a
    } else {
        b
    }
}

/// The quotient `x / d` is the one `q` with `q * d <= x < (q + 1) * d`.
pub proof fn lemma_quotient_bounds(x: int, d: int)
    requires
        d > 0,
    ensures
        (x / d) * d <= x < (x / d + 1) * d,
        x % d == x - (x / d) * d,
        x >= 0 ==> x / d >= 0,
{
    lemma_fundamental_div_mod(x, d);
    lemma_mod_bound(x, d);
    assert(d * (x / d) == (x / d) * d) by (nonlinear_arith);
    assert((x / d + 1) * d == (x / d) * d + d) by (nonlinear_arith);
    if x >= 0 && x / d < 0 {
        assert((x / d + 1) * d <= 0) by (nonlinear_arith)
            requires
                x / d + 1 <= 0,
                d > 0,
        ;
    }
}

/// Whatever lies between `q * d` and `(q + 1) * d` has the quotient `q`.
pub proof fn lemma_quotient_unique(x: int, d: int, q: int)
    requires
        d > 0,
        q * d <= x < (q + 1) * d,
    ensures
        x / d == q,
        x % d == x - q * d,
{
    assert((q + 1) * d == q * d + d) by (nonlinear_arith);
    lemma_fundamental_div_mod_converse(x, d, q, x - q * d);
}

proof fn lemma_product_bound(a: int, b: int, m: int, n: int)
    requires
        0 <= a <= m,
        0 <= b <= n,
    ensures
        0 <= a * b <= m * n,
{
    assert(0 <= a * b <= m * n) by (nonlinear_arith)
        requires
            0 <= a <= m,
            0 <= b <= n,
    ;
}

impl Bounds2i {
    pub open spec fn contains(self, p: Point2i) -> bool {
        self.min.x <= p.x < self.max.x && self.min.y <= p.y < self.max.y
    }

    pub open spec fn width(self) -> int {
        if self.max.x > self.min.x {
            self.max.x - self.min.x
        } else {
            0
        }
    }

    pub open spec fn height(self) -> int {
        if self.max.y > self.min.y {
            self.max.y - self.min.y
        } else {
            0
        }
    }

    /// The number of pixels.
    pub open spec fn area(self) -> int {
        self.width() * self.height()
    }

    /// Whether every pixel of `inner` is a pixel of `self`, said of the
    /// corners.
    pub open spec fn encloses(self, inner: Bounds2i) -> bool {
        self.min.x <= inner.min.x && inner.max.x <= self.max.x && self.min.y <= inner.min.y
            && inner.max.y <= self.max.y
    }

    /// The place of a pixel in the row-by-row order of the rectangle.
    pub open spec fn index_of(self, p: Point2i) -> int {
        (p.y - self.min.y) * self.width() + (p.x - self.min.x)
    }

    /// The pixel at a place in the row-by-row order.
    pub open spec fn point_at(self, index: int) -> Point2i {
        Point2i {
            x: (self.min.x + index % self.width()) as i32,
            y: (self.min.y + index / self.width()) as i32,
        }
    }

    /// All pixels, row by row from the least `y`, each row from the least `x`.
    pub open spec fn spec_points(self) -> Seq<Point2i> {
        Seq::new(self.area() as nat, |i: int| self.point_at(i))
    }

    /// The number of tiles of edge `size` side by side.
    pub open spec fn tile_columns(self, size: int) -> int {
        (self.width() + size - 1) / size
    }

    /// The number of tiles of edge `size` above each other.
    pub open spec fn tile_rows(self, size: int) -> int {
        (self.height() + size - 1) / size
    }

    pub open spec fn spec_tile_count(self, size: int) -> int {
        self.tile_rows(size) * self.tile_columns(size)
    }

    /// The tile in a row and column of the grid of squares of edge `size`
    /// laid from the `min` corner, cut off at the `max` corner.
    pub open spec fn tile(self, size: int, row: int, col: int) -> Bounds2i {
        Bounds2i {
            min: Point2i {
                x: (self.min.x + col * size) as i32,
                y: (self.min.y + row * size) as i32,
            },
            max: Point2i {
                x: least(self.min.x + (col + 1) * size, self.max.x as int) as i32,
                y: least(self.min.y + (row + 1) * size, self.max.y as int) as i32,
            },
        }
    }

    /// The tile at a place in the row-by-row order of the grid.
    pub open spec fn tile_at(self, size: int, index: int) -> Bounds2i {
        self.tile(size, index / self.tile_columns(size), index % self.tile_columns(size))
    }

    /// All tiles, row by row.
    pub open spec fn spec_tiles(self, size: int) -> Seq<Bounds2i> {
        Seq::new(self.spec_tile_count(size) as nat, |i: int| self.tile_at(size, i))
    }

    pub fn with_bounds(min: Point2i, max: Point2i) -> (b: Bounds2i)
        ensures
            b == (Bounds2i { min, max }),
    {
        Bounds2i { min, max }
    }

    pub fn is_inside(&self, p: Point2i) -> (r: bool)
        ensures
            r == self.contains(p),
    {
        self.min.x <= p.x && p.x < self.max.x && self.min.y <= p.y && p.y < self.max.y
    }

    fn extent_x(&self) -> (w: i64)
        ensures
            w == self.width(),
            0 <= w <= 0xffff_ffff,
    {
        if self.max.x > self.min.x {
            self.max.x as i64 - self.min.x as i64
        } else {
            0
        }
    }

    fn extent_y(&self) -> (h: i64)
        ensures
            h == self.height(),
            0 <= h <= 0xffff_ffff,
    {
        if self.max.y > self.min.y {
            self.max.y as i64 - self.min.y as i64
        } else {
            0
        }
    }

    /// The number of pixels.
    pub fn pixel_count(&self) -> (n: u64)
        ensures
            n == self.area(),
    {
        let w: u64 = self.extent_x() as u64;
        let h: u64 = self.extent_y() as u64;
        proof {
            lemma_product_bound(w as int, h as int, 0xffff_ffff, 0xffff_ffff);
        }
        w * h
    }

    /// The first pixel in the row-by-row order, if there is a pixel.
    pub fn first_point(&self) -> (p: Option<Point2i>)
        ensures
            self.area() == 0 ==> p is None,
            self.area() > 0 ==> p == Some(self.min) && self.contains(self.min) && self.index_of(
                self.min,
            ) == 0,
    {
        proof {
            lemma_product_bound(0, 0, self.width(), self.height());
            if self.width() > 0 && self.height() > 0 {
                lemma_product_bound(1, 1, self.width(), self.height());
            }
            assert(self.width() == 0 || self.height() == 0 ==> self.area() == 0)
                by (nonlinear_arith)
                requires
                    self.area() == self.width() * self.height(),
            ;
        }
        if self.max.x > self.min.x && self.max.y > self.min.y {
            Some(self.min)
        } else {
            None
        }
    }

    /// The pixel after `p` in the row-by-row order, if `p` is not the last.
    pub fn next_point(&self, p: Point2i) -> (q: Option<Point2i>)
        requires
            self.contains(p),
        ensures
            self.index_of(p) + 1 == self.area() <==> q is None,
            q matches Some(n) ==> self.contains(n) && self.index_of(n) == self.index_of(p) + 1 && n
                == self.point_at(self.index_of(p) + 1),
            0 <= self.index_of(p) < self.area(),
    {
        proof {
            lemma_index_in_range(*self, p);
        }
        if p.x + 1 < self.max.x {
            let n = Point2i { x: p.x + 1, y: p.y };
            proof {
                lemma_index_in_range(*self, n);
                lemma_point_at_index(*self, n);
            }
            Some(n)
        } else if p.y + 1 < self.max.y {
            let n = Point2i { x: self.min.x, y: p.y + 1 };
            proof {
                let w = self.width();
                let r = p.y - self.min.y;
                assert((r + 1) * w == r * w + w) by (nonlinear_arith);
                lemma_index_in_range(*self, n);
                lemma_point_at_index(*self, n);
            }
            Some(n)
        } else {
            proof {
                let w = self.width();
                let h = self.height();
                assert((h - 1) * w + w == h * w) by (nonlinear_arith);
                assert(w * h == h * w) by (nonlinear_arith);
            }
            None
        }
    }

    /// All pixels in the row-by-row order.
    pub fn points(&self) -> (v: Vec<Point2i>)
        requires
            self.area() <= usize::MAX,
        ensures
            v@ == self.spec_points(),
    {
        let mut v: Vec<Point2i> = Vec::new();
        let mut cur: Option<Point2i> = self.first_point();
        proof {
            if self.area() > 0 {
                lemma_point_at_index(*self, self.min);
            }
        }
        while cur.is_some()
            invariant
                v@.len() <= self.area(),
                cur is None <==> v@.len() == self.area(),
                cur matches Some(p) ==> self.contains(p) && self.index_of(p) == v@.len(),
                forall|i: int| 0 <= i < v@.len() ==> v@[i] == self.point_at(i),
            decreases self.area() - v@.len(),
        {
            let p = cur.unwrap();
            proof {
                lemma_point_at_index(*self, p);
            }
            v.push(p);
            cur = self.next_point(p);
        }
        assert(v@ =~= self.spec_points());
        v
    }

    /// The number of tiles of edge `tile_size` side by side.
    pub fn tile_column_count(&self, tile_size: i32) -> (n: u64)
        requires
            tile_size > 0,
        ensures
            n == self.tile_columns(tile_size as int),
            n <= 0xffff_ffff,
    {
        let cols: i64 = (self.extent_x() + tile_size as i64 - 1) / (tile_size as i64);
        proof {
            lemma_tile_grid(*self, tile_size as int);
        }
        cols as u64
    }

    /// The number of tiles of edge `tile_size` that the rectangle is divided
    /// into.
    pub fn tile_count(&self, tile_size: i32) -> (n: u64)
        requires
            tile_size > 0,
        ensures
            n == self.spec_tile_count(tile_size as int),
    {
        let cols: i64 = (self.extent_x() + tile_size as i64 - 1) / (tile_size as i64);
        let rows: i64 = (self.extent_y() + tile_size as i64 - 1) / (tile_size as i64);
        proof {
            lemma_tile_grid(*self, tile_size as int);
            lemma_product_bound(rows as int, cols as int, 0xffff_ffff, 0xffff_ffff);
        }
        (rows as u64) * (cols as u64)
    }

    /// The tile at place `index` of the row-by-row order of the tiles.
    pub fn nth_tile(&self, tile_size: i32, index: u64) -> (t: Bounds2i)
        requires
            tile_size > 0,
            index < self.spec_tile_count(tile_size as int),
        ensures
            t == self.tile_at(tile_size as int, index as int),
            t == self.spec_tiles(tile_size as int)[index as int],
    {
        let size: i64 = tile_size as i64;
        let cols: i64 = (self.extent_x() + size - 1) / size;
        proof {
            lemma_tile_grid(*self, size as int);
            let rows = self.tile_rows(size as int);
            if cols <= 0 {
                assert(rows * cols <= 0) by (nonlinear_arith)
                    requires
                        rows >= 0,
                        cols <= 0,
                ;
            }
            lemma_quotient_bounds(index as int, cols as int);
            let r = index as int / cols as int;
            if r >= rows {
                assert(r * cols >= rows * cols) by (nonlinear_arith)
                    requires
                        r >= rows,
                        cols > 0,
                ;
            }
            lemma_tile_inside(*self, size as int, r, index as int % cols as int);
        }
        let row: i64 = (index / (cols as u64)) as i64;
        let col: i64 = (index % (cols as u64)) as i64;
        let x0: i64 = self.min.x as i64 + col * size;
        let y0: i64 = self.min.y as i64 + row * size;
        let x1: i64 = if x0 + size < self.max.x as i64 {
            x0 + size
        } else {
            self.max.x as i64
        };
        let y1: i64 = if y0 + size < self.max.y as i64 {
            y0 + size
        } else {
            self.max.y as i64
        };
        proof {
            assert((col + 1) * size == col * size + size) by (nonlinear_arith);
            assert((row + 1) * size == row * size + size) by (nonlinear_arith);
        }
        Bounds2i {
            min: Point2i { x: x0 as i32, y: y0 as i32 },
            max: Point2i { x: x1 as i32, y: y1 as i32 },
        }
    }

    /// All tiles of edge `tile_size`, row by row.
    pub fn tiles(&self, tile_size: i32) -> (v: Vec<Bounds2i>)
        requires
            tile_size > 0,
            self.spec_tile_count(tile_size as int) <= usize::MAX,
        ensures
            v@ == self.spec_tiles(tile_size as int),
    {
        let n: u64 = self.tile_count(tile_size);
        let mut v: Vec<Bounds2i> = Vec::new();
        let mut i: u64 = 0;
        while i < n
            invariant
                tile_size > 0,
                n == self.spec_tile_count(tile_size as int),
                n <= usize::MAX,
                i <= n,
                v@.len() == i,
                forall|k: int| 0 <= k < i ==> v@[k] == self.tile_at(tile_size as int, k),
            decreases n - i,
        {
            let t = self.nth_tile(tile_size, i);
            v.push(t);
            i = i + 1;
        }
        assert(v@ =~= self.spec_tiles(tile_size as int));
        v
    }
}

/// A pixel of a rectangle has a place below the number of pixels.
pub proof fn lemma_index_in_range(b: Bounds2i, p: Point2i)
    requires
        b.contains(p),
    ensures
        0 <= b.index_of(p) < b.area(),
{
    let w = b.width();
    let h = b.height();
    let r = p.y - b.min.y;
    let c = p.x - b.min.x;
    assert(0 <= r * w && r * w + w <= h * w) by (nonlinear_arith)
        requires
            0 <= r < h,
            0 < w,
    ;
    assert(w * h == h * w) by (nonlinear_arith);
}

/// The row-by-row order numbers the pixels: the pixel at the place of `p`
/// is `p`.
pub proof fn lemma_point_at_index(b: Bounds2i, p: Point2i)
    requires
        b.contains(p),
    ensures
        b.point_at(b.index_of(p)) == p,
{
    let w = b.width();
    let r = p.y - b.min.y;
    assert((r + 1) * w == r * w + w) by (nonlinear_arith);
    lemma_quotient_unique(b.index_of(p), w, r);
}

/// The place of the pixel at a place is that place, and the pixel lies in
/// the rectangle.
pub proof fn lemma_index_of_point(b: Bounds2i, index: int)
    requires
        0 <= index < b.area(),
    ensures
        b.contains(b.point_at(index)),
        b.index_of(b.point_at(index)) == index,
{
    let w = b.width();
    let h = b.height();
    if w <= 0 {
        assert(w * h == 0) by (nonlinear_arith)
            requires
                w == 0,
        ;
    }
    lemma_quotient_bounds(index, w);
    let r = index / w;
    if r >= h {
        assert(r * w >= h * w) by (nonlinear_arith)
            requires
                r >= h,
                w > 0,
        ;
        assert(w * h == h * w) by (nonlinear_arith);
    }
}

/// The grid has no more columns than the rectangle is wide and no more rows
/// than it is high, and the columns before the last do not reach the far
/// edge.
pub proof fn lemma_tile_grid(b: Bounds2i, size: int)
    requires
        size > 0,
    ensures
        0 <= b.tile_columns(size) <= b.width(),
        0 <= b.tile_rows(size) <= b.height(),
        (b.tile_columns(size) - 1) * size < b.width() <= b.tile_columns(size) * size || b.width() == 0,
        (b.tile_rows(size) - 1) * size < b.height() <= b.tile_rows(size) * size || b.height() == 0,
        b.width() == 0 ==> b.tile_columns(size) == 0,
        b.height() == 0 ==> b.tile_rows(size) == 0,
{
    lemma_ceiling(b.width(), size);
    lemma_ceiling(b.height(), size);
}

proof fn lemma_ceiling(w: int, size: int)
    requires
        size > 0,
        w >= 0,
    ensures
        0 <= (w + size - 1) / size <= w,
        w > 0 ==> ((w + size - 1) / size - 1) * size < w <= ((w + size - 1) / size) * size,
        w == 0 ==> (w + size - 1) / size == 0,
{
    let q = (w + size - 1) / size;
    lemma_quotient_bounds(w + size - 1, size);
    assert((q + 1) * size == q * size + size) by (nonlinear_arith);
    assert((q - 1) * size == q * size - size) by (nonlinear_arith);
    if w == 0 {
        lemma_quotient_unique(size - 1, size, 0);
    } else {
        if q > w {
            assert(q * size >= (w + 1) * size) by (nonlinear_arith)
                requires
                    q >= w + 1,
                    size > 0,
            ;
            assert((w + 1) * size >= w + size) by (nonlinear_arith)
                requires
                    w >= 0,
                    size >= 1,
            ;
        }
    }
}

/// A tile of the grid has a pixel, lies within the rectangle and is no
/// wider or higher than the tile size.
pub proof fn lemma_tile_inside(b: Bounds2i, size: int, row: int, col: int)
    requires
        size > 0,
        0 <= row < b.tile_rows(size),
        0 <= col < b.tile_columns(size),
    ensures
        b.encloses(b.tile(size, row, col)),
        0 < b.tile(size, row, col).width() <= size,
        0 < b.tile(size, row, col).height() <= size,
        b.tile(size, row, col).min.x == b.min.x + col * size,
        b.tile(size, row, col).min.y == b.min.y + row * size,
{
    lemma_tile_grid(b, size);
    let cols = b.tile_columns(size);
    let rows = b.tile_rows(size);
    assert(0 <= col * size <= (cols - 1) * size) by (nonlinear_arith)
        requires
            0 <= col <= cols - 1,
            size > 0,
    ;
    assert(0 <= row * size <= (rows - 1) * size) by (nonlinear_arith)
        requires
            0 <= row <= rows - 1,
            size > 0,
    ;
    assert((col + 1) * size == col * size + size) by (nonlinear_arith);
    assert((row + 1) * size == row * size + size) by (nonlinear_arith);
}

/// The tiles divide the rectangle: a pixel of the rectangle lies in the tile
/// of the row and column that its offsets from the `min` corner, divided by
/// the tile size, give.
pub proof fn lemma_pixel_has_tile(b: Bounds2i, size: int, p: Point2i)
    requires
        size > 0,
        b.contains(p),
    ensures
        0 <= (p.y - b.min.y) / size < b.tile_rows(size),
        0 <= (p.x - b.min.x) / size < b.tile_columns(size),
        b.tile(size, (p.y - b.min.y) / size, (p.x - b.min.x) / size).contains(p),
{
    let dx = p.x - b.min.x;
    let dy = p.y - b.min.y;
    let col = dx / size;
    let row = dy / size;
    lemma_tile_grid(b, size);
    lemma_quotient_bounds(dx, size);
    lemma_quotient_bounds(dy, size);
    let cols = b.tile_columns(size);
    let rows = b.tile_rows(size);
    if col >= cols {
        assert(col * size >= cols * size) by (nonlinear_arith)
            requires
                col >= cols,
                size > 0,
        ;
    }
    if row >= rows {
        assert(row * size >= rows * size) by (nonlinear_arith)
            requires
                row >= rows,
                size > 0,
        ;
    }
    lemma_tile_inside(b, size, row, col);
}

/// No pixel lies in two tiles: a tile of the grid that holds a pixel is the
/// one that `lemma_pixel_has_tile` names, and the pixel is one of the
/// rectangle.
pub proof fn lemma_pixel_in_one_tile(b: Bounds2i, size: int, row: int, col: int, p: Point2i)
    requires
        size > 0,
        0 <= row < b.tile_rows(size),
        0 <= col < b.tile_columns(size),
        b.tile(size, row, col).contains(p),
    ensures
        b.contains(p),
        row == (p.y - b.min.y) / size,
        col == (p.x - b.min.x) / size,
{
    lemma_tile_inside(b, size, row, col);
    assert((col + 1) * size == col * size + size) by (nonlinear_arith);
    assert((row + 1) * size == row * size + size) by (nonlinear_arith);
    lemma_quotient_unique(p.x - b.min.x, size, col);
    lemma_quotient_unique(p.y - b.min.y, size, row);
}

/// Every pixel of the rectangle lies in exactly one tile of the sequence of
/// tiles, and the tiles hold no other pixel.
pub proof fn lemma_tiles_partition(b: Bounds2i, size: int, p: Point2i)
    requires
        size > 0,
    ensures
        b.contains(p) ==> exists|i: int|
            0 <= i < b.spec_tiles(size).len() && #[trigger] b.spec_tiles(size)[i].contains(p),
        forall|i: int, j: int|
            0 <= i < b.spec_tiles(size).len() && 0 <= j < b.spec_tiles(size).len()
                && #[trigger] b.spec_tiles(size)[i].contains(p) && #[trigger] b.spec_tiles(
                size,
            )[j].contains(p) ==> i == j,
        forall|i: int|
            0 <= i < b.spec_tiles(size).len() && #[trigger] b.spec_tiles(size)[i].contains(p)
                ==> b.contains(p),
{
    let cols = b.tile_columns(size);
    let rows = b.tile_rows(size);
    lemma_tile_grid(b, size);
    assert(rows * cols >= 0) by (nonlinear_arith)
        requires
            rows >= 0,
            cols >= 0,
    ;
    if b.contains(p) {
        lemma_pixel_has_tile(b, size, p);
        let row = (p.y - b.min.y) / size;
        let col = (p.x - b.min.x) / size;
        let i = row * cols + col;
        assert(0 <= row * cols && row * cols + cols <= rows * cols) by (nonlinear_arith)
            requires
                0 <= row < rows,
                0 < cols,
        ;
        assert((row + 1) * cols == row * cols + cols) by (nonlinear_arith);
        lemma_quotient_unique(i, cols, row);
        assert(b.spec_tiles(size)[i] == b.tile(size, row, col));
        assert(b.spec_tiles(size)[i].contains(p));
    }
    assert forall|i: int|
        0 <= i < b.spec_tiles(size).len() && #[trigger] b.spec_tiles(size)[i].contains(
            p,
        ) implies b.contains(p) && i == ((p.y - b.min.y) / size) * cols + (p.x - b.min.x) / size by {
        lemma_index_is_row_and_column(b, size, i);
        lemma_pixel_in_one_tile(b, size, i / cols, i % cols, p);
    }
}

/// A place in the sequence of tiles is a row and a column of the grid.
pub proof fn lemma_index_is_row_and_column(b: Bounds2i, size: int, i: int)
    requires
        size > 0,
        0 <= i < b.spec_tile_count(size),
    ensures
        0 <= i / b.tile_columns(size) < b.tile_rows(size),
        0 <= i % b.tile_columns(size) < b.tile_columns(size),
        i == (i / b.tile_columns(size)) * b.tile_columns(size) + i % b.tile_columns(size),
{
    let cols = b.tile_columns(size);
    let rows = b.tile_rows(size);
    lemma_tile_grid(b, size);
    if cols <= 0 {
        assert(rows * cols <= 0) by (nonlinear_arith)
            requires
                rows >= 0,
                cols <= 0,
        ;
    }
    lemma_quotient_bounds(i, cols);
    let r = i / cols;
    if r >= rows {
        assert(r * cols >= rows * cols) by (nonlinear_arith)
            requires
                r >= rows,
                cols > 0,
        ;
    }
}

} // verus!

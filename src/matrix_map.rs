//! Maps logical matrix coordinates onto indices of a wired LED strip.
use vstd::prelude::*;
use vstd::arithmetic::div_mod::lemma_fundamental_div_mod;

verus! {

/// A table of `h` rows of `w` cells each.
pub open spec fn is_grid<T>(t: Seq<Seq<T>>, w: int, h: int) -> bool {
    &&& t.len() == h
    &&& forall|y: int| 0 <= y < h ==> #[trigger] t[y].len() == w
}

/// The plain row-major table: row `r` holds `r * cw .. r * cw + cw`.
pub open spec fn filled(cw: int, ch: int) -> Seq<Seq<int>> {
    Seq::new(ch as nat, |r: int| Seq::new(cw as nat, |c: int| r * cw + c))
}

/// A row read back to front.
pub open spec fn reversed<T>(s: Seq<T>) -> Seq<T> {
    Seq::new(s.len(), |i: int| s[s.len() - 1 - i])
}

/// Every row with an even index reversed: the strip zigzags.
pub open spec fn serpentined<T>(t: Seq<Seq<T>>) -> Seq<Seq<T>> {
    Seq::new(t.len(), |r: int| if r % 2 == 0 { reversed(t[r]) } else { t[r] })
}

/// The `w` by `h` table whose cell `(x, y)` is cell `(y, x)` of `t`.
pub open spec fn transposed<T>(t: Seq<Seq<T>>, w: int, h: int) -> Seq<Seq<T>> {
    Seq::new(h as nat, |y: int| Seq::new(w as nat, |x: int| t[x][y]))
}

/// Each row's contents reversed.
pub open spec fn mirrored_horizontally<T>(t: Seq<Seq<T>>) -> Seq<Seq<T>> {
    Seq::new(t.len(), |y: int| reversed(t[y]))
}

/// The wiring options of a matrix, as plain values.
pub struct Wiring {
    pub width: nat,
    pub height: nat,
    pub serpentine: bool,
    pub vertical: bool,
    pub mirror_horizontal: bool,
    pub mirror_vertical: bool,
}

impl Wiring {
    /// Width of the table as it is first filled: a vertically wired strip
    /// is filled as if the matrix were transposed.
    pub open spec fn construct_width(self) -> int {
        if self.vertical { self.height as int } else { self.width as int }
    }

    pub open spec fn construct_height(self) -> int {
        if self.vertical { self.width as int } else { self.height as int }
    }

    /// The table that the wiring gives, step after step: fill row-major,
    /// reverse even rows if serpentine, transpose back if vertical, then
    /// reverse the order of rows and then each row's contents if mirrored.
    pub open spec fn table(self) -> Seq<Seq<int>> {
        let t0 = filled(self.construct_width(), self.construct_height());
        let t1 = if self.serpentine { serpentined(t0) } else { t0 };
        let t2 = if self.vertical { transposed(t1, self.width as int, self.height as int) } else { t1 };
        let t3 = if self.mirror_vertical { reversed(t2) } else { t2 };
        if self.mirror_horizontal { mirrored_horizontally(t3) } else { t3 }
    }

    /// The strip index of cell `(x, y)`, worked out in one step.
    pub open spec fn index_of(self, x: int, y: int) -> int {
        let w = self.width as int;
        let h = self.height as int;
        let x1 = if self.mirror_horizontal { w - 1 - x } else { x };
        let y1 = if self.mirror_vertical { h - 1 - y } else { y };
        let row = if self.vertical { x1 } else { y1 };
        let col = if self.vertical { y1 } else { x1 };
        let cw = self.construct_width();
        let col2 = if self.serpentine && row % 2 == 0 { cw - 1 - col } else { col };
        row * cw + col2
    }

    /// The cell that holds strip index `i`: `index_of` undone step by step.
    pub open spec fn cell_of(self, i: int) -> (int, int) {
        let w = self.width as int;
        let h = self.height as int;
        let cw = self.construct_width();
        let row = i / cw;
        let k = i % cw;
        let col = if self.serpentine && row % 2 == 0 { cw - 1 - k } else { k };
        let a = if self.vertical { row } else { col };
        let b = if self.vertical { col } else { row };
        let x = if self.mirror_horizontal { w - 1 - a } else { a };
        let y = if self.mirror_vertical { h - 1 - b } else { b };
        (x, y)
    }
}

/// The table of the wiring, cell by cell, is `index_of`.
pub proof fn lemma_table_cells(wr: Wiring)
    ensures
        is_grid(wr.table(), wr.width as int, wr.height as int),
        forall|x: int, y: int|
            0 <= x < wr.width && 0 <= y < wr.height ==> #[trigger] wr.table()[y][x] == wr.index_of(x, y),
{
    let w = wr.width as int;
    let h = wr.height as int;
    let t0 = filled(wr.construct_width(), wr.construct_height());
    let t1 = if wr.serpentine { serpentined(t0) } else { t0 };
    let t2 = if wr.vertical { transposed(t1, w, h) } else { t1 };
    let t3 = if wr.mirror_vertical { reversed(t2) } else { t2 };
    assert(is_grid(t1, wr.construct_width(), wr.construct_height()));
    assert(is_grid(t2, w, h));
    assert(is_grid(t3, w, h));
    assert forall|x: int, y: int| 0 <= x < w && 0 <= y < h implies #[trigger] wr.table()[y][x] == wr.index_of(x, y) by {
        let x1 = if wr.mirror_horizontal { w - 1 - x } else { x };
        let y1 = if wr.mirror_vertical { h - 1 - y } else { y };
        assert(wr.table()[y][x] == t3[y][x1]);
        assert(t3[y][x1] == t2[y1][x1]);
        if wr.vertical {
            assert(t2[y1][x1] == t1[x1][y1]);
        }
    }
}

/// Maps LEDs in a 2D matrix to a strip of LEDs.
#[derive(Clone)]
pub struct MatrixMap {
    map: Vec<Vec<usize>>,
}

impl View for MatrixMap {
    type V = Seq<Seq<usize>>;

    closed spec fn view(&self) -> Seq<Seq<usize>> {
        self.map@.map_values(|row: Vec<usize>| row@)
    }
}

impl MatrixMap {
    /// Get the index in the LED strip of the pixel at matrix coordinate (x, y).
    pub fn get(&self, x: usize, y: usize) -> (r: usize)
        requires
            y < self@.len(),
            x < self@[y as int].len(),
        ensures
            r == self@[y as int][x as int],
    {
        self.map[y][x]
    }

    /// The plain row-major map of a `width` by `height` matrix.
    pub fn new(width: usize, height: usize) -> (r: Self)
        requires
            width * height <= usize::MAX,
        ensures
            is_grid(r@, width as int, height as int),
            forall|x: int, y: int|
                0 <= x < width && 0 <= y < height ==> #[trigger] r@[y][x] == filled(width as int, height as int)[y][x],
    {
        let mut map: Vec<Vec<usize>> = Vec::new();
        let mut y: usize = 0;
        while y < height
            invariant
                y <= height,
                width * height <= usize::MAX,
                map@.len() == y,
                forall|j: int, i: int| 0 <= j < y && 0 <= i < width ==> #[trigger] map@[j]@[i] == j * width + i,
                forall|j: int| 0 <= j < y ==> #[trigger] map@[j]@.len() == width,
            decreases height - y,
        {
            let mut row: Vec<usize> = Vec::new();
            let mut x: usize = 0;
            while x < width
                invariant
                    x <= width,
                    y < height,
                    width * height <= usize::MAX,
                    row@.len() == x,
                    forall|i: int| 0 <= i < x ==> #[trigger] row@[i] == y * width + i,
                decreases width - x,
            {
                proof {
                    assert(y * width + x < height * width) by (nonlinear_arith)
                        requires
                            y < height,
                            x < width,
                    ;
                }
                row.push(y * width + x);
                x = x + 1;
            }
            map.push(row);
            y = y + 1;
        }
        let r = MatrixMap { map };
        proof {
            assert forall|x: int, y: int| 0 <= x < width && 0 <= y < height implies #[trigger] r@[y][x]
                == filled(width as int, height as int)[y][x] by {
                assert(r@[y] == map@[y]@);
            }
        }
        r
    }

    /// This map with every row of even index reversed (serpentine wiring).
    pub fn serpentine(&self) -> (r: Self)
        ensures
            r@ =~~= serpentined(self@),
    {
        let mut map: Vec<Vec<usize>> = Vec::new();
        let mut y: usize = 0;
        while y < self.map.len()
            invariant
                y <= self.map@.len(),
                map@.len() == y,
                forall|j: int| 0 <= j < y ==> #[trigger] map@[j]@ =~= serpentined(self@)[j],
            decreases self.map@.len() - y,
        {
            let src = &self.map[y];
            let mut row: Vec<usize> = Vec::new();
            let mut x: usize = 0;
            while x < src.len()
                invariant
                    x <= src@.len(),
                    row@.len() == x,
                    forall|i: int|
                        0 <= i < x ==> #[trigger] row@[i] == (if y % 2 == 0 {
                            src@[src@.len() - 1 - i]
                        } else {
                            src@[i]
                        }),
                decreases src@.len() - x,
            {
                if y % 2 == 0 {
                    row.push(src[src.len() - 1 - x]);
                } else {
                    row.push(src[x]);
                }
                x = x + 1;
            }
            proof {
                assert(self@[y as int] == src@);
            }
            map.push(row);
            y = y + 1;
        }
        MatrixMap { map }
    }
}

/// Collects the wiring options of a matrix and builds its `MatrixMap`.
#[derive(Clone)]
pub struct MatrixMapBuilder {
    width: usize,
    height: usize,
    serpentine: bool,
    vertical: bool,
    mirror_horizontal: bool,
    mirror_vertical: bool,
}

impl View for MatrixMapBuilder {
    type V = Wiring;

    closed spec fn view(&self) -> Wiring {
        Wiring {
            width: self.width as nat,
            height: self.height as nat,
            serpentine: self.serpentine,
            vertical: self.vertical,
            mirror_horizontal: self.mirror_horizontal,
            mirror_vertical: self.mirror_vertical,
        }
    }
}

impl MatrixMapBuilder {
    /// A builder for a `width` by `height` matrix with no wiring options.
    pub fn new(width: usize, height: usize) -> (r: Self)
        ensures
            r@ == (Wiring {
                width: width as nat,
                height: height as nat,
                serpentine: false,
                vertical: false,
                mirror_horizontal: false,
                mirror_vertical: false,
            }),
    {
        MatrixMapBuilder {
            width,
            height,
            serpentine: false,
            vertical: false,
            mirror_horizontal: false,
            mirror_vertical: false,
        }
    }

    /// Specify that the matrix is serpentine.
    pub fn serpentine(self) -> (r: Self)
        ensures
            r@ == (Wiring { serpentine: true, ..self@ }),
    {
        MatrixMapBuilder { serpentine: true, ..self }
    }

    /// Specify that the matrix is vertically wired.
    pub fn vertical(self) -> (r: Self)
        ensures
            r@ == (Wiring { vertical: true, ..self@ }),
    {
        MatrixMapBuilder { vertical: true, ..self }
    }

    /// Mirror the matrix vertically.
    pub fn mirror_vertically(self) -> (r: Self)
        ensures
            r@ == (Wiring { mirror_vertical: true, ..self@ }),
    {
        MatrixMapBuilder { mirror_vertical: true, ..self }
    }

    /// Mirror the matrix horizontally.
    pub fn mirror_horizontally(self) -> (r: Self)
        ensures
            r@ == (Wiring { mirror_horizontal: true, ..self@ }),
    {
        MatrixMapBuilder { mirror_horizontal: true, ..self }
    }

    /// Build the map of the wiring: cell `(x, y)` holds the strip index
    /// that the wiring's table gives.
    pub fn build(&self) -> (r: MatrixMap)
        requires
            self@.width * self@.height <= usize::MAX,
        ensures
            is_grid(r@, self@.width as int, self@.height as int),
            forall|x: int, y: int|
                0 <= x < self@.width && 0 <= y < self@.height ==> #[trigger] r@[y][x] == self@.table()[y][x],
    {
        let ghost wr = self@;
        proof {
            lemma_table_cells(wr);
        }
        let (cw, ch) = if self.vertical {
            (self.height, self.width)
        } else {
            (self.width, self.height)
        };
        let mut map: Vec<Vec<usize>> = Vec::new();
        let mut y: usize = 0;
        while y < self.height
            invariant
                wr == self@,
                y <= self.height,
                cw == wr.construct_width(),
                ch == wr.construct_height(),
                self.width * self.height <= usize::MAX,
                map@.len() == y,
                forall|j: int| 0 <= j < y ==> #[trigger] map@[j]@.len() == self.width,
                forall|i: int, j: int|
                    0 <= i < self.width && 0 <= j < y ==> #[trigger] map@[j]@[i] == wr.index_of(i, j),
            decreases self.height - y,
        {
            let mut row: Vec<usize> = Vec::new();
            let mut x: usize = 0;
            while x < self.width
                invariant
                    wr == self@,
                    x <= self.width,
                    y < self.height,
                    cw == wr.construct_width(),
                    ch == wr.construct_height(),
                    self.width * self.height <= usize::MAX,
                    row@.len() == x,
                    forall|i: int| 0 <= i < x ==> #[trigger] row@[i] == wr.index_of(i, y as int),
                decreases self.width - x,
            {
                let x1 = if self.mirror_horizontal {
                    self.width - 1 - x
                } else {
                    x
                };
                let y1 = if self.mirror_vertical {
                    self.height - 1 - y
                } else {
                    y
                };
                let (line, col) = if self.vertical {
                    (x1, y1)
                } else {
                    (y1, x1)
                };
                let col2 = if self.serpentine && line % 2 == 0 {
                    cw - 1 - col
                } else {
                    col
                };
                proof {
                    lemma_index_in_range(wr, x as int, y as int);
                    assert(line * cw + col2 == wr.index_of(x as int, y as int));
                }
                row.push(line * cw + col2);
                x = x + 1;
            }
            map.push(row);
            y = y + 1;
        }
        let r = MatrixMap { map };
        proof {
            assert forall|x: int, y: int| 0 <= x < wr.width && 0 <= y < wr.height implies #[trigger] r@[y][x]
                == wr.table()[y][x] by {
                assert(r@[y] == map@[y]@);
            }
        }
        r
    }
}

/// Cell `(x, y)` of a `w` by `h` matrix holds a strip index below `w * h`.
pub proof fn lemma_index_in_range(wr: Wiring, x: int, y: int)
    requires
        0 <= x < wr.width,
        0 <= y < wr.height,
    ensures
        0 <= wr.index_of(x, y) < wr.width * wr.height,
{
    let w = wr.width as int;
    let h = wr.height as int;
    let x1 = if wr.mirror_horizontal { w - 1 - x } else { x };
    let y1 = if wr.mirror_vertical { h - 1 - y } else { y };
    let row = if wr.vertical { x1 } else { y1 };
    let col = if wr.vertical { y1 } else { x1 };
    let cw = wr.construct_width();
    let ch = wr.construct_height();
    let col2 = if wr.serpentine && row % 2 == 0 { cw - 1 - col } else { col };
    assert(0 <= row * cw + col2 < ch * cw) by (nonlinear_arith)
        requires
            0 <= row < ch,
            0 <= col2 < cw,
    ;
    assert(ch * cw == w * h) by (nonlinear_arith)
        requires
            (ch == w && cw == h) || (ch == h && cw == w),
    ;
}

proof fn lemma_row_col_unique(r1: int, c1: int, r2: int, c2: int, cw: int)
    requires
        0 <= r1,
        0 <= r2,
        0 <= c1 < cw,
        0 <= c2 < cw,
        r1 * cw + c1 == r2 * cw + c2,
    ensures
        r1 == r2,
        c1 == c2,
{
    if r1 < r2 {
        assert(r1 * cw + c1 < r2 * cw + c2) by (nonlinear_arith)
            requires
                r1 < r2,
                0 <= c1 < cw,
                0 <= c2,
        ;
    } else if r2 < r1 {
        assert(r2 * cw + c2 < r1 * cw + c1) by (nonlinear_arith)
            requires
                r2 < r1,
                0 <= c2 < cw,
                0 <= c1,
        ;
    }
}

/// Whatever the wiring options, the table of a `w` by `h` matrix is a
/// bijection onto `[0, w * h)`: each strip index appears exactly once.
pub proof fn lemma_table_is_bijection(wr: Wiring)
    ensures
        is_grid(wr.table(), wr.width as int, wr.height as int),
        forall|x: int, y: int|
            0 <= x < wr.width && 0 <= y < wr.height ==> 0 <= #[trigger] wr.table()[y][x] < wr.width
                * wr.height,
        forall|x1: int, y1: int, x2: int, y2: int|
            0 <= x1 < wr.width && 0 <= y1 < wr.height && 0 <= x2 < wr.width && 0 <= y2 < wr.height
                && #[trigger] wr.table()[y1][x1] == #[trigger] wr.table()[y2][x2] ==> x1 == x2 && y1
                == y2,
        forall|i: int|
            0 <= i < wr.width * wr.height ==> {
                let (x, y) = #[trigger] wr.cell_of(i);
                &&& 0 <= x < wr.width
                &&& 0 <= y < wr.height
                &&& wr.table()[y][x] == i
            },
{
    lemma_table_cells(wr);
    let w = wr.width as int;
    let h = wr.height as int;
    let cw = wr.construct_width();
    let ch = wr.construct_height();
    assert forall|x: int, y: int| 0 <= x < w && 0 <= y < h implies 0 <= #[trigger] wr.table()[y][x] < w
        * h by {
        lemma_index_in_range(wr, x, y);
    }
    assert forall|x1: int, y1: int, x2: int, y2: int|
        0 <= x1 < w && 0 <= y1 < h && 0 <= x2 < w && 0 <= y2 < h && #[trigger] wr.table()[y1][x1]
            == #[trigger] wr.table()[y2][x2] implies x1 == x2 && y1 == y2 by {
        let a1 = if wr.mirror_horizontal { w - 1 - x1 } else { x1 };
        let b1 = if wr.mirror_vertical { h - 1 - y1 } else { y1 };
        let a2 = if wr.mirror_horizontal { w - 1 - x2 } else { x2 };
        let b2 = if wr.mirror_vertical { h - 1 - y2 } else { y2 };
        let row1 = if wr.vertical { a1 } else { b1 };
        let col1 = if wr.vertical { b1 } else { a1 };
        let row2 = if wr.vertical { a2 } else { b2 };
        let col2 = if wr.vertical { b2 } else { a2 };
        let k1 = if wr.serpentine && row1 % 2 == 0 { cw - 1 - col1 } else { col1 };
        let k2 = if wr.serpentine && row2 % 2 == 0 { cw - 1 - col2 } else { col2 };
        lemma_row_col_unique(row1, k1, row2, k2, cw);
    }
    assert forall|i: int| 0 <= i < w * h implies {
        let (x, y) = #[trigger] wr.cell_of(i);
        &&& 0 <= x < w
        &&& 0 <= y < h
        &&& wr.table()[y][x] == i
    } by {
        assert(cw > 0 && ch > 0 && ch * cw == w * h) by (nonlinear_arith)
            requires
                0 <= i < w * h,
                w >= 0,
                h >= 0,
                (cw == w && ch == h) || (cw == h && ch == w),
        ;
        lemma_fundamental_div_mod(i, cw);
        let row = i / cw;
        let k = i % cw;
        assert(0 <= row < ch) by (nonlinear_arith)
            requires
                i == cw * row + k,
                0 <= k < cw,
                0 <= i < w * h,
                ch * cw == w * h,
                cw > 0,
        ;
        let col = if wr.serpentine && row % 2 == 0 { cw - 1 - k } else { k };
        let a = if wr.vertical { row } else { col };
        let b = if wr.vertical { col } else { row };
        let x = if wr.mirror_horizontal { w - 1 - a } else { a };
        let y = if wr.mirror_vertical { h - 1 - b } else { b };
        assert(0 <= x < w && 0 <= y < h);
        assert(row * cw == cw * row) by (nonlinear_arith);
        assert(wr.index_of(x, y) == row * cw + k);
        assert(wr.table()[y][x] == i);
    }
}

/// Without wiring options the table is the plain row-major order.
pub proof fn lemma_unwired_is_row_major(wr: Wiring)
    requires
        !wr.serpentine,
        !wr.vertical,
        !wr.mirror_horizontal,
        !wr.mirror_vertical,
    ensures
        forall|x: int, y: int|
            0 <= x < wr.width && 0 <= y < wr.height ==> #[trigger] wr.table()[y][x] == y * wr.width + x,
{
    lemma_table_cells(wr);
}

} // verus!

//! The world grid owned by the play screen: a rectangular field of material
//! cells that can be resized an edge at a time and edited cell by cell.

use vstd::prelude::*;
use vstd::arithmetic::div_mod::{
    lemma_div_multiples_vanish, lemma_fundamental_div_mod, lemma_mod_multiples_basic,
};

verus! {

/// One cell's contents in the world grid.
#[derive(Debug, Copy, Clone, PartialEq, Eq, Structural)]
pub enum Material {
    Apples,
    Grains,
    Lumber,
    Ore,
    Sheeps,
}

/// All the objects in the current world.
#[derive(Debug, Clone)]
pub struct World {
    pub grid: Grid,
}

impl World {
    pub fn new(width: u16, height: u16) -> (w: World)
        requires
            1 <= width,
            width * height <= 0xFFFF,
        ensures
            w.grid.wf(),
            w.grid.spec_width() == width,
            w.grid.spec_height() == height,
            forall|x: int, y: int|
                0 <= x < width && 0 <= y < height ==> w.grid.cell(x, y) == Material::Apples,
    {
        World { grid: Grid::new(width, height) }
    }
}

/// Position of column `x` in row `y` of a row-major field `w` cells wide.
pub open spec fn flat(w: int, x: int, y: int) -> int {
    y * w + x
}

proof fn lemma_row_bound(w: int, x: int, y: int, yb: int)
    requires
        1 <= w,
        0 <= x < w,
        0 <= y < yb,
    ensures
        0 <= flat(w, x, y),
        flat(w, x, y) < yb * w,
{
    assert(0 <= y * w + x && y * w + x < yb * w) by (nonlinear_arith)
        requires 1 <= w, 0 <= x < w, 0 <= y < yb;
}

/// A rectangular grid of materials, stored row by row in a flat vector.
///
/// The width is at least one, the cell count is a whole number of rows, and
/// the cell count stays within `u16` range so that row arithmetic never
/// overflows the index type the callers use.
#[derive(Debug, Clone)]
pub struct Grid {
    width: u16,
    mats: Vec<Material>,
}

impl Grid {
    /// The number of cells in one row.
    pub closed spec fn spec_width(self) -> int {
        self.width as int
    }

    /// The cells, row by row, top row first.
    pub closed spec fn cells(self) -> Seq<Material> {
        self.mats@
    }

    /// The number of rows.
    pub open spec fn spec_height(self) -> int {
        self.cells().len() as int / self.spec_width()
    }

    /// Well-formedness: positive width, whole rows, cell count within `u16`.
    pub open spec fn wf(self) -> bool {
        &&& 1 <= self.spec_width()
        &&& self.cells().len() as int % self.spec_width() == 0
        &&& self.cells().len() <= 0xFFFF
    }

    /// The cell in column `x` of row `y`.
    pub open spec fn cell(self, x: int, y: int) -> Material {
        self.cells()[flat(self.spec_width(), x, y)]
    }

    /// Column `x` and row `y` name a cell of the grid.
    pub open spec fn in_bounds(self, x: int, y: int) -> bool {
        0 <= x < self.spec_width() && 0 <= y < self.spec_height()
    }

    proof fn lemma_flat_index(self, x: int, y: int)
        requires
            self.wf(),
            self.in_bounds(x, y),
        ensures
            0 <= y * self.spec_width() + x < self.cells().len(),
    {
        let w = self.spec_width();
        let h = self.spec_height();
        assert(self.cells().len() == w * h) by {
            lemma_fundamental_div_mod(self.cells().len() as int, w);
        }
        assert(y * w + x < w * h) by (nonlinear_arith)
            requires 0 <= x < w, 0 <= y < h, 1 <= w;
        assert(0 <= y * w + x) by (nonlinear_arith)
            requires 0 <= x, 0 <= y, 1 <= w;
    }

    pub fn new(width: u16, height: u16) -> (g: Grid)
        requires
            1 <= width,
            width * height <= 0xFFFF,
        ensures
            g.wf(),
            g.spec_width() == width,
            g.spec_height() == height,
            forall|x: int, y: int| g.in_bounds(x, y) ==> g.cell(x, y) == Material::Apples,
    {
        let n: usize = (width as usize) * (height as usize);
        let mut mats: Vec<Material> = Vec::new();
        let mut k: usize = 0;
        while k < n
            invariant
                0 <= k <= n,
                mats@ =~= Seq::new(k as nat, |i: int| Material::Apples),
            decreases n - k,
        {
            mats.push(Material::Apples);
            k += 1;
        }
        let g = Grid { width, mats };
        proof {
            assert(g.cells().len() == width * height);
            assert(width as int * height as int == height as int * width as int)
                by (nonlinear_arith);
            lemma_mod_multiples_basic(height as int, width as int);
            lemma_div_multiples_vanish(height as int, width as int);
            assert(g.cells().len() as int % g.spec_width() == 0);
            assert(g.spec_height() == height);
            assert forall|x: int, y: int| g.in_bounds(x, y) implies g.cell(x, y)
                == Material::Apples by {
                g.lemma_flat_index(x, y);
            }
        }
        g
    }

    #[inline]
    pub fn width(&self) -> (w: u16)
        ensures
            w == self.spec_width(),
    {
        self.width
    }

    pub fn height(&self) -> (h: u16)
        requires
            self.wf(),
        ensures
            h == self.spec_height(),
    {
        (self.mats.len() as u16) / self.width
    }

    /// Flat index of column `x` in row `y`, saturating at the largest `u16`
    /// value when the row arithmetic would pass it.
    pub fn idx(&self, x: u16, y: u16) -> (i: usize)
        ensures
            i == if x + y * self.spec_width() <= 0xFFFF {
                x + y * self.spec_width()
            } else {
                0xFFFFint
            },
    {
        proof {
            assert((y as int) * (self.width as int) <= 0xFFFF * 0xFFFF) by (nonlinear_arith)
                requires 0 <= y <= 0xFFFF, 0 <= self.width <= 0xFFFF;
        }
        let v: u32 = (x as u32) + (y as u32) * (self.width as u32);
        if v > 0xFFFF {
            0xFFFF
        } else {
            v as usize
        }
    }

    /// Appends a column of `Apples` at the right edge of every row.
    pub fn widen(&mut self)
        requires
            old(self).wf(),
            (old(self).spec_width() + 1) * old(self).spec_height() <= 0xFFFF,
            old(self).spec_width() < 0xFFFF,
        ensures
            final(self).wf(),
            final(self).spec_width() == old(self).spec_width() + 1,
            final(self).spec_height() == old(self).spec_height(),
            forall|x: int, y: int|
                old(self).in_bounds(x, y) ==> final(self).cell(x, y) == old(self).cell(x, y),
            forall|y: int|
                0 <= y < old(self).spec_height()
                    ==> final(self).cell(old(self).spec_width(), y) == Material::Apples,
    {
        let w: usize = self.width as usize;
        let h: usize = self.height() as usize;
        let ghost wi = w as int;
        let ghost hi = h as int;
        proof {
            lemma_fundamental_div_mod(self.mats@.len() as int, wi);
        }
        let mut mats: Vec<Material> = Vec::new();
        let mut y: usize = 0;
        while y < h
            invariant
                self == old(self),
                self.wf(),
                wi == self.spec_width(),
                hi == self.spec_height(),
                (wi + 1) * hi <= 0xFFFF,
                w == wi,
                h == hi,
                0 <= y <= h,
                mats@.len() == y * (wi + 1),
                forall|y2: int, x2: int|
                    0 <= y2 < y && 0 <= x2 <= wi ==> mats@[#[trigger] flat(wi + 1, x2, y2)] == (
                    if x2 == wi {
                        Material::Apples
                    } else {
                        self.cells()[flat(wi, x2, y2)]
                    }),
            decreases h - y,
        {
            proof {
                assert((y + 1) * (wi + 1) <= hi * (wi + 1) <= (wi + 1) * hi) by (nonlinear_arith)
                    requires 0 <= y < hi, 0 <= wi;
                assert((y + 1) * (wi + 1) == y * (wi + 1) + (wi + 1)) by (nonlinear_arith);
            }
            let mut x: usize = 0;
            while x < w
                invariant
                    self == old(self),
                    self.wf(),
                    wi == self.spec_width(),
                    hi == self.spec_height(),
                    (wi + 1) * hi <= 0xFFFF,
                    w == wi,
                    h == hi,
                    0 <= y < h,
                    0 <= x <= w,
                    (y + 1) * (wi + 1) <= 0xFFFF,
                    (y + 1) * (wi + 1) == y * (wi + 1) + (wi + 1),
                    mats@.len() == y * (wi + 1) + x,
                    forall|y2: int, x2: int|
                        0 <= y2 < y && 0 <= x2 <= wi ==> mats@[#[trigger] flat(wi + 1, x2, y2)]
                            == (if x2 == wi {
                            Material::Apples
                        } else {
                            self.cells()[flat(wi, x2, y2)]
                        }),
                    forall|x2: int|
                        0 <= x2 < x ==> mats@[#[trigger] flat(wi + 1, x2, y as int)]
                            == self.cells()[flat(wi, x2, y as int)],
                decreases w - x,
            {
                proof {
                    self.lemma_flat_index(x as int, y as int);
                }
                let src: usize = x + y * w;
                mats.push(self.mats[src]);
                x += 1;
                proof {
                    assert forall|y2: int, x2: int|
                        0 <= y2 < y && 0 <= x2 <= wi implies 0 <= #[trigger] flat(wi + 1, x2, y2)
                        < y * (wi + 1) by {
                        lemma_row_bound(wi + 1, x2, y2, y as int);
                    }
                }
            }
            mats.push(Material::Apples);
            proof {
                assert forall|y2: int, x2: int|
                    0 <= y2 < y + 1 && 0 <= x2 <= wi implies mats@[#[trigger] flat(
                    wi + 1,
                    x2,
                    y2,
                )] == (if x2 == wi {
                    Material::Apples
                } else {
                    self.cells()[flat(wi, x2, y2)]
                }) by {
                    if y2 < y {
                        lemma_row_bound(wi + 1, x2, y2, y as int);
                    }
                }
            }
            y += 1;
        }
        self.width = self.width + 1;
        self.mats = mats;
        proof {
            let nw = wi + 1;
            assert(hi * nw == nw * hi) by (nonlinear_arith);
            lemma_mod_multiples_basic(hi, nw);
            lemma_div_multiples_vanish(hi, nw);
            assert forall|x: int, y2: int|
                old(self).in_bounds(x, y2) implies self.cell(x, y2) == old(self).cell(x, y2) by {
                self.lemma_flat_index(x, y2);
            }
            assert forall|y2: int| 0 <= y2 < hi implies self.cell(wi, y2) == Material::Apples by {
                self.lemma_flat_index(wi, y2);
            }
        }
    }

    /// Removes the rightmost column of every row; a grid one column wide is
    /// left unchanged.
    pub fn thin(&mut self)
        requires
            old(self).wf(),
        ensures
            final(self).wf(),
            old(self).spec_width() == 1 ==> *final(self) == *old(self),
            old(self).spec_width() > 1 ==> {
                &&& final(self).spec_width() == old(self).spec_width() - 1
                &&& final(self).spec_height() == old(self).spec_height()
                &&& forall|x: int, y: int|
                    final(self).in_bounds(x, y) ==> final(self).cell(x, y) == old(self).cell(x, y)
            },
    {
        if self.width <= 1 {
            return;
        }
        let w: usize = self.width as usize;
        let h: usize = self.height() as usize;
        let nw: usize = w - 1;
        let ghost wi = w as int;
        let ghost hi = h as int;
        proof {
            lemma_fundamental_div_mod(self.mats@.len() as int, wi);
            assert((wi - 1) * hi <= wi * hi) by (nonlinear_arith)
                requires 0 <= hi, 1 <= wi;
        }
        let mut mats: Vec<Material> = Vec::new();
        let mut y: usize = 0;
        while y < h
            invariant
                self == old(self),
                self.wf(),
                wi == self.spec_width(),
                hi == self.spec_height(),
                2 <= wi,
                w == wi,
                h == hi,
                nw == wi - 1,
                (wi - 1) * hi <= wi * hi <= 0xFFFF,
                0 <= y <= h,
                mats@.len() == y * (wi - 1),
                forall|y2: int, x2: int|
                    0 <= y2 < y && 0 <= x2 < wi - 1 ==> mats@[#[trigger] flat(wi - 1, x2, y2)]
                        == self.cells()[flat(wi, x2, y2)],
            decreases h - y,
        {
            proof {
                assert((y + 1) * (wi - 1) <= hi * (wi - 1) <= (wi - 1) * hi) by (nonlinear_arith)
                    requires 0 <= y < hi, 1 <= wi;
                assert((y + 1) * (wi - 1) == y * (wi - 1) + (wi - 1)) by (nonlinear_arith);
            }
            let mut x: usize = 0;
            while x < nw
                invariant
                    self == old(self),
                    self.wf(),
                    wi == self.spec_width(),
                    hi == self.spec_height(),
                    2 <= wi,
                    w == wi,
                    h == hi,
                    nw == wi - 1,
                    (wi - 1) * hi <= wi * hi <= 0xFFFF,
                    0 <= y < h,
                    0 <= x <= nw,
                    (y + 1) * (wi - 1) <= 0xFFFF,
                    (y + 1) * (wi - 1) == y * (wi - 1) + (wi - 1),
                    mats@.len() == y * (wi - 1) + x,
                    forall|y2: int, x2: int|
                        0 <= y2 < y && 0 <= x2 < wi - 1 ==> mats@[#[trigger] flat(wi - 1, x2, y2)]
                            == self.cells()[flat(wi, x2, y2)],
                    forall|x2: int|
                        0 <= x2 < x ==> mats@[#[trigger] flat(wi - 1, x2, y as int)]
                            == self.cells()[flat(wi, x2, y as int)],
                decreases nw - x,
            {
                proof {
                    self.lemma_flat_index(x as int, y as int);
                }
                let src: usize = x + y * w;
                mats.push(self.mats[src]);
                x += 1;
                proof {
                    assert forall|y2: int, x2: int|
                        0 <= y2 < y && 0 <= x2 < wi - 1 implies 0 <= #[trigger] flat(
                        wi - 1,
                        x2,
                        y2,
                    ) < y * (wi - 1) by {
                        lemma_row_bound(wi - 1, x2, y2, y as int);
                    }
                }
            }
            proof {
                assert forall|y2: int, x2: int|
                    0 <= y2 < y + 1 && 0 <= x2 < wi - 1 implies mats@[#[trigger] flat(
                    wi - 1,
                    x2,
                    y2,
                )] == self.cells()[flat(wi, x2, y2)] by {
                    if y2 < y {
                        lemma_row_bound(wi - 1, x2, y2, y as int);
                    }
                }
            }
            y += 1;
        }
        self.width = self.width - 1;
        self.mats = mats;
        proof {
            let nwi = wi - 1;
            assert(hi * nwi == nwi * hi) by (nonlinear_arith);
            lemma_mod_multiples_basic(hi, nwi);
            lemma_div_multiples_vanish(hi, nwi);
            assert forall|x: int, y2: int|
                self.in_bounds(x, y2) implies self.cell(x, y2) == old(self).cell(x, y2) by {
                self.lemma_flat_index(x, y2);
            }
        }
    }

    /// Appends one row of `Apples` at the bottom.
    pub fn heighten(&mut self)
        requires
            old(self).wf(),
            old(self).cells().len() + old(self).spec_width() <= 0xFFFF,
        ensures
            final(self).wf(),
            final(self).spec_width() == old(self).spec_width(),
            final(self).spec_height() == old(self).spec_height() + 1,
            forall|x: int, y: int|
                old(self).in_bounds(x, y) ==> final(self).cell(x, y) == old(self).cell(x, y),
            forall|x: int|
                0 <= x < old(self).spec_width()
                    ==> final(self).cell(x, old(self).spec_height()) == Material::Apples,
    {
        let w: usize = self.width as usize;
        let ghost wi = w as int;
        let ghost hi = self.spec_height();
        let ghost n0 = self.cells().len() as int;
        proof {
            lemma_fundamental_div_mod(n0, wi);
        }
        let mut x: usize = 0;
        while x < w
            invariant
                self.width == old(self).width,
                w == self.width,
                wi == w as int,
                0 <= x <= w,
                self.mats@ == old(self).mats@ + Seq::new(x as nat, |i: int| Material::Apples),
            decreases w - x,
        {
            self.mats.push(Material::Apples);
            proof {
                assert(self.mats@ =~= old(self).mats@
                    + Seq::new((x + 1) as nat, |i: int| Material::Apples));
            }
            x += 1;
        }
        proof {
            assert(self.cells().len() == n0 + wi);
            assert(n0 + wi == wi * (hi + 1)) by (nonlinear_arith)
                requires n0 == wi * hi;
            lemma_mod_multiples_basic(hi + 1, wi);
            lemma_div_multiples_vanish(hi + 1, wi);
            assert forall|x2: int, y: int|
                old(self).in_bounds(x2, y) implies self.cell(x2, y) == old(self).cell(x2, y) by {
                old(self).lemma_flat_index(x2, y);
            }
            assert forall|x2: int| 0 <= x2 < wi implies self.cell(x2, hi) == Material::Apples by {
                assert(n0 <= hi * wi + x2 < n0 + wi) by (nonlinear_arith)
                    requires n0 == wi * hi, 0 <= x2 < wi;
            }
        }
    }

    /// Removes the bottom row; a grid one row high is left unchanged.
    pub fn shorten(&mut self)
        requires
            old(self).wf(),
            1 <= old(self).spec_height(),
        ensures
            final(self).wf(),
            old(self).spec_height() <= 1 ==> *final(self) == *old(self),
            old(self).spec_height() > 1 ==> {
                &&& final(self).spec_width() == old(self).spec_width()
                &&& final(self).spec_height() == old(self).spec_height() - 1
                &&& forall|x: int, y: int|
                    final(self).in_bounds(x, y) ==> final(self).cell(x, y) == old(self).cell(x, y)
            },
    {
        let ghost wi = self.spec_width();
        let ghost hi = self.spec_height();
        proof {
            lemma_fundamental_div_mod(self.cells().len() as int, wi);
            assert(self.cells().len() == wi * hi);
            assert(wi * hi >= wi * 1) by (nonlinear_arith)
                requires 1 <= wi, 1 <= hi;
        }
        let new_len: usize = self.mats.len() - (self.width as usize);
        if new_len == 0 {
            proof {
                assert(hi * wi == wi) by (nonlinear_arith)
                    requires wi * hi == wi, 1 <= wi;
                assert(hi == 1) by (nonlinear_arith)
                    requires hi * wi == wi, 1 <= wi;
            }
            return;
        }
        self.mats.truncate(new_len);
        proof {
            assert(2 <= hi) by (nonlinear_arith)
                requires wi * hi > wi, 1 <= wi, 0 <= hi;
            assert(self.cells().len() == wi * (hi - 1)) by (nonlinear_arith)
                requires self.cells().len() == wi * hi - wi;
            lemma_mod_multiples_basic(hi - 1, wi);
            lemma_div_multiples_vanish(hi - 1, wi);
            assert forall|x: int, y: int|
                self.in_bounds(x, y) implies self.cell(x, y) == old(self).cell(x, y) by {
                self.lemma_flat_index(x, y);
            }
        }
    }

    /// Looks a cell up; `None` outside the grid.
    pub fn get(&self, x: u16, y: u16) -> (r: Option<Material>)
        requires
            self.wf(),
        ensures
            r == if self.in_bounds(x as int, y as int) {
                Some(self.cell(x as int, y as int))
            } else {
                None::<Material>
            },
    {
        proof {
            lemma_fundamental_div_mod(self.cells().len() as int, self.spec_width());
            assert(self.cells().len() == self.spec_width() * self.spec_height());
        }
        if x < self.width {
            let i = self.idx(x, y);
            proof {
                let wi = self.spec_width();
                let hi = self.spec_height();
                if (y as int) < hi {
                    self.lemma_flat_index(x as int, y as int);
                } else {
                    assert(x + y * wi >= wi * hi) by (nonlinear_arith)
                        requires y >= hi, 1 <= wi, 0 <= x, 0 <= hi;
                    assert(x + y * wi >= self.cells().len());
                }
            }
            if i < self.mats.len() {
                Some(self.mats[i])
            } else {
                None
            }
        } else {
            None
        }
    }

    /// Overwrites a cell; a miss outside the grid changes nothing.
    pub fn insert(&mut self, x: u16, y: u16, mat: Material)
        requires
            old(self).wf(),
        ensures
            final(self).wf(),
            final(self).spec_width() == old(self).spec_width(),
            final(self).spec_height() == old(self).spec_height(),
            old(self).in_bounds(x as int, y as int) ==> final(self).cells()
                == old(self).cells().update(y * old(self).spec_width() + x, mat),
            !old(self).in_bounds(x as int, y as int) ==> *final(self) == *old(self),
    {
        proof {
            lemma_fundamental_div_mod(self.cells().len() as int, self.spec_width());
            assert(self.cells().len() == self.spec_width() * self.spec_height());
        }
        if x < self.width {
            let i = self.idx(x, y);
            proof {
                let wi = self.spec_width();
                let hi = self.spec_height();
                if (y as int) < hi {
                    self.lemma_flat_index(x as int, y as int);
                } else {
                    assert(x + y * wi >= wi * hi) by (nonlinear_arith)
                        requires y >= hi, 1 <= wi, 0 <= x, 0 <= hi;
                    assert(x + y * wi >= self.cells().len());
                }
            }
            if i < self.mats.len() {
                self.mats[i] = mat;
            }
        }
    }
}

} // verus!

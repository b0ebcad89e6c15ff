//! Sprite sheet geometry: how one image is cut into addressable
//! sub-rectangles.
//!
//! A [`SpriteSheet`] pairs a pixel size with a [`SpriteSheetLayout`] —
//! either a uniform grid of rows × columns, or an explicit list of
//! rectangles. Lookup is by index; a grid is enumerated row by row. A
//! grid's cell size is computed once at construction, and construction
//! rejects degenerate grids, so every lookup on a constructed sheet is
//! well defined. [`AtlasLayout`] is the renderer-facing list of regions
//! in index order.

use vstd::prelude::*;
use vstd::arithmetic::div_mod::{lemma_fundamental_div_mod, lemma_mod_bound};
use vstd::arithmetic::mul::lemma_mul_inequality;

verus! {

/// Data of a sprite on a sheet, as corner positions in pixels.
#[derive(Copy, Clone, Debug, PartialEq, Eq)]
pub struct SpriteData {
    /// Min position on the sheet.
    pub min: (u32, u32),
    /// Max position on the sheet.
    pub max: (u32, u32),
}

impl SpriteData {
    /// Simple constructor.
    pub fn new(min: (u32, u32), max: (u32, u32)) -> (r: Self)
        ensures
            r == (SpriteData { min, max }),
    {
        SpriteData { min, max }
    }

    /// Width and height of the rectangle, for ordered corners.
    pub fn size(&self) -> (r: (u32, u32))
        requires
            self.min.0 <= self.max.0,
            self.min.1 <= self.max.1,
        ensures
            r.0 == self.max.0 - self.min.0,
            r.1 == self.max.1 - self.min.1,
    {
        (self.max.0 - self.min.0, self.max.1 - self.min.1)
    }
}

/// Grid size for a sprite sheet.
#[derive(Copy, Clone, Debug, PartialEq, Eq, Structural)]
pub struct SpriteSheetGrid {
    /// Rows (a usable grid has more than 0).
    pub rows: u32,
    /// Columns (a usable grid has more than 0).
    pub cols: u32,
}

impl SpriteSheetGrid {
    /// Calculate the sprite count.
    pub fn len(&self) -> (r: usize)
        requires
            self.rows * self.cols <= u32::MAX,
        ensures
            r == self.rows * self.cols,
    {
        (self.rows * self.cols) as usize
    }
}

/// Layout of a sprite sheet.
#[derive(Debug)]
pub enum SpriteSheetLayout {
    /// A uniform grid of rows × columns.
    Grid(SpriteSheetGrid),
    /// An explicit list of rectangles.
    List(Vec<SpriteData>),
}

/// True when a layout can make a sheet: a grid needs both dimensions
/// positive and a cell count that fits in `u32`.
pub open spec fn spec_layout_valid(layout: SpriteSheetLayout) -> bool {
    match layout {
        SpriteSheetLayout::Grid(g) => g.rows > 0 && g.cols > 0 && g.rows * g.cols <= u32::MAX,
        SpriteSheetLayout::List(l) => l@.len() <= u32::MAX,
    }
}

/// Why a sprite sheet could not be built.
#[derive(Copy, Clone, Debug, PartialEq, Eq, Structural)]
pub enum SpriteSheetError {
    /// The grid has zero rows or zero columns.
    DegenerateGrid,
    /// The grid's cell count does not fit in `u32`.
    OversizedGrid,
    /// The list holds more rectangles than a `u32` index can address.
    OversizedList,
}

/// Sprite sheet representation: an image size and the layout that cuts
/// the image into sprites.
pub struct SpriteSheet {
    /// Layout of sprites.
    layout: SpriteSheetLayout,
    /// Size of the base image in pixels.
    size: (u32, u32),
    /// Cell size for the grid case, computed once at construction.
    grid_sprite_size: Option<(u32, u32)>,
}

impl SpriteSheet {
    /// The sheet's layout.
    pub closed spec fn spec_layout(self) -> SpriteSheetLayout {
        self.layout
    }

    /// The sheet's pixel size.
    pub closed spec fn spec_size(self) -> (u32, u32) {
        self.size
    }

    /// The cached grid cell size.
    pub closed spec fn spec_cell(self) -> Option<(u32, u32)> {
        self.grid_sprite_size
    }

    /// A constructed sheet: its layout is valid and the cached cell
    /// size is exactly the image size divided by the grid — present for
    /// a grid, absent for a list.
    pub open spec fn well_formed(self) -> bool {
        match self.spec_layout() {
            SpriteSheetLayout::Grid(g) => {
                &&& g.rows > 0
                &&& g.cols > 0
                &&& g.rows * g.cols <= u32::MAX
                &&& self.spec_cell() == Some(
                    (
                        (self.spec_size().0 as int / g.cols as int) as u32,
                        (self.spec_size().1 as int / g.rows as int) as u32,
                    ),
                )
            },
            SpriteSheetLayout::List(l) => self.spec_cell() is None && l@.len() <= u32::MAX,
        }
    }

    /// Total addressable sprite count.
    pub open spec fn spec_len(self) -> int {
        match self.spec_layout() {
            SpriteSheetLayout::Grid(g) => g.rows * g.cols,
            SpriteSheetLayout::List(l) => l@.len() as int,
        }
    }

    /// The rectangle at `index`: for a grid, row-major cell `index`
    /// with the cached cell size, or nothing past the last row; for a
    /// list, the stored entry, or nothing out of bounds.
    pub open spec fn spec_get(self, index: u32) -> Option<SpriteData> {
        match self.spec_layout() {
            SpriteSheetLayout::Grid(g) => {
                let row = index as int / g.cols as int;
                let col = index as int % g.cols as int;
                let cw = self.spec_size().0 as int / g.cols as int;
                let ch = self.spec_size().1 as int / g.rows as int;
                if row >= g.rows {
                    None
                } else {
                    Some(
                        SpriteData {
                            min: ((cw * col) as u32, (ch * row) as u32),
                            max: ((cw * col + cw) as u32, (ch * row + ch) as u32),
                        },
                    )
                }
            },
            SpriteSheetLayout::List(l) => {
                if index < l@.len() {
                    Some(l@[index as int])
                } else {
                    None
                }
            },
        }
    }

    /// Build a sheet from a layout and an image size. Rejects a grid
    /// with zero rows or zero columns, and one whose cell count would
    /// not fit in `u32`; a list layout always passes. On success the
    /// grid cell size is computed here, once.
    pub fn new(layout: SpriteSheetLayout, size: (u32, u32)) -> (r: Result<
        SpriteSheet,
        SpriteSheetError,
    >)
        ensures
            r is Ok <==> spec_layout_valid(layout),
            r matches Ok(sheet) ==> sheet.well_formed() && sheet.spec_layout() == layout
                && sheet.spec_size() == size,
            r matches Err(e) ==> match layout {
                SpriteSheetLayout::Grid(g) => if g.rows == 0 || g.cols == 0 {
                    e == SpriteSheetError::DegenerateGrid
                } else {
                    e == SpriteSheetError::OversizedGrid
                },
                SpriteSheetLayout::List(l) => l@.len() > u32::MAX
                    && e == SpriteSheetError::OversizedList,
            },
    {
        match &layout {
            SpriteSheetLayout::Grid(g) => {
                if g.rows == 0 || g.cols == 0 {
                    return Err(SpriteSheetError::DegenerateGrid);
                }
                proof {
                    assert((g.rows as int) * (g.cols as int) <= 0xffff_ffff * 0xffff_ffff)
                        by (nonlinear_arith)
                        requires
                            0 <= g.rows as int <= 0xffff_ffff,
                            0 <= g.cols as int <= 0xffff_ffff,
                    ;
                }
                if (g.rows as u64) * (g.cols as u64) > u32::MAX as u64 {
                    return Err(SpriteSheetError::OversizedGrid);
                }
                let cell = (size.0 / g.cols, size.1 / g.rows);
                Ok(SpriteSheet { layout, size, grid_sprite_size: Some(cell) })
            },
            SpriteSheetLayout::List(list) => {
                if list.len() > u32::MAX as usize {
                    return Err(SpriteSheetError::OversizedList);
                }
                Ok(SpriteSheet { layout, size, grid_sprite_size: None })
            },
        }
    }

    /// The extension of the text files that persist sheet definitions.
    pub fn file_extension() -> (r: Option<&'static str>)
        ensures
            r matches Some(ext) && ext@ == "ron"@,
    {
        Some("ron")
    }

    /// The layout that cuts the image into sprites.
    pub fn layout(&self) -> (r: &SpriteSheetLayout)
        ensures
            *r == self.spec_layout(),
    {
        &self.layout
    }

    /// The base image size in pixels.
    pub fn size(&self) -> (r: (u32, u32))
        ensures
            r == self.spec_size(),
    {
        self.size
    }

    /// Sprite count.
    pub fn len(&self) -> (r: usize)
        requires
            self.well_formed(),
        ensures
            r == self.spec_len(),
    {
        match &self.layout {
            SpriteSheetLayout::Grid(g) => g.len(),
            SpriteSheetLayout::List(l) => l.len(),
        }
    }

    /// An index yields a rectangle exactly when it lies below the
    /// sprite count.
    pub proof fn lemma_get_in_range(self, index: u32)
        requires
            self.well_formed(),
        ensures
            self.spec_get(index) is Some <==> index < self.spec_len(),
    {
        match self.spec_layout() {
            SpriteSheetLayout::Grid(g) => {
                let i = index as int;
                let rows = g.rows as int;
                let cols = g.cols as int;
                lemma_fundamental_div_mod(i, cols);
                lemma_mod_bound(i, cols);
                if i / cols >= rows {
                    lemma_mul_inequality(rows, i / cols, cols);
                    assert(rows * cols <= (i / cols) * cols);
                } else {
                    lemma_mul_inequality(i / cols + 1, rows, cols);
                    assert((i / cols + 1) * cols <= rows * cols);
                    assert(cols * (i / cols) + cols <= rows * cols) by (nonlinear_arith)
                        requires
                            (i / cols + 1) * cols <= rows * cols,
                    ;
                }
            },
            SpriteSheetLayout::List(_) => {},
        }
    }

    /// Get the sprite data for `index` (a grid is enumerated row by
    /// row). Yields a rectangle exactly for indexes below the sprite
    /// count.
    pub fn get(&self, index: u32) -> (r: Option<SpriteData>)
        requires
            self.well_formed(),
        ensures
            r == self.spec_get(index),
            r is Some <==> index < self.spec_len(),
    {
        proof {
            self.lemma_get_in_range(index);
        }
        match &self.layout {
            SpriteSheetLayout::Grid(g) => {
                let row = index / g.cols;
                if row >= g.rows {
                    return None;
                }
                let col = index % g.cols;
                let cell = self.grid_sprite_size.unwrap();
                proof {
                    let i = index as int;
                    let cols = g.cols as int;
                    let rows = g.rows as int;
                    let w = self.spec_size().0 as int;
                    let h = self.spec_size().1 as int;
                    lemma_mod_bound(i, cols);
                    lemma_fundamental_div_mod(w, cols);
                    lemma_mul_inequality(i % cols + 1, cols, w / cols);
                    assert((w / cols) * (i % cols) + w / cols <= (w / cols) * cols)
                        by (nonlinear_arith)
                        requires
                            (i % cols + 1) * (w / cols) <= cols * (w / cols),
                    ;
                    lemma_fundamental_div_mod(h, rows);
                    lemma_mul_inequality(i / cols + 1, rows, h / rows);
                    assert((h / rows) * (i / cols) + h / rows <= (h / rows) * rows)
                        by (nonlinear_arith)
                        requires
                            (i / cols + 1) * (h / rows) <= rows * (h / rows),
                    ;
                }
                let x = cell.0 * col;
                let y = cell.1 * row;
                Some(SpriteData::new((x, y), (x + cell.0, y + cell.1)))
            },
            SpriteSheetLayout::List(list) => {
                if (index as usize) < list.len() {
                    Some(list[index as usize])
                } else {
                    None
                }
            },
        }
    }

    /// Law: converting a well-formed sheet to an atlas layout yields
    /// one region per index, in index order, under the sheet's size.
    pub fn to_atlas_layout(&self) -> (r: AtlasLayout)
        requires
            self.well_formed(),
        ensures
            r.size == self.spec_size(),
            r.textures@.len() == self.spec_len(),
            forall|i: int|
                0 <= i < self.spec_len()
                ==> Some(#[trigger] r.textures@[i]) == self.spec_get(i as u32),
    {
        let n = self.len();
        let mut textures: Vec<SpriteData> = Vec::new();
        let mut i: usize = 0;
        while i < n
            invariant
                i <= n,
                n == self.spec_len(),
                self.well_formed(),
                textures@.len() == i,
                forall|k: int|
                    0 <= k < i ==> Some(#[trigger] textures@[k]) == self.spec_get(k as u32),
            decreases n - i,
        {
            proof {
                assert(i as u32 == i as int) by {
                    assert(i < n && n <= u32::MAX);
                }
            }
            if let Some(sprite) = self.get(i as u32) {
                textures.push(sprite);
            }
            i += 1;
        }
        AtlasLayout { size: self.size(), textures }
    }
}

/// The renderer-facing list of sub-rectangles derived from a sprite
/// sheet: one region per sprite index, in index order.
pub struct AtlasLayout {
    /// Size of the source image in pixels.
    pub size: (u32, u32),
    /// The regions, in sprite index order.
    pub textures: Vec<SpriteData>,
}

} // verus!

//! The tile grid: a fixed partition of the playable area into square cells,
//! each either empty (passable) or ground (solid).

use vstd::prelude::*;

verus! {

/// Largest number of cells along either axis of a grid.
pub const MAX_GRID_CELLS: i64 = 4096;

/// Largest accepted cell side length, in fixed-point sub-steps.
pub const MAX_CELL_SIZE: i64 = 1_000_000;

/// The kind of a tile; passability is a pure function of the kind.
#[derive(Clone, Copy, PartialEq, Eq, Structural, Debug)]
pub enum BlockType {
    Empty,
    Ground,
}

/// Rejected map-authoring calls; reported synchronously at authoring time.
#[derive(Clone, Copy, PartialEq, Eq, Structural, Debug)]
pub enum ConfigError {
    /// The cell size handed to the grid constructor was zero or negative.
    NonPositiveCellSize,
    /// The requested area is smaller than a single cell along some axis.
    EmptyGrid,
    /// The requested grid exceeds the supported cell counts or cell size.
    GridTooLarge,
    /// A tile coordinate handed to `set_block_type` lies outside the grid.
    OutOfRange,
}

/// Whether a body may occupy a tile of the given kind.
pub open spec fn passable(kind: BlockType) -> bool {
    kind is Empty
}

/// One tile: its top-left corner, side length, and kind.
#[derive(Clone, Copy, Debug)]
pub struct Block {
    pub x: i64,
    pub y: i64,
    pub size: i64,
    pub block_type: BlockType,
}

impl Block {
    /// Whether a body may occupy this tile.
    pub fn is_passable(&self) -> (r: bool)
        ensures
            r == passable(self.block_type),
    {
        match self.block_type {
            BlockType::Empty => true,
            BlockType::Ground => false,
        }
    }
}

/// The mathematical model of a grid: its dimensions in cells, the cell side
/// length, and the kind of every tile, addressed by row then column.
pub ghost struct GridView {
    pub width: int,
    pub height: int,
    pub cell: int,
    pub blocks: Seq<Seq<BlockType>>,
}

impl GridView {
    /// A well-formed grid model: positive bounded dimensions and a fully
    /// populated tile table.
    pub open spec fn wf(self) -> bool {
        &&& 0 < self.width <= MAX_GRID_CELLS
        &&& 0 < self.height <= MAX_GRID_CELLS
        &&& 0 < self.cell <= MAX_CELL_SIZE
        &&& self.blocks.len() == self.height
        &&& forall|r: int| 0 <= r < self.height ==> (#[trigger] self.blocks[r]).len() == self.width
    }

    /// The kind of the tile at `row`, `col`.
    pub open spec fn kind_at(self, row: int, col: int) -> BlockType {
        self.blocks[row][col]
    }

    /// Whether the tile at `row`, `col` is passable.
    pub open spec fn passable_at(self, row: int, col: int) -> bool {
        passable(self.kind_at(row, col))
    }
}

/// The tile grid, stored row-major. Read-only during simulation; mutated
/// only by the authoring calls before a session starts.
pub struct TileGrid {
    pub width_in_cells: usize,
    pub height_in_cells: usize,
    pub grid_size: i64,
    pub blocks: Vec<Block>,
}

impl View for TileGrid {
    type V = GridView;

    open spec fn view(&self) -> GridView {
        GridView {
            width: self.width_in_cells as int,
            height: self.height_in_cells as int,
            cell: self.grid_size as int,
            blocks: Seq::new(
                self.height_in_cells as nat,
                |r: int|
                    Seq::new(
                        self.width_in_cells as nat,
                        |c: int| self.blocks[r * self.width_in_cells + c].block_type,
                    ),
            ),
        }
    }
}

impl TileGrid {
    /// The representation invariant: a well-formed model, a fully allocated
    /// backing vector, and every stored tile carrying its own geometry.
    pub open spec fn inv(&self) -> bool {
        &&& self@.wf()
        &&& self.blocks.len() == self.width_in_cells * self.height_in_cells
        &&& forall|i: int|
            0 <= i < self.blocks.len() ==> {
                let r = i / (self.width_in_cells as int);
                let c = i % (self.width_in_cells as int);
                &&& (#[trigger] self.blocks[i]).x == c * self.grid_size
                &&& self.blocks[i].y == r * self.grid_size
                &&& self.blocks[i].size == self.grid_size
            }
    }

    /// Copies out the tile at `row`, `col`.
    pub fn block_at(&self, row: usize, col: usize) -> (b: Block)
        requires
            self.inv(),
            row < self@.height,
            col < self@.width,
        ensures
            b.block_type == self@.kind_at(row as int, col as int),
            b.x == col * self@.cell,
            b.y == row * self@.cell,
            b.size == self@.cell,
    {
        proof {
            let w = self.width_in_cells as int;
            assert(row * w + col < self.blocks.len()) by (nonlinear_arith)
                requires
                    0 <= col < w,
                    0 <= (row as int) < self.height_in_cells as int,
                    self.blocks.len() == w * (self.height_in_cells as int),
            ;
            vstd::arithmetic::div_mod::lemma_fundamental_div_mod_converse(
                row as int * w + col,
                w,
                row as int,
                col as int,
            );
        }
        let b = self.blocks[row * self.width_in_cells + col];
        b
    }
}

/// The empty grid model with the given dimensions: every tile `Empty`.
pub open spec fn empty_grid_view(width: int, height: int, cell: int) -> GridView {
    GridView {
        width,
        height,
        cell,
        blocks: Seq::new(height as nat, |r: int| Seq::new(width as nat, |c: int| BlockType::Empty)),
    }
}

/// Builds a grid covering `width` by `height` sub-steps with square cells of
/// side `block_size`, every tile initially `Empty`. Partial trailing cells
/// are discarded: the grid is `width / block_size` cells wide and
/// `height / block_size` cells high. Malformed configurations are rejected.
pub fn new(width: i64, height: i64, block_size: i64) -> (r: Result<TileGrid, ConfigError>)
    ensures
        block_size <= 0 ==> r == Err::<TileGrid, ConfigError>(ConfigError::NonPositiveCellSize),
        block_size > 0 && (width < block_size || height < block_size) ==> r == Err::<
            TileGrid,
            ConfigError,
        >(ConfigError::EmptyGrid),
        block_size > 0 && width >= block_size && height >= block_size && (width / block_size
            > MAX_GRID_CELLS || height / block_size > MAX_GRID_CELLS || block_size > MAX_CELL_SIZE)
            ==> r == Err::<TileGrid, ConfigError>(ConfigError::GridTooLarge),
        block_size > 0 && width >= block_size && height >= block_size && width / block_size
            <= MAX_GRID_CELLS && height / block_size <= MAX_GRID_CELLS && block_size
            <= MAX_CELL_SIZE ==> {
            &&& r is Ok
            &&& r->Ok_0.inv()
            &&& r->Ok_0@ == empty_grid_view(width / block_size, height / block_size, block_size as int)
        },
{
    if block_size <= 0 {
        return Err(ConfigError::NonPositiveCellSize);
    }
    if width < block_size || height < block_size {
        return Err(ConfigError::EmptyGrid);
    }
    let w_cells: i64 = width / block_size;
    let h_cells: i64 = height / block_size;
    assert(1 <= w_cells && 1 <= h_cells) by {
        vstd::arithmetic::div_mod::lemma_div_non_zero(width as int, block_size as int);
        vstd::arithmetic::div_mod::lemma_div_non_zero(height as int, block_size as int);
    }
    if w_cells > MAX_GRID_CELLS || h_cells > MAX_GRID_CELLS || block_size > MAX_CELL_SIZE {
        return Err(ConfigError::GridTooLarge);
    }
    let w: usize = w_cells as usize;
    let h: usize = h_cells as usize;
    let mut blocks: Vec<Block> = Vec::new();
    let mut row: usize = 0;
    while row < h
        invariant
            0 < w <= MAX_GRID_CELLS,
            0 < h <= MAX_GRID_CELLS,
            0 < block_size <= MAX_CELL_SIZE,
            row <= h,
            blocks.len() == row * w,
            forall|i: int|
                0 <= i < blocks.len() ==> {
                    let ri = i / (w as int);
                    let ci = i % (w as int);
                    &&& (#[trigger] blocks[i]).x == ci * block_size
                    &&& blocks[i].y == ri * block_size
                    &&& blocks[i].size == block_size
                    &&& blocks[i].block_type == BlockType::Empty
                },
        decreases h - row,
    {
        let mut col: usize = 0;
        while col < w
            invariant
                0 < w <= MAX_GRID_CELLS,
                0 < h <= MAX_GRID_CELLS,
                0 < block_size <= MAX_CELL_SIZE,
                row < h,
                col <= w,
                blocks.len() == row * w + col,
                forall|i: int|
                    0 <= i < blocks.len() ==> {
                        let ri = i / (w as int);
                        let ci = i % (w as int);
                        &&& (#[trigger] blocks[i]).x == ci * block_size
                        &&& blocks[i].y == ri * block_size
                        &&& blocks[i].size == block_size
                        &&& blocks[i].block_type == BlockType::Empty
                    },
            decreases w - col,
        {
            proof {
                assert(row * w + col < w * h && col * block_size <= MAX_GRID_CELLS * MAX_CELL_SIZE
                    && row * block_size <= MAX_GRID_CELLS * MAX_CELL_SIZE) by (nonlinear_arith)
                    requires
                        0 <= col < w <= MAX_GRID_CELLS,
                        0 <= row < h <= MAX_GRID_CELLS,
                        0 < block_size <= MAX_CELL_SIZE,
                ;
                vstd::arithmetic::div_mod::lemma_fundamental_div_mod_converse(
                    row as int * (w as int) + col,
                    w as int,
                    row as int,
                    col as int,
                );
            }
            blocks.push(
                Block {
                    x: (col as i64) * block_size,
                    y: (row as i64) * block_size,
                    size: block_size,
                    block_type: BlockType::Empty,
                },
            );
            col = col + 1;
        }
        proof {
            assert((row as int + 1) * (w as int) == row as int * (w as int) + w as int)
                by (nonlinear_arith);
        }
        row = row + 1;
    }
    let g = TileGrid { width_in_cells: w, height_in_cells: h, grid_size: block_size, blocks };
    proof {
        assert(g.blocks.len() == w * h) by (nonlinear_arith)
            requires
                g.blocks.len() == h * w,
        ;
        let gv = empty_grid_view(w as int, h as int, block_size as int);
        assert forall|r2: int| 0 <= r2 < h as int implies #[trigger] g@.blocks[r2] =~= gv.blocks[r2] by {
            assert forall|c2: int| 0 <= c2 < w as int implies #[trigger] g@.blocks[r2][c2]
                == BlockType::Empty by {
                assert(0 <= r2 * (w as int) + c2 < g.blocks.len()) by (nonlinear_arith)
                    requires
                        0 <= c2 < w as int,
                        0 <= r2 < h as int,
                        g.blocks.len() == (w as int) * (h as int),
                ;
            }
        }
        assert(g@.blocks =~~= gv.blocks);
    }
    Ok(g)
}

impl TileGrid {
    /// Sets the kind of the tile at `row`, `col`; rejects out-of-range
    /// coordinates and leaves the grid unchanged in that case.
    pub fn set_block_type(&mut self, row: usize, col: usize, block_type: BlockType) -> (r: Result<
        (),
        ConfigError,
    >)
        requires
            old(self).inv(),
        ensures
            final(self).inv(),
            row < old(self)@.height && col < old(self)@.width ==> {
                &&& r == Ok::<(), ConfigError>(())
                &&& final(self)@.width == old(self)@.width
                &&& final(self)@.height == old(self)@.height
                &&& final(self)@.cell == old(self)@.cell
                &&& final(self)@.blocks == old(self)@.blocks.update(
                    row as int,
                    old(self)@.blocks[row as int].update(col as int, block_type),
                )
            },
            !(row < old(self)@.height && col < old(self)@.width) ==> r == Err::<(), ConfigError>(
                ConfigError::OutOfRange,
            ) && *final(self) == *old(self),
    {
        if row >= self.height_in_cells || col >= self.width_in_cells {
            return Err(ConfigError::OutOfRange);
        }
        let w: usize = self.width_in_cells;
        proof {
            assert(row * w + col < self.blocks.len()) by (nonlinear_arith)
                requires
                    0 <= col < w,
                    0 <= (row as int) < self.height_in_cells as int,
                    self.blocks.len() == w * (self.height_in_cells as int),
            ;
            vstd::arithmetic::div_mod::lemma_fundamental_div_mod_converse(
                row as int * (w as int) + col,
                w as int,
                row as int,
                col as int,
            );
        }
        let idx: usize = row * w + col;
        let mut b: Block = self.blocks[idx];
        b.block_type = block_type;
        self.blocks.set(idx, b);
        proof {
            let ov = old(self)@.blocks.update(
                row as int,
                old(self)@.blocks[row as int].update(col as int, block_type),
            );
            assert forall|r2: int| 0 <= r2 < self@.height implies #[trigger] self@.blocks[r2]
                =~= ov[r2] by {
                assert forall|c2: int| 0 <= c2 < self@.width implies #[trigger] self@.blocks[r2][c2]
                    == ov[r2][c2] by {
                    assert(0 <= r2 * (w as int) + c2 < self.blocks.len()) by (nonlinear_arith)
                        requires
                            0 <= c2 < w as int,
                            0 <= r2 < self.height_in_cells as int,
                            self.blocks.len() == (w as int) * (self.height_in_cells as int),
                    ;
                    if !(r2 == row as int && c2 == col as int) && r2 * (w as int) + c2
                        == idx as int {
                        vstd::arithmetic::div_mod::lemma_fundamental_div_mod_converse(
                            r2 * (w as int) + c2,
                            w as int,
                            r2,
                            c2,
                        );
                        vstd::arithmetic::div_mod::lemma_fundamental_div_mod_converse(
                            idx as int,
                            w as int,
                            row as int,
                            col as int,
                        );
                    }
                }
            }
            assert(self@.blocks =~~= ov);
        }
        Ok(())
    }
}

} // verus!

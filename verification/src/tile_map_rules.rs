use vstd::prelude::*;

verus! {

/// Number of tile columns in the tile set atlas; an atlas position is
/// encoded as `x + y * TILE_SET_COLUMNS`.
pub const TILE_SET_COLUMNS: i32 = 32;

/// The code of a cell that holds no tile: the tile map reports such a cell
/// at atlas position `(-1, -1)`.
pub const EMPTY_TILE_CODE: i32 = -33;

/// The code of the slide tile, on which the player rolls instead of walking.
pub const SLIDE_TILE_CODE: i32 = 3;

/// The code of the ledge tile, which a player could hang from.
pub const LEDGE_TILE_CODE: i32 = 1;

/// A position on a grid: a tile-map cell, an offset between cells, or a
/// position in the tile set atlas.
#[derive(Clone, Copy, Debug, PartialEq, Eq, Structural)]
pub struct Cell {
    pub x: i32,
    pub y: i32,
}

/// The offsets, from the cell that holds the player, of the cells probed each
/// physics frame, counter-clockwise: up-left, left, below, right, up-right.
pub open spec fn spec_probe_offsets() -> Seq<Cell> {
    seq![
        Cell { x: -1i32, y: -1i32 },
        Cell { x: -1i32, y: 0i32 },
        Cell { x: 0i32, y: 1i32 },
        Cell { x: 1i32, y: 0i32 },
        Cell { x: 1i32, y: -1i32 },
    ]
}

/// The offsets of the probed cells, in probing order.
pub fn probe_offsets() -> (res: Vec<Cell>)
    ensures
        res@ == spec_probe_offsets(),
{
    let mut v: Vec<Cell> = Vec::new();
    v.push(Cell { x: -1, y: -1 });
    v.push(Cell { x: -1, y: 0 });
    v.push(Cell { x: 0, y: 1 });
    v.push(Cell { x: 1, y: 0 });
    v.push(Cell { x: 1, y: -1 });
    v
}

/// Whether the component-wise sum of two cells fits in `i32`.
pub open spec fn cell_sum_fits(a: Cell, b: Cell) -> bool {
    &&& i32::MIN <= a.x + b.x <= i32::MAX
    &&& i32::MIN <= a.y + b.y <= i32::MAX
}

/// The component-wise sum of two cells.
pub fn cell_add(a: Cell, b: Cell) -> (res: Cell)
    requires
        cell_sum_fits(a, b),
    ensures
        res.x == a.x + b.x,
        res.y == a.y + b.y,
{
    Cell { x: a.x + b.x, y: a.y + b.y }
}

/// Whether the cell `center` has all its neighbours inside the `i32` grid.
pub open spec fn has_all_neighbours(center: Cell) -> bool {
    &&& i32::MIN < center.x < i32::MAX
    &&& i32::MIN < center.y < i32::MAX
}

/// The cells probed around the cell `center`, in probing order.
pub fn probe_cells(center: Cell) -> (res: Vec<Cell>)
    requires
        has_all_neighbours(center),
    ensures
        res@.len() == spec_probe_offsets().len(),
        forall|i: int|
            0 <= i < res@.len() ==> {
                &&& #[trigger] res@[i].x == center.x + spec_probe_offsets()[i].x
                &&& res@[i].y == center.y + spec_probe_offsets()[i].y
            },
{
    let offsets = probe_offsets();
    let mut cells: Vec<Cell> = Vec::new();
    let mut i: usize = 0;
    while i < offsets.len()
        invariant
            offsets@ == spec_probe_offsets(),
            has_all_neighbours(center),
            i <= offsets@.len(),
            cells@.len() == i,
            forall|j: int|
                0 <= j < i ==> {
                    &&& #[trigger] cells@[j].x == center.x + spec_probe_offsets()[j].x
                    &&& cells@[j].y == center.y + spec_probe_offsets()[j].y
                },
        decreases offsets@.len() - i,
    {
        let target = cell_add(center, offsets[i]);
        cells.push(target);
        i = i + 1;
    }
    cells
}

/// The code of the tile found at position `atlas` of the tile set atlas.
pub open spec fn spec_tile_code(atlas: Cell) -> int {
    atlas.x + atlas.y * TILE_SET_COLUMNS
}

/// Whether the code of the tile at `atlas` can be computed in `i32`.
pub open spec fn tile_code_fits(atlas: Cell) -> bool {
    &&& i32::MIN <= atlas.y * TILE_SET_COLUMNS <= i32::MAX
    &&& i32::MIN <= spec_tile_code(atlas) <= i32::MAX
}

/// The code of the tile found at position `atlas` of the tile set atlas.
pub fn tile_code(atlas: Cell) -> (res: i32)
    requires
        tile_code_fits(atlas),
    ensures
        res == spec_tile_code(atlas),
{
    atlas.x + atlas.y * TILE_SET_COLUMNS
}

/// The codes of the tiles at a sequence of atlas positions.
pub open spec fn spec_tile_codes(atlases: Seq<Cell>) -> Seq<i32> {
    atlases.map_values(|atlas: Cell| spec_tile_code(atlas) as i32)
}

/// Keeps the codes of the tiles around the player, for the player controllers
/// to read.
pub struct NodeManager {
    /// Whether each probed tile is reported on the console.
    pub debug: bool,
    /// The codes of the probed tiles, in probing order.
    pub tile_collide: Vec<i32>,
}

impl NodeManager {
    /// A manager that has probed nothing yet.
    pub fn new(debug: bool) -> (res: NodeManager)
        ensures
            res.debug == debug,
            res.tile_collide@ == Seq::<i32>::empty(),
    {
        NodeManager { debug, tile_collide: Vec::new() }
    }

    /// Replaces the recorded codes by those of the tiles found at the atlas
    /// positions `atlases`, one per probed cell, in probing order.
    pub fn record_tiles(&mut self, atlases: &Vec<Cell>)
        requires
            forall|i: int| 0 <= i < atlases@.len() ==> tile_code_fits(#[trigger] atlases@[i]),
        ensures
            final(self).debug == old(self).debug,
            final(self).tile_collide@ == spec_tile_codes(atlases@),
    {
        let mut codes: Vec<i32> = Vec::new();
        let mut i: usize = 0;
        while i < atlases.len()
            invariant
                forall|j: int| 0 <= j < atlases@.len() ==> tile_code_fits(#[trigger] atlases@[j]),
                i <= atlases@.len(),
                codes@ == spec_tile_codes(atlases@.take(i as int)),
            decreases atlases@.len() - i,
        {
            let code = tile_code(atlases[i]);
            proof {
                assert(atlases@.take(i as int + 1) == atlases@.take(i as int).push(atlases@[i as int]));
            }
            codes.push(code);
            i = i + 1;
        }
        proof {
            assert(atlases@.take(atlases@.len() as int) == atlases@);
        }
        self.tile_collide = codes;
    }
}

/// The probed cells are five distinct neighbours of the player's cell: each
/// lies at most one step away on each axis, and none is the player's cell.
pub proof fn lemma_probes_are_distinct_neighbours(i: int, j: int)
    requires
        0 <= i < spec_probe_offsets().len(),
        0 <= j < spec_probe_offsets().len(),
    ensures
        -1 <= spec_probe_offsets()[i].x <= 1,
        -1 <= spec_probe_offsets()[i].y <= 1,
        spec_probe_offsets()[i] != (Cell { x: 0i32, y: 0i32 }),
        i != j ==> spec_probe_offsets()[i] != spec_probe_offsets()[j],
{
}

/// Two tiles from the atlas columns have the same code only if they are the
/// same tile.
pub proof fn lemma_tile_code_injective(a: Cell, b: Cell)
    requires
        0 <= a.x < TILE_SET_COLUMNS,
        0 <= b.x < TILE_SET_COLUMNS,
        spec_tile_code(a) == spec_tile_code(b),
    ensures
        a == b,
{
}

/// A cell that holds no tile gets the empty code, and no tile of the atlas
/// gets that code.
pub proof fn lemma_empty_code_is_distinct(atlas: Cell)
    requires
        0 <= atlas.x < TILE_SET_COLUMNS,
        0 <= atlas.y,
    ensures
        spec_tile_code(Cell { x: -1i32, y: -1i32 }) == EMPTY_TILE_CODE,
        spec_tile_code(atlas) != EMPTY_TILE_CODE,
{
}

/// Tile codes count the atlas row by row, 32 tiles a row: the first tile is
/// code 0, the next column adds 1 and the next row adds 32.
pub proof fn lemma_tile_code_counts_rows(x: i32, y: i32)
    requires
        x < i32::MAX,
        y < i32::MAX,
    ensures
        spec_tile_code(Cell { x: 0i32, y: 0i32 }) == 0,
        spec_tile_code(Cell { x: (x + 1) as i32, y }) == spec_tile_code(Cell { x, y }) + 1,
        spec_tile_code(Cell { x, y: (y + 1) as i32 }) == spec_tile_code(Cell { x, y }) + 32,
{
}

} // verus!

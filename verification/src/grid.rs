//! The grid layer tables: flat arrays of little-endian `i16` cells, addressed
//! by scene, layer, row and column, or by scene, event and field.
//!
//! A cell that lies beyond the end of the table is never read or written:
//! a lookup answers `None`, and an update leaves the table as it was and
//! says so.

use crate::assets::GrpAsset;
use crate::le::{get_i16, i16_at, i16_high, i16_low, put_i16, lemma_i16_round_trip};
use vstd::prelude::*;

verus! {

/// The number of columns of a scene.
pub const SCENE_WIDTH: usize = 64;

/// The number of rows of a scene.
pub const SCENE_HEIGHT: usize = 64;

/// The number of layers of a scene.
pub const LAYER_NUM: usize = 6;

/// The number of events of a scene.
pub const DNUM: usize = 200;

/// The number of fields of an event.
pub const FIELDS_PER_EVENT: usize = 11;

/// The cell that holds the tile of `layer` at column `col` and row `row` of
/// `scene`.
pub open spec fn tile_index(scene: int, col: int, row: int, layer: int) -> int {
    (scene * LAYER_NUM + layer) * SCENE_WIDTH * SCENE_HEIGHT + row * SCENE_WIDTH + col
}

/// The cell that holds field `field` of event `event` of `scene`.
pub open spec fn event_index(scene: int, event: int, field: int) -> int {
    (scene * DNUM + event) * FIELDS_PER_EVENT + field
}

/// The value of cell `index`, which takes the two bytes from `2 * index` on;
/// `None` where the table does not hold both.
pub open spec fn cell(bytes: Seq<u8>, index: int) -> Option<i16> {
    if 0 <= index && 2 * index + 2 <= bytes.len() {
        Some(i16_at(bytes, 2 * index))
    } else {
        None
    }
}

/// The table after `v` was written into cell `index`; the table itself where
/// it has no such cell.
pub open spec fn with_cell(bytes: Seq<u8>, index: int, v: i16) -> Seq<u8> {
    if 0 <= index && 2 * index + 2 <= bytes.len() {
        bytes.update(2 * index, i16_low(v)).update(2 * index + 1, i16_high(v))
    } else {
        bytes
    }
}

/// A cell that was written holds the value that was written, whatever `i16`
/// it is.
pub proof fn lemma_set_then_get(bytes: Seq<u8>, index: int, v: i16)
    requires
        cell(bytes, index).is_some(),
    ensures
        cell(with_cell(bytes, index, v), index) == Some(v),
{
    lemma_i16_round_trip(v);
}

/// Writing a cell changes no other cell, and not the table's length.
pub proof fn lemma_set_keeps_others(bytes: Seq<u8>, index: int, other: int, v: i16)
    requires
        other != index,
    ensures
        with_cell(bytes, index, v).len() == bytes.len(),
        cell(with_cell(bytes, index, v), other) == cell(bytes, other),
{
}

/// Two different cells take different bytes: the byte ranges of cell `a` and
/// of cell `b` have no byte in common.
pub proof fn lemma_cells_disjoint(a: int, b: int)
    requires
        a != b,
    ensures
        2 * a + 2 <= 2 * b || 2 * b + 2 <= 2 * a,
{
}

/// Inside a scene's bounds, different places are different cells of the tile
/// table.
pub proof fn lemma_tile_index_injective(
    scene: int,
    col: int,
    row: int,
    layer: int,
    scene2: int,
    col2: int,
    row2: int,
    layer2: int,
)
    requires
        0 <= col < SCENE_WIDTH,
        0 <= row < SCENE_HEIGHT,
        0 <= layer < LAYER_NUM,
        0 <= col2 < SCENE_WIDTH,
        0 <= row2 < SCENE_HEIGHT,
        0 <= layer2 < LAYER_NUM,
        tile_index(scene, col, row, layer) == tile_index(scene2, col2, row2, layer2),
    ensures
        scene == scene2,
        col == col2,
        row == row2,
        layer == layer2,
{
}

/// With the event and the field inside their bounds, different fields are
/// different cells of the event table.
pub proof fn lemma_event_index_injective(
    scene: int,
    event: int,
    field: int,
    scene2: int,
    event2: int,
    field2: int,
)
    requires
        0 <= event < DNUM,
        0 <= field < FIELDS_PER_EVENT,
        0 <= event2 < DNUM,
        0 <= field2 < FIELDS_PER_EVENT,
        event_index(scene, event, field) == event_index(scene2, event2, field2),
    ensures
        scene == scene2,
        event == event2,
        field == field2,
{
}

/// Reads cell `index` of `bytes`.
fn read_cell(bytes: &Vec<u8>, index: u128) -> (r: Option<i16>)
    ensures
        r == cell(bytes@, index as int),
{
    let cells: usize = bytes.len() / 2;
    if index < cells as u128 {
        Some(get_i16(bytes.as_slice(), 2 * (index as usize)))
    } else {
        None
    }
}

/// The number of the tile cell, computed wide enough for any arguments.
fn tile_cell(scene_id: usize, w: usize, h: usize, layer: usize) -> (r: u128)
    ensures
        r == tile_index(scene_id as int, w as int, h as int, layer as int),
{
    let plane: u128 = scene_id as u128 * LAYER_NUM as u128 + layer as u128;
    assert(plane * SCENE_WIDTH == plane * 64 && plane * SCENE_WIDTH * SCENE_HEIGHT == plane * 4096
        && h * SCENE_WIDTH == h * 64) by (nonlinear_arith)
        requires
            SCENE_WIDTH == 64,
            SCENE_HEIGHT == 64,
    ;
    let line: u128 = plane * SCENE_WIDTH as u128 * SCENE_HEIGHT as u128 + h as u128
        * SCENE_WIDTH as u128;
    line + w as u128
}

/// The number of the event cell, computed wide enough for any arguments.
fn event_cell(scene_id: usize, id: usize, i: usize) -> (r: u128)
    ensures
        r == event_index(scene_id as int, id as int, i as int),
{
    let event: u128 = scene_id as u128 * DNUM as u128 + id as u128;
    assert(event * FIELDS_PER_EVENT == event * 11) by (nonlinear_arith)
        requires
            FIELDS_PER_EVENT == 11,
    ;
    event * FIELDS_PER_EVENT as u128 + i as u128
}

/// The tile table: for each scene, six layers of 64 rows of 64 tiles.  It is
/// only read.
pub struct SData(Vec<u8>);

impl View for SData {
    type V = Seq<u8>;

    closed spec fn view(&self) -> Seq<u8> {
        self.0@
    }
}

impl SData {
    /// Takes the data of an archive as the table.
    pub fn new(gs: GrpAsset) -> (r: SData)
        ensures
            r@ == gs.data@,
    {
        SData(gs.data)
    }

    /// The tile of `layer` at column `w` and row `h` of scene `scene_id`;
    /// `None` where the table ends before that cell.
    pub fn get_texture(&self, scene_id: usize, w: usize, h: usize, layer: usize) -> (r: Option<
        i16,
    >)
        ensures
            r == cell(self@, tile_index(scene_id as int, w as int, h as int, layer as int)),
    {
        read_cell(&self.0, tile_cell(scene_id, w, h, layer))
    }
}

/// The event table: for each scene, 200 events of 11 fields.  Its cells can
/// be overwritten in place.
pub struct DData(Vec<u8>);

impl View for DData {
    type V = Seq<u8>;

    closed spec fn view(&self) -> Seq<u8> {
        self.0@
    }
}

impl DData {
    /// Takes the data of an archive as the table.
    pub fn new(gs: GrpAsset) -> (r: DData)
        ensures
            r@ == gs.data@,
    {
        DData(gs.data)
    }

    /// Field `i` of event `id` of scene `scene_id`; `None` where the table
    /// ends before that cell.
    pub fn get_d(&self, scene_id: usize, id: usize, i: usize) -> (r: Option<i16>)
        ensures
            r == cell(self@, event_index(scene_id as int, id as int, i as int)),
    {
        read_cell(&self.0, event_cell(scene_id, id, i))
    }

    /// Overwrites field `i` of event `id` of scene `scene_id` with `val`:
    /// the two bytes of that cell and no others.  Where the table ends
    /// before that cell, nothing is written and the answer is `false`.
    pub fn set(&mut self, scene_id: usize, id: usize, i: usize, val: i16) -> (r: bool)
        ensures
            r == cell(old(self)@, event_index(scene_id as int, id as int, i as int)).is_some(),
            final(self)@ == with_cell(
                old(self)@,
                event_index(scene_id as int, id as int, i as int),
                val,
            ),
            r ==> cell(final(self)@, event_index(scene_id as int, id as int, i as int)) == Some(
                val,
            ),
    {
        let index: u128 = event_cell(scene_id, id, i);
        let cells: usize = self.0.len() / 2;
        if index < cells as u128 {
            proof {
                lemma_set_then_get(self@, index as int, val);
            }
            put_i16(&mut self.0, 2 * (index as usize), val);
            true
        } else {
            false
        }
    }
}

} // verus!

//! The map grid: metres and map-image pixels, and the label of the grid cell of a point.
//!
//! A map is 2184 m wide and 1890 m tall and its image 1024 by 888 pixels. The grid has 17
//! columns, `A` to `Q`, and 15 rows, `1` to `15`. Each cell is divided in three by three
//! sub-cells numbered like a keypad: 7 8 9 in the top row, 4 5 6 in the middle, 1 2 3 at
//! the bottom. All lengths are in thousandths.

use vstd::prelude::*;
use crate::text::{decimal, digit_char, push_char, push_decimal};
use crate::units::{clamp, clamped, in_domain, lemma_scaled_monotonic, scale, scaled, COORD_MAX};

verus! {

/// Width of the map in thousandths of a metre.
pub const MAP_WIDTH_M: i64 = 2_184_000;

/// Height of the map in thousandths of a metre.
pub const MAP_HEIGHT_M: i64 = 1_890_000;

/// Width of the map image in thousandths of a pixel.
pub const MAP_WIDTH_PX: i64 = 1_024_000;

/// Height of the map image in thousandths of a pixel.
pub const MAP_HEIGHT_PX: i64 = 888_000;

/// Number of grid columns.
pub const GRID_COLS: usize = 17;

/// Number of grid rows.
pub const GRID_ROWS: usize = 15;

/// Width of a grid cell, to the nearest thousandth of a metre.
pub const GRID_CELL_WIDTH_M: i64 = 128_471;

/// Height of a grid cell in thousandths of a metre.
pub const GRID_CELL_HEIGHT_M: i64 = 126_000;

/// Greatest index of a grid line whose pixel position is still a 64-bit number.
pub const LINE_INDEX_MAX: u64 = 100_000_000_000_000;

/// The last position on an axis that still counts as on the map lies this far before
/// the far edge.
pub const EDGE_MARGIN: i64 = 10;

/// Metres of a horizontal pixel offset.
pub open spec fn x_metres(px: int) -> int {
    scaled(px, 2184, 1024)
}

/// Metres of a vertical pixel offset.
pub open spec fn y_metres(px: int) -> int {
    scaled(px, 1890, 888)
}

/// Pixels of a horizontal offset in metres.
pub open spec fn x_pixels(m: int) -> int {
    scaled(m, 1024, 2184)
}

/// Pixels of a vertical offset in metres.
pub open spec fn y_pixels(m: int) -> int {
    scaled(m, 888, 1890)
}

/// Pixels of a distance in metres, by the mean of the two axis scales.
pub open spec fn distance_pixels(m: int) -> int {
    scaled(m, 3_874_752, 8_255_520)
}

/// The letter of the grid column with the given index: `A` for 0.
pub open spec fn col_letter_of(col: int) -> char {
    (65 + col) as char
}

/// Index of the cell that holds offset `v` on an axis of length `extent` with `cells`
/// cells; offsets beyond either edge count as the nearest position on the map.
pub open spec fn cell_index(v: int, extent: int, cells: int) -> int {
    let c = clamped(v, 0, extent - EDGE_MARGIN) * cells / extent;
    if c > cells - 1 {
        cells - 1
    } else {
        c
    }
}

/// Index, from 0 to 2, of the third of its cell that holds offset `v`.
pub open spec fn third_index(v: int, extent: int, cells: int) -> int {
    let t = clamped(v, 0, extent - EDGE_MARGIN) * cells * 3 / extent - 3 * cell_index(
        v,
        extent,
        cells,
    );
    if t > 2 {
        2
    } else {
        t
    }
}

/// The keypad digit of the sub-cell in column `kx` and row `ky`, both from 0 to 2, rows
/// counted from the top.
pub open spec fn keypad_digit(kx: int, ky: int) -> int {
    (2 - ky) * 3 + kx + 1
}

/// Column index of the grid cell of a point.
pub open spec fn grid_col(m_x: int) -> int {
    cell_index(m_x, MAP_WIDTH_M as int, GRID_COLS as int)
}

/// Row index of the grid cell of a point.
pub open spec fn grid_row(m_y: int) -> int {
    cell_index(m_y, MAP_HEIGHT_M as int, GRID_ROWS as int)
}

/// Keypad digit of the sub-cell of a point.
pub open spec fn grid_keypad(m_x: int, m_y: int) -> int {
    keypad_digit(
        third_index(m_x, MAP_WIDTH_M as int, GRID_COLS as int),
        third_index(m_y, MAP_HEIGHT_M as int, GRID_ROWS as int),
    )
}

/// The label of a cell: column letter, row number counted from 1, `k`, keypad digit.
pub open spec fn label_of(col: int, row: int, keypad: int) -> Seq<char> {
    seq![col_letter_of(col)] + decimal((row + 1) as nat) + seq!['k', digit_char(keypad)]
}

/// The grid label of a point given in thousandths of a metre.
pub open spec fn grid_label(m_x: int, m_y: int) -> Seq<char> {
    label_of(grid_col(m_x), grid_row(m_y), grid_keypad(m_x, m_y))
}

/// Cell and third indices stay in range.
pub proof fn lemma_cell_bounds(v: int, extent: int, cells: int)
    requires
        extent > EDGE_MARGIN,
        cells > 0,
    ensures
        0 <= cell_index(v, extent, cells) < cells,
        0 <= third_index(v, extent, cells) <= 2,
{
    let c = clamped(v, 0, extent - EDGE_MARGIN);
    let q = c * cells / extent;
    let q3 = c * cells * 3 / extent;
    assert(0 <= c * cells) by (nonlinear_arith)
        requires
            0 <= c,
            0 < cells,
    ;
    assert(c * cells < extent * cells) by (nonlinear_arith)
        requires
            c < extent,
            0 < cells,
    ;
    assert(0 <= q < cells) by (nonlinear_arith)
        requires
            q == c * cells / extent,
            0 <= c * cells < extent * cells,
            extent > 0,
    ;
    assert(3 * q <= q3) by (nonlinear_arith)
        requires
            q == c * cells / extent,
            q3 == c * cells * 3 / extent,
            0 <= c * cells,
            extent > 0,
    ;
}

/// Converting pixels to metres and back gives the same pixels.
pub proof fn lemma_pixels_round_trip(px: int)
    ensures
        x_pixels(x_metres(px)) == px,
        y_pixels(y_metres(px)) == px,
{
    let mx = (2 * px * 2184 + 1024) / 2048int;
    assert(x_metres(px) == mx);
    assert(x_pixels(mx) == (2 * mx * 1024 + 2184) / 4368int);
    let my = (2 * px * 1890 + 888) / 1776int;
    assert(y_metres(px) == my);
    assert(y_pixels(my) == (2 * my * 888 + 1890) / 3780int);
}

/// Converting metres to pixels and back gives the same metres to within one thousandth.
pub proof fn lemma_metres_round_trip(m: int)
    ensures
        m - 1 <= x_metres(x_pixels(m)) <= m + 1,
        m - 1 <= y_metres(y_pixels(m)) <= m + 1,
{
    let px = (2 * m * 1024 + 2184) / 4368int;
    assert(x_pixels(m) == px);
    assert(x_metres(px) == (2 * px * 2184 + 1024) / 2048int);
    let py = (2 * m * 888 + 1890) / 3780int;
    assert(y_pixels(m) == py);
    assert(y_metres(py) == (2 * py * 1890 + 888) / 1776int);
}

/// Near the top-left corner of the map, and beyond it, the label is `A1k7`; near the
/// bottom-right corner, and beyond it, the label is `Q15k3`.
pub proof fn lemma_corner_labels(m_x: int, m_y: int)
    ensures
        m_x <= 42_823 && m_y <= 41_999 ==> grid_label(m_x, m_y) == seq!['A', '1', 'k', '7'],
        m_x >= 2_141_177 && m_y >= 1_848_000 ==> grid_label(m_x, m_y) == seq![
            'Q',
            '1',
            '5',
            'k',
            '3',
        ],
{
    reveal_with_fuel(decimal, 3);
    if m_x <= 42_823 && m_y <= 41_999 {
        assert(grid_col(m_x) == 0);
        assert(grid_row(m_y) == 0);
        assert(grid_keypad(m_x, m_y) == 7);
        assert(grid_label(m_x, m_y) =~= seq!['A', '1', 'k', '7']);
    }
    if m_x >= 2_141_177 && m_y >= 1_848_000 {
        assert(grid_col(m_x) == 16);
        assert(grid_row(m_y) == 14);
        assert(grid_keypad(m_x, m_y) == 3);
        assert(grid_label(m_x, m_y) =~= seq!['Q', '1', '5', 'k', '3']);
    }
}

/// Converts a position in pixels to metres.
pub fn px_to_meters(px_x: i64, px_y: i64) -> (m: (i64, i64))
    requires
        in_domain(px_x as int),
        in_domain(px_y as int),
    ensures
        m.0 == x_metres(px_x as int),
        m.1 == y_metres(px_y as int),
{
    proof {
        lemma_scaled_monotonic(-COORD_MAX as int, px_x as int, 2184, 1024);
        lemma_scaled_monotonic(px_x as int, COORD_MAX as int, 2184, 1024);
        lemma_scaled_monotonic(-COORD_MAX as int, px_y as int, 1890, 888);
        lemma_scaled_monotonic(px_y as int, COORD_MAX as int, 1890, 888);
    }
    let x: i128 = scale(px_x, 2184, 1024);
    let y: i128 = scale(px_y, 1890, 888);
    (x as i64, y as i64)
}

/// Converts a position in metres to pixels.
pub fn meters_to_px(m_x: i64, m_y: i64) -> (px: (i64, i64))
    ensures
        px.0 == x_pixels(m_x as int),
        px.1 == y_pixels(m_y as int),
{
    proof {
        lemma_scaled_monotonic(i64::MIN as int, m_x as int, 1024, 2184);
        lemma_scaled_monotonic(m_x as int, i64::MAX as int, 1024, 2184);
        lemma_scaled_monotonic(i64::MIN as int, m_y as int, 888, 1890);
        lemma_scaled_monotonic(m_y as int, i64::MAX as int, 888, 1890);
    }
    let x: i128 = scale(m_x, 1024, 2184);
    let y: i128 = scale(m_y, 888, 1890);
    (x as i64, y as i64)
}

/// Converts a distance in metres to pixels, by the mean of the two axis scales.
pub fn meters_to_px_distance(meters: i64) -> (px: i64)
    ensures
        px == distance_pixels(meters as int),
{
    proof {
        lemma_scaled_monotonic(i64::MIN as int, meters as int, 3_874_752, 8_255_520);
        lemma_scaled_monotonic(meters as int, i64::MAX as int, 3_874_752, 8_255_520);
    }
    let d: i128 = scale(meters, 3_874_752, 8_255_520);
    d as i64
}

/// The letter of the grid column with the given index: `A` for 0, `Q` for 16.
pub fn col_letter(col: usize) -> (c: char)
    requires
        col < 26,
    ensures
        c == col_letter_of(col as int),
{
    (65u8 + col as u8) as char
}

/// Index of the cell that holds offset `v`, and index of the third of that cell.
fn locate(v: i64, extent: i64, cells: i64) -> (r: (usize, usize))
    requires
        EDGE_MARGIN < extent <= 1_000_000_000,
        0 < cells <= 1_000,
    ensures
        r.0 == cell_index(v as int, extent as int, cells as int),
        r.1 == third_index(v as int, extent as int, cells as int),
{
    proof {
        lemma_cell_bounds(v as int, extent as int, cells as int);
    }
    let c: i64 = clamp(v, 0, extent - EDGE_MARGIN);
    assert(0 <= c * cells <= 1_000_000_000 * 1_000) by (nonlinear_arith)
        requires
            0 <= c <= 1_000_000_000,
            0 < cells <= 1_000,
    ;
    let whole: i64 = c * cells / extent;
    let cell: i64 = if whole > cells - 1 {
        cells - 1
    } else {
        whole
    };
    assert(c * cells * 3 == (c * cells) * 3) by (nonlinear_arith);
    let thirds: i64 = c * cells * 3 / extent - 3 * cell;
    let third: i64 = if thirds > 2 {
        2
    } else {
        thirds
    };
    (cell as usize, third as usize)
}

/// The grid cell of a point: column index, row index and keypad digit.
pub fn grid_cell(m_x: i64, m_y: i64) -> (cell: (usize, usize, u8))
    ensures
        cell.0 == grid_col(m_x as int),
        cell.1 == grid_row(m_y as int),
        cell.2 == grid_keypad(m_x as int, m_y as int),
        cell.0 < GRID_COLS,
        cell.1 < GRID_ROWS,
        1 <= cell.2 <= 9,
{
    proof {
        lemma_cell_bounds(m_x as int, MAP_WIDTH_M as int, GRID_COLS as int);
        lemma_cell_bounds(m_y as int, MAP_HEIGHT_M as int, GRID_ROWS as int);
    }
    let (col, kx) = locate(m_x, MAP_WIDTH_M, 17);
    let (row, ky) = locate(m_y, MAP_HEIGHT_M, 15);
    let keypad: usize = (2 - ky) * 3 + kx + 1;
    (col, row, keypad as u8)
}

/// The grid label of a point given in thousandths of a metre, such as `G9k3`.
pub fn format_grid_coord(m_x: i64, m_y: i64) -> (label: String)
    ensures
        label@ == grid_label(m_x as int, m_y as int),
{
    let (col, row, keypad) = grid_cell(m_x, m_y);
    let mut label = String::new();
    push_char(&mut label, col_letter(col));
    push_decimal(&mut label, (row + 1) as u64);
    push_char(&mut label, 'k');
    push_char(&mut label, (48u8 + keypad) as char);
    assert(label@ =~= grid_label(m_x as int, m_y as int));
    label
}

/// Pixel offset of the grid line before the column with the given index.
pub open spec fn col_line(col: int) -> int {
    scaled(col, MAP_WIDTH_PX as int, GRID_COLS as int)
}

/// Pixel offset of the grid line before the row with the given index.
pub open spec fn row_line(row: int) -> int {
    scaled(row, MAP_HEIGHT_PX as int, GRID_ROWS as int)
}

/// Horizontal pixel position of the grid line before the column with the given index.
pub fn grid_col_px(col: usize) -> (px: i64)
    requires
        col <= LINE_INDEX_MAX,
    ensures
        px == col_line(col as int),
{
    proof {
        lemma_scaled_monotonic(0, col as int, MAP_WIDTH_PX as int, 17);
        lemma_scaled_monotonic(col as int, LINE_INDEX_MAX as int, MAP_WIDTH_PX as int, 17);
    }
    let p: i128 = scale(col as i64, MAP_WIDTH_PX, 17);
    p as i64
}

/// Vertical pixel position of the grid line before the row with the given index.
pub fn grid_row_px(row: usize) -> (px: i64)
    requires
        row <= LINE_INDEX_MAX,
    ensures
        px == row_line(row as int),
{
    proof {
        lemma_scaled_monotonic(0, row as int, MAP_HEIGHT_PX as int, 15);
        lemma_scaled_monotonic(row as int, LINE_INDEX_MAX as int, MAP_HEIGHT_PX as int, 15);
    }
    let p: i128 = scale(row as i64, MAP_HEIGHT_PX, 15);
    p as i64
}

} // verus!

//! The pure geometric transform between the logical pixel buffer and the
//! per-chip row bytes of the chained display protocol.
//!
//! The logical buffer holds one byte per pixel, laid out column-major within
//! each 8x8 panel: the pixel at panel `p`, column `c`, row `r` lives at flat
//! index `p * 64 + c * 8 + r`. The display chip instead addresses one full
//! row of a panel as a single byte, with column `c` in bit `7 - c`. The
//! functions here compute that transpose; they touch no hardware and no
//! state.

use vstd::prelude::*;

verus! {

/// The flat buffer index of the pixel at `panel`, `column`, `row`.
pub open spec fn pixel_index(panel: int, column: int, row: int) -> int {
    panel * 64 + column * 8 + row
}

/// The row byte of `panel` at `row`, folded over the first `columns` columns:
/// each column `c` contributes its pixel byte shifted into bit `7 - c`.
pub open spec fn row_byte_prefix(buffer: Seq<u8>, panel: int, row: int, columns: int) -> u8
    decreases columns,
{
    if columns <= 0 {
        0u8
    } else {
        row_byte_prefix(buffer, panel, row, columns - 1)
            | (buffer[pixel_index(panel, columns - 1, row)] << ((8 - columns) as u8))
    }
}

/// The byte the chained protocol sends for `row` of `panel`: bit `7 - c`
/// carries the pixel of column `c`, for all 8 columns.
pub open spec fn row_byte(buffer: Seq<u8>, panel: int, row: int) -> u8 {
    row_byte_prefix(buffer, panel, row, 8)
}

/// Computes the row byte of one panel from the logical buffer.
pub fn panel_row_byte(buffer: &Vec<u8>, panel: usize, row: usize) -> (b: u8)
    requires
        row < 8,
        panel * 64 + 64 <= buffer.len(),
    ensures
        b == row_byte(buffer@, panel as int, row as int),
{
    let mut acc: u8 = 0;
    let mut column: usize = 0;
    while column < 8
        invariant
            column <= 8,
            row < 8,
            panel * 64 + 64 <= buffer.len(),
            acc == row_byte_prefix(buffer@, panel as int, row as int, column as int),
        decreases 8 - column,
    {
        let shift: u8 = (7 - column) as u8;
        acc = acc | (buffer[panel * 64 + column * 8 + row] << shift);
        column = column + 1;
    }
    acc
}

/// Computes the row bytes of every chained panel for one physical row, in
/// chain order (panel 0 first).
pub fn row_bytes(buffer: &Vec<u8>, panel_count: usize, row: usize) -> (bytes: Vec<u8>)
    requires
        row < 8,
        buffer.len() == panel_count * 64,
    ensures
        bytes.len() == panel_count,
        forall|p: int|
            0 <= p < panel_count ==> bytes[p] == row_byte(buffer@, p, row as int),
{
    let mut bytes: Vec<u8> = Vec::new();
    let mut panel: usize = 0;
    while panel < panel_count
        invariant
            panel <= panel_count,
            row < 8,
            buffer.len() == panel_count * 64,
            bytes.len() == panel,
            forall|p: int| 0 <= p < panel ==> bytes[p] == row_byte(buffer@, p, row as int),
        decreases panel_count - panel,
    {
        assert(panel * 64 + 64 <= panel_count * 64) by (nonlinear_arith)
            requires
                panel < panel_count,
        ;
        let b = panel_row_byte(buffer, panel, row);
        bytes.push(b);
        panel = panel + 1;
    }
    bytes
}

} // verus!

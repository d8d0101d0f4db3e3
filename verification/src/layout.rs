//! Layout arithmetic of the panels: where each processor core's gauge goes
//! and how tall each disk's gauge is.

use vstd::prelude::*;

verus! {

/// A rectangle of terminal cells.
#[derive(Debug, Clone, Copy, PartialEq, Eq, Structural)]
pub struct Area {
    pub x: u16,
    pub y: u16,
    pub width: u16,
    pub height: u16,
}

/// The rectangle lies within the terminal's coordinate range.
pub open spec fn area_fits(a: Area) -> bool {
    a.x + a.width <= u16::MAX && a.y + a.height <= u16::MAX
}

/// Gauge columns for `n` cores: two up to four cores, four up to sixteen,
/// eight beyond.
pub open spec fn spec_cpu_columns(n: int) -> int {
    if n <= 4 {
        2
    } else if n <= 16 {
        4
    } else {
        8
    }
}

/// Rows of gauges needed for `n` cores.
pub open spec fn spec_cpu_rows(n: int) -> int {
    (n + spec_cpu_columns(n) - 1) / spec_cpu_columns(n)
}

/// The height of one row: the inner height shared among the rows, at least
/// one cell.
pub open spec fn spec_cpu_row_height(n: int, a: Area) -> int {
    let rows = if spec_cpu_rows(n) >= 1 {
        spec_cpu_rows(n)
    } else {
        1
    };
    let h = (a.height as int) / rows;
    if h >= 1 {
        h
    } else {
        1
    }
}

/// The width of one column.
pub open spec fn spec_cpu_col_width(n: int, a: Area) -> int {
    (a.width as int) / spec_cpu_columns(n)
}

/// The top edge of the gauge of core `i`.
pub open spec fn spec_cpu_cell_top(i: int, n: int, a: Area) -> int {
    a.y + (i / spec_cpu_columns(n)) * spec_cpu_row_height(n, a)
}

/// Whether the gauge of core `i` starts inside the panel.
pub open spec fn spec_cpu_cell_shown(i: int, n: int, a: Area) -> bool {
    spec_cpu_cell_top(i, n, a) < a.y + a.height
}

/// The gauge of core `i`: its column and row in the grid, one cell narrower
/// than the column (but at least one wide), and cut off at the panel's
/// bottom edge.
pub open spec fn spec_cpu_cell(i: int, n: int, a: Area) -> Area {
    let cw = spec_cpu_col_width(n, a);
    let rh = spec_cpu_row_height(n, a);
    let top = spec_cpu_cell_top(i, n, a);
    let bottom_room = a.y + a.height - top;
    Area {
        x: (a.x + (i % spec_cpu_columns(n)) * cw) as u16,
        y: top as u16,
        width: (if cw - 1 >= 1 {
            cw - 1
        } else {
            1
        }) as u16,
        height: (if rh <= bottom_room {
            rh
        } else {
            bottom_room
        }) as u16,
    }
}

/// The tops of the gauges start at the panel's top edge; when the rows fit
/// every gauge is shown, and otherwise rows are one cell tall.
proof fn lemma_cpu_top_bounds(i: int, n: int, a: Area)
    requires
        0 <= i < n,
        a.height >= 1,
    ensures
        spec_cpu_rows(n) >= 1,
        0 <= i / spec_cpu_columns(n) < spec_cpu_rows(n),
        spec_cpu_row_height(n, a) >= 1,
        spec_cpu_cell_top(i, n, a) >= a.y,
        spec_cpu_rows(n) <= a.height ==> spec_cpu_cell_shown(i, n, a),
        spec_cpu_rows(n) > a.height ==> spec_cpu_row_height(n, a) == 1,
{
    let c = spec_cpu_columns(n);
    let rows = spec_cpu_rows(n);
    let r = i / c;
    assert(rows >= 1) by (nonlinear_arith)
        requires
            rows == (n + c - 1) / c,
            c >= 2,
            n >= 1,
    ;
    assert(0 <= r < rows) by (nonlinear_arith)
        requires
            rows == (n + c - 1) / c,
            r == i / c,
            0 <= i < n,
            c >= 2,
    ;
    let h = a.height as int;
    if rows <= h {
        let rh = h / rows;
        assert(rh >= 1) by (nonlinear_arith)
            requires
                rh == h / rows,
                1 <= rows <= h,
        ;
        assert(r * rh < h) by (nonlinear_arith)
            requires
                rh == h / rows,
                0 <= r < rows,
                1 <= rows <= h,
        ;
    } else {
        assert(h / rows == 0) by (nonlinear_arith)
            requires
                0 <= h < rows,
        ;
    }
    assert(r * spec_cpu_row_height(n, a) >= 0) by (nonlinear_arith)
        requires
            r >= 0,
            spec_cpu_row_height(n, a) >= 1,
    ;
}

/// The gauge after a shown one starts no lower than the panel's bottom
/// edge.
proof fn lemma_cpu_top_within(i: int, n: int, a: Area)
    requires
        0 <= i < n,
        a.height >= 1,
        i > 0 ==> spec_cpu_cell_shown(i - 1, n, a),
    ensures
        a.y <= spec_cpu_cell_top(i, n, a) <= a.y + a.height,
{
    lemma_cpu_top_bounds(i, n, a);
    let c = spec_cpu_columns(n);
    if spec_cpu_rows(n) <= a.height {
        assert(spec_cpu_cell_shown(i, n, a));
    } else if i > 0 {
        lemma_cpu_top_bounds(i - 1, n, a);
        assert(i / c <= (i - 1) / c + 1) by (nonlinear_arith)
            requires
                c >= 2,
                i >= 1,
        ;
        let rh = spec_cpu_row_height(n, a);
        assert(rh == 1);
        assert((i / c) * rh == i / c && ((i - 1) / c) * rh == (i - 1) / c) by (nonlinear_arith)
            requires
                rh == 1,
        ;
    } else {
        assert(0int / c == 0) by (nonlinear_arith)
            requires
                c >= 2,
        ;
        assert(spec_cpu_cell_top(i, n, a) == a.y + 0 * spec_cpu_row_height(n, a));
    }
}

/// The gauges of the processor cores in a panel of inner area `a`: one per
/// core, in order, stopping at the first one that would start below the
/// panel. None for an empty panel or no cores.
pub fn cpu_cells(core_count: usize, a: Area) -> (cells: Vec<Area>)
    requires
        area_fits(a),
    ensures
        core_count == 0 || a.height == 0 ==> cells.len() == 0,
        core_count > 0 && a.height > 0 ==> {
            &&& cells.len() <= core_count
            &&& forall|i: int|
                0 <= i < cells.len() ==> spec_cpu_cell_shown(i, core_count as int, a)
                    && #[trigger] cells@[i] == spec_cpu_cell(i, core_count as int, a)
            &&& cells.len() < core_count ==> !spec_cpu_cell_shown(
                cells.len() as int,
                core_count as int,
                a,
            )
        },
        forall|i: int|
            0 <= i < cells.len() ==> a.y <= #[trigger] cells@[i].y && cells@[i].y + cells@[i].height
                <= a.y + a.height,
{
    let mut cells: Vec<Area> = Vec::new();
    if core_count == 0 || a.height == 0 {
        return cells;
    }
    let ghost n = core_count as int;
    let cols: usize = if core_count <= 4 {
        2
    } else if core_count <= 16 {
        4
    } else {
        8
    };
    let rows: usize = core_count / cols + if core_count % cols == 0 {
        0
    } else {
        1
    };
    assert(rows == spec_cpu_rows(n)) by (nonlinear_arith)
        requires
            rows == core_count / cols + if core_count % cols == 0 {
                0int
            } else {
                1int
            },
            cols == spec_cpu_columns(n),
            n == core_count,
            n >= 1,
    ;
    let rows1: usize = if rows >= 1 {
        rows
    } else {
        1
    };
    let rh0: usize = a.height as usize / rows1;
    let rh: usize = if rh0 >= 1 {
        rh0
    } else {
        1
    };
    assert(rh0 <= a.height) by (nonlinear_arith)
        requires
            rh0 == a.height as int / rows1 as int,
            rows1 >= 1,
    ;
    let cw: usize = a.width as usize / cols;
    let bottom: usize = a.y as usize + a.height as usize;
    let mut i: usize = 0;
    while i < core_count
        invariant
            n == core_count,
            core_count >= 1,
            a.height >= 1,
            area_fits(a),
            cols as int == spec_cpu_columns(n),
            rh as int == spec_cpu_row_height(n, a),
            cw as int == spec_cpu_col_width(n, a),
            bottom == a.y + a.height,
            i <= core_count,
            cells.len() == i,
            forall|j: int| 0 <= j < i ==> #[trigger] cells@[j] == spec_cpu_cell(j, n, a),
            forall|j: int| 0 <= j < i ==> #[trigger] spec_cpu_cell_shown(j, n, a),
            forall|j: int|
                0 <= j < i ==> a.y <= #[trigger] cells@[j].y && cells@[j].y + cells@[j].height
                    <= a.y + a.height,
        ensures
            forall|j: int|
                0 <= j < cells.len() ==> a.y <= #[trigger] cells@[j].y && cells@[j].y
                    + cells@[j].height <= a.y + a.height,
            cells.len() <= core_count,
            forall|j: int| 0 <= j < cells.len() ==> #[trigger] cells@[j] == spec_cpu_cell(j, n, a),
            forall|j: int| 0 <= j < cells.len() ==> #[trigger] spec_cpu_cell_shown(j, n, a),
            cells.len() < core_count ==> !spec_cpu_cell_shown(cells.len() as int, n, a),
        decreases core_count - i,
    {
        proof {
            if i > 0 {
                assert(cells@[i - 1] == spec_cpu_cell(i - 1, n, a));
            }
            lemma_cpu_top_within(i as int, n, a);
            lemma_cpu_top_bounds(i as int, n, a);
        }
        let r: usize = i / cols;
        let c: usize = i % cols;
        assert(r * rh <= a.height);
        let top: usize = a.y as usize + r * rh;
        if top >= bottom {
            break;
        }
        assert(c * cw <= a.width) by (nonlinear_arith)
            requires
                c < cols,
                cw == a.width as int / cols as int,
                cols >= 2,
        ;
        let x: usize = a.x as usize + c * cw;
        let w: usize = if cw >= 2 {
            cw - 1
        } else {
            1
        };
        let room: usize = bottom - top;
        let h: usize = if rh <= room {
            rh
        } else {
            room
        };
        let cell = Area { x: x as u16, y: top as u16, width: w as u16, height: h as u16 };
        assert(spec_cpu_cell_shown(i as int, n, a));
        assert(cell == spec_cpu_cell(i as int, n, a));
        cells.push(cell);
        i = i + 1;
    }
    cells
}

/// The height of each disk's gauge in a disk panel of inner height
/// `inner_height` listing `disk_count` disks: four rows are kept for the
/// read/write graphs and the rest is shared among the disks, at least one
/// row each.
pub open spec fn spec_disk_row_height(inner_height: u16, disk_count: int) -> int {
    let rows = if disk_count >= 1 {
        disk_count
    } else {
        1
    };
    let area = if inner_height >= 4 {
        inner_height - 4
    } else {
        0
    };
    let per = (area as int) / (rows % 0x1_0000);
    if per >= 1 {
        per
    } else {
        1
    }
}

/// The height of each disk's gauge. The disk count is taken as a 16-bit
/// number, so a count that is a multiple of 65536 is left out.
pub fn disk_row_height(inner_height: u16, disk_count: usize) -> (h: u16)
    requires
        (if disk_count >= 1 {
            disk_count
        } else {
            1
        }) % 0x1_0000 != 0,
    ensures
        h == spec_disk_row_height(inner_height, disk_count as int),
{
    let rows: usize = if disk_count >= 1 {
        disk_count
    } else {
        1
    };
    let io_height: u16 = 4;
    let area: u16 = inner_height.saturating_sub(io_height);
    let rows16: u16 = (rows % 0x1_0000) as u16;
    let per: u16 = area / rows16;
    if per >= 1 {
        per
    } else {
        1
    }
}

/// The gauge grid has two columns for up to four cores, four columns for
/// five to sixteen cores and eight beyond: core `i` sits in column `i mod
/// columns` of width `a.width / columns`, and in row `i / columns`.
pub proof fn lemma_cpu_grid_columns(i: int, n: int, a: Area)
    requires
        0 <= i < n,
    ensures
        n <= 4 ==> spec_cpu_columns(n) == 2,
        5 <= n <= 16 ==> spec_cpu_columns(n) == 4,
        n > 16 ==> spec_cpu_columns(n) == 8,
        n <= 4 ==> spec_cpu_cell(i, n, a).x == (a.x + (i % 2) * (a.width / 2)) as u16,
        5 <= n <= 16 ==> spec_cpu_cell(i, n, a).x == (a.x + (i % 4) * (a.width / 4)) as u16,
        n > 16 ==> spec_cpu_cell(i, n, a).x == (a.x + (i % 8) * (a.width / 8)) as u16,
        n <= 4 ==> spec_cpu_cell_top(i, n, a) == a.y + (i / 2) * spec_cpu_row_height(n, a),
        5 <= n <= 16 ==> spec_cpu_cell_top(i, n, a) == a.y + (i / 4) * spec_cpu_row_height(n, a),
        n > 16 ==> spec_cpu_cell_top(i, n, a) == a.y + (i / 8) * spec_cpu_row_height(n, a),
        n <= 4 ==> spec_cpu_rows(n) == (n + 1) / 2,
        5 <= n <= 16 ==> spec_cpu_rows(n) == (n + 3) / 4,
        n > 16 ==> spec_cpu_rows(n) == (n + 7) / 8,
{
}

} // verus!

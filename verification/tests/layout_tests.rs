use mizu::layout::{cpu_cells, disk_row_height, Area};
use mizu::text::decimal_string;

fn area(x: u16, y: u16, width: u16, height: u16) -> Area {
    Area { x, y, width, height }
}

#[test]
fn few_cores_use_two_columns() {
    let cells = cpu_cells(4, area(1, 1, 40, 10));
    assert_eq!(cells.len(), 4);
    assert_eq!(cells[0], area(1, 1, 19, 5));
    assert_eq!(cells[1], area(21, 1, 19, 5));
    assert_eq!(cells[2], area(1, 6, 19, 5));
    assert_eq!(cells[3], area(21, 6, 19, 5));
}

#[test]
fn many_cores_stop_at_the_bottom_edge() {
    // 32 cores in 8 columns need 4 rows, but only 3 fit.
    let cells = cpu_cells(32, area(0, 0, 80, 3));
    assert_eq!(cells.len(), 24);
    assert_eq!(cells[23], area(70, 2, 9, 1));
}

#[test]
fn empty_panels_get_no_gauges() {
    assert!(cpu_cells(0, area(0, 0, 80, 20)).is_empty());
    assert!(cpu_cells(8, area(0, 0, 80, 0)).is_empty());
}

#[test]
fn narrow_columns_stay_one_cell_wide() {
    let cells = cpu_cells(2, area(0, 0, 3, 4));
    assert_eq!(cells[0].width, 1);
    assert_eq!(cells[1].x, 1);
}

#[test]
fn disks_share_the_height_above_the_graphs() {
    assert_eq!(disk_row_height(20, 2), 8);
    assert_eq!(disk_row_height(20, 0), 16);
    assert_eq!(disk_row_height(5, 3), 1);
    assert_eq!(disk_row_height(2, 1), 1);
}

#[test]
fn decimals() {
    assert_eq!(decimal_string(0), "0");
    assert_eq!(decimal_string(7), "7");
    assert_eq!(decimal_string(100), "100");
    assert_eq!(decimal_string(u64::MAX), "18446744073709551615");
}

use upbit_ticker::table::{pad_right, table_row, TABLE_HEADER, TABLE_RULE};

#[test]
fn pad_right_fills_to_width() {
    assert_eq!(pad_right("ab", 5), "ab   ");
    assert_eq!(pad_right("", 3), "   ");
    assert_eq!(pad_right("abcdef", 3), "abcdef");
    assert_eq!(pad_right("비트", 4), "비트  ");
}

#[test]
fn row_layout_matches_columns() {
    let row = table_row("KRW-BTC", "100.00", "0.5000", "RISE", "0.0100", "2024-01-02 03:04:05");
    assert_eq!(
        row,
        "| KRW-BTC    | 100.00        | 0.5000       | RISE   | 0.0100      | 2024-01-02 03:04:05   |"
    );
    assert_eq!(row.chars().count(), TABLE_HEADER.chars().count());
    assert_eq!(TABLE_RULE.chars().count(), TABLE_HEADER.chars().count());
}

#[test]
fn long_cells_are_not_cut() {
    let row = table_row("ABCDEFGHIJKL", "1", "2", "EVEN", "3", "t");
    assert!(row.starts_with("| ABCDEFGHIJKL | 1             |"));
}

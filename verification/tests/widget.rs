use macmon_graph::render::RenderOutput;
use macmon_graph::widget::{column_offset, place_cells, points_shown, CellWrite, Direction};

#[test]
fn at_most_one_point_more_than_columns() {
    assert_eq!(points_shown(100, 10), 11);
    assert_eq!(points_shown(5, 10), 5);
    assert_eq!(points_shown(11, 10), 11);
    assert_eq!(points_shown(0, 0), 0);
    assert_eq!(points_shown(7, u16::MAX), 7);
}

#[test]
fn left_to_right_rows_align_right() {
    assert_eq!(column_offset(Direction::LeftToRight, 10, 4), 6);
    assert_eq!(column_offset(Direction::LeftToRight, 10, 12), 0);
    assert_eq!(column_offset(Direction::RightToLeft, 10, 4), 0);
    assert_eq!(Direction::default(), Direction::RightToLeft);
}

#[test]
fn blanks_are_skipped_and_cells_placed() {
    let out = RenderOutput {
        rows: vec![
            vec![(' ', (1, 1, 1)), ('a', (2, 2, 2))],
            vec![('b', (3, 3, 3)), (' ', (4, 4, 4))],
        ],
    };
    let rtl = place_cells(&out, 5, 7, 4, Direction::RightToLeft);
    assert_eq!(
        rtl,
        vec![
            CellWrite { x: 6, y: 7, ch: 'a', rgb: (2, 2, 2) },
            CellWrite { x: 5, y: 8, ch: 'b', rgb: (3, 3, 3) },
        ]
    );
    let ltr = place_cells(&out, 5, 7, 4, Direction::LeftToRight);
    assert_eq!(
        ltr,
        vec![
            CellWrite { x: 8, y: 7, ch: 'a', rgb: (2, 2, 2) },
            CellWrite { x: 7, y: 8, ch: 'b', rgb: (3, 3, 3) },
        ]
    );
    let none = place_cells(&RenderOutput { rows: vec![] }, 0, 0, 0, Direction::LeftToRight);
    assert!(none.is_empty());
}

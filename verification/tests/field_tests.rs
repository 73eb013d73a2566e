//! The field: cell setting, row counts, deletion of full rows, and the
//! gravity compaction that follows multi-row clears.

use tetris::{Field, FIELD_W};

fn print_field(f: &Field, h: usize) -> String {
    let mut canvas = vec![vec!["⬜"; FIELD_W]; h];
    for y in 0..h {
        for x in 0..FIELD_W {
            if f.test(x as i8, y as i8) {
                canvas[y][x] = "⬛";
            }
        }
    }
    canvas
        .into_iter()
        .map(|row| row.concat() + "\n")
        .collect::<Vec<_>>()
        .join("")
}

#[test]
fn test_float() {
    let mut f = Field::new();

    f.set(2, 1);
    f.set(4, 2);
    f.set(3, 2);
    f.set(0, 3);

    let s = print_field(&f, 4);
    assert_eq!([0, 1, 2, 1], [f.count(0), f.count(1), f.count(2), f.count(3)]);
    assert_eq!(
        "\
            ⬜⬜⬜⬜⬜⬜⬜⬜⬜⬜\n\
            ⬜⬜⬛⬜⬜⬜⬜⬜⬜⬜\n\
            ⬜⬜⬜⬛⬛⬜⬜⬜⬜⬜\n\
            ⬛⬜⬜⬜⬜⬜⬜⬜⬜⬜\n\
        ",
        s,
        "{}",
        s
    );

    f.float(2);

    let s = print_field(&f, 4);
    assert_eq!([0, 2, 1, 1], [f.count(0), f.count(1), f.count(2), f.count(3)]);
    assert_eq!(
        "\
            ⬜⬜⬜⬜⬜⬜⬜⬜⬜⬜\n\
            ⬜⬜⬜⬛⬛⬜⬜⬜⬜⬜\n\
            ⬜⬜⬛⬜⬜⬜⬜⬜⬜⬜\n\
            ⬛⬜⬜⬜⬜⬜⬜⬜⬜⬜\n\
        ",
        s
    );

    f.float(3);

    let s = print_field(&f, 4);
    assert_eq!([0, 1, 2, 1], [f.count(0), f.count(1), f.count(2), f.count(3)]);
    assert_eq!(
        "\
            ⬜⬜⬜⬜⬜⬜⬜⬜⬜⬜\n\
            ⬛⬜⬜⬜⬜⬜⬜⬜⬜⬜\n\
            ⬜⬜⬜⬛⬛⬜⬜⬜⬜⬜\n\
            ⬜⬜⬛⬜⬜⬜⬜⬜⬜⬜\n\
        ",
        s
    );
}

#[test]
fn test_delete() {
    let mut f = Field::new();

    for x in 0..(FIELD_W as i8) {
        f.set(x, 2);
    }
    f.set(3, 1);

    let s = print_field(&f, 3);
    assert_eq!(
        "\
            ⬜⬜⬜⬜⬜⬜⬜⬜⬜⬜\n\
            ⬜⬜⬜⬛⬜⬜⬜⬜⬜⬜\n\
            ⬛⬛⬛⬛⬛⬛⬛⬛⬛⬛\n\
        ",
        s
    );

    assert_eq!(false, f.delete(1));
    let s = print_field(&f, 3);
    assert_eq!(1, f.count(1));
    assert_eq!(
        "\
            ⬜⬜⬜⬜⬜⬜⬜⬜⬜⬜\n\
            ⬜⬜⬜⬛⬜⬜⬜⬜⬜⬜\n\
            ⬛⬛⬛⬛⬛⬛⬛⬛⬛⬛\n\
        ",
        s
    );

    assert_eq!(true, f.delete(2));
    let s = print_field(&f, 3);
    assert_eq!(0, f.count(0));
    assert_eq!(
        "\
            ⬜⬜⬜⬜⬜⬜⬜⬜⬜⬜\n\
            ⬜⬜⬜⬛⬜⬜⬜⬜⬜⬜\n\
            ⬜⬜⬜⬜⬜⬜⬜⬜⬜⬜\n\
        ",
        s
    );
}

#[test]
fn row_counts_follow_every_set() {
    let mut f = Field::new();
    for y in 0..22i8 {
        assert_eq!(0, f.count(y));
    }
    f.set(1, 1);
    assert_eq!(1, f.count(1));
    f.set(2, 1);
    assert_eq!(2, f.count(1));
    // setting an occupied cell changes neither the grid nor the count
    f.set(1, 1);
    assert_eq!(2, f.count(1));
    assert!(f.test(1, 1));
    for x in 0..(FIELD_W as i8) {
        f.set(x, 5);
    }
    assert_eq!(FIELD_W, f.count(5));
    assert!(f.is_filled(5));
    assert!(f.delete(5));
    assert_eq!(0, f.count(5));
}

#[test]
fn float_with_empty_rows_above_is_noop() {
    let mut f = Field::new();
    f.set(3, 5);
    // everything above row 5 is empty, so floating it moves nothing
    f.float(5);
    assert!(f.test(3, 5));
    assert_eq!(1, f.count(5));
    for y in 0..5i8 {
        assert_eq!(0, f.count(y));
    }
    // floating a row of a completely empty field is a no-op too
    let mut g = Field::new();
    g.float(10);
    for y in 0..22i8 {
        assert_eq!(0, g.count(y));
    }
}

#[test]
fn multi_line_float_moves_stack_down() {
    let mut f = Field::new();
    // two full rows with one partial row resting on top of them
    for x in 0..(FIELD_W as i8) {
        f.set(x, 2);
        f.set(x, 3);
    }
    f.set(2, 1);

    // delete both rows and float each, highest row on screen first
    assert!(f.delete(2));
    f.float(2);
    assert!(f.delete(3));
    f.float(3);

    // the partial row fell two rows and everything above is vacated
    assert!(f.test(2, 3));
    assert_eq!(1, f.count(3));
    for y in 0..3i8 {
        assert_eq!(0, f.count(y));
    }
}

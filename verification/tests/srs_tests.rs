//! The rotation system's kick tables and the piece catalog's invariants.

use tetris::{cell_table, Cell, MinoForm, MinoKind, MinoState, Rotation, SrsOffset, SrsOffsetExe};

const STATES: [Rotation; 4] = [
    Rotation::State0,
    Rotation::StateR,
    Rotation::State2,
    Rotation::StateL,
];

#[test]
fn kick_tables_lead_with_the_free_rotation() {
    let transitions = [
        (Rotation::State0, Rotation::StateR),
        (Rotation::StateR, Rotation::State2),
        (Rotation::State2, Rotation::StateL),
        (Rotation::StateL, Rotation::State0),
        (Rotation::State0, Rotation::StateL),
        (Rotation::StateL, Rotation::State2),
        (Rotation::State2, Rotation::StateR),
        (Rotation::StateR, Rotation::State0),
    ];
    for form in [MinoForm::Normal, MinoForm::Bar] {
        for (from, to) in transitions {
            let offsets = SrsOffset::new(form, from, to).offset();
            assert_eq!(5, offsets.len());
            assert_eq!((0, 0), offsets[0]);
        }
    }
}

#[test]
fn kick_tables_match_the_catalog() {
    let normal = SrsOffset::new(MinoForm::Normal, Rotation::State0, Rotation::StateR).offset();
    assert_eq!(vec![(0, 0), (-1, 0), (-1, 1), (0, -2), (-1, -2)], normal);
    let bar = SrsOffset::new(MinoForm::Bar, Rotation::State0, Rotation::StateR).offset();
    assert_eq!(vec![(0, 0), (-2, 0), (1, 0), (-2, -1), (1, 2)], bar);
}

#[test]
fn o_piece_cells_are_identical_in_all_states() {
    let base = cell_table(MinoKind::MinoO, Rotation::State0);
    for state in STATES {
        assert_eq!(base, cell_table(MinoKind::MinoO, state));
    }
}

#[test]
fn every_catalog_entry_has_four_cells() {
    for kind in [
        MinoKind::MinoI,
        MinoKind::MinoO,
        MinoKind::MinoS,
        MinoKind::MinoZ,
        MinoKind::MinoJ,
        MinoKind::MinoL,
        MinoKind::MinoT,
    ] {
        for state in STATES {
            let cells = MinoState::new(kind, state, 0, 0).cells();
            assert_eq!(4, cells.len());
            for (dx, dy) in cells {
                assert!((-1..=2).contains(&dx));
                assert!((-1..=2).contains(&dy));
            }
        }
    }
}

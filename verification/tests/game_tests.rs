//! The game engine: bag sequencing, lock delay, scoring, overflow, and the
//! scripted movement and rotation sequences.

use tetris::{
    mino_src, withCell, AbsoluteRotation, Event, Field, Game, GameEvent, IsState, MinoKind,
    MinoState, Position, Rotatable, Rotation, RotationState, TestEvent, FIELD_H, FIELD_W,
};

fn abs_move(x: i8, y: i8) -> Event {
    Event::Test(TestEvent::AbsoluteMovement(x, y))
}

fn abs_rot(r: AbsoluteRotation) -> Event {
    Event::Test(TestEvent::AbsoluteRotation(r))
}

fn kind_index(k: MinoKind) -> usize {
    match k {
        MinoKind::MinoI => 0,
        MinoKind::MinoO => 1,
        MinoKind::MinoS => 2,
        MinoKind::MinoZ => 3,
        MinoKind::MinoJ => 4,
        MinoKind::MinoL => 5,
        MinoKind::MinoT => 6,
    }
}

/// Renders rows `lo..hi` of the game: locked cells dark, the active
/// piece's cells blank, everything else light.
fn print_field(game: &Game, lo: usize, hi: usize) -> String {
    let mut canvas = vec![vec!["⬜"; FIELD_W]; FIELD_H];
    for (x, y) in game.mino().absolute_cells() {
        if 0 <= x && (x as usize) < FIELD_W && 0 <= y && (y as usize) < FIELD_H {
            canvas[y as usize][x as usize] = "　";
        }
    }
    let rows = game.rows();
    for y in 0..FIELD_H {
        for x in 0..FIELD_W {
            if rows[y][x] {
                canvas[y][x] = "⬛";
            }
        }
    }
    canvas[lo..hi]
        .iter()
        .map(|row| row.concat() + "\n")
        .collect::<Vec<_>>()
        .join("")
}

#[test]
fn bag_gives_each_kind_once_per_window() {
    // a freshly built engine draws the identity bag
    let mut g = Game::new([7; 16]);
    let mut kinds = Vec::new();
    for _ in 0..7 {
        kinds.push(g.new_mino().kind);
    }
    assert_eq!(
        vec![
            MinoKind::MinoI,
            MinoKind::MinoO,
            MinoKind::MinoS,
            MinoKind::MinoZ,
            MinoKind::MinoJ,
            MinoKind::MinoL,
            MinoKind::MinoT,
        ],
        kinds
    );

    // after a start the windows are shuffled but stay fair: each window of
    // seven draws aligned to a bag boundary holds all seven kinds
    let mut g = Game::new([7; 16]);
    g.start();
    let mut seen = [false; 7];
    seen[kind_index(g.mino().kind)] = true;
    for _ in 0..6 {
        let m = g.new_mino();
        assert!(!seen[kind_index(m.kind)]);
        seen[kind_index(m.kind)] = true;
    }
    assert!(seen.iter().all(|s| *s));
    // the next aligned window is fair as well
    let mut seen = [false; 7];
    for _ in 0..7 {
        let m = g.new_mino();
        assert!(!seen[kind_index(m.kind)]);
        seen[kind_index(m.kind)] = true;
    }
    assert!(seen.iter().all(|s| *s));
}

#[test]
fn bag_is_deterministic_under_a_seed() {
    let mut a = Game::new([42; 16]);
    let mut b = Game::new([42; 16]);
    a.start();
    b.start();
    assert_eq!(a.mino().kind, b.mino().kind);
    for _ in 0..14 {
        assert_eq!(a.new_mino().kind, b.new_mino().kind);
    }
}

#[test]
fn start_reports_start_preview_and_score() {
    let mut g = Game::new([3; 16]);
    g.start();
    let evs = g.take_events();
    assert_eq!(3, evs.len());
    assert!(matches!(evs[0], GameEvent::Start));
    match &evs[1] {
        GameEvent::Next(preview) => assert_eq!(3, preview.len()),
        _ => panic!("expected a preview"),
    }
    match &evs[2] {
        GameEvent::ScoreChange(s) => {
            assert_eq!(0, s.deleted_line);
            assert_eq!(0, s.tetris);
        },
        _ => panic!("expected the initial score"),
    }
    assert!(g.take_events().is_empty());
}

#[test]
fn lock_delay_locks_without_input() {
    let mut g = Game::new([9; 16]);
    g.start();
    // rest a piece on the floor and only let time pass
    g.mino = MinoState::new(MinoKind::MinoT, Rotation::State0, 4, 21);
    g.step(Event::TimeGo);
    assert!(g.is_landing);
    assert!(!g.is_locked);
    g.step(Event::TimeGo);
    assert!(!g.is_locked);
    g.step(Event::TimeGo);
    assert!(g.is_locked);
    // the piece's cells are in the field now
    assert!(g.field.test(3, 21));
    assert!(g.field.test(4, 21));
    assert!(g.field.test(5, 21));
    assert!(g.field.test(4, 20));
}

#[test]
fn four_rows_in_one_lock_score_a_tetris() {
    let mut g = Game::new([11; 16]);
    g.start();
    // four bottom rows complete except for their leftmost cell
    for y in 18..22i8 {
        for x in 1..(FIELD_W as i8) {
            g.field_mut().set(x, y);
        }
    }
    // a vertical bar over the open column, hard dropped
    g.mino = MinoState::new(MinoKind::MinoI, Rotation::StateR, -1, 19);
    g.step(Event::Land);
    let s = g.score();
    assert_eq!(4, s.deleted_line);
    assert_eq!(1, s.tetris);
    assert_eq!(0, s.t_spin1);
    assert_eq!(0, s.t_spin2);
    assert_eq!(0, s.t_spin3);
    assert!(g.is_locked);
    // after the resolution delay the rows are gone and play resumes
    g.step(Event::Nop);
    g.step(Event::Nop);
    g.step(Event::Nop);
    assert!(!g.is_locked);
    for y in 0..(FIELD_H as i8) {
        assert_eq!(0, g.field.count(y));
    }
}

#[test]
fn one_row_after_a_rotation_scores_a_spin() {
    let mut g = Game::new([13; 16]);
    g.start();
    for x in 1..(FIELD_W as i8) {
        g.field_mut().set(x, 21);
    }
    // rotate in free space so the last grace-resetting action is a
    // rotation, then rest the piece over the open column and let the lock
    // delay run out
    g.mino = MinoState::new(MinoKind::MinoI, Rotation::State0, 4, 10);
    g.step(Event::RotateR);
    assert!(g.spun);
    g.step(abs_move(-1, 19));
    g.step(Event::TimeGo);
    g.step(Event::TimeGo);
    g.step(Event::TimeGo);
    let s = g.score();
    assert_eq!(1, s.deleted_line);
    assert_eq!(1, s.t_spin1);
    assert_eq!(0, s.tetris);
}

#[test]
fn locking_above_the_visible_top_overflows() {
    let mut g = Game::new([17; 16]);
    g.start();
    // block the hidden spawn row from below
    for x in 3..=6i8 {
        g.field_mut().set(x, 2);
    }
    g.mino = MinoState::new(MinoKind::MinoI, Rotation::State0, 4, 1);
    g.take_events();
    g.step(Event::Land);
    assert!(!g.alive);
    let evs = g.take_events();
    assert!(evs.iter().any(|e| matches!(e, GameEvent::Overflow)));
    // no line-clear scoring happened
    let s = g.score();
    assert_eq!(0, s.deleted_line);
    assert_eq!(0, s.tetris);
    // after the overflow every further step is ignored
    let before = *g.mino();
    g.step(Event::MoveL);
    g.step(Event::TimeGo);
    assert_eq!(before.x, g.mino().x);
    assert_eq!(before.y, g.mino().y);
}

#[test]
fn o_piece_never_rotates() {
    for state in [
        Rotation::State0,
        Rotation::StateR,
        Rotation::State2,
        Rotation::StateL,
    ] {
        let m = MinoState::new(MinoKind::MinoO, state, 4, 10);
        assert!(!m.is_rotatable());
    }
    let mut g = Game::new([23; 16]);
    g.start();
    g.mino = MinoState::new(MinoKind::MinoO, Rotation::State0, 4, 10);
    g.step(Event::RotateR);
    assert!(g.mino().is_0());
    assert_eq!((4, 10), g.mino().pos());
    g.step(Event::RotateL);
    assert!(g.mino().is_0());
    assert_eq!((4, 10), g.mino().pos());
    assert!(!g.spun);
}

#[test]
fn rotation_transitions_are_a_cycle() {
    assert_eq!(Rotation::StateR, Rotation::State0.right_state());
    assert_eq!(Rotation::State2, Rotation::StateR.right_state());
    assert_eq!(Rotation::StateL, Rotation::State2.right_state());
    assert_eq!(Rotation::State0, Rotation::StateL.right_state());
    assert_eq!(Rotation::StateL, Rotation::State0.left_state());
    for start in [
        Rotation::State0,
        Rotation::StateR,
        Rotation::State2,
        Rotation::StateL,
    ] {
        let mut r = start;
        for _ in 0..4 {
            r = r.right_state();
        }
        assert_eq!(start, r);
        let mut l = start;
        for _ in 0..4 {
            l = l.left_state();
        }
        assert_eq!(start, l);
    }
}

#[test]
fn blocked_rotation_kicks_off_the_wall() {
    let mut g = Game::new([29; 16]);
    g.start();
    // a vertical bar hugging the left wall: the free rotation collides,
    // the third kick candidate fits two columns to the right
    g.mino = MinoState::new(MinoKind::MinoI, Rotation::StateR, -1, 10);
    g.step(Event::RotateR);
    assert!(g.mino().is_2());
    assert_eq!((1, 10), g.mino().pos());
    assert!(g.spun);
}

#[test]
fn moves_against_the_walls_are_noops() {
    let mut g = Game::new([31; 16]);
    g.start();
    g.mino = mino_src(0);
    g.step(abs_move(0, 2));
    g.step(Event::MoveL);
    assert_eq!(0, g.mino().pos().0);
    g.step(abs_move(9, 3));
    g.step(Event::MoveR);
    assert_eq!(9, g.mino().pos().0);
}

#[test]
fn test_step_i() {
    let mut game = Game::new([5; 16]);
    game.start();
    game.mino = mino_src(0);
    {
        game.step(abs_move(0, 2));
        game.step(Event::MoveL);
        assert_eq!(0, game.mino().pos().0);

        game.step(abs_move(9, 3));
        game.step(Event::MoveR);
        assert_eq!(9, game.mino().pos().0);
    }

    println!("from L");
    {
        game.step(abs_rot(AbsoluteRotation::StateL));
        game.step(abs_move(0, 1));
        println!("{}", print_field(&game, 0, 6));
        game.step(Event::RotateL);
        println!("to 2");
        println!("{}", print_field(&game, 0, 6));

        game.step(abs_rot(AbsoluteRotation::StateL));
        game.step(abs_move(0, 1));
        println!("{}", print_field(&game, 0, 6));
        game.step(Event::RotateR);
        println!("to 0");
        println!("{}", print_field(&game, 0, 6));
    }

    println!("from R");
    {
        game.step(abs_rot(AbsoluteRotation::StateR));
        game.step(abs_move(0, 1));
        println!("{}", print_field(&game, 0, 6));
        game.step(Event::RotateL);
        println!("to 0");
        println!("{}", print_field(&game, 0, 6));

        game.step(abs_rot(AbsoluteRotation::StateR));
        game.step(abs_move(0, 1));
        println!("{}", print_field(&game, 0, 6));
        game.step(Event::RotateR);
        println!("to 2");
        println!("{}", print_field(&game, 0, 6));
    }

    println!("from L");
    {
        game.step(abs_rot(AbsoluteRotation::StateL));
        game.step(abs_move(9, 1));
        println!("{}", print_field(&game, 0, 6));
        game.step(Event::RotateL);
        println!("to 2");
        println!("{}", print_field(&game, 0, 6));

        game.step(abs_rot(AbsoluteRotation::StateL));
        game.step(abs_move(9, 1));
        println!("{}", print_field(&game, 0, 6));
        game.step(Event::RotateR);
        println!("to 0");
        println!("{}", print_field(&game, 0, 6));
    }

    println!("from R");
    {
        game.step(abs_rot(AbsoluteRotation::StateR));
        game.step(abs_move(8, 1));
        println!("{}", print_field(&game, 0, 6));
        game.step(Event::RotateL);
        println!("to 0");
        println!("{}", print_field(&game, 0, 6));

        game.step(abs_rot(AbsoluteRotation::StateR));
        game.step(abs_move(8, 1));
        println!("{}", print_field(&game, 0, 6));
        game.step(Event::RotateR);
        println!("to 2");
        println!("{}", print_field(&game, 0, 6));
    }
}

fn assert_0(game: &Game) {
    let s = print_field(game, 0, 6);
    assert_eq!(
        "\
            ⬜⬜⬜⬜⬜⬜⬜⬜⬜⬜\n\
            ⬜⬜⬜⬜⬜⬜⬜⬜⬜⬜\n\
            ⬜⬜⬜　　　　⬜⬜⬜\n\
            ⬜⬜⬜⬜⬜⬜⬜⬜⬜⬜\n\
            ⬜⬜⬜⬜⬜⬜⬜⬜⬜⬜\n\
            ⬜⬜⬜⬜⬜⬜⬜⬜⬜⬜\n\
        ",
        s,
        "\n{}",
        s
    );
}

fn assert_r(game: &Game) {
    let s = print_field(game, 0, 6);
    assert_eq!(
        "\
            ⬜⬜⬜⬜⬜⬜⬜⬜⬜⬜\n\
            ⬜⬜⬜⬜⬜　⬜⬜⬜⬜\n\
            ⬜⬜⬜⬜⬜　⬜⬜⬜⬜\n\
            ⬜⬜⬜⬜⬜　⬜⬜⬜⬜\n\
            ⬜⬜⬜⬜⬜　⬜⬜⬜⬜\n\
            ⬜⬜⬜⬜⬜⬜⬜⬜⬜⬜\n\
        ",
        s,
        "\n{}",
        s
    );
}

fn assert_l(game: &Game) {
    let s = print_field(game, 0, 6);
    assert_eq!(
        "\
            ⬜⬜⬜⬜⬜⬜⬜⬜⬜⬜\n\
            ⬜⬜⬜⬜　⬜⬜⬜⬜⬜\n\
            ⬜⬜⬜⬜　⬜⬜⬜⬜⬜\n\
            ⬜⬜⬜⬜　⬜⬜⬜⬜⬜\n\
            ⬜⬜⬜⬜　⬜⬜⬜⬜⬜\n\
            ⬜⬜⬜⬜⬜⬜⬜⬜⬜⬜\n\
        ",
        s,
        "\n{}",
        s
    );
}

fn assert_2(game: &Game) {
    let s = print_field(game, 0, 6);
    assert_eq!(
        "\
            ⬜⬜⬜⬜⬜⬜⬜⬜⬜⬜\n\
            ⬜⬜⬜⬜⬜⬜⬜⬜⬜⬜\n\
            ⬜⬜⬜⬜⬜⬜⬜⬜⬜⬜\n\
            ⬜⬜⬜　　　　⬜⬜⬜\n\
            ⬜⬜⬜⬜⬜⬜⬜⬜⬜⬜\n\
            ⬜⬜⬜⬜⬜⬜⬜⬜⬜⬜\n\
        ",
        s,
        "{}",
        s
    );
}

#[test]
fn test_absolute_rotation() {
    let mut game = Game::new([5; 16]);
    game.start();
    game.mino = mino_src(0);

    game.step(abs_move(4, 2));

    game.step(abs_rot(AbsoluteRotation::State0));
    assert_0(&game);
    game.step(abs_rot(AbsoluteRotation::StateR));
    assert_r(&game);
    game.step(abs_rot(AbsoluteRotation::State0));
    assert_0(&game);
    game.step(abs_rot(AbsoluteRotation::StateL));
    assert_l(&game);
    game.step(abs_rot(AbsoluteRotation::State0));
    assert_0(&game);
    game.step(abs_rot(AbsoluteRotation::State2));
    assert_2(&game);
    game.step(abs_rot(AbsoluteRotation::State0));
    assert_0(&game);

    game.step(abs_rot(AbsoluteRotation::StateR));
    assert_r(&game);
    game.step(abs_rot(AbsoluteRotation::StateL));
    assert_l(&game);
    game.step(abs_rot(AbsoluteRotation::StateR));
    assert_r(&game);
    game.step(abs_rot(AbsoluteRotation::State2));
    assert_2(&game);
    game.step(abs_rot(AbsoluteRotation::StateR));
    assert_r(&game);

    game.step(abs_rot(AbsoluteRotation::StateL));
    assert_l(&game);
    game.step(abs_rot(AbsoluteRotation::State2));
    assert_2(&game);
    game.step(abs_rot(AbsoluteRotation::StateL));
    assert_l(&game);
}

#[test]
fn field_snapshot_matches_probes() {
    let mut f = Field::new();
    f.set(0, 21);
    f.set(9, 21);
    let rows = f.rows();
    assert_eq!(FIELD_H, rows.len());
    assert!(rows[21][0]);
    assert!(rows[21][9]);
    assert!(!rows[21][5]);
    // out-of-bounds probes read as blocked
    assert!(f.test(-1, 0));
    assert!(f.test(10, 0));
    assert!(f.test(0, 22));
    assert!(!f.test(0, 0));
}

use pixgrid::color::Color;
use pixgrid::term::Action;
use pixgrid::term::Event;
use pixgrid::term::PaintCmd;
use pixgrid::term::TermSize;
use pixgrid::term::Terminal;

fn grid(width: u16, length: u16, background: Color) -> Terminal {
    Terminal::new(TermSize { width, length }, background)
}

#[test]
fn fresh_grid_all_background() {
    let t = grid(4, 5, Color::DarkBlue);
    assert_eq!(t.width(), 4);
    assert_eq!(t.length(), 5);
    assert_eq!(t.update().len(), 20);
    for y in 0..5 {
        for x in 0..4 {
            assert_eq!(t.get_color(x, y), Color::DarkBlue);
        }
    }
    assert_eq!(t.cursor(), (0, 0));
    assert!(t.is_running());
}

#[test]
fn cycle_follows_fixed_order() {
    let mut t = grid(1, 1, Color::DarkGrey);
    let expected = [
        Color::DarkRed,
        Color::DarkGreen,
        Color::DarkBlue,
        Color::DarkYellow,
        Color::DarkMagenta,
        Color::DarkGrey,
    ];
    for want in expected {
        t.change_pix(0, 0);
        assert_eq!(t.get_color(0, 0), want);
    }
}

#[test]
fn cycle_period_is_exactly_six() {
    let mut t = grid(1, 1, Color::DarkYellow);
    for step in 1..=6 {
        t.change_pix(0, 0);
        if step < 6 {
            assert_ne!(t.get_color(0, 0), Color::DarkYellow);
        }
    }
    assert_eq!(t.get_color(0, 0), Color::DarkYellow);
}

#[test]
fn cycle_from_outside_palette_resets_to_first_entry() {
    let mut t = grid(1, 1, Color::Other);
    t.change_pix(0, 0);
    assert_eq!(t.get_color(0, 0), Color::DarkGrey);
}

#[test]
fn render_paints_every_cell_row_major() {
    let t = grid(3, 2, Color::DarkGrey);
    let cmds = t.update();
    let want = [(0, 0), (1, 0), (2, 0), (0, 1), (1, 1), (2, 1)];
    assert_eq!(cmds.len(), 6);
    for (cmd, (x, y)) in cmds.iter().zip(want) {
        assert_eq!(*cmd, PaintCmd { x, y, color: Color::DarkGrey });
    }
}

#[test]
fn render_twice_without_mutation_is_identical() {
    let mut t = grid(3, 2, Color::DarkGrey);
    t.step(Event::Right);
    t.step(Event::Mutate);
    let first = t.update();
    let second = t.update();
    assert_eq!(first, second);
}

#[test]
fn mutate_changes_only_the_cell_under_the_cursor() {
    let mut t = grid(3, 2, Color::DarkGrey);
    assert_eq!(t.step(Event::Down), Action::Moved);
    assert_eq!(t.step(Event::Right), Action::Moved);
    assert_eq!(t.cursor(), (1, 1));
    assert_eq!(t.step(Event::Mutate), Action::Redraw);
    for y in 0..2 {
        for x in 0..3 {
            let want = if (x, y) == (1, 1) { Color::DarkRed } else { Color::DarkGrey };
            assert_eq!(t.get_color(x, y), want);
        }
    }
}

#[test]
fn six_mutations_restore_the_cell() {
    let mut t = grid(3, 2, Color::DarkGrey);
    t.step(Event::Right);
    for _ in 0..6 {
        assert_eq!(t.step(Event::Mutate), Action::Redraw);
    }
    assert_eq!(t.get_color(1, 0), Color::DarkGrey);
    assert_eq!(t.get_color(0, 0), Color::DarkGrey);
}

#[test]
fn moves_stop_at_the_grid_edge() {
    let mut t = grid(3, 2, Color::DarkGrey);
    for _ in 0..5 {
        assert_eq!(t.step(Event::Right), Action::Moved);
    }
    assert_eq!(t.cursor(), (2, 0));
    for _ in 0..5 {
        t.step(Event::Down);
    }
    assert_eq!(t.cursor(), (2, 1));
    assert_eq!(t.step(Event::Mutate), Action::Redraw);
    assert_eq!(t.get_color(2, 1), Color::DarkRed);
    for _ in 0..5 {
        t.step(Event::Left);
    }
    for _ in 0..5 {
        t.step(Event::Up);
    }
    assert_eq!(t.cursor(), (0, 0));
}

#[test]
fn quit_terminates_the_session() {
    let mut t = grid(3, 2, Color::DarkGrey);
    assert!(t.is_running());
    assert_eq!(t.step(Event::Quit), Action::Quit);
    assert!(!t.is_running());
}

#[test]
fn other_events_are_ignored() {
    let mut t = grid(3, 2, Color::DarkGrey);
    t.step(Event::Right);
    assert_eq!(t.step(Event::Other), Action::Ignored);
    assert_eq!(t.cursor(), (1, 0));
    assert!(t.is_running());
    for y in 0..2 {
        for x in 0..3 {
            assert_eq!(t.get_color(x, y), Color::DarkGrey);
        }
    }
}

#[test]
fn one_by_one_grid_never_moves() {
    let mut t = grid(1, 1, Color::DarkMagenta);
    for ev in [Event::Up, Event::Down, Event::Left, Event::Right] {
        assert_eq!(t.step(ev), Action::Moved);
        assert_eq!(t.cursor(), (0, 0));
    }
}

use pool::grid::Grid;
use pool::machine::{Fault, HEAP_SIZE};
use pool::vector::PVec;
use pool::viewer::{Key, Viewer, ViewerAction, ViewerEvent};

fn grid(rows: &[&str]) -> Grid {
    let lines: Vec<Vec<char>> = rows.iter().map(|r| r.chars().collect()).collect();
    Grid::from_lines(&lines).expect("grid fits")
}

fn key(c: char) -> ViewerEvent {
    ViewerEvent::Key(Key::Char(c))
}

#[test]
fn starts_at_the_marker() {
    let g = grid(&["  .5;"]);
    let v = Viewer::new(&g);
    assert_eq!(v.machine.ptr, PVec { x: 2, y: 0 });
    assert_eq!(v.edit_cursor, PVec { x: 2, y: 0 });
    assert_eq!(v.machine.heap.len(), HEAP_SIZE);
    assert!(!v.exited && !v.paused);
    assert_eq!(v.focus, 0);
}

#[test]
fn ticks_run_until_the_program_stops() {
    let g = grid(&[".41,;"]);
    let mut v = Viewer::new(&g);
    for _ in 0..5 {
        assert_eq!(v.handle(&g, ViewerEvent::Tick), ViewerAction::Redraw);
    }
    assert!(v.exited);
    assert_eq!(v.exit_code, Some(4));
    assert_eq!(v.output, vec![1, 0, 0, 0, 0, 0, 0, 0]);
    // further ticks do nothing
    assert_eq!(v.handle(&g, ViewerEvent::Tick), ViewerAction::Redraw);
    assert_eq!(v.machine.ptr, PVec { x: 4, y: 0 });
}

#[test]
fn pause_blocks_ticks_and_allows_single_steps() {
    let g = grid(&[".123;"]);
    let mut v = Viewer::new(&g);
    v.handle(&g, key(' '));
    assert!(v.paused);
    v.handle(&g, ViewerEvent::Tick);
    assert!(v.machine.stack.is_empty());
    v.handle(&g, key('.'));
    assert_eq!(v.machine.stack, vec![1]);
    v.handle(&g, key(' '));
    v.handle(&g, key('.'));
    assert_eq!(v.machine.stack, vec![1]);
    v.handle(&g, ViewerEvent::Tick);
    assert_eq!(v.machine.stack, vec![1, 2]);
}

#[test]
fn reset_only_after_the_run_stopped() {
    let g = grid(&[".7;"]);
    let mut v = Viewer::new(&g);
    v.handle(&g, ViewerEvent::Tick);
    v.handle(&g, key('r'));
    assert_eq!(v.machine.stack, vec![7]);
    v.handle(&g, ViewerEvent::Tick);
    assert!(v.exited);
    v.handle(&g, ViewerEvent::Key(Key::Tab));
    v.handle(&g, key('r'));
    assert!(!v.exited);
    assert_eq!(v.machine.ptr, PVec { x: 0, y: 0 });
    assert!(v.machine.stack.is_empty());
    assert_eq!(v.focus, 1);
}

#[test]
fn faults_are_handed_to_the_driver() {
    let g = grid(&[".+"]);
    let mut v = Viewer::new(&g);
    assert_eq!(v.handle(&g, ViewerEvent::Tick), ViewerAction::Fault(Fault::StackUnderflow));
}

#[test]
fn quit_and_focus() {
    let g = grid(&["."]);
    let mut v = Viewer::new(&g);
    assert_eq!(v.handle(&g, key('q')), ViewerAction::Quit);
    for expected in [1u8, 2, 3, 0] {
        v.handle(&g, ViewerEvent::Key(Key::Tab));
        assert_eq!(v.focus, expected);
    }
}

#[test]
fn cursor_stays_on_the_grid() {
    let g = grid(&["ab", "cd"]);
    let mut v = Viewer::new(&g);
    v.handle(&g, ViewerEvent::Key(Key::Up));
    v.handle(&g, key('h'));
    assert_eq!(v.edit_cursor, PVec { x: 0, y: 0 });
    v.handle(&g, ViewerEvent::Key(Key::Down));
    v.handle(&g, key('j'));
    assert_eq!(v.edit_cursor, PVec { x: 0, y: 1 });
    for _ in 0..5 {
        v.handle(&g, ViewerEvent::Key(Key::Right));
    }
    assert_eq!(v.edit_cursor, PVec { x: 2, y: 1 });
    v.handle(&g, key('k'));
    v.handle(&g, ViewerEvent::Key(Key::Left));
    assert_eq!(v.edit_cursor, PVec { x: 1, y: 0 });
    v.handle(&g, ViewerEvent::Key(Key::Other));
    assert_eq!(v.edit_cursor, PVec { x: 1, y: 0 });
}

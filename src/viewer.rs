use vstd::prelude::*;
use crate::grid::Grid;
use crate::machine::{Fault, InterpretationState, Machine, TickResponse, initial, step, tick};
use crate::output::{le_bytes, output_bytes};
use crate::vector::PVec;

verus! {

/// A key press, as far as the interactive viewer tells keys apart.
#[derive(Clone, Copy, Debug, PartialEq, Eq, Structural)]
pub enum Key {
    Char(char),
    Tab,
    Up,
    Down,
    Left,
    Right,
    Other,
}

/// What the interactive viewer reacts to: a key, or a tick of its timer.
#[derive(Clone, Copy, Debug, PartialEq, Eq, Structural)]
pub enum ViewerEvent {
    Key(Key),
    Tick,
}

/// What the driver does after an event.
#[derive(Clone, Copy, Debug, PartialEq, Eq, Structural)]
pub enum ViewerAction {
    /// Draw the new state and wait for the next event.
    Redraw,
    /// Leave the viewer.
    Quit,
    /// The run faulted: restore the terminal, then report the fault.
    Fault(Fault),
}

/// The interactive viewer: a run, what it has output, and the state of the
/// panels around it.
pub struct Viewer {
    pub machine: InterpretationState,
    pub output: Vec<u8>,
    /// The run has stopped at a `;`.
    pub exited: bool,
    /// The result of the last run that stopped.
    pub exit_code: Option<i64>,
    /// Which of the four panels has the focus.
    pub focus: u8,
    pub paused: bool,
    /// A cursor on the grid, moved by the arrow keys and `hjkl`.
    pub edit_cursor: PVec,
}

/// The viewer's state, as values.
pub struct ViewerModel {
    pub machine: Machine,
    pub output: Seq<u8>,
    pub exited: bool,
    pub exit_code: Option<i64>,
    pub focus: u8,
    pub paused: bool,
    pub edit_cursor: PVec,
}

impl View for Viewer {
    type V = ViewerModel;

    open spec fn view(&self) -> ViewerModel {
        ViewerModel {
            machine: self.machine@,
            output: self.output@,
            exited: self.exited,
            exit_code: self.exit_code,
            focus: self.focus,
            paused: self.paused,
            edit_cursor: self.edit_cursor,
        }
    }
}

impl ViewerModel {
    pub open spec fn wf(self) -> bool {
        self.machine.wf() && self.focus < 4
    }
}

/// The viewer at the start of a run of `g`.
pub open spec fn viewer_start(g: &Grid) -> ViewerModel {
    ViewerModel {
        machine: initial(g.x0 as i64, g.y0 as i64),
        output: Seq::empty(),
        exited: false,
        exit_code: None,
        focus: 0,
        paused: false,
        edit_cursor: PVec { x: g.x0 as i64, y: g.y0 as i64 },
    }
}

/// One step of the run, with its outcome recorded in the viewer.
pub open spec fn run_step(g: &Grid, v: ViewerModel) -> (ViewerModel, ViewerAction) {
    let (m, r) = step(g, v.machine);
    let moved = ViewerModel { machine: m, ..v };
    match r {
        TickResponse::Continue => (moved, ViewerAction::Redraw),
        TickResponse::Return(code) => (
            ViewerModel { exited: true, exit_code: Some(code), ..moved },
            ViewerAction::Redraw,
        ),
        TickResponse::Print(a) => (
            ViewerModel { output: v.output + le_bytes(a as nat, 8), ..moved },
            ViewerAction::Redraw,
        ),
        TickResponse::Panic(f) => (moved, ViewerAction::Fault(f)),
    }
}

/// A fresh run of `g`, with the panels kept as they are.
pub open spec fn restarted(g: &Grid, v: ViewerModel) -> ViewerModel {
    ViewerModel {
        machine: initial(g.x0 as i64, g.y0 as i64),
        output: Seq::empty(),
        exited: false,
        ..v
    }
}

pub open spec fn with_cursor(v: ViewerModel, x: int, y: int) -> ViewerModel {
    ViewerModel { edit_cursor: PVec { x: x as i64, y: y as i64 }, ..v }
}

/// What a key does: `q` quits, Tab moves the focus, space pauses and
/// resumes, `.` steps while paused, `r` restarts a run that has stopped, and
/// the arrows or `hjkl` move the cursor within the grid.
pub open spec fn on_key(g: &Grid, v: ViewerModel, k: Key) -> (ViewerModel, ViewerAction) {
    let c = v.edit_cursor;
    if k == Key::Char('q') {
        (v, ViewerAction::Quit)
    } else if k == Key::Tab {
        (ViewerModel { focus: ((v.focus + 1) % 4) as u8, ..v }, ViewerAction::Redraw)
    } else if k == Key::Char('r') {
        (if v.exited { restarted(g, v) } else { v }, ViewerAction::Redraw)
    } else if k == Key::Char(' ') {
        (ViewerModel { paused: !v.paused, ..v }, ViewerAction::Redraw)
    } else if k == Key::Char('.') {
        if !v.exited && v.paused {
            run_step(g, v)
        } else {
            (v, ViewerAction::Redraw)
        }
    } else if (k == Key::Down || k == Key::Char('j')) && c.y + 1 < g.height {
        (with_cursor(v, c.x as int, c.y + 1), ViewerAction::Redraw)
    } else if (k == Key::Up || k == Key::Char('k')) && c.y > 0 {
        (with_cursor(v, c.x as int, c.y - 1), ViewerAction::Redraw)
    } else if (k == Key::Left || k == Key::Char('h')) && c.x > 0 {
        (with_cursor(v, c.x - 1, c.y as int), ViewerAction::Redraw)
    } else if (k == Key::Right || k == Key::Char('l')) && c.x + 1 < g.width {
        (with_cursor(v, c.x + 1, c.y as int), ViewerAction::Redraw)
    } else {
        (v, ViewerAction::Redraw)
    }
}

/// What an event does to the viewer.
pub open spec fn viewer_next(g: &Grid, v: ViewerModel, e: ViewerEvent) -> (ViewerModel, ViewerAction) {
    match e {
        ViewerEvent::Tick => if !v.exited && !v.paused {
            run_step(g, v)
        } else {
            (v, ViewerAction::Redraw)
        },
        ViewerEvent::Key(k) => on_key(g, v, k),
    }
}

impl Viewer {
    /// The viewer at the start of a run of `grid`.
    pub fn new(grid: &Grid) -> (r: Viewer)
        requires
            grid.wf(),
        ensures
            r@ == viewer_start(grid),
            r@.wf(),
    {
        let x0 = grid.x0 as i64;
        let y0 = grid.y0 as i64;
        let r = Viewer {
            machine: InterpretationState::new(x0, y0),
            output: Vec::new(),
            exited: false,
            exit_code: None,
            focus: 0,
            paused: false,
            edit_cursor: PVec { x: x0, y: y0 },
        };
        assert(r.output@ =~= Seq::<u8>::empty());
        r
    }

    /// Runs one step and records its outcome.
    fn advance(&mut self, grid: &Grid) -> (r: ViewerAction)
        requires
            grid.wf(),
            old(self)@.wf(),
        ensures
            final(self)@.wf(),
            (final(self)@, r) == run_step(grid, old(self)@),
    {
        match tick(grid, &mut self.machine) {
            TickResponse::Continue => ViewerAction::Redraw,
            TickResponse::Return(code) => {
                self.exited = true;
                self.exit_code = Some(code);
                ViewerAction::Redraw
            },
            TickResponse::Print(a) => {
                let mut bytes = output_bytes(a);
                self.output.append(&mut bytes);
                ViewerAction::Redraw
            },
            TickResponse::Panic(f) => ViewerAction::Fault(f),
        }
    }

    /// Reacts to one event.
    pub fn handle(&mut self, grid: &Grid, event: ViewerEvent) -> (r: ViewerAction)
        requires
            grid.wf(),
            old(self)@.wf(),
        ensures
            final(self)@.wf(),
            (final(self)@, r) == viewer_next(grid, old(self)@, event),
    {
        let k = match event {
            ViewerEvent::Tick => {
                if !self.exited && !self.paused {
                    return self.advance(grid);
                }
                return ViewerAction::Redraw;
            },
            ViewerEvent::Key(k) => k,
        };
        let c = self.edit_cursor;
        let is_down = k == Key::Down || k == Key::Char('j');
        let is_up = k == Key::Up || k == Key::Char('k');
        let is_left = k == Key::Left || k == Key::Char('h');
        let is_right = k == Key::Right || k == Key::Char('l');
        if k == Key::Char('q') {
            return ViewerAction::Quit;
        } else if k == Key::Tab {
            self.focus = (self.focus + 1) % 4;
        } else if k == Key::Char('r') {
            if self.exited {
                self.exited = false;
                self.machine = InterpretationState::new(grid.x0 as i64, grid.y0 as i64);
                self.output = Vec::new();
                assert(self.output@ =~= Seq::<u8>::empty());
            }
        } else if k == Key::Char(' ') {
            self.paused = !self.paused;
        } else if k == Key::Char('.') {
            if !self.exited && self.paused {
                return self.advance(grid);
            }
        } else if is_down && c.y < grid.height as i64 - 1 {
            self.edit_cursor.add_assign(PVec { x: 0, y: 1 });
        } else if is_up && c.y > 0 {
            self.edit_cursor.add_assign(PVec { x: 0, y: -1 });
        } else if is_left && c.x > 0 {
            self.edit_cursor.add_assign(PVec { x: -1, y: 0 });
        } else if is_right && c.x < grid.width as i64 - 1 {
            self.edit_cursor.add_assign(PVec { x: 1, y: 0 });
        }
        ViewerAction::Redraw
    }
}

} // verus!

//! What a running simulation does with the input of one frame: the decisions
//! of the event loop, apart from the devices that it talks to.

use vstd::prelude::*;
use crate::field::{dead_field, seeded, step};
use crate::grid::GameOfLife;

verus! {

/// What one poll of the input devices found.
#[derive(Clone, Copy, Debug)]
pub struct Input {
    /// The window is to close.
    pub quit: bool,
    /// The pause key was pressed.
    pub pause: bool,
    /// The single-step key was pressed or is repeating.
    pub step: bool,
    /// The seed key was pressed.
    pub reseed: bool,
    /// The new size of the window, if it was resized.
    pub resized: Option<(u32, u32)>,
}

/// What the event loop has to do next.
#[derive(Clone, Copy, Debug, PartialEq, Eq)]
pub enum Action {
    /// Leave the event loop.
    Exit,
    /// Resize the drawing surface, then report how that went.
    Resize { width: u32, height: u32 },
    /// Ask for the window to be drawn again.
    Redraw,
}

/// The state of a session as the contracts see it.
pub struct SessionState {
    /// The cells of the grid.
    pub cells: Seq<Seq<bool>>,
    /// Whether the simulation stands still.
    pub paused: bool,
    /// Whether a single step was asked for in the frame being handled.
    pub step_pending: bool,
}

/// The state after the keys of one frame: the pause key flips the pause, the
/// single-step key then sets it, and the seed key lays the seed pattern over
/// the grid.
pub open spec fn after_keys(state: SessionState, input: Input) -> SessionState {
    SessionState {
        cells: if input.reseed {
            seeded(state.cells)
        } else {
            state.cells
        },
        paused: input.step || (state.paused != input.pause),
        step_pending: input.step,
    }
}

/// The state at the end of a frame: the grid moves on by one generation
/// unless the simulation is paused and no single step was asked for.
pub open spec fn after_frame(state: SessionState) -> SessionState {
    SessionState {
        cells: if !state.paused || state.step_pending {
            step(state.cells)
        } else {
            state.cells
        },
        paused: state.paused,
        step_pending: false,
    }
}

/// The state and the action that answer the input of one frame.
pub open spec fn respond(state: SessionState, input: Input) -> (SessionState, Action) {
    if input.quit {
        (state, Action::Exit)
    } else {
        match input.resized {
            Some((width, height)) => (after_keys(state, input), Action::Resize { width, height }),
            None => (after_frame(after_keys(state, input)), Action::Redraw),
        }
    }
}

/// The state and the action that follow an attempt to resize the surface.
pub open spec fn resume(state: SessionState, resized: bool) -> (SessionState, Action) {
    if resized {
        (after_frame(state), Action::Redraw)
    } else {
        (state, Action::Exit)
    }
}

/// A grid together with the state of the controls.
pub struct Session {
    game: GameOfLife,
    paused: bool,
    step_pending: bool,
}

impl View for Session {
    type V = SessionState;

    closed spec fn view(&self) -> SessionState {
        SessionState { cells: self.game@, paused: self.paused, step_pending: self.step_pending }
    }
}

impl Session {
    /// A running session on a grid of the given size with every cell dead.
    pub fn new(width: usize, height: usize) -> (session: Self)
        requires
            width > 0,
            height > 0,
        ensures
            session@ == (SessionState {
                cells: dead_field(height as nat, width as nat),
                paused: false,
                step_pending: false,
            }),
    {
        Session { game: GameOfLife::new(width, height), paused: false, step_pending: false }
    }

    /// The grid.
    pub fn game(&self) -> (game: &GameOfLife)
        ensures
            game@ == self@.cells,
    {
        &self.game
    }

    /// Whether the simulation stands still.
    pub fn is_paused(&self) -> (paused: bool)
        ensures
            paused == self@.paused,
    {
        self.paused
    }

    /// Moves the grid on at the end of a frame.
    fn finish_frame(&mut self)
        ensures
            final(self)@ == after_frame(old(self)@),
    {
        if !self.paused || self.step_pending {
            self.game.update();
        }
        self.step_pending = false;
    }

    /// Handles the input of one frame and says what to do next.
    pub fn on_input(&mut self, input: Input) -> (action: Action)
        ensures
            (final(self)@, action) == respond(old(self)@, input),
    {
        if input.quit {
            return Action::Exit;
        }
        if input.pause {
            self.paused = !self.paused;
        }
        if input.step {
            self.paused = true;
        }
        if input.reseed {
            self.game.starting_position();
        }
        self.step_pending = input.step;
        match input.resized {
            Some((width, height)) => Action::Resize { width, height },
            None => {
                self.finish_frame();
                Action::Redraw
            },
        }
    }

    /// Goes on after the surface was resized, or gives up if it could not be.
    pub fn on_resized(&mut self, resized: bool) -> (action: Action)
        ensures
            (final(self)@, action) == resume(old(self)@, resized),
    {
        if resized {
            self.finish_frame();
            Action::Redraw
        } else {
            Action::Exit
        }
    }
}

} // verus!

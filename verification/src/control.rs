//! The interaction loop: what a key press means for the view, and when the
//! loop stops.
//!
//! Reading the key, redrawing and the view's real-valued bounds belong to
//! the caller. This module turns a key into a command, a command into a
//! whole number of steps along each axis of the view, and keeps the state
//! of the loop.

use vstd::prelude::*;

verus! {

/// The iteration budget of every escape-time search.
pub const MAX_ITERATIONS: usize = 1000;

/// The number of columns of the raster.
pub const RASTER_WIDTH: usize = 100;

/// The number of rows of the raster.
pub const RASTER_HEIGHT: usize = 24;

/// The left edge of the view at the start.
pub const INITIAL_X_MIN: i8 = -2;

/// The right edge of the view at the start.
pub const INITIAL_X_MAX: i8 = 1;

/// The upper edge of the view at the start.
pub const INITIAL_Y_MIN: i8 = -1;

/// The lower edge of the view at the start.
pub const INITIAL_Y_MAX: i8 = 1;

/// The scale of the view at the start.
pub const INITIAL_SCALE: i8 = 1;

/// What a key press asks for.
#[derive(Clone, Copy, Debug, PartialEq, Eq, Structural)]
pub enum Command {
    /// Leave the loop.
    Quit,
    /// Move the view up.
    PanUp,
    /// Move the view down.
    PanDown,
    /// Move the view left.
    PanLeft,
    /// Move the view right.
    PanRight,
    /// Widen the sampled part of the view.
    ZoomOut,
    /// Narrow the sampled part of the view.
    ZoomIn,
    /// Nothing: the key is not bound.
    Ignore,
}

/// A change of the view, counted in steps of the fixed step size.
///
/// Both bounds of an axis move by the same number of steps, so a change
/// never alters the extent of the view along an axis.
#[derive(Clone, Copy, Debug, PartialEq, Eq, Structural)]
pub struct Nudge {
    /// Steps added to both horizontal bounds.
    pub x: i8,
    /// Steps added to both vertical bounds.
    pub y: i8,
    /// Steps added to the scale.
    pub scale: i8,
}

/// The state of the interaction loop.
#[derive(Clone, Copy, Debug, PartialEq, Eq, Structural)]
pub enum LoopState {
    /// A frame is drawn and a key is read.
    Running,
    /// The loop has ended: nothing more is drawn or read.
    Stopped,
}

/// The command bound to a key. Keys are case-sensitive, and only lower
/// case letters are bound.
pub open spec fn command_of(key: char) -> Command {
    if key == 'q' {
        Command::Quit
    } else if key == 'w' {
        Command::PanUp
    } else if key == 's' {
        Command::PanDown
    } else if key == 'a' {
        Command::PanLeft
    } else if key == 'd' {
        Command::PanRight
    } else if key == 'j' {
        Command::ZoomOut
    } else if key == 'k' {
        Command::ZoomIn
    } else {
        Command::Ignore
    }
}

/// The steps that a command adds to both horizontal bounds of the view.
pub open spec fn x_steps(command: Command) -> int {
    match command {
        Command::PanLeft => -1,
        Command::PanRight => 1,
        _ => 0,
    }
}

/// The steps that a command adds to both vertical bounds of the view.
pub open spec fn y_steps(command: Command) -> int {
    match command {
        Command::PanUp => -1,
        Command::PanDown => 1,
        _ => 0,
    }
}

/// The steps that a command adds to the scale of the view.
pub open spec fn scale_steps(command: Command) -> int {
    match command {
        Command::ZoomIn => -1,
        Command::ZoomOut => 1,
        _ => 0,
    }
}

/// The change is the one that the command makes.
pub open spec fn is_nudge_of(nudge: Nudge, command: Command) -> bool {
    &&& nudge.x == x_steps(command)
    &&& nudge.y == y_steps(command)
    &&& nudge.scale == scale_steps(command)
}

/// The state of the loop after a key: a running loop stops on the quit
/// command and on no other, and a stopped loop stays stopped.
pub open spec fn state_after(state: LoopState, key: char) -> LoopState {
    if state == LoopState::Running && command_of(key) != Command::Quit {
        LoopState::Running
    } else {
        LoopState::Stopped
    }
}

/// The command that takes effect after a key: the key's own while the
/// loop is running, none once it has stopped.
pub open spec fn command_after(state: LoopState, key: char) -> Command {
    if state == LoopState::Running {
        command_of(key)
    } else {
        Command::Ignore
    }
}

/// Turns a key into its command.
pub fn dispatch(key: char) -> (command: Command)
    ensures
        command == command_of(key),
{
    if key == 'q' {
        Command::Quit
    } else if key == 'w' {
        Command::PanUp
    } else if key == 's' {
        Command::PanDown
    } else if key == 'a' {
        Command::PanLeft
    } else if key == 'd' {
        Command::PanRight
    } else if key == 'j' {
        Command::ZoomOut
    } else if key == 'k' {
        Command::ZoomIn
    } else {
        Command::Ignore
    }
}

impl Command {
    /// The change of the view that this command makes.
    pub fn nudge(self) -> (nudge: Nudge)
        ensures
            is_nudge_of(nudge, self),
    {
        match self {
            Command::PanUp => Nudge { x: 0, y: -1, scale: 0 },
            Command::PanDown => Nudge { x: 0, y: 1, scale: 0 },
            Command::PanLeft => Nudge { x: -1, y: 0, scale: 0 },
            Command::PanRight => Nudge { x: 1, y: 0, scale: 0 },
            Command::ZoomOut => Nudge { x: 0, y: 0, scale: 1 },
            Command::ZoomIn => Nudge { x: 0, y: 0, scale: -1 },
            Command::Quit | Command::Ignore => Nudge { x: 0, y: 0, scale: 0 },
        }
    }
}

impl LoopState {
    /// Whether the loop draws another frame and reads another key.
    pub fn is_running(self) -> (running: bool)
        ensures
            running == (self == LoopState::Running),
    {
        match self {
            LoopState::Running => true,
            LoopState::Stopped => false,
        }
    }

    /// Takes one key: gives the state of the loop after it and the change
    /// that the caller applies to the view.
    pub fn on_key(self, key: char) -> (next: (LoopState, Nudge))
        ensures
            next.0 == state_after(self, key),
            is_nudge_of(next.1, command_after(self, key)),
    {
        match self {
            LoopState::Running => {
                let command = dispatch(key);
                match command {
                    Command::Quit => (LoopState::Stopped, command.nudge()),
                    _ => (LoopState::Running, command.nudge()),
                }
            },
            LoopState::Stopped => (LoopState::Stopped, Nudge { x: 0, y: 0, scale: 0 }),
        }
    }
}

/// A stopped loop is final: whatever key follows, it stays stopped and the
/// view stays as it is.
pub proof fn lemma_stopped_is_final(key: char)
    ensures
        state_after(LoopState::Stopped, key) == LoopState::Stopped,
        x_steps(command_after(LoopState::Stopped, key)) == 0,
        y_steps(command_after(LoopState::Stopped, key)) == 0,
        scale_steps(command_after(LoopState::Stopped, key)) == 0,
{
}

/// Only the six navigation keys move the view: quitting leaves it as it
/// is, and so does a key that is not bound.
pub proof fn lemma_only_navigation_moves_the_view(state: LoopState, key: char)
    requires
        key != 'w' && key != 's' && key != 'a' && key != 'd' && key != 'j' && key != 'k',
    ensures
        x_steps(command_after(state, key)) == 0,
        y_steps(command_after(state, key)) == 0,
        scale_steps(command_after(state, key)) == 0,
{
}

} // verus!

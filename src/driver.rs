use vstd::prelude::*;

verus! {

/// The tick period in milliseconds.
pub const TICK_MILLIS: u64 = 60;

/// An input event seen by the driver while it waits for the next tick.
#[derive(Clone, Copy, Debug, PartialEq, Eq, Structural)]
pub enum Input {
    /// A character key; `press` for a press (not a release or repeat), and
    /// `control_only` when Control is the only modifier held.
    Key { code: char, press: bool, control_only: bool },
    /// The drawable area changed; the grid follows on the next frame.
    Resize { width: u16, height: u16 },
    /// Anything else, ignored.
    Other,
}

/// What the driver does after a poll.
#[derive(Clone, Copy, Debug, PartialEq, Eq, Structural)]
pub enum LoopAction {
    /// Leave the loop at once.
    Quit,
    /// Advance the fire by one tick, then draw again.
    Update,
    /// Draw again without advancing.
    Continue,
}

/// `q`, or Control with `c`, pressed ends the loop.
pub open spec fn quits(input: Input) -> bool {
    match input {
        Input::Key { code, press, control_only } => press && (code == 'q' || (code == 'c'
            && control_only)),
        _ => false,
    }
}

/// Whether an input ends the loop.
pub fn is_quit(input: &Input) -> (r: bool)
    ensures
        r == quits(*input),
{
    match input {
        Input::Key { code, press, control_only } => *press && (*code == 'q' || (*code == 'c'
            && *control_only)),
        _ => false,
    }
}

/// How long to wait for input: what is left of the tick period, or nothing
/// once it has passed.
pub fn poll_timeout(period: u128, elapsed: u128) -> (r: u128)
    ensures
        r == if elapsed >= period {
            0
        } else {
            period - elapsed
        },
{
    if elapsed >= period {
        0
    } else {
        period - elapsed
    }
}

/// The decision after a poll that returned `input` (or nothing), `elapsed`
/// time after the last update: quit on a quit key, otherwise update once a
/// whole tick period has passed.
pub fn after_poll(input: Option<Input>, period: u128, elapsed: u128) -> (r: LoopAction)
    ensures
        r == if input is Some && quits(input->0) {
            LoopAction::Quit
        } else if elapsed >= period {
            LoopAction::Update
        } else {
            LoopAction::Continue
        },
{
    if let Some(i) = input {
        if is_quit(&i) {
            return LoopAction::Quit;
        }
    }
    if elapsed >= period {
        LoopAction::Update
    } else {
        LoopAction::Continue
    }
}

} // verus!

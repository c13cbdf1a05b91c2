//! The armed state: whether automatic relays are held back.

use std::sync::atomic::{AtomicBool, Ordering};
use vstd::prelude::*;

verus! {

/// Whether relays that an alarm asks for are held back. Relays that an operator asks
/// for are never held back.
#[derive(Clone, Copy, Debug, PartialEq, Eq, Hash, Structural)]
pub enum ArmedState {
    /// Automatic relays run. This is the state at start.
    Disarmed,
    /// Automatic relays are held back.
    Armed,
}

impl Default for ArmedState {
    fn default() -> (state: Self)
        ensures
            state == ArmedState::Disarmed,
    {
        ArmedState::Disarmed
    }
}

impl ArmedState {
    /// The state that a stored flag value stands for.
    pub open spec fn of(armed: bool) -> ArmedState {
        if armed {
            ArmedState::Armed
        } else {
            ArmedState::Disarmed
        }
    }

    /// The state that a stored flag value stands for.
    pub fn from_flag(armed: bool) -> (state: Self)
        ensures
            state == ArmedState::of(armed),
    {
        if armed {
            ArmedState::Armed
        } else {
            ArmedState::Disarmed
        }
    }

    /// Whether the state is `Armed`.
    pub fn is_armed(&self) -> (yes: bool)
        ensures
            yes == (*self == ArmedState::Armed),
            ArmedState::of(yes) == *self,
    {
        match self {
            ArmedState::Armed => true,
            ArmedState::Disarmed => false,
        }
    }
}

/// The armed state as one cell that the whole process shares. Readers and writers
/// need no lock: a read gives the state that some write left, or the state at start.
pub struct ArmedFlag {
    cell: AtomicBool,
}

impl ArmedFlag {
    /// A flag in the state at start, which `ArmedState::default` fixes as `Disarmed`.
    pub fn new() -> Self {
        ArmedFlag { cell: AtomicBool::new(ArmedState::default().is_armed()) }
    }

    /// Reads the state. Another writer may change it at any moment, so nothing is
    /// promised of the result but that it is a state.
    pub fn load(&self) -> ArmedState {
        ArmedState::from_flag(self.cell.load(Ordering::SeqCst))
    }

    /// Writes the state. The last write wins.
    pub fn store(&self, state: ArmedState) {
        self.cell.store(state.is_armed(), Ordering::SeqCst);
    }
}

} // verus!

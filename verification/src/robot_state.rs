//! Robot state signals the engine's consumers react to.
//!
//! The robot controller publishes these states as small integer codes;
//! the display side decodes them and selects output patterns by them.
//! The numeric codes are part of the wire contract with the controller
//! and must not change.

use vstd::prelude::*;

verus! {

/// Where the game piece currently is.
#[derive(Clone, Copy, Debug, PartialEq, Eq, Structural)]
pub enum CoralState {
    /// No game piece held.
    Absent,
    /// A game piece is held.
    Held,
    /// A game piece is moving through the intake.
    Transit,
}

/// Who is steering the robot right now.
#[derive(Clone, Copy, Debug, PartialEq, Eq, Structural)]
pub enum MovementState {
    /// The driver steers.
    Driver,
    /// The auto-align path follower steers.
    AutoAlignPath,
    /// The auto-align position controller steers.
    AutoAlignPid,
    /// Auto-align finished within tolerance.
    SuccessfullyAligned,
}

impl CoralState {
    /// The integer code this state is published under.
    pub open spec fn spec_code(self) -> i64 {
        match self {
            CoralState::Absent => 0,
            CoralState::Held => 1,
            CoralState::Transit => 2,
        }
    }

    /// Returns the integer code this state is published under.
    pub fn code(&self) -> (code: i64)
        ensures
            code == self.spec_code(),
    {
        match self {
            CoralState::Absent => 0,
            CoralState::Held => 1,
            CoralState::Transit => 2,
        }
    }

    /// Decodes a published integer code; codes outside the contract
    /// decode to nothing.
    pub fn from_code(code: i64) -> (state: Option<CoralState>)
        ensures
            state == (if code == 0 {
                Some(CoralState::Absent)
            } else if code == 1 {
                Some(CoralState::Held)
            } else if code == 2 {
                Some(CoralState::Transit)
            } else {
                None::<CoralState>
            }),
    {
        if code == 0 {
            Some(CoralState::Absent)
        } else if code == 1 {
            Some(CoralState::Held)
        } else if code == 2 {
            Some(CoralState::Transit)
        } else {
            None
        }
    }
}

impl MovementState {
    /// The integer code this state is published under.
    pub open spec fn spec_code(self) -> i64 {
        match self {
            MovementState::Driver => 0,
            MovementState::AutoAlignPath => 1,
            MovementState::AutoAlignPid => 2,
            MovementState::SuccessfullyAligned => 3,
        }
    }

    /// Returns the integer code this state is published under.
    pub fn code(&self) -> (code: i64)
        ensures
            code == self.spec_code(),
    {
        match self {
            MovementState::Driver => 0,
            MovementState::AutoAlignPath => 1,
            MovementState::AutoAlignPid => 2,
            MovementState::SuccessfullyAligned => 3,
        }
    }

    /// Decodes a published integer code; codes outside the contract
    /// decode to nothing.
    pub fn from_code(code: i64) -> (state: Option<MovementState>)
        ensures
            state == (if code == 0 {
                Some(MovementState::Driver)
            } else if code == 1 {
                Some(MovementState::AutoAlignPath)
            } else if code == 2 {
                Some(MovementState::AutoAlignPid)
            } else if code == 3 {
                Some(MovementState::SuccessfullyAligned)
            } else {
                None::<MovementState>
            }),
    {
        if code == 0 {
            Some(MovementState::Driver)
        } else if code == 1 {
            Some(MovementState::AutoAlignPath)
        } else if code == 2 {
            Some(MovementState::AutoAlignPid)
        } else if code == 3 {
            Some(MovementState::SuccessfullyAligned)
        } else {
            None
        }
    }
}

} // verus!

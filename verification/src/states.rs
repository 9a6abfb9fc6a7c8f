//! Operating mode, alliance station and match kind.

use vstd::prelude::*;

verus! {

/// The mode the robot is commanded to run in.
#[derive(Copy, Clone, Debug, PartialEq, Eq, Structural)]
pub enum RobotMode {
    Teleop,
    Test,
    Auto,
}

impl RobotMode {
    /// The two-bit code of the mode on the wire.
    pub open spec fn code(self) -> u8 {
        match self {
            RobotMode::Teleop => 0,
            RobotMode::Test => 1,
            RobotMode::Auto => 2,
        }
    }

    /// The mode with the given wire code, if there is one.
    pub open spec fn of_code(val: u8) -> Option<RobotMode> {
        if val == 0 {
            Some(RobotMode::Teleop)
        } else if val == 1 {
            Some(RobotMode::Test)
        } else if val == 2 {
            Some(RobotMode::Auto)
        } else {
            None
        }
    }

    /// Decodes a mode from its wire code; codes above 2 name no mode.
    pub fn from(val: u8) -> (mode: Option<RobotMode>)
        ensures
            mode == RobotMode::of_code(val),
    {
        match val {
            0 => Some(RobotMode::Teleop),
            1 => Some(RobotMode::Test),
            2 => Some(RobotMode::Auto),
            _ => None,
        }
    }

    /// The wire code of the mode.
    pub fn to_u8(&self) -> (code: u8)
        ensures
            code == self.code(),
    {
        match self {
            RobotMode::Teleop => 0,
            RobotMode::Test => 1,
            RobotMode::Auto => 2,
        }
    }
}

/// The alliance colour together with the driver station position, 1 to 3.
#[derive(Copy, Clone, Debug, PartialEq, Eq, Structural)]
pub enum Alliance {
    Red(u8),
    Blue(u8),
}

impl Alliance {
    /// The station position carried by the value.
    pub open spec fn position(self) -> u8 {
        match self {
            Alliance::Red(pos) => pos,
            Alliance::Blue(pos) => pos,
        }
    }

    /// A position is one of the three stations of an alliance.
    pub open spec fn is_valid(self) -> bool {
        1 <= self.position() <= 3
    }

    /// The station index on the wire: red stations first, then blue.
    pub open spec fn index(self) -> int {
        match self {
            Alliance::Red(pos) => pos - 1,
            Alliance::Blue(pos) => pos + 2,
        }
    }

    /// The alliance station with the given wire index. Indices from 3 up
    /// are blue, the position taken modulo 3.
    pub open spec fn of_index(pos: u8) -> Alliance {
        if pos < 3 {
            Alliance::Red((pos + 1) as u8)
        } else {
            Alliance::Blue((pos % 3 + 1) as u8)
        }
    }

    /// Whether the position is one of the three stations.
    pub fn check(&self) -> (ok: bool)
        ensures
            ok == self.is_valid(),
    {
        match self {
            Alliance::Red(pos) => 1 <= *pos && *pos <= 3,
            Alliance::Blue(pos) => 1 <= *pos && *pos <= 3,
        }
    }

    /// Encodes the station as one byte: 0 to 2 for red, 3 to 5 for blue.
    pub fn to_position_u8(&self) -> (index: u8)
        requires
            self.is_valid(),
        ensures
            index == self.index(),
            self is Red ==> 0 <= index <= 2,
            self is Blue ==> 3 <= index <= 5,
    {
        match self {
            Alliance::Red(pos) => *pos - 1,
            Alliance::Blue(pos) => *pos + 2,
        }
    }

    /// Decodes a station byte.
    pub fn from_position_u8(pos: u8) -> (alliance: Alliance)
        ensures
            alliance == Alliance::of_index(pos),
            alliance.is_valid(),
    {
        if pos < 3 {
            Alliance::Red(pos + 1)
        } else {
            Alliance::Blue(pos % 3 + 1)
        }
    }

    /// Decoding the station byte of a valid alliance station gives the
    /// station back.
    pub proof fn position_round_trip(alliance: Alliance)
        requires
            alliance.is_valid(),
        ensures
            0 <= alliance.index() <= 5,
            alliance is Red <==> alliance.index() <= 2,
            Alliance::of_index(alliance.index() as u8) == alliance,
    {
    }
}

/// The kind of match being played.
#[derive(Copy, Clone, Debug, PartialEq, Eq, Structural)]
pub enum MatchType {
    /// No match is being played.
    NoMatch,
    Practice,
    Qualification,
    Elimination,
}

impl MatchType {
    /// The ordinal of the match kind on the wire.
    pub open spec fn ordinal(self) -> u8 {
        match self {
            MatchType::NoMatch => 0,
            MatchType::Practice => 1,
            MatchType::Qualification => 2,
            MatchType::Elimination => 3,
        }
    }

    /// The wire ordinal of the match kind.
    pub fn to_u8(&self) -> (ordinal: u8)
        ensures
            ordinal == self.ordinal(),
    {
        match self {
            MatchType::NoMatch => 0,
            MatchType::Practice => 1,
            MatchType::Qualification => 2,
            MatchType::Elimination => 3,
        }
    }
}

} // verus!

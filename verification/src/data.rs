//! Identity and domain value types: teams, player classes, and the two
//! identifier spaces (stable per-player `UserId`, transient `EntityId`).
//!
//! All constructors are total: a raw protocol integer is truncated to its low
//! eight bits and mapped to a known variant, falling back to the `Other`
//! variant on unknown values. Callers never have to handle construction
//! failure.

use vstd::prelude::*;

verus! {

/// A team a player can be assigned to.
#[derive(Debug, Clone, Copy, PartialEq, Eq, Hash, Structural)]
pub enum Team {
    Other,
    Spectator,
    Red,
    Blue,
}

/// The variant that an 8-bit raw team value maps to; unknown values fall
/// back to `Team::Other`.
pub open spec fn team_from_u8(n: u8) -> Team {
    if n == 1 {
        Team::Spectator
    } else if n == 2 {
        Team::Red
    } else if n == 3 {
        Team::Blue
    } else {
        Team::Other
    }
}

impl Team {
    /// Total constructor: truncates the raw protocol integer to its low
    /// eight bits and maps unknown values to `Team::Other`.
    pub fn new(number: u32) -> (r: Team)
        ensures
            r == team_from_u8((number & 0xff) as u8),
    {
        let low: u8 = (number & 0xff) as u8;
        if low == 1 {
            Team::Spectator
        } else if low == 2 {
            Team::Red
        } else if low == 3 {
            Team::Blue
        } else {
            Team::Other
        }
    }

    /// True exactly for the two playing teams.
    pub fn is_player(&self) -> (r: bool)
        ensures
            r == (*self == Team::Red || *self == Team::Blue),
    {
        matches!(*self, Team::Red | Team::Blue)
    }
}

impl Default for Team {
    fn default() -> (r: Self)
        ensures
            r == Team::Other,
    {
        Team::Other
    }
}

/// A player class; `Other` covers every value outside the nine real classes.
#[derive(Debug, Clone, Copy, PartialEq, Eq, Hash, Structural)]
pub enum Class {
    Other,
    Scout,
    Sniper,
    Soldier,
    Demoman,
    Medic,
    Heavy,
    Pyro,
    Spy,
    Engineer,
}

/// The number of `Class` variants, `Class::Other` included.
pub const CLASS_COUNT: usize = 10;

/// The ordinal of a class variant: its slot in a `ClassList` histogram and
/// its serialized numeric key.
pub open spec fn class_ord(c: Class) -> int {
    match c {
        Class::Other => 0,
        Class::Scout => 1,
        Class::Sniper => 2,
        Class::Soldier => 3,
        Class::Demoman => 4,
        Class::Medic => 5,
        Class::Heavy => 6,
        Class::Pyro => 7,
        Class::Spy => 8,
        Class::Engineer => 9,
    }
}

/// The variant that an 8-bit raw class value maps to; unknown values fall
/// back to `Class::Other`.
pub open spec fn class_from_u8(n: u8) -> Class {
    if n == 1 {
        Class::Scout
    } else if n == 2 {
        Class::Sniper
    } else if n == 3 {
        Class::Soldier
    } else if n == 4 {
        Class::Demoman
    } else if n == 5 {
        Class::Medic
    } else if n == 6 {
        Class::Heavy
    } else if n == 7 {
        Class::Pyro
    } else if n == 8 {
        Class::Spy
    } else if n == 9 {
        Class::Engineer
    } else {
        Class::Other
    }
}

impl Class {
    /// Total constructor: truncates the raw protocol integer to its low
    /// eight bits and maps unknown values to `Class::Other`.
    pub fn new(number: u32) -> (r: Class)
        ensures
            r == class_from_u8((number & 0xff) as u8),
    {
        let low: u8 = (number & 0xff) as u8;
        if low == 1 {
            Class::Scout
        } else if low == 2 {
            Class::Sniper
        } else if low == 3 {
            Class::Soldier
        } else if low == 4 {
            Class::Demoman
        } else if low == 5 {
            Class::Medic
        } else if low == 6 {
            Class::Heavy
        } else if low == 7 {
            Class::Pyro
        } else if low == 8 {
            Class::Spy
        } else if low == 9 {
            Class::Engineer
        } else {
            Class::Other
        }
    }

    /// The class's histogram slot; always below `CLASS_COUNT`, so indexing a
    /// `ClassList` with it can never fail.
    pub fn as_index(&self) -> (r: usize)
        ensures
            r == class_ord(*self),
            r < CLASS_COUNT,
    {
        match *self {
            Class::Other => 0,
            Class::Scout => 1,
            Class::Sniper => 2,
            Class::Soldier => 3,
            Class::Demoman => 4,
            Class::Medic => 5,
            Class::Heavy => 6,
            Class::Pyro => 7,
            Class::Spy => 8,
            Class::Engineer => 9,
        }
    }
}

impl Default for Class {
    fn default() -> (r: Self)
        ensures
            r == Class::Other,
    {
        Class::Other
    }
}

/// The stable per-player identifier, masked to the protocol's low eight
/// bits. Distinct wide values can collide; that is a property of the
/// upstream protocol and is accepted here.
#[derive(Debug, Clone, Copy, PartialEq, Eq, Hash, PartialOrd, Ord, Structural)]
pub struct UserId(pub u8);

impl From<u32> for UserId {
    fn from(raw: u32) -> (r: UserId)
        ensures
            r == UserId((raw & 255) as u8),
    {
        UserId((raw & 255) as u8)
    }
}

impl vstd::std_specs::convert::FromSpecImpl<u32> for UserId {
    open spec fn obeys_from_spec() -> bool {
        true
    }

    open spec fn from_spec(t: u32) -> UserId {
        UserId((t & 255) as u8)
    }
}

impl From<u16> for UserId {
    fn from(raw: u16) -> (r: UserId)
        ensures
            r == UserId((raw & 255) as u8),
    {
        UserId((raw & 255) as u8)
    }
}

impl vstd::std_specs::convert::FromSpecImpl<u16> for UserId {
    open spec fn obeys_from_spec() -> bool {
        true
    }

    open spec fn from_spec(t: u16) -> UserId {
        UserId((t & 255) as u8)
    }
}

/// The transient per-session handle the recording format assigns to
/// in-world objects; used only as a cross-reference key, never as a
/// long-lived identity.
#[derive(Debug, Clone, Copy, PartialEq, Eq, Hash, PartialOrd, Ord, Structural)]
pub struct EntityId(pub u32);

impl Default for EntityId {
    fn default() -> (r: Self)
        ensures
            r == EntityId(0),
    {
        EntityId(0)
    }
}

} // verus!

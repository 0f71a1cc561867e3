//! Particle roles of a binary reaction X(a,b)Y and their mass-table indices.
//!
//! The four rest masses of a reaction sit in a fixed four-entry table:
//! projectile, target, ejectile, recoil, in that order.  The enums here are
//! the closed set of roles; each role knows its slot, and a numeric index can
//! be converted back to a role, failing when it is out of range or names a
//! role of the wrong category.

use crate::error::Error;
use vstd::prelude::*;

verus! {

/// One of the two particles of the entrance channel.
#[derive(Clone, Copy, Debug, PartialEq, Eq, Structural)]
pub enum Incoming {
    Projectile,
    Target,
}

/// One of the two particles of the exit channel.
#[derive(Clone, Copy, Debug, PartialEq, Eq, Structural)]
pub enum Outgoing {
    Ejectile,
    Recoil,
}

/// Any of the four particles taking part in the reaction.
#[derive(Clone, Copy, Debug, PartialEq, Eq, Structural)]
pub enum Particle {
    In(Incoming),
    Out(Outgoing),
}

impl Incoming {
    /// The slot this role occupies in the mass table.
    pub open spec fn index_spec(self) -> int {
        match self {
            Incoming::Projectile => 0,
            Incoming::Target => 1,
        }
    }

    pub fn index(&self) -> (i: usize)
        ensures
            i == self.index_spec(),
    {
        match self {
            Incoming::Projectile => 0,
            Incoming::Target => 1,
        }
    }
}

impl Outgoing {
    /// The slot this role occupies in the mass table.
    pub open spec fn index_spec(self) -> int {
        match self {
            Outgoing::Ejectile => 2,
            Outgoing::Recoil => 3,
        }
    }

    pub fn index(&self) -> (i: usize)
        ensures
            i == self.index_spec(),
    {
        match self {
            Outgoing::Ejectile => 2,
            Outgoing::Recoil => 3,
        }
    }
}

impl Particle {
    /// The slot this role occupies in the mass table.
    pub open spec fn index_spec(self) -> int {
        match self {
            Particle::In(p) => p.index_spec(),
            Particle::Out(p) => p.index_spec(),
        }
    }

    pub fn index(&self) -> (i: usize)
        ensures
            i == self.index_spec(),
    {
        match self {
            Particle::In(p) => p.index(),
            Particle::Out(p) => p.index(),
        }
    }
}

impl From<Incoming> for Particle {
    fn from(p: Incoming) -> Self {
        Particle::In(p)
    }
}

impl vstd::std_specs::convert::FromSpecImpl<Incoming> for Particle {
    open spec fn obeys_from_spec() -> bool {
        true
    }

    open spec fn from_spec(p: Incoming) -> Self {
        Particle::In(p)
    }
}

impl From<Outgoing> for Particle {
    fn from(p: Outgoing) -> Self {
        Particle::Out(p)
    }
}

impl vstd::std_specs::convert::FromSpecImpl<Outgoing> for Particle {
    open spec fn obeys_from_spec() -> bool {
        true
    }

    open spec fn from_spec(p: Outgoing) -> Self {
        Particle::Out(p)
    }
}

/// The role sitting at a given slot of the mass table, if any.
pub open spec fn role_of_index(idx: int) -> Option<Particle> {
    if idx == 0 {
        Some(Particle::In(Incoming::Projectile))
    } else if idx == 1 {
        Some(Particle::In(Incoming::Target))
    } else if idx == 2 {
        Some(Particle::Out(Outgoing::Ejectile))
    } else if idx == 3 {
        Some(Particle::Out(Outgoing::Recoil))
    } else {
        None
    }
}

impl TryFrom<usize> for Particle {
    type Error = Error;

    fn try_from(idx: usize) -> Result<Self, Error> {
        if idx == 0 {
            Ok(Particle::In(Incoming::Projectile))
        } else if idx == 1 {
            Ok(Particle::In(Incoming::Target))
        } else if idx == 2 {
            Ok(Particle::Out(Outgoing::Ejectile))
        } else if idx == 3 {
            Ok(Particle::Out(Outgoing::Recoil))
        } else {
            Err(Error::InvalidIndex)
        }
    }
}

impl vstd::std_specs::convert::TryFromSpecImpl<usize> for Particle {
    open spec fn obeys_try_from_spec() -> bool {
        true
    }

    open spec fn try_from_spec(idx: usize) -> Result<Particle, Error> {
        match role_of_index(idx as int) {
            Some(p) => Ok(p),
            None => Err(Error::InvalidIndex),
        }
    }
}

impl TryFrom<usize> for Incoming {
    type Error = Error;

    fn try_from(idx: usize) -> Result<Self, Error> {
        match Particle::try_from(idx) {
            Ok(Particle::In(p)) => Ok(p),
            Ok(Particle::Out(_)) => Err(Error::UnexpectedOutgoing),
            Err(e) => Err(e),
        }
    }
}

impl vstd::std_specs::convert::TryFromSpecImpl<usize> for Incoming {
    open spec fn obeys_try_from_spec() -> bool {
        true
    }

    open spec fn try_from_spec(idx: usize) -> Result<Incoming, Error> {
        match role_of_index(idx as int) {
            Some(Particle::In(p)) => Ok(p),
            Some(Particle::Out(_)) => Err(Error::UnexpectedOutgoing),
            None => Err(Error::InvalidIndex),
        }
    }
}

impl TryFrom<usize> for Outgoing {
    type Error = Error;

    fn try_from(idx: usize) -> Result<Self, Error> {
        match Particle::try_from(idx) {
            Ok(Particle::Out(p)) => Ok(p),
            Ok(Particle::In(_)) => Err(Error::UnexpectedIncoming),
            Err(e) => Err(e),
        }
    }
}

impl vstd::std_specs::convert::TryFromSpecImpl<usize> for Outgoing {
    open spec fn obeys_try_from_spec() -> bool {
        true
    }

    open spec fn try_from_spec(idx: usize) -> Result<Outgoing, Error> {
        match role_of_index(idx as int) {
            Some(Particle::Out(p)) => Ok(p),
            Some(Particle::In(_)) => Err(Error::UnexpectedIncoming),
            None => Err(Error::InvalidIndex),
        }
    }
}

} // verus!

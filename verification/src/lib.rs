//! Relativistic two-body reaction kinematics.
//!
//! A binary reaction X(a,b)Y is described by the four particle rest masses and
//! the projectile's laboratory kinetic energy.  Converting a laboratory
//! emission angle back to the underlying center-of-mass quantities is not
//! always single-valued: once the frame boost outruns the outgoing particle's
//! center-of-mass speed, a laboratory angle corresponds to zero, one, or two
//! physical solutions.  [`Value`] carries that multiplicity through every
//! derived quantity, and [`momentum_branches`] fixes, once and for all, how
//! many solutions a query has and which quadratic branches they come from.

use vstd::prelude::*;

mod error;
mod kinematics;
mod particle;

pub use error::Error;
pub use kinematics::momentum_branches;
pub use kinematics::PlusMinus;
pub use kinematics::ThetaClass;
pub use particle::Incoming;
pub use particle::Outgoing;
pub use particle::Particle;

verus! {

/// Result of an angle-dependent kinematic query: no physical solution, exactly
/// one, or an ordered pair of two (conventionally the "+" branch first).
#[derive(Clone, Copy, Debug, PartialEq)]
pub enum Value<T> {
    NoVal,
    OneVal(T),
    TwoVal(T, T),
}

impl<T> Value<T> {
    /// How many values this result carries.
    pub open spec fn count(self) -> nat {
        match self {
            Value::NoVal => 0,
            Value::OneVal(_) => 1,
            Value::TwoVal(_, _) => 2,
        }
    }

    /// Applies `f` to every contained value, preserving the tag, so a derived
    /// quantity inherits the multiplicity of the value it is derived from.
    pub fn map<U, F: Fn(T) -> U>(self, f: F) -> (r: Value<U>)
        requires
            self matches Value::OneVal(x) ==> call_requires(f, (x,)),
            self matches Value::TwoVal(x1, x2) ==> call_requires(f, (x1,)) && call_requires(
                f,
                (x2,),
            ),
        ensures
            r.count() == self.count(),
            self is NoVal ==> r is NoVal,
            self matches Value::OneVal(x) ==> (r matches Value::OneVal(y) && call_ensures(
                f,
                (x,),
                y,
            )),
            self matches Value::TwoVal(x1, x2) ==> (r matches Value::TwoVal(y1, y2)
                && call_ensures(f, (x1,), y1) && call_ensures(f, (x2,), y2)),
    {
        match self {
            Value::NoVal => Value::NoVal,
            Value::OneVal(x) => Value::OneVal(f(x)),
            Value::TwoVal(x1, x2) => Value::TwoVal(f(x1), f(x2)),
        }
    }
}

impl<T> From<T> for Value<T> {
    fn from(x: T) -> Self {
        Value::OneVal(x)
    }
}

impl<T> vstd::std_specs::convert::FromSpecImpl<T> for Value<T> {
    open spec fn obeys_from_spec() -> bool {
        true
    }

    open spec fn from_spec(x: T) -> Self {
        Value::OneVal(x)
    }
}

impl<T> From<(T, T)> for Value<T> {
    fn from(pair: (T, T)) -> Self {
        Value::TwoVal(pair.0, pair.1)
    }
}

impl<T> vstd::std_specs::convert::FromSpecImpl<(T, T)> for Value<T> {
    open spec fn obeys_from_spec() -> bool {
        true
    }

    open spec fn from_spec(pair: (T, T)) -> Self {
        Value::TwoVal(pair.0, pair.1)
    }
}

impl<T> From<Option<T>> for Value<T> {
    fn from(o: Option<T>) -> Self {
        match o {
            Some(x) => Value::OneVal(x),
            None => Value::NoVal,
        }
    }
}

impl<T> vstd::std_specs::convert::FromSpecImpl<Option<T>> for Value<T> {
    open spec fn obeys_from_spec() -> bool {
        true
    }

    open spec fn from_spec(o: Option<T>) -> Self {
        match o {
            Some(x) => Value::OneVal(x),
            None => Value::NoVal,
        }
    }
}

impl<T> From<(Option<T>, Option<T>)> for Value<T> {
    fn from(o: (Option<T>, Option<T>)) -> Self {
        match o {
            (Some(x1), Some(x2)) => Value::TwoVal(x1, x2),
            (Some(x), None) => Value::OneVal(x),
            (None, Some(x)) => Value::OneVal(x),
            (None, None) => Value::NoVal,
        }
    }
}

impl<T> vstd::std_specs::convert::FromSpecImpl<(Option<T>, Option<T>)> for Value<T> {
    open spec fn obeys_from_spec() -> bool {
        true
    }

    open spec fn from_spec(o: (Option<T>, Option<T>)) -> Self {
        match o {
            (Some(x1), Some(x2)) => Value::TwoVal(x1, x2),
            (Some(x), None) => Value::OneVal(x),
            (None, Some(x)) => Value::OneVal(x),
            (None, None) => Value::NoVal,
        }
    }
}

} // verus!

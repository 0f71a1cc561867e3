//! The multiplicity policy of the momentum solver, and the algebraic shape of
//! the invariant-mass formulas.
//!
//! The laboratory angle of an outgoing particle is related to its momentum by
//! a quadratic, so a query carries a "+" and a "-" root.  Whether zero, one,
//! or both roots are physical depends only on how the queried angle stands to
//! the particle's maximum laboratory angle, when such a maximum exists.
//! [`momentum_branches`] turns that comparison into the exact set of branches
//! to evaluate; every derived quantity then inherits the multiplicity by
//! mapping a scalar function over the result, never re-deriving the policy.

use vstd::prelude::*;

use crate::Value;

verus! {

/// Which root of the angle-momentum quadratic to evaluate.
#[derive(Clone, Copy, Debug, PartialEq, Eq, Structural)]
pub enum PlusMinus {
    Plus,
    Minus,
}

/// How a queried laboratory angle stands to the maximum laboratory angle of
/// the queried outgoing particle.
///
/// `NoLimit` means no maximum exists: the angle-to-momentum mapping is
/// one-to-one for every angle.  The other three compare the queried angle
/// with the computed limit; `AtLimit` is exact equality, where the two
/// quadratic branches coincide.
#[derive(Clone, Copy, Debug, PartialEq, Eq, Structural)]
pub enum ThetaClass {
    NoLimit,
    BelowLimit,
    AtLimit,
    AboveLimit,
}

/// The quadratic branches that are physical for a query in the given class.
///
/// This is the whole branch policy of the momentum solver: one "+" root when
/// no angle limit exists; both roots, "+" before "-", strictly below the
/// limit; the coinciding "+" root exactly at the limit; and no root at all
/// beyond it.
pub fn momentum_branches(class: ThetaClass) -> (r: Value<PlusMinus>)
    ensures
        class is NoLimit ==> r == Value::OneVal(PlusMinus::Plus),
        class is BelowLimit ==> r == Value::TwoVal(PlusMinus::Plus, PlusMinus::Minus),
        class is AtLimit ==> r == Value::OneVal(PlusMinus::Plus),
        class is AboveLimit ==> r == Value::<PlusMinus>::NoVal,
{
    match class {
        ThetaClass::NoLimit => Value::OneVal(PlusMinus::Plus),
        ThetaClass::BelowLimit => Value::TwoVal(PlusMinus::Plus, PlusMinus::Minus),
        ThetaClass::AtLimit => Value::OneVal(PlusMinus::Plus),
        ThetaClass::AboveLimit => Value::NoVal,
    }
}

/// The squared invariant mass of the reaction, `(m0 + m1)^2 + 2 * m1 * e`,
/// written over exact integers: `m0` and `m1` are the projectile and target
/// rest masses and `e` the projectile's laboratory kinetic energy.
pub open spec fn invariant_mass_sq(m0: int, m1: int, e: int) -> int {
    (m0 + m1) * (m0 + m1) + 2 * m1 * e
}

/// The numerator of the squared center-of-mass momentum of a particle pair
/// with rest masses `ma` and `mb` at squared invariant mass `s`, written over
/// exact integers.  The full quantity divides this by `4 * s`, which does not
/// mention the pair's masses.
pub open spec fn cm_momentum_sq_num(s: int, ma: int, mb: int) -> int {
    (s - ma * ma - mb * mb) * (s - ma * ma - mb * mb) - 4 * (ma * ma) * (mb * mb)
}

/// The squared center-of-mass momentum formula treats the two masses of a
/// pair symmetrically: interchanging them leaves the numerator unchanged, and
/// the denominator `4 * s` never mentions them.
pub proof fn lemma_cm_momentum_sq_symmetric(s: int, ma: int, mb: int)
    by (nonlinear_arith)
    ensures
        cm_momentum_sq_num(s, ma, mb) == cm_momentum_sq_num(s, mb, ma),
{
}

/// The squared invariant mass is unchanged by interchanging the projectile
/// and target masses at fixed energy wherever the two masses agree or the
/// energy vanishes; the kinetic-energy term `2 * m1 * e` singles out the
/// target mass, so the interchange is not free in general.
pub proof fn lemma_invariant_mass_sq_symmetric(m0: int, m1: int, e: int)
    by (nonlinear_arith)
    requires
        m0 == m1 || e == 0,
    ensures
        invariant_mass_sq(m0, m1, e) == invariant_mass_sq(m1, m0, e),
{
}

} // verus!

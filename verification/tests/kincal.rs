use kincal::Error;
use kincal::Incoming;
use kincal::Outgoing;
use kincal::Particle;
use kincal::PlusMinus;
use kincal::ThetaClass;
use kincal::Value;
use kincal::momentum_branches;

#[test]
fn it_works() {
    assert_eq!(2 + 2, 4);
}

#[test]
fn roles_know_their_mass_slot() {
    assert_eq!(Incoming::Projectile.index(), 0);
    assert_eq!(Incoming::Target.index(), 1);
    assert_eq!(Outgoing::Ejectile.index(), 2);
    assert_eq!(Outgoing::Recoil.index(), 3);
    assert_eq!(Particle::In(Incoming::Projectile).index(), 0);
    assert_eq!(Particle::In(Incoming::Target).index(), 1);
    assert_eq!(Particle::Out(Outgoing::Ejectile).index(), 2);
    assert_eq!(Particle::Out(Outgoing::Recoil).index(), 3);
}

#[test]
fn particle_from_role() {
    assert_eq!(Particle::from(Incoming::Target), Particle::In(Incoming::Target));
    assert_eq!(Particle::from(Outgoing::Recoil), Particle::Out(Outgoing::Recoil));
}

#[test]
fn every_slot_names_its_role() {
    assert_eq!(Particle::try_from(0), Ok(Particle::In(Incoming::Projectile)));
    assert_eq!(Particle::try_from(1), Ok(Particle::In(Incoming::Target)));
    assert_eq!(Particle::try_from(2), Ok(Particle::Out(Outgoing::Ejectile)));
    assert_eq!(Particle::try_from(3), Ok(Particle::Out(Outgoing::Recoil)));
    assert_eq!(Incoming::try_from(0), Ok(Incoming::Projectile));
    assert_eq!(Incoming::try_from(1), Ok(Incoming::Target));
    assert_eq!(Outgoing::try_from(2), Ok(Outgoing::Ejectile));
    assert_eq!(Outgoing::try_from(3), Ok(Outgoing::Recoil));
}

#[test]
fn out_of_range_index_is_invalid() {
    assert_eq!(Particle::try_from(4), Err(Error::InvalidIndex));
    assert_eq!(Particle::try_from(usize::MAX), Err(Error::InvalidIndex));
    assert_eq!(Incoming::try_from(4), Err(Error::InvalidIndex));
    assert_eq!(Outgoing::try_from(7), Err(Error::InvalidIndex));
}

#[test]
fn category_mismatch_is_distinct() {
    assert_eq!(Incoming::try_from(2), Err(Error::UnexpectedOutgoing));
    assert_eq!(Incoming::try_from(3), Err(Error::UnexpectedOutgoing));
    assert_eq!(Outgoing::try_from(0), Err(Error::UnexpectedIncoming));
    assert_eq!(Outgoing::try_from(1), Err(Error::UnexpectedIncoming));
}

#[test]
fn map_preserves_the_tag() {
    let double = |x: f64| 2.0 * x;
    assert_eq!(Value::<f64>::NoVal.map(double), Value::NoVal);
    assert_eq!(Value::OneVal(3.0).map(double), Value::OneVal(6.0));
    assert_eq!(Value::TwoVal(1.5, -4.0).map(double), Value::TwoVal(3.0, -8.0));
}

#[test]
fn map_keeps_branch_order() {
    let negate = |x: f64| -x;
    assert_eq!(Value::TwoVal(7.0, 2.0).map(negate), Value::TwoVal(-7.0, -2.0));
}

#[test]
fn single_value_from_scalar() {
    assert_eq!(Value::from(5.25), Value::OneVal(5.25));
}

#[test]
fn pair_from_tuple() {
    assert_eq!(Value::from((1.0, 2.0)), Value::TwoVal(1.0, 2.0));
}

#[test]
fn value_from_option() {
    assert_eq!(Value::from(Some(9.0)), Value::OneVal(9.0));
    assert_eq!(Value::<f64>::from(None::<f64>), Value::NoVal);
}

#[test]
fn value_from_option_pair() {
    assert_eq!(Value::from((Some(1.0), Some(2.0))), Value::TwoVal(1.0, 2.0));
    assert_eq!(Value::from((Some(3.0), None)), Value::OneVal(3.0));
    assert_eq!(Value::from((None, Some(4.0))), Value::OneVal(4.0));
    assert_eq!(Value::<f64>::from((None::<f64>, None::<f64>)), Value::NoVal);
}

#[test]
fn branch_policy_covers_all_four_cases() {
    assert_eq!(momentum_branches(ThetaClass::NoLimit), Value::OneVal(PlusMinus::Plus));
    assert_eq!(
        momentum_branches(ThetaClass::BelowLimit),
        Value::TwoVal(PlusMinus::Plus, PlusMinus::Minus)
    );
    assert_eq!(momentum_branches(ThetaClass::AtLimit), Value::OneVal(PlusMinus::Plus));
    assert_eq!(momentum_branches(ThetaClass::AboveLimit), Value::NoVal);
}

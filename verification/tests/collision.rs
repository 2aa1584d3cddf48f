use pi_blocks::collision::elastic_velocity;
use pi_blocks::rational::Rat;

fn rat(n: i64, d: i64) -> Rat {
    Rat::new(n, d).unwrap()
}

#[test]
fn elastic_law_exact_values() {
    // m1 = 1 at 2, m2 = 3 at rest: v1' = -1, v2' = 1.
    let m1 = Rat::from_int(1);
    let m2 = Rat::from_int(3);
    let v1 = Rat::from_int(2);
    let v2 = Rat::from_int(0);
    let v1p = elastic_velocity(m1, m2, v1, v2).unwrap();
    let v2p = elastic_velocity(m2, m1, v2, v1).unwrap();
    assert!(v1p.eq_value(&rat(-1, 1)));
    assert!(v2p.eq_value(&rat(1, 1)));
}

#[test]
fn momentum_and_energy_balance_on_concrete_values() {
    let m1 = rat(1, 2);
    let m2 = rat(5, 3);
    let v1 = rat(7, 4);
    let v2 = rat(-2, 5);
    let v1p = elastic_velocity(m1, m2, v1, v2).unwrap();
    let v2p = elastic_velocity(m2, m1, v2, v1).unwrap();
    // m1*v1 + m2*v2 before and after.
    let before = m1.times(v1).unwrap().plus(m2.times(v2).unwrap()).unwrap();
    let after = m1.times(v1p).unwrap().plus(m2.times(v2p).unwrap()).unwrap();
    assert!(before.eq_value(&after));
    // m1*v1^2 + m2*v2^2 before and after (the half cancels).
    let eb = m1
        .times(v1.times(v1).unwrap())
        .unwrap()
        .plus(m2.times(v2.times(v2).unwrap()).unwrap())
        .unwrap();
    let ea = m1
        .times(v1p.times(v1p).unwrap())
        .unwrap()
        .plus(m2.times(v2p.times(v2p).unwrap()).unwrap())
        .unwrap();
    assert!(eb.eq_value(&ea));
}

#[test]
fn rational_arithmetic_is_exact_and_checked() {
    let a = rat(1, 3);
    let b = rat(1, 6);
    assert!(a.plus(b).unwrap().eq_value(&rat(1, 2)));
    assert!(a.minus(b).unwrap().eq_value(&rat(1, 6)));
    assert!(a.times(b).unwrap().eq_value(&rat(1, 18)));
    assert!(a.negated().unwrap().eq_value(&rat(-1, 3)));
    assert!(a.le(&b) == false);
    assert!(b.le(&a));
    assert!(Rat::new(1, 0).is_none());
    assert!(Rat::new(1, -2).is_none());
    // The one exact sum that cannot be represented.
    let top = Rat::new(i64::MAX, 1).unwrap();
    assert!(top.plus(Rat::from_int(1)).is_none());
}

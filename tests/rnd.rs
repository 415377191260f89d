use splitrender::rnd::{hash, Rng};

fn uval(r: &Rng) -> f32 {
    f32::from_bits(r.uval_bits()) - 1.0
}

fn sval(r: &Rng) -> f32 {
    f32::from_bits(r.sval_bits()) - 3.0
}

#[test]
fn uval_range() {
    let r = Rng::new(0);
    let count = 1000;
    let mut sum = 0.0;
    for i in 0..count {
        let v = uval(&r.sub(i));
        assert!(v >= 0.0);
        assert!(v <= 1.0);
        sum += v;
    }

    let avg = sum / (count as f32);
    assert!((avg - 0.5).abs() < 0.01);
}

#[test]
fn sval_range() {
    let r = Rng::new(0);
    let count = 1000;
    let mut sum = 0.0;
    for i in 0..count {
        let v = sval(&r.sub(i));
        assert!(v >= -1.0);
        assert!(v <= 1.0);
        sum += v;
    }

    let avg = sum / (count as f32);
    assert!(avg.abs() < 0.01);
}

#[test]
fn uniform_values_stay_below_one() {
    let r = Rng::new(7);
    for i in 0..2000 {
        let v = uval(&r.sub(i));
        assert!(v >= 0.0 && v < 1.0);
        let s = sval(&r.sub(i));
        assert!(s >= -1.0 && s < 1.0);
    }
}

#[test]
fn hash_known_values() {
    assert_eq!(hash(0, 0), 0);
    assert_eq!(hash(1, 2), 0xe8c0a7a2f3d83448);
}

#[test]
fn root_of_seed_zero() {
    assert_eq!(Rng::new(0).0, 0x7e792374f145075e);
}

#[test]
fn split_known_values() {
    let r = Rng::new(0);
    assert_eq!(r.sub(0).0, 0xf95fd222f124d026);
    assert_eq!(r.sub(1).0, 0xedc025f3fbc76e0a);
    assert_eq!(r.sub(3).sub(7).0, 0xbbb20fe3be095159);
    // the parent is not changed by splitting
    assert_eq!(r.0, 0x7e792374f145075e);
}

#[test]
fn same_seed_and_path_repeat() {
    let a = Rng::new(42).sub(3).sub(9);
    let b = Rng::new(42).sub(3).sub(9);
    assert_eq!(a.0, b.0);
    assert_eq!(a.uval_bits(), b.uval_bits());
    assert_eq!(a.sval_bits(), b.sval_bits());
    assert_eq!(a.get::<u64>(), b.get::<u64>());
}

#[test]
fn siblings_differ() {
    let r = Rng::new(0);
    let mut seen: Vec<u64> = Vec::new();
    for i in 0..500 {
        let s = r.sub(i).0;
        assert!(!seen.contains(&s));
        assert_ne!(s, r.0);
        seen.push(s);
    }
}

#[test]
fn integer_draws() {
    let s = Rng::new(0).sub(5);
    assert_eq!(s.u32(), 3286823563);
    assert_eq!(s.get::<u32>(), 3286823563);
    assert_eq!(s.get::<u64>(), 2873050679779474133);
    assert_eq!(s.get::<usize>(), 2873050679779474133u64 as usize);
}

#[test]
fn float_bits_known_values() {
    let s = Rng::new(0).sub(5);
    assert_eq!(s.uval_bits(), 0x3fe1f479);
    assert_eq!(s.sval_bits(), 0x4061f479);
    assert_eq!(s.uval_bits() >> 23, 0x7f);
    assert_eq!(s.sval_bits() >> 23, 0x80);
}

#[test]
fn range_known_values() {
    let s = Rng::new(0).sub(5);
    assert_eq!(s.range(10u32..20u32), 19);
    assert_eq!(s.range(0u32..1u32), 0);
    assert_eq!(s.range(0u32..0xffff_ffffu32), 99826389);
}

#[test]
fn ranges_stay_within_bounds() {
    let r = Rng::new(3);
    for i in 0..300 {
        let n = r.sub(i);
        let a: u32 = n.range(5u32..12u32);
        assert!(a >= 5 && a < 12);
        let b: u64 = n.range(1_000_000_000_000u64..1_000_000_000_003u64);
        assert!(b >= 1_000_000_000_000 && b < 1_000_000_000_003);
        let c: usize = n.range(0usize..1usize);
        assert_eq!(c, 0);
        let d: u64 = n.range(0u64..u64::MAX);
        assert!(d < u64::MAX);
    }
}

#[test]
fn range_covers_every_value() {
    let r = Rng::new(11);
    let mut hits = [0u32; 6];
    for i in 0..600 {
        let v: usize = r.sub(i).range(0usize..6usize);
        hits[v] += 1;
    }
    for h in hits.iter() {
        assert!(*h > 50);
    }
}

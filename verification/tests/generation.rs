use star_planets::builder::{build_planets, generate};
use star_planets::data::{Planet, SpectrType, Star, StarType};
use star_planets::random::DetRandom;

fn star(star_type: StarType, spectr: SpectrType, is_birth: bool, planets_seed: u64) -> Star {
    Star { star_type, spectr, is_birth, planets_seed }
}

/// A unit draw equal to the given fraction, as the binary fraction k / 2^32.
fn frac(x: f64) -> u32 {
    (x * 4294967296.0) as u32
}

#[test]
fn neutron_star_single_planet() {
    for seed in [0u64, 1, 42, 0xDEAD_BEEF, u64::MAX] {
        let s = star(StarType::NeutronStar, SpectrType::X, false, seed);
        let planets = generate(&s);
        assert_eq!(planets.len(), 1);
        assert_eq!(planets[0].index, 0);
        assert_eq!(planets[0].orbit_index, 3);
        assert!(!planets[0].gas_giant);
        assert_eq!(planets[0].orbit_around, None);
    }
}

#[test]
fn black_hole_single_planet() {
    let s = star(StarType::BlackHole, SpectrType::X, false, 7);
    let planets = generate(&s);
    assert_eq!(planets.len(), 1);
    assert_eq!(planets[0].orbit_index, 3);
    assert!(!planets[0].gas_giant);
}

#[test]
fn white_dwarf_low_num1_single_planet() {
    let s = star(StarType::WhiteDwarf, SpectrType::X, false, 11);
    let planets = build_planets(&s, frac(0.5), frac(0.5), 0, DetRandom::new(11));
    assert_eq!(planets.len(), 1);
    assert_eq!(planets[0].orbit_index, 3);
    assert!(!planets[0].gas_giant);
}

#[test]
fn white_dwarf_mid_num2_two_planets() {
    let s = star(StarType::WhiteDwarf, SpectrType::X, false, 11);
    let planets = build_planets(&s, frac(0.8), frac(0.1), 0, DetRandom::new(11));
    assert_eq!(planets.len(), 2);
    assert_eq!(planets[0].orbit_index, 3);
    assert_eq!(planets[1].orbit_index, 4);
    assert!(!planets[0].gas_giant);
    assert!(!planets[1].gas_giant);
    assert_eq!(planets[0].orbit_around, None);
    assert_eq!(planets[1].orbit_around, None);
}

#[test]
fn white_dwarf_gas_giant_with_moon() {
    // num1 = 0.95 and num2 at or above 0.3: a gas giant at slot 4 hosting a
    // moon at slot 1.
    let s = star(StarType::WhiteDwarf, SpectrType::X, false, 11);
    let planets = build_planets(&s, frac(0.95), frac(0.5), 0, DetRandom::new(11));
    assert_eq!(planets.len(), 2);
    assert_eq!(planets[0].orbit_index, 4);
    assert!(planets[0].gas_giant);
    assert_eq!(planets[0].orbit_around, None);
    assert_eq!(planets[1].orbit_index, 1);
    assert!(!planets[1].gas_giant);
    assert_eq!(planets[1].orbit_around, Some(0));
}

#[test]
fn giant_star_low_num1_single_planet_with_offset() {
    // num1 = 0.2 and num3 = 1: one planet at slot 2 + 1 = 3.
    let s = star(StarType::GiantStar, SpectrType::X, false, 11);
    let planets = build_planets(&s, frac(0.2), frac(0.5), 1, DetRandom::new(11));
    assert_eq!(planets.len(), 1);
    assert_eq!(planets[0].orbit_index, 3);
    assert!(!planets[0].gas_giant);
}

#[test]
fn giant_star_two_plain_planets() {
    let s = star(StarType::GiantStar, SpectrType::X, false, 11);
    let planets = build_planets(&s, frac(0.5), frac(0.1), 1, DetRandom::new(11));
    assert_eq!(planets.len(), 2);
    assert_eq!(planets[0].orbit_index, 3);
    assert_eq!(planets[1].orbit_index, 4);
    assert!(!planets[0].gas_giant && !planets[1].gas_giant);
}

#[test]
fn giant_star_gas_giant_with_moon() {
    let s = star(StarType::GiantStar, SpectrType::X, false, 11);
    let planets = build_planets(&s, frac(0.5), frac(0.5), 0, DetRandom::new(11));
    assert_eq!(planets.len(), 2);
    assert_eq!(planets[0].orbit_index, 3);
    assert!(planets[0].gas_giant);
    assert_eq!(planets[1].orbit_index, 1);
    assert_eq!(planets[1].orbit_around, Some(0));
}

#[test]
fn giant_star_three_plain_planets() {
    let s = star(StarType::GiantStar, SpectrType::X, false, 11);
    let planets = build_planets(&s, frac(0.9), frac(0.1), 1, DetRandom::new(11));
    assert_eq!(planets.len(), 3);
    assert_eq!(planets[0].orbit_index, 3);
    assert_eq!(planets[1].orbit_index, 4);
    assert_eq!(planets[2].orbit_index, 5);
}

#[test]
fn giant_star_middle_gas_giant_hosts_third() {
    let s = star(StarType::GiantStar, SpectrType::X, false, 11);
    let planets = build_planets(&s, frac(0.9), frac(0.5), 0, DetRandom::new(11));
    assert_eq!(planets.len(), 3);
    assert_eq!(planets[0].orbit_index, 2);
    assert_eq!(planets[1].orbit_index, 4);
    assert!(planets[1].gas_giant);
    assert_eq!(planets[2].orbit_index, 1);
    assert_eq!(planets[2].orbit_around, Some(1));
}

#[test]
fn giant_star_first_hosts_two_moons() {
    let s = star(StarType::GiantStar, SpectrType::X, false, 11);
    let planets = build_planets(&s, frac(0.9), frac(0.9), 1, DetRandom::new(11));
    assert_eq!(planets.len(), 3);
    assert_eq!(planets[0].orbit_index, 4);
    assert!(planets[0].gas_giant);
    assert_eq!(planets[1].orbit_index, 1);
    assert_eq!(planets[1].orbit_around, Some(0));
    assert_eq!(planets[2].orbit_index, 2);
    assert_eq!(planets[2].orbit_around, Some(0));
}

#[test]
fn birth_star_has_four_planets() {
    for seed in [0u64, 3, 99, 123456789] {
        let s = star(StarType::MainSeqStar, SpectrType::M, true, seed);
        let planets = generate(&s);
        assert_eq!(planets.len(), 4);
    }
}

#[test]
fn spectral_o_num1_above_half_gives_six() {
    let s = star(StarType::MainSeqStar, SpectrType::O, false, 11);
    let planets = build_planets(&s, frac(0.6), frac(0.5), 0, DetRandom::new(11));
    assert_eq!(planets.len(), 6);
}

#[test]
fn main_sequence_count_ladders() {
    let cases: [(SpectrType, f64, usize); 10] = [
        (SpectrType::M, 0.85, 4),
        (SpectrType::M, 0.5, 3),
        (SpectrType::M, 0.15, 2),
        (SpectrType::M, 0.05, 1),
        (SpectrType::K, 0.96, 5),
        (SpectrType::K, 0.15, 2),
        (SpectrType::G, 0.95, 5),
        (SpectrType::F, 0.5, 4),
        (SpectrType::A, 0.1, 3),
        (SpectrType::B, 0.8, 6),
    ];
    for (spectr, num1, expected) in cases {
        let s = star(StarType::MainSeqStar, spectr, false, 11);
        let planets = build_planets(&s, frac(num1), frac(0.5), 0, DetRandom::new(11));
        assert_eq!(planets.len(), expected, "spectral {:?} num1 {}", spectr, num1);
    }
}

#[test]
fn unrecognized_spectral_class_gives_one_planet() {
    let s = star(StarType::MainSeqStar, SpectrType::X, false, 77);
    let planets = build_planets(&s, frac(0.99), frac(0.99), 0, DetRandom::new(77));
    assert_eq!(planets.len(), 1);
}

fn assert_sound(planets: &Vec<Planet>) {
    assert!(1 <= planets.len() && planets.len() <= 6);
    for (i, p) in planets.iter().enumerate() {
        assert_eq!(p.index as usize, i);
        if let Some(h) = p.orbit_around {
            assert!((h as usize) < i);
            assert!(!p.gas_giant, "a moon is never a gas giant");
        }
    }
}

#[test]
fn count_bounds_and_acyclic_hosts_over_many_seeds() {
    let types = [
        StarType::MainSeqStar,
        StarType::GiantStar,
        StarType::WhiteDwarf,
        StarType::NeutronStar,
        StarType::BlackHole,
    ];
    let spectrs = [
        SpectrType::M,
        SpectrType::K,
        SpectrType::G,
        SpectrType::F,
        SpectrType::A,
        SpectrType::B,
        SpectrType::O,
        SpectrType::X,
    ];
    for t in types {
        for sp in spectrs {
            for seed in 0..64u64 {
                let s = star(t, sp, false, seed.wrapping_mul(0x9E37_79B9_7F4A_7C15));
                assert_sound(&generate(&s));
                let b = star(t, sp, true, seed);
                assert_sound(&generate(&b));
            }
        }
    }
}

#[test]
fn determinism_same_seed_same_list() {
    for seed in [0u64, 5, 1 << 40, 987654321] {
        let s = star(StarType::MainSeqStar, SpectrType::K, false, seed);
        let a = generate(&s);
        let b = generate(&s);
        assert_eq!(a, b);
    }
}

#[test]
fn deterministic_random_reproduces_sequence() {
    let mut a = DetRandom::new(12345);
    let mut b = DetRandom::new(12345);
    for _ in 0..100 {
        assert_eq!(a.next_seed(), b.next_seed());
        assert_eq!(a.next_unit(), b.next_unit());
    }
    let mut c = DetRandom::new(12346);
    let mut any_diff = false;
    let mut d = DetRandom::new(12345);
    for _ in 0..100 {
        if c.next_seed() != d.next_seed() {
            any_diff = true;
        }
    }
    assert!(any_diff, "different seeds give different streams");
}

use star_planets::builder::generate;
use star_planets::data::{SpectrType, Star, StarType};
use star_planets::system::StarWithPlanets;

fn k_star(seed: u64) -> Star {
    Star {
        star_type: StarType::MainSeqStar,
        spectr: SpectrType::K,
        is_birth: false,
        planets_seed: seed,
    }
}

#[test]
fn new_system_starts_empty_then_fills_once() {
    let mut sys = StarWithPlanets::new(k_star(2024));
    let first = sys.get_planets().clone();
    assert!(!first.is_empty());
    let second = sys.get_planets().clone();
    assert_eq!(first, second);
}

#[test]
fn get_planets_matches_direct_generation() {
    for seed in [1u64, 17, 0xABCD] {
        let s = k_star(seed);
        let mut sys = StarWithPlanets::new(s);
        assert_eq!(*sys.get_planets(), generate(&s));
    }
}

#[test]
fn cache_holds_for_every_category() {
    let types = [
        StarType::MainSeqStar,
        StarType::GiantStar,
        StarType::WhiteDwarf,
        StarType::NeutronStar,
        StarType::BlackHole,
    ];
    for (i, t) in types.into_iter().enumerate() {
        let s = Star {
            star_type: t,
            spectr: SpectrType::G,
            is_birth: false,
            planets_seed: 1000 + i as u64,
        };
        let mut sys = StarWithPlanets::new(s);
        let a = sys.get_planets().clone();
        let b = sys.get_planets().clone();
        assert_eq!(a, b);
        assert!(1 <= a.len() && a.len() <= 6);
    }
}

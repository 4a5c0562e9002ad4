//! The orbital system builder.
//!
//! Given a star descriptor and a freshly seeded generator, the builder
//! produces the ordered planet list. The whole expansion is pinned down by
//! the specification function [`spec_generate`]: the executable builder is
//! proved to return exactly that sequence, which makes determinism — same
//! seed, same classification, same list — a theorem rather than a hope.
//!
//! All probability thresholds of the algorithm are multiples of one
//! hundredth, and a unit draw is the binary fraction `k / 2^32`, so every
//! comparison against a threshold is stated and computed as an exact integer
//! inequality: `k / 2^32 < h / 100` exactly when `100·k < h·2^32`.

use vstd::prelude::*;

use crate::data::{Planet, SpectrType, Star, StarType};
use crate::random::{next_state, unit_bits, DetRandom};

verus! {

/// Does the unit draw `k / 2^32` lie strictly below `h` hundredths?
pub open spec fn frac_lt(k: u32, h: int) -> bool {
    100 * (k as int) < h * 0x1_0000_0000
}

/// Gas-giant probability table, in hundredths: entry for a probability row
/// and a 0-based planet position. Only non-last positions are ever consulted.
pub open spec fn gas_row(row: int, pos: int) -> int {
    if row == 1 {
        if pos == 0 || pos == 1 { 20 } else { 0 }
    } else if row == 2 {
        if pos == 1 { 20 } else if pos == 2 { 30 } else { 0 }
    } else if row == 3 {
        if pos == 0 || pos == 1 { 18 } else { 0 }
    } else if row == 4 {
        if pos == 1 { 18 } else if pos == 2 || pos == 3 { 28 } else { 0 }
    } else if row == 5 {
        if pos == 1 { 20 } else if pos == 2 || pos == 3 { 30 } else { 0 }
    } else if row == 6 {
        if pos == 1 { 22 } else if pos == 2 || pos == 3 { 31 } else { 0 }
    } else if row == 7 {
        if pos == 0 { 10 } else if pos == 1 { 28 } else if pos == 2 { 30 }
        else if pos == 3 { 35 } else { 0 }
    } else if row == 8 {
        if pos == 0 { 10 } else if pos == 1 { 22 } else if pos == 2 { 28 }
        else if pos == 3 || pos == 4 { 35 } else { 0 }
    } else if row == 9 {
        if pos == 0 { 10 } else if pos == 1 { 20 } else if pos == 2 { 25 }
        else if pos == 3 { 30 } else if pos == 4 { 32 } else if pos == 5 { 35 }
        else { 0 }
    } else {
        0
    }
}

/// Planet count for a non-birth main-sequence star: spectral class picks a
/// threshold ladder, the first draw picks a rung.
pub open spec fn ms_count(spectr: SpectrType, k1: u32) -> int {
    match spectr {
        SpectrType::M => if !frac_lt(k1, 80) { 4 } else if !frac_lt(k1, 30) { 3 }
            else if !frac_lt(k1, 10) { 2 } else { 1 },
        SpectrType::K => if !frac_lt(k1, 95) { 5 } else if !frac_lt(k1, 70) { 4 }
            else if !frac_lt(k1, 20) { 3 } else if !frac_lt(k1, 10) { 2 } else { 1 },
        SpectrType::G => if !frac_lt(k1, 90) { 5 } else if !frac_lt(k1, 40) { 4 } else { 3 },
        SpectrType::F => if !frac_lt(k1, 80) { 5 } else if !frac_lt(k1, 35) { 4 } else { 3 },
        SpectrType::A => if !frac_lt(k1, 75) { 5 } else if !frac_lt(k1, 30) { 4 } else { 3 },
        SpectrType::B => if !frac_lt(k1, 75) { 6 } else if !frac_lt(k1, 30) { 5 } else { 4 },
        SpectrType::O => if !frac_lt(k1, 50) { 6 } else { 5 },
        SpectrType::X => 1,
    }
}

/// Probability row for a non-birth main-sequence star: one row for small
/// counts, another for large ones.
pub open spec fn ms_row(spectr: SpectrType, k1: u32) -> int {
    match spectr {
        SpectrType::M => if ms_count(spectr, k1) <= 3 { 1 } else { 2 },
        SpectrType::K => if ms_count(spectr, k1) <= 3 { 3 } else { 4 },
        SpectrType::G => if ms_count(spectr, k1) <= 3 { 3 } else { 5 },
        SpectrType::F => if ms_count(spectr, k1) <= 3 { 1 } else { 6 },
        SpectrType::A => if ms_count(spectr, k1) <= 3 { 1 } else { 7 },
        SpectrType::B => if ms_count(spectr, k1) <= 3 { 1 } else { 8 },
        SpectrType::O => 9,
        SpectrType::X => 0,
    }
}

/// Stopping test of the orbit-slot search. With `remaining` bodies still to
/// place and `capacity = 9 - slot` slots left, the stop chance is
/// `ratio + (1 - ratio)·bias + 1/100` with `ratio = remaining/capacity` and
/// `bias` 15 or 45 hundredths by slot; the draw `d / 2^32` stops the search
/// when it lies strictly below that chance. Stated as an exact integer
/// inequality over a common denominator of `100·capacity·2^32`.
pub open spec fn stop_hit(d: u32, remaining: int, capacity: int, slot: int) -> bool {
    let bias: int = if slot <= 3 { 15 } else { 45 };
    100 * capacity * (d as int)
        < (100 * remaining + (capacity - remaining) * bias + capacity) * 0x1_0000_0000
}

/// Orbit-slot search for one primary body: starting from `slot`, repeatedly
/// either stop (keeping the slot) or move one slot outward, consuming one
/// draw per tested slot. Returns the chosen slot, the stream state after the
/// search, and whether the search stopped by an explicit break; a search
/// whose loop guard failed instead (a birth star reaching slot 3) forces the
/// gas-giant flag on the placed body.
pub open spec fn slot_search(is_birth: bool, remaining: u64, slot: u64, rng: u64) -> (u64, u64, bool)
    decreases 9 - slot,
{
    if is_birth && slot == 3 {
        (slot, rng, false)
    } else if 9 - slot <= remaining {
        (slot, rng, true)
    } else {
        let s = next_state(rng);
        if stop_hit(unit_bits(s), remaining as int, 9 - slot, slot as int) {
            (slot, s, true)
        } else {
            slot_search(is_birth, remaining, (slot + 1) as u64, s)
        }
    }
}

/// One planet made at creation position `idx`: two seed draws (info, then
/// generation detail) and the body itself. Returns the planet and the stream
/// state after the two draws.
pub open spec fn mk_planet(rng: u64, idx: u64, slot: u64, gas: bool, host: Option<u64>) -> (Planet, u64) {
    let info = next_state(rng);
    let gen = next_state(info);
    (Planet {
        index: idx,
        orbit_index: slot,
        gas_giant: gas,
        info_seed: info,
        gen_seed: gen,
        orbit_around: host,
    }, gen)
}

/// State carried across the main-sequence orbit-assignment loop: the stream
/// state, the number of primary (non-orbiting) bodies placed so far, the
/// number of moons placed under the current host, the current host as a
/// 1-based creation index (0 meaning none), and the next orbit slot.
pub struct MsState {
    pub rng: u64,
    pub primaries: u64,
    pub moons: u64,
    pub host: u64,
    pub next_slot: u64,
}

/// One iteration of the main-sequence loop at creation position `index`:
/// draw the two planet seeds, then `a` and `b`; place either a primary body
/// (consulting the gas-giant table at non-last positions and running the
/// orbit-slot search) or a moon under the current host; then advance the
/// slot, let a fresh gas giant become the host, and release the host once it
/// has at least one moon and `b` lies at or above 80 hundredths.
pub open spec fn ms_step(is_birth: bool, count: u64, row: int, index: u64, st: MsState, acc: Seq<Planet>) -> (MsState, Seq<Planet>) {
    let info = next_state(st.rng);
    let gen = next_state(info);
    let sa = next_state(gen);
    let a = unit_bits(sa);
    let sb = next_state(sa);
    let b = unit_bits(sb);
    if st.host == 0 {
        let primaries = (st.primaries + 1) as u64;
        let table_gas = index + 1 < count && frac_lt(a, gas_row(row, index as int));
        let slot0: u64 = if table_gas && st.next_slot < 3 { 3 } else { st.next_slot };
        let search = slot_search(is_birth, (count - index) as u64, slot0, sb);
        let gas = table_gas || !search.2;
        let p = Planet {
            index,
            orbit_index: search.0,
            gas_giant: gas,
            info_seed: info,
            gen_seed: gen,
            orbit_around: None,
        };
        let next_slot = (search.0 + 1) as u64;
        let host1: u64 = if gas { primaries } else { st.host };
        let moons1: u64 = if gas { 0 } else { st.moons };
        let host2: u64 = if moons1 >= 1 && !frac_lt(b, 80) { 0 } else { host1 };
        let moons2: u64 = if moons1 >= 1 && !frac_lt(b, 80) { 0 } else { moons1 };
        (MsState { rng: search.1, primaries, moons: moons2, host: host2, next_slot }, acc.push(p))
    } else {
        let moons = (st.moons + 1) as u64;
        let p = Planet {
            index,
            orbit_index: moons,
            gas_giant: false,
            info_seed: info,
            gen_seed: gen,
            orbit_around: Some((st.host - 1) as u64),
        };
        let next_slot = (st.next_slot + 1) as u64;
        let host2: u64 = if !frac_lt(b, 80) { 0 } else { st.host };
        let moons2: u64 = if !frac_lt(b, 80) { 0 } else { moons };
        (MsState { rng: sb, primaries: st.primaries, moons: moons2, host: host2, next_slot }, acc.push(p))
    }
}

/// The main-sequence loop from creation position `index` to `count`,
/// folding [`ms_step`] over the carried state.
pub open spec fn ms_rest(is_birth: bool, count: u64, row: int, index: u64, st: MsState, acc: Seq<Planet>) -> Seq<Planet>
    decreases count - index,
{
    if index >= count {
        acc
    } else {
        let next = ms_step(is_birth, count, row, index, st, acc);
        ms_rest(is_birth, count, row, (index + 1) as u64, next.0, next.1)
    }
}

/// The whole planet list of a star, given the three header draws already
/// taken (`k1`, `k2` as unit draws, `n3` as a 0/1 slot offset) and the
/// stream state `rng` after the discarded header draws.
pub open spec fn spec_build(star: Star, k1: u32, k2: u32, n3: u64, rng: u64) -> Seq<Planet> {
    if star.star_type == StarType::BlackHole || star.star_type == StarType::NeutronStar {
        let m0 = mk_planet(rng, 0, 3, false, None);
        seq![m0.0]
    } else if star.star_type == StarType::WhiteDwarf {
        if frac_lt(k1, 70) {
            let m0 = mk_planet(rng, 0, 3, false, None);
            seq![m0.0]
        } else if frac_lt(k2, 30) {
            let m0 = mk_planet(rng, 0, 3, false, None);
            let m1 = mk_planet(m0.1, 1, 4, false, None);
            seq![m0.0, m1.0]
        } else {
            let m0 = mk_planet(rng, 0, 4, true, None);
            let m1 = mk_planet(m0.1, 1, 1, false, Some(0));
            seq![m0.0, m1.0]
        }
    } else if star.star_type == StarType::GiantStar {
        if frac_lt(k1, 30) {
            let m0 = mk_planet(rng, 0, (2 + n3) as u64, false, None);
            seq![m0.0]
        } else if frac_lt(k1, 80) {
            if frac_lt(k2, 25) {
                let m0 = mk_planet(rng, 0, (2 + n3) as u64, false, None);
                let m1 = mk_planet(m0.1, 1, (3 + n3) as u64, false, None);
                seq![m0.0, m1.0]
            } else {
                let m0 = mk_planet(rng, 0, 3, true, None);
                let m1 = mk_planet(m0.1, 1, 1, false, Some(0));
                seq![m0.0, m1.0]
            }
        } else {
            if frac_lt(k2, 15) {
                let m0 = mk_planet(rng, 0, (2 + n3) as u64, false, None);
                let m1 = mk_planet(m0.1, 1, (3 + n3) as u64, false, None);
                let m2 = mk_planet(m1.1, 2, (4 + n3) as u64, false, None);
                seq![m0.0, m1.0, m2.0]
            } else if frac_lt(k2, 75) {
                let m0 = mk_planet(rng, 0, (2 + n3) as u64, false, None);
                let m1 = mk_planet(m0.1, 1, 4, true, None);
                let m2 = mk_planet(m1.1, 2, 1, false, Some(1));
                seq![m0.0, m1.0, m2.0]
            } else {
                let m0 = mk_planet(rng, 0, (3 + n3) as u64, true, None);
                let m1 = mk_planet(m0.1, 1, 1, false, Some(0));
                let m2 = mk_planet(m1.1, 2, 2, false, Some(0));
                seq![m0.0, m1.0, m2.0]
            }
        }
    } else {
        let count: u64 = if star.is_birth { 4 } else { ms_count(star.spectr, k1) as u64 };
        let row: int = if star.is_birth { 0 } else { ms_row(star.spectr, k1) };
        ms_rest(star.is_birth, count, row, 0,
            MsState { rng, primaries: 0, moons: 0, host: 0, next_slot: 1 },
            Seq::empty())
    }
}

/// The whole planet list of a star from its seed alone: the three header
/// draws, four discarded draws, then the category dispatch of [`spec_build`].
pub open spec fn spec_generate(star: Star) -> Seq<Planet> {
    let s1 = next_state(star.planets_seed);
    let s2 = next_state(s1);
    let s3 = next_state(s2);
    let s7 = next_state(next_state(next_state(next_state(s3))));
    let n3: u64 = if unit_bits(s3) > 0x8000_0000 { 1 } else { 0 };
    spec_build(star, unit_bits(s1), unit_bits(s2), n3, s7)
}

/// Exact threshold comparison: does the unit draw `k / 2^32` lie strictly
/// below `h` hundredths?
fn frac_below(k: u32, h: u64) -> (r: bool)
    requires
        h <= 100,
    ensures
        r == frac_lt(k, h as int),
{
    (k as u64) * 100 < h * 0x1_0000_0000u64
}

/// Table lookup for [`gas_row`], in hundredths.
fn gas_threshold(row: u64, pos: u64) -> (r: u64)
    requires
        row <= 9,
        pos <= 5,
    ensures
        r as int == gas_row(row as int, pos as int),
        r <= 35,
{
    if row == 1 {
        if pos == 0 || pos == 1 { 20 } else { 0 }
    } else if row == 2 {
        if pos == 1 { 20 } else if pos == 2 { 30 } else { 0 }
    } else if row == 3 {
        if pos == 0 || pos == 1 { 18 } else { 0 }
    } else if row == 4 {
        if pos == 1 { 18 } else if pos == 2 || pos == 3 { 28 } else { 0 }
    } else if row == 5 {
        if pos == 1 { 20 } else if pos == 2 || pos == 3 { 30 } else { 0 }
    } else if row == 6 {
        if pos == 1 { 22 } else if pos == 2 || pos == 3 { 31 } else { 0 }
    } else if row == 7 {
        if pos == 0 { 10 } else if pos == 1 { 28 } else if pos == 2 { 30 }
        else if pos == 3 { 35 } else { 0 }
    } else if row == 8 {
        if pos == 0 { 10 } else if pos == 1 { 22 } else if pos == 2 { 28 }
        else if pos == 3 || pos == 4 { 35 } else { 0 }
    } else if row == 9 {
        if pos == 0 { 10 } else if pos == 1 { 20 } else if pos == 2 { 25 }
        else if pos == 3 { 30 } else if pos == 4 { 32 } else { 35 }
    } else {
        0
    }
}

/// Count and probability row for a non-birth main-sequence star.
fn ms_count_row(spectr: SpectrType, k1: u32) -> (r: (u64, u64))
    ensures
        r.0 as int == ms_count(spectr, k1),
        r.1 as int == ms_row(spectr, k1),
        1 <= r.0 <= 6,
        r.1 <= 9,
{
    match spectr {
        SpectrType::M => {
            let count: u64 = if !frac_below(k1, 80) { 4 } else if !frac_below(k1, 30) { 3 }
                else if !frac_below(k1, 10) { 2 } else { 1 };
            (count, if count <= 3 { 1 } else { 2 })
        },
        SpectrType::K => {
            let count: u64 = if !frac_below(k1, 95) { 5 } else if !frac_below(k1, 70) { 4 }
                else if !frac_below(k1, 20) { 3 } else if !frac_below(k1, 10) { 2 } else { 1 };
            (count, if count <= 3 { 3 } else { 4 })
        },
        SpectrType::G => {
            let count: u64 = if !frac_below(k1, 90) { 5 } else if !frac_below(k1, 40) { 4 } else { 3 };
            (count, if count <= 3 { 3 } else { 5 })
        },
        SpectrType::F => {
            let count: u64 = if !frac_below(k1, 80) { 5 } else if !frac_below(k1, 35) { 4 } else { 3 };
            (count, if count <= 3 { 1 } else { 6 })
        },
        SpectrType::A => {
            let count: u64 = if !frac_below(k1, 75) { 5 } else if !frac_below(k1, 30) { 4 } else { 3 };
            (count, if count <= 3 { 1 } else { 7 })
        },
        SpectrType::B => {
            let count: u64 = if !frac_below(k1, 75) { 6 } else if !frac_below(k1, 30) { 5 } else { 4 };
            (count, if count <= 3 { 1 } else { 8 })
        },
        SpectrType::O => {
            let count: u64 = if !frac_below(k1, 50) { 6 } else { 5 };
            (count, 9)
        },
        SpectrType::X => (1, 0),
    }
}

/// Exact stopping test of the orbit-slot search; see [`stop_hit`].
fn stop_below(d: u32, remaining: u64, capacity: u64, slot: u64) -> (r: bool)
    requires
        1 <= remaining <= 6,
        remaining < capacity,
        capacity <= 8,
        capacity as int == 9 - slot,
    ensures
        r == stop_hit(d, remaining as int, capacity as int, slot as int),
{
    let bias: u64 = if slot <= 3 { 15 } else { 45 };
    proof {
        assert(100 * capacity * (d as u64) <= 800 * 0xFFFF_FFFFu64) by (nonlinear_arith)
            requires
                capacity <= 8,
                d <= 0xFFFF_FFFFu32,
        ;
        assert((capacity - remaining) * bias <= 7 * 45) by (nonlinear_arith)
            requires
                1 <= remaining < capacity,
                capacity <= 8,
                bias <= 45,
        ;
    }
    let lhs: u64 = 100 * capacity * (d as u64);
    let rhs: u64 = (100 * remaining + (capacity - remaining) * bias + capacity) * 0x1_0000_0000u64;
    lhs < rhs
}

/// One planet made at creation position `idx`; see [`mk_planet`].
fn make_planet(rng: &mut DetRandom, idx: u64, slot: u64, gas: bool, host: Option<u64>) -> (p: Planet)
    ensures
        p == mk_planet(old(rng)@, idx, slot, gas, host).0,
        final(rng)@ == mk_planet(old(rng)@, idx, slot, gas, host).1,
{
    let info_seed = rng.next_seed();
    let gen_seed = rng.next_seed();
    Planet {
        index: idx,
        orbit_index: slot,
        gas_giant: gas,
        info_seed,
        gen_seed,
        orbit_around: host,
    }
}

/// Build the ordered planet list of a star, given the three header draws
/// already taken (`k1`, `k2` as unit draws, `n3` as a 0/1 slot offset) and
/// the generator as it stands after the discarded header draws. The result
/// is exactly the list that [`spec_build`] assigns to these inputs.
pub fn build_planets(star: &Star, k1: u32, k2: u32, n3: u64, rng: DetRandom) -> (r: Vec<Planet>)
    requires
        n3 == 0 || n3 == 1,
    ensures
        r@ == spec_build(*star, k1, k2, n3, rng@),
{
    let ghost rng0: u64 = rng@;
    let ghost target: Seq<Planet> = spec_build(*star, k1, k2, n3, rng0);
    let mut rng = rng;
    let mut planets: Vec<Planet> = Vec::new();
    match star.star_type {
        StarType::BlackHole | StarType::NeutronStar => {
            let p0 = make_planet(&mut rng, 0, 3, false, None);
            planets.push(p0);
            proof {
                assert(planets@ =~= target);
            }
        },
        StarType::WhiteDwarf => {
            if frac_below(k1, 70) {
                let p0 = make_planet(&mut rng, 0, 3, false, None);
                planets.push(p0);
            } else if frac_below(k2, 30) {
                let p0 = make_planet(&mut rng, 0, 3, false, None);
                let p1 = make_planet(&mut rng, 1, 4, false, None);
                planets.push(p0);
                planets.push(p1);
            } else {
                let p0 = make_planet(&mut rng, 0, 4, true, None);
                let p1 = make_planet(&mut rng, 1, 1, false, Some(0));
                planets.push(p0);
                planets.push(p1);
            }
            proof {
                assert(planets@ =~= target);
            }
        },
        StarType::GiantStar => {
            if frac_below(k1, 30) {
                let p0 = make_planet(&mut rng, 0, 2 + n3, false, None);
                planets.push(p0);
            } else if frac_below(k1, 80) {
                if frac_below(k2, 25) {
                    let p0 = make_planet(&mut rng, 0, 2 + n3, false, None);
                    let p1 = make_planet(&mut rng, 1, 3 + n3, false, None);
                    planets.push(p0);
                    planets.push(p1);
                } else {
                    let p0 = make_planet(&mut rng, 0, 3, true, None);
                    let p1 = make_planet(&mut rng, 1, 1, false, Some(0));
                    planets.push(p0);
                    planets.push(p1);
                }
            } else {
                if frac_below(k2, 15) {
                    let p0 = make_planet(&mut rng, 0, 2 + n3, false, None);
                    let p1 = make_planet(&mut rng, 1, 3 + n3, false, None);
                    let p2 = make_planet(&mut rng, 2, 4 + n3, false, None);
                    planets.push(p0);
                    planets.push(p1);
                    planets.push(p2);
                } else if frac_below(k2, 75) {
                    let p0 = make_planet(&mut rng, 0, 2 + n3, false, None);
                    let p1 = make_planet(&mut rng, 1, 4, true, None);
                    let p2 = make_planet(&mut rng, 2, 1, false, Some(1));
                    planets.push(p0);
                    planets.push(p1);
                    planets.push(p2);
                } else {
                    let p0 = make_planet(&mut rng, 0, 3 + n3, true, None);
                    let p1 = make_planet(&mut rng, 1, 1, false, Some(0));
                    let p2 = make_planet(&mut rng, 2, 2, false, Some(0));
                    planets.push(p0);
                    planets.push(p1);
                    planets.push(p2);
                }
            }
            proof {
                assert(planets@ =~= target);
            }
        },
        StarType::MainSeqStar => {
            let birth = star.is_birth;
            let (count, row): (u64, u64) = if birth { (4, 0) } else { ms_count_row(star.spectr, k1) };
            proof {
                assert(target == ms_rest(birth, count, row as int, 0,
                    MsState { rng: rng@, primaries: 0, moons: 0, host: 0, next_slot: 1 },
                    Seq::<Planet>::empty()));
            }
            let mut num8: u64 = 0;
            let mut num9: u64 = 0;
            let mut host: u64 = 0;
            let mut num10: u64 = 1;
            let mut index: u64 = 0;
            while index < count
                invariant
                    index <= count,
                    1 <= count <= 6,
                    row <= 9,
                    planets@.len() == index,
                    host <= num8,
                    num8 <= index,
                    num9 <= index,
                    1 <= num10 <= 9 + index,
                    target == ms_rest(birth, count, row as int, index,
                        MsState { rng: rng@, primaries: num8, moons: num9, host, next_slot: num10 },
                        planets@),
                decreases count - index,
            {
                let ghost st_entry = MsState { rng: rng@, primaries: num8, moons: num9, host, next_slot: num10 };
                let ghost acc_entry: Seq<Planet> = planets@;
                let info = rng.next_seed();
                let gen = rng.next_seed();
                let a = rng.next_unit();
                let b = rng.next_unit();
                if host == 0 {
                    num8 = num8 + 1;
                    let mut gas = false;
                    if index + 1 < count {
                        let th = gas_threshold(row, index);
                        if frac_below(a, th) {
                            gas = true;
                            if num10 < 3 {
                                num10 = 3;
                            }
                        }
                    }
                    let remaining: u64 = count - index;
                    let ghost search = slot_search(birth, remaining, num10, rng@);
                    let mut broke = false;
                    while !broke && (!birth || num10 != 3)
                        invariant
                            1 <= remaining <= 6,
                            1 <= num10 <= 15,
                            num10 <= 9 + index,
                            search == if broke { (num10, rng@, true) } else {
                                slot_search(birth, remaining, num10, rng@)
                            },
                        decreases (if num10 <= 9 { 9 - num10 } else { 0int })
                            + (if broke { 0int } else { 1int }),
                    {
                        let n14: u64 = if num10 >= 9 { 0 } else { 9 - num10 };
                        if n14 > remaining {
                            let d = rng.next_unit();
                            if stop_below(d, remaining, n14, num10) {
                                broke = true;
                            } else {
                                num10 = num10 + 1;
                            }
                        } else {
                            broke = true;
                        }
                    }
                    proof {
                        if !broke {
                            assert(slot_search(birth, remaining, num10, rng@) == (num10, rng@, false));
                        }
                        assert(search == (num10, rng@, broke));
                    }
                    if !broke {
                        gas = true;
                    }
                    let p = Planet {
                        index,
                        orbit_index: num10,
                        gas_giant: gas,
                        info_seed: info,
                        gen_seed: gen,
                        orbit_around: None,
                    };
                    planets.push(p);
                    num10 = num10 + 1;
                    if gas {
                        host = num8;
                        num9 = 0;
                    }
                    if num9 >= 1 && !frac_below(b, 80) {
                        host = 0;
                        num9 = 0;
                    }
                } else {
                    num9 = num9 + 1;
                    let p = Planet {
                        index,
                        orbit_index: num9,
                        gas_giant: false,
                        info_seed: info,
                        gen_seed: gen,
                        orbit_around: Some(host - 1),
                    };
                    planets.push(p);
                    num10 = num10 + 1;
                    if num9 >= 1 && !frac_below(b, 80) {
                        host = 0;
                        num9 = 0;
                    }
                }
                proof {
                    let stepres = ms_step(birth, count, row as int, index, st_entry, acc_entry);
                    assert(stepres.1 == planets@);
                    assert(stepres.0 == MsState { rng: rng@, primaries: num8, moons: num9, host, next_slot: num10 });
                    assert(ms_rest(birth, count, row as int, index, st_entry, acc_entry)
                        == ms_rest(birth, count, row as int, (index + 1) as u64, stepres.0, stepres.1));
                }
                index = index + 1;
            }
        },
    }
    planets
}

/// Expand a star's seed into its ordered planet list: the three header
/// draws (`num1`, `num2`, the 0/1 slot offset), four discarded draws that
/// only advance the stream, then the category dispatch. The result is
/// exactly [`spec_generate`] of the star — generation is a pure function of
/// the star descriptor, which is the determinism guarantee.
pub fn generate(star: &Star) -> (r: Vec<Planet>)
    ensures
        r@ == spec_generate(*star),
{
    let mut rng = DetRandom::new(star.planets_seed);
    let k1 = rng.next_unit();
    let k2 = rng.next_unit();
    let k3 = rng.next_unit();
    let n3: u64 = if k3 > 0x8000_0000 { 1 } else { 0 };
    let _ = rng.next_unit();
    let _ = rng.next_unit();
    let _ = rng.next_unit();
    let _ = rng.next_unit();
    build_planets(star, k1, k2, n3, rng)
}

} // verus!

//! Laws of the generated planet lists, proved once and for all.

use vstd::prelude::*;

use crate::builder::{
    frac_lt, gas_row, ms_count, ms_rest, ms_row, ms_step, slot_search, spec_generate, MsState,
};
use crate::data::{Planet, Star, StarType};
use crate::random::{next_state, unit_bits};

verus! {

/// Law (determinism): generation is a pure function of the star descriptor.
/// Two stars with equal classification, spectral class, birth flag and seed
/// expand into the same ordered planet list, on every run and machine.
pub proof fn lemma_deterministic(s1: Star, s2: Star)
    requires
        s1 == s2,
    ensures
        spec_generate(s1) == spec_generate(s2),
{
}

/// Law (idempotence): any two reads of one planetary system are
/// content-identical, because each read returns exactly the generated list
/// of the bound star — see the contract of `StarWithPlanets::get_planets`.
pub proof fn lemma_idempotent(first: Seq<Planet>, second: Seq<Planet>, star: Star)
    requires
        first == spec_generate(star),
        second == spec_generate(star),
    ensures
        first == second,
{
}

/// Position `i` of a planet list is sound: the planet records its own
/// creation position, and its host, if any, was created strictly earlier.
pub open spec fn planet_ok(s: Seq<Planet>, i: int) -> bool {
    &&& s[i].index == i
    &&& (s[i].orbit_around matches Some(h) ==> h < i)
}

/// Every position of the list is sound: host references only ever point
/// strictly backwards, so the orbit graph can hold no cycle and no planet is
/// its own ancestor.
pub open spec fn planets_wf(s: Seq<Planet>) -> bool {
    forall|i: int| 0 <= i < s.len() ==> #[trigger] planet_ok(s, i)
}

/// The main-sequence loop keeps the list sound and places exactly one planet
/// per creation position.
proof fn lemma_ms_rest_wf(is_birth: bool, count: u64, row: int, index: u64, st: MsState, acc: Seq<Planet>)
    requires
        index <= count,
        acc.len() == index,
        planets_wf(acc),
        st.host <= st.primaries,
        st.primaries <= index,
    ensures
        ms_rest(is_birth, count, row, index, st, acc).len() == count,
        planets_wf(ms_rest(is_birth, count, row, index, st, acc)),
    decreases count - index,
{
    if index < count {
        let next = ms_step(is_birth, count, row, index, st, acc);
        assert(next.1.len() == index + 1);
        assert forall|i: int| 0 <= i < next.1.len() implies planet_ok(next.1, i) by {
            if i < index {
                assert(planet_ok(acc, i));
                assert(next.1[i] == acc[i]);
            } else {
                assert(next.1[i] == next.1.last());
            }
        }
        lemma_ms_rest_wf(is_birth, count, row, (index + 1) as u64, next.0, next.1);
    }
}

/// Law (count bounds): a planet list always holds between 1 and 6 planets,
/// and a degenerate remnant (black hole or neutron star) always yields
/// exactly one planet at orbit slot 3 that is not a gas giant.
pub proof fn lemma_count_bounds(star: Star)
    ensures
        1 <= spec_generate(star).len() <= 6,
        star.star_type == StarType::BlackHole || star.star_type == StarType::NeutronStar ==> {
            &&& spec_generate(star).len() == 1
            &&& spec_generate(star)[0].orbit_index == 3
            &&& !spec_generate(star)[0].gas_giant
            &&& spec_generate(star)[0].orbit_around is None
        },
{
    lemma_generate_wf(star);
}

/// Law (acyclic orbit graph): every planet with a host reference points to a
/// planet created strictly earlier in the same run, and every planet records
/// its own creation position.
pub proof fn lemma_orbit_acyclic(star: Star)
    ensures
        planets_wf(spec_generate(star)),
        forall|i: int| 0 <= i < spec_generate(star).len() ==>
            (#[trigger] spec_generate(star)[i].orbit_around matches Some(h)
                ==> 0 <= h < spec_generate(star)[i].index),
{
    lemma_generate_wf(star);
    assert forall|i: int| 0 <= i < spec_generate(star).len() implies
        (#[trigger] spec_generate(star)[i].orbit_around matches Some(h)
            ==> 0 <= h < spec_generate(star)[i].index) by {
        assert(planet_ok(spec_generate(star), i));
    }
}

/// Every generated list has between 1 and 6 planets and is sound in the
/// sense of [`planets_wf`].
pub proof fn lemma_generate_wf(star: Star)
    ensures
        1 <= spec_generate(star).len() <= 6,
        planets_wf(spec_generate(star)),
{
    let s = spec_generate(star);
    if star.star_type == StarType::BlackHole || star.star_type == StarType::NeutronStar
        || star.star_type == StarType::WhiteDwarf || star.star_type == StarType::GiantStar {
        assert forall|i: int| 0 <= i < s.len() implies planet_ok(s, i) by {}
    } else {
        let s1 = next_state(star.planets_seed);
        let s2 = next_state(s1);
        let s3 = next_state(s2);
        let s7 = next_state(next_state(next_state(next_state(s3))));
        let k1 = unit_bits(s1);
        let count: u64 = if star.is_birth { 4 } else { ms_count(star.spectr, k1) as u64 };
        let row: int = if star.is_birth { 0 } else { ms_row(star.spectr, k1) };
        assert(1 <= ms_count(star.spectr, k1) <= 6);
        lemma_ms_rest_wf(star.is_birth, count, row, 0,
            MsState { rng: s7, primaries: 0, moons: 0, host: 0, next_slot: 1 },
            Seq::<Planet>::empty());
    }
}

/// Law (table consistency): in a main-sequence step that places a primary
/// body, the gas-giant flag at a non-last position holds exactly when the
/// draw `a` fell below the table entry for the row and position, unless the
/// orbit-slot search was exhausted (its loop guard failed), which forces the
/// flag regardless of the draw; at the last position the table is never
/// consulted and only exhaustion makes a gas giant.
pub proof fn lemma_table_consistency(is_birth: bool, count: u64, row: int, index: u64, st: MsState, acc: Seq<Planet>)
    requires
        st.host == 0,
        index < count,
    ensures
        ({
            let sa = next_state(next_state(next_state(st.rng)));
            let a = unit_bits(sa);
            let sb = next_state(sa);
            let table_gas = index + 1 < count && frac_lt(a, gas_row(row, index as int));
            let slot0: u64 = if table_gas && st.next_slot < 3 { 3 } else { st.next_slot };
            let search = slot_search(is_birth, (count - index) as u64, slot0, sb);
            let p = ms_step(is_birth, count, row, index, st, acc).1.last();
            &&& (search.2 ==> (p.gas_giant <==> table_gas))
            &&& (!search.2 ==> p.gas_giant)
            &&& (index + 1 == count ==> (p.gas_giant <==> !search.2))
        }),
{
}

/// The all-zero probability row (used for birth stars and unrecognized
/// spectral classes) can never flag a gas giant by table draw: no draw lies
/// below a zero threshold.
pub proof fn lemma_zero_row_never_flags(a: u32, pos: int)
    ensures
        !frac_lt(a, gas_row(0, pos)),
{
}

/// Law (birth stars): with the all-zero row, a primary body of a birth star
/// is a gas giant exactly when its orbit-slot search was exhausted — table
/// draws play no part.
pub proof fn lemma_birth_gas_only_by_exhaustion(count: u64, index: u64, st: MsState, acc: Seq<Planet>)
    requires
        st.host == 0,
        index < count,
    ensures
        ({
            let sa = next_state(next_state(next_state(st.rng)));
            let sb = next_state(sa);
            let search = slot_search(true, (count - index) as u64, st.next_slot, sb);
            ms_step(true, count, 0, index, st, acc).1.last().gas_giant <==> !search.2
        }),
{
}

/// Law (moons): a planet that orbits a host is never itself a gas giant.
pub proof fn lemma_moon_step_not_gas(is_birth: bool, count: u64, row: int, index: u64, st: MsState, acc: Seq<Planet>)
    requires
        st.host != 0,
        index < count,
    ensures
        !ms_step(is_birth, count, row, index, st, acc).1.last().gas_giant,
{
}

} // verus!


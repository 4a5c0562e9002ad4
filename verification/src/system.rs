//! The planetary system cache: a star bound to its lazily generated,
//! once-only planet list.

use vstd::prelude::*;

use crate::builder::generate;
use crate::builder::spec_generate;
use crate::data::{Planet, Star};

verus! {

/// A star together with its planet list. The list starts empty and is filled
/// exactly once, by the first call of [`StarWithPlanets::get_planets`]; it is
/// never partially populated: it is either empty or the whole generated list.
pub struct StarWithPlanets {
    pub star: Star,
    planets: Vec<Planet>,
}

impl StarWithPlanets {
    /// The bound star.
    pub closed spec fn star_of(&self) -> Star {
        self.star
    }

    /// The cached list, empty until the first read.
    pub closed spec fn cached(&self) -> Seq<Planet> {
        self.planets@
    }

    /// Well-formedness: the cache is either still empty or holds exactly the
    /// generated list of the bound star.
    pub open spec fn wf(&self) -> bool {
        self.cached().len() == 0 || self.cached() == spec_generate(self.star_of())
    }

    /// A system bound to one star, with nothing generated yet.
    pub fn new(star: Star) -> (r: Self)
        ensures
            r.star_of() == star,
            r.cached().len() == 0,
            r.wf(),
    {
        StarWithPlanets { star, planets: Vec::new() }
    }

    /// The planet list of the bound star. The first call on a well-formed
    /// system runs the generator and stores the result; every later call
    /// returns the stored list unchanged. Each call returns exactly
    /// [`spec_generate`] of the star, so repeated calls are content-identical.
    pub fn get_planets(&mut self) -> (r: &Vec<Planet>)
        requires
            old(self).wf(),
        ensures
            final(self).star_of() == old(self).star_of(),
            final(self).wf(),
            r@ == spec_generate(old(self).star_of()),
            final(self).cached() == r@,
            1 <= r@.len() <= 6,
            old(self).cached().len() > 0 ==> final(self).cached() == old(self).cached(),
    {
        if self.planets.len() == 0 {
            let generated = generate(&self.star);
            self.planets = generated;
        }
        proof {
            crate::laws::lemma_count_bounds(self.star);
        }
        &self.planets
    }
}

} // verus!

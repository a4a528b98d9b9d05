//! Typed wrappers for the game's numeric identifiers, and the remap
//! table from specific ability ids to their general versions.

use vstd::prelude::*;

verus! {

/// An ability id.
#[derive(Debug, Default, Clone, Copy, PartialEq, Eq, Hash, Structural)]
pub struct Ability(pub u32);

/// A buff id.
#[derive(Debug, Default, Clone, Copy, PartialEq, Eq, Hash, Structural)]
pub struct Buff(pub u32);

/// An effect id.
#[derive(Debug, Default, Clone, Copy, PartialEq, Eq, Hash, Structural)]
pub struct Effect(pub u32);

/// A unit type id.
#[derive(Debug, Default, Clone, Copy, PartialEq, Eq, Hash, Structural)]
pub struct UnitKind(pub u32);

/// The first mapping of `id` in a pair list, if any.
pub open spec fn spec_lookup(pairs: Seq<(Ability, Ability)>, id: Ability) -> Option<Ability>
    decreases pairs.len(),
{
    if pairs.len() == 0 {
        None
    } else if pairs[0].0 == id {
        Some(pairs[0].1)
    } else {
        spec_lookup(pairs.skip(1), id)
    }
}

/// Remaps specific ability ids to their general versions. Where an id is
/// listed more than once, the earliest pair wins.
#[derive(Debug, Default, Clone, PartialEq, Eq)]
pub struct AbilityRemap {
    pairs: Vec<(Ability, Ability)>,
}

impl AbilityRemap {
    /// The pair list, as contracts see it.
    pub closed spec fn spec_pairs(&self) -> Seq<(Ability, Ability)> {
        self.pairs@
    }

    /// Build the table from explicit pairs of (specific, general) ids.
    pub fn new(pairs: Vec<(Ability, Ability)>) -> (r: AbilityRemap)
        ensures
            r.spec_pairs() == pairs@,
    {
        AbilityRemap { pairs }
    }

    /// The generalized version of `id`, where the table has one.
    #[verifier::loop_isolation(false)]
    pub fn try_remap(&self, id: Ability) -> (r: Option<Ability>)
        ensures
            r == spec_lookup(self.spec_pairs(), id),
    {
        let mut i: usize = 0;
        proof {
            assert(self.pairs@.skip(0) =~= self.pairs@);
        }
        while i < self.pairs.len()
            invariant
                i <= self.pairs.len(),
                spec_lookup(self.pairs@, id) == spec_lookup(self.pairs@.skip(i as int), id),
            decreases self.pairs.len() - i,
        {
            let (from, to) = self.pairs[i];
            proof {
                assert(self.pairs@.skip(i as int)[0] == self.pairs@[i as int]);
                assert(self.pairs@.skip(i as int).skip(1) =~= self.pairs@.skip(i as int + 1));
            }
            if from == id {
                return Some(to);
            }
            i = i + 1;
        }
        proof {
            assert(self.pairs@.skip(self.pairs@.len() as int).len() == 0);
        }
        None
    }

    /// The generalized version of `id`, or `id` itself if it is not in
    /// the table.
    pub fn remap(&self, id: Ability) -> (r: Ability)
        ensures
            r == match spec_lookup(self.spec_pairs(), id) {
                Some(general) => general,
                None => id,
            },
    {
        match self.try_remap(id) {
            Some(general) => general,
            None => id,
        }
    }
}

} // verus!

//! The places the player can travel between. Every place is one step away
//! from every other.

use vstd::prelude::*;

verus! {

/// A place to trade at.
#[derive(Debug, Default, Clone, Copy, PartialEq, Eq, Structural)]
pub enum Location {
    #[default]
    Fairfield,
    Oakwood,
    Lakeview,
    Highland,
    Edgewater,
    Centerville,
}

impl Location {
    pub open spec fn spec_name(self) -> Seq<char> {
        match self {
            Location::Fairfield => "Fairfield"@,
            Location::Oakwood => "Oakwood"@,
            Location::Lakeview => "Lakeview"@,
            Location::Highland => "Highland"@,
            Location::Edgewater => "Edgewater"@,
            Location::Centerville => "Centerville"@,
        }
    }

    /// Display name of the place.
    pub fn name(&self) -> (r: &'static str)
        ensures
            r@ == self.spec_name(),
    {
        proof {
            reveal_strlit("Fairfield");
            reveal_strlit("Oakwood");
            reveal_strlit("Lakeview");
            reveal_strlit("Highland");
            reveal_strlit("Edgewater");
            reveal_strlit("Centerville");
        }
        match self {
            Location::Fairfield => "Fairfield",
            Location::Oakwood => "Oakwood",
            Location::Lakeview => "Lakeview",
            Location::Highland => "Highland",
            Location::Edgewater => "Edgewater",
            Location::Centerville => "Centerville",
        }
    }
}

} // verus!

//! The universe an account exists within.

use vstd::prelude::*;

use crate::layout::universe_bits;
use crate::steam_id::SteamId;

verus! {

/// Each universe is a self-contained Steam instance.
///
/// Meaning for every account number inside the `Public` universe, there
/// exists an equivalent user inside the `Beta` or `Internal` universes.
///
/// You will almost always be interacting with the `Public` universe,
/// however for completeness all known universes are enumerated here.
#[derive(Debug, Clone, Copy, PartialEq, Eq, PartialOrd, Ord, Hash)]
pub enum Universe {
    /// Unspecified universe.
    ///
    /// This is occasionally interchangeable with `Public`, such as when
    /// parsing a SteamId2.
    Unspecified,
    /// Public user accounts; this is what virtually all accounts are.
    Public,
    /// Internal Valve-only type.
    Beta,
    Internal,
    Dev,
    RC,
}

/// The numeric value of a universe.
pub open spec fn spec_universe_number(u: Universe) -> u8 {
    match u {
        Universe::Unspecified => 0,
        Universe::Public => 1,
        Universe::Beta => 2,
        Universe::Internal => 3,
        Universe::Dev => 4,
        Universe::RC => 5,
    }
}

/// The universe a numeric value decodes to: out-of-range values decode to
/// `Unspecified`.
pub open spec fn spec_universe_from_number(v: u8) -> Universe {
    if v == 1 {
        Universe::Public
    } else if v == 2 {
        Universe::Beta
    } else if v == 3 {
        Universe::Internal
    } else if v == 4 {
        Universe::Dev
    } else if v == 5 {
        Universe::RC
    } else {
        Universe::Unspecified
    }
}

impl Universe {
    /// Decodes a numeric universe value; out-of-range values decode to
    /// [`Universe::Unspecified`].
    pub fn from_numeric(v: u8) -> (r: Universe)
        ensures
            r == spec_universe_from_number(v),
    {
        match v {
            1 => Universe::Public,
            2 => Universe::Beta,
            3 => Universe::Internal,
            4 => Universe::Dev,
            5 => Universe::RC,
            _ => Universe::Unspecified,
        }
    }

    /// The numeric value of this universe.
    pub fn to_numeric(self) -> (r: u8)
        ensures
            r == spec_universe_number(self),
    {
        match self {
            Universe::Unspecified => 0,
            Universe::Public => 1,
            Universe::Beta => 2,
            Universe::Internal => 3,
            Universe::Dev => 4,
            Universe::RC => 5,
        }
    }

    /// Extracts the universe field of a packed id.
    pub fn from_packed_identifier(steamid: &SteamId) -> (r: Universe)
        ensures
            r == spec_universe_from_number(universe_bits(steamid.id) as u8),
    {
        let bits = (steamid.id & crate::layout::MASK_UNIVERSE) >> crate::layout::SHIFT_UNIVERSE;
        proof {
            let id = steamid.id;
            assert((id & crate::layout::MASK_UNIVERSE) >> crate::layout::SHIFT_UNIVERSE <= 0xFF)
                by (bit_vector);
        }
        Universe::from_numeric(bits as u8)
    }

    /// The universe's name, as the display form of the variant.
    pub fn name(&self) -> (r: &'static str)
        ensures
            r@ == spec_universe_name(*self),
    {
        match self {
            Universe::Unspecified => "Unspecified",
            Universe::Public => "Public",
            Universe::Beta => "Beta",
            Universe::Internal => "Internal",
            Universe::Dev => "Dev",
            Universe::RC => "RC",
        }
    }
}

/// The name that [`Universe::name`] returns for each universe.
pub open spec fn spec_universe_name(u: Universe) -> Seq<char> {
    match u {
        Universe::Unspecified => "Unspecified"@,
        Universe::Public => "Public"@,
        Universe::Beta => "Beta"@,
        Universe::Internal => "Internal"@,
        Universe::Dev => "Dev"@,
        Universe::RC => "RC"@,
    }
}

/// Encoding a universe is lossless: every declared variant's numeric
/// value decodes back to the same universe.
pub proof fn lemma_universe_round_trip(u: Universe)
    ensures
        spec_universe_from_number(spec_universe_number(u)) == u,
{
}

} // verus!

//! The regions that a policy can name.

use crate::address::Address;
use crate::pda::{derive_address, derived_address};
use vstd::prelude::*;
use vstd::string::StringSliceAdditionalSpecFns;

verus! {

/// Number of regions, and of slots in the feed registry.
pub const REGION_COUNT: usize = 5;

/// A region of the insured territory. Its tag is its position in this list,
/// on the wire and as the index of its slot in the feed registry.
#[derive(Clone, Copy, Debug, PartialEq, Eq, Structural)]
pub enum Region {
    Northeast,
    Southeast,
    Midwest,
    Southwest,
    West,
}

impl Region {
    /// The tag of the region.
    pub open spec fn spec_tag(&self) -> u8 {
        match self {
            Region::Northeast => 0,
            Region::Southeast => 1,
            Region::Midwest => 2,
            Region::Southwest => 3,
            Region::West => 4,
        }
    }

    /// The tag of the region.
    #[verifier::when_used_as_spec(spec_tag)]
    pub fn tag(&self) -> (tag: u8)
        ensures
            tag == self.spec_tag(),
    {
        match self {
            Region::Northeast => 0,
            Region::Southeast => 1,
            Region::Midwest => 2,
            Region::Southwest => 3,
            Region::West => 4,
        }
    }

    /// The region with the tag `value`, if there is one.
    pub open spec fn spec_from_u8(value: u8) -> Option<Region> {
        if value == 0 {
            Some(Region::Northeast)
        } else if value == 1 {
            Some(Region::Southeast)
        } else if value == 2 {
            Some(Region::Midwest)
        } else if value == 3 {
            Some(Region::Southwest)
        } else if value == 4 {
            Some(Region::West)
        } else {
            None
        }
    }

    /// The region with the tag `value`, if there is one.
    #[verifier::when_used_as_spec(spec_from_u8)]
    pub fn from_u8(value: u8) -> (region: Option<Region>)
        ensures
            region == Region::spec_from_u8(value),
            region is Some <==> value < 5,
            region matches Some(found) ==> found.spec_tag() == value,
    {
        match value {
            0 => Some(Region::Northeast),
            1 => Some(Region::Southeast),
            2 => Some(Region::Midwest),
            3 => Some(Region::Southwest),
            4 => Some(Region::West),
            _ => None,
        }
    }

    /// The seed from which a program derives the feed address of the region.
    pub open spec fn seed(self) -> Seq<u8> {
        match self {
            Region::Northeast => "northeast_feed".spec_bytes(),
            Region::Southeast => "southeast_feed".spec_bytes(),
            Region::Midwest => "midwest_feed".spec_bytes(),
            Region::Southwest => "southwest_feed".spec_bytes(),
            Region::West => "west_feed".spec_bytes(),
        }
    }

    /// The feed address that `program_id` derives for the region, or nothing
    /// where the derivation finds no address.
    pub fn to_switchboard_pubkey(&self, program_id: &Address) -> (address: Option<Address>)
        ensures
            match address {
                Some(found) => derived_address(self.seed(), *program_id) == Some(found@),
                None => derived_address(self.seed(), *program_id) is None,
            },
    {
        let seed: &str = match self {
            Region::Northeast => "northeast_feed",
            Region::Southeast => "southeast_feed",
            Region::Midwest => "midwest_feed",
            Region::Southwest => "southwest_feed",
            Region::West => "west_feed",
        };
        derive_address(seed.as_bytes(), program_id)
    }

    /// Every tag belongs to one region, and every region has its tag.
    pub proof fn lemma_tag_round_trip(region: Region, value: u8)
        ensures
            Region::spec_from_u8(region.spec_tag()) == Some(region),
            Region::spec_from_u8(value) matches Some(found) ==> found.spec_tag() == value,
            Region::spec_from_u8(value) is Some <==> value < 5,
    {
    }
}

} // verus!

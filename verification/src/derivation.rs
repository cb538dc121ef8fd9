//! Rarity derivation: a pure, total classification of a unit's
//! four-level positional coordinate into exactly one tier, by an
//! ordered rule set over the emission schedule's boundaries.

use vstd::prelude::*;

use crate::rarity::Rarity;

verus! {

/// Number of blocks in one halving era: the block reward is constant
/// within an era and halves at each era boundary.
pub const SUBSIDY_HALVING_INTERVAL: u64 = 210_000;

/// Number of blocks in one difficulty-adjustment period. Eras and
/// periods run on independent grids: an era boundary does not, in
/// general, fall on a period boundary.
pub const DIFFCHANGE_INTERVAL: u64 = 2016;

/// Where a unit sits in the emission schedule, coarsest to finest.
/// Produced by an external decomposition step; this crate only
/// classifies it.
#[derive(Debug, Clone, Copy, PartialEq, Eq, Structural)]
pub struct Coordinate {
    /// Index of the containing halving era (0 = first era).
    pub epoch: u64,
    /// The containing block's height from the start of its era
    /// (0 = first block of the era).
    pub epoch_position: u64,
    /// The containing block's height from the start of its
    /// difficulty-adjustment period (0 = first block of the period).
    pub period_position: u64,
    /// The unit's index within its block's reward allocation
    /// (0 = first unit of the reward).
    pub subsidy_position: u64,
}

/// The ordered rule set: the first matching rule names the tier.
///
/// The first five rules grade units that open a block's reward by how
/// many nested boundaries that block opens (the whole supply, era and
/// period together, era alone, period alone, an ordinary block). The
/// black rules grade units that close a block's reward by the mirrored
/// hierarchy of closing boundaries; there is no black counterpart to
/// `Mythic` (a closing unit is never the first of the supply) nor to
/// `Common` (the undistinguished fallback is represented once).
pub open spec fn spec_derive(c: Coordinate, subsidy_for_epoch: u64) -> Rarity {
    if c.epoch == 0 && c.epoch_position == 0 && c.period_position == 0
        && c.subsidy_position == 0 {
        Rarity::Mythic
    } else if c.epoch_position == 0 && c.period_position == 0 && c.subsidy_position == 0 {
        Rarity::Legendary
    } else if c.epoch_position == 0 && c.subsidy_position == 0 {
        Rarity::Epic
    } else if c.period_position == 0 && c.subsidy_position == 0 {
        Rarity::Rare
    } else if c.subsidy_position == 0 {
        Rarity::Uncommon
    } else if c.subsidy_position == subsidy_for_epoch - 1 {
        if c.epoch_position == SUBSIDY_HALVING_INTERVAL - 1
            && c.period_position == DIFFCHANGE_INTERVAL - 1 {
            Rarity::BlackLegendary
        } else if c.epoch_position == SUBSIDY_HALVING_INTERVAL - 1 {
            Rarity::BlackEpic
        } else if c.period_position == DIFFCHANGE_INTERVAL - 1 {
            Rarity::BlackRare
        } else {
            Rarity::BlackUncommon
        }
    } else {
        Rarity::Common
    }
}

/// Classify a unit by its positional coordinate and the subsidy (reward
/// size in units) of its epoch.
///
/// Total: every coordinate satisfying the decomposition invariant
/// `subsidy_position < subsidy_for_epoch` maps to exactly one tier, and
/// no input has an error path. The caller validates that invariant.
pub fn derive_rarity(coordinate: Coordinate, subsidy_for_epoch: u64) -> (r: Rarity)
    requires
        coordinate.subsidy_position < subsidy_for_epoch,
    ensures
        r == spec_derive(coordinate, subsidy_for_epoch),
{
    if coordinate.epoch == 0 && coordinate.epoch_position == 0
        && coordinate.period_position == 0 && coordinate.subsidy_position == 0 {
        Rarity::Mythic
    } else if coordinate.epoch_position == 0 && coordinate.period_position == 0
        && coordinate.subsidy_position == 0 {
        Rarity::Legendary
    } else if coordinate.epoch_position == 0 && coordinate.subsidy_position == 0 {
        Rarity::Epic
    } else if coordinate.period_position == 0 && coordinate.subsidy_position == 0 {
        Rarity::Rare
    } else if coordinate.subsidy_position == 0 {
        Rarity::Uncommon
    } else if coordinate.subsidy_position == subsidy_for_epoch - 1 {
        if coordinate.epoch_position == SUBSIDY_HALVING_INTERVAL - 1
            && coordinate.period_position == DIFFCHANGE_INTERVAL - 1 {
            Rarity::BlackLegendary
        } else if coordinate.epoch_position == SUBSIDY_HALVING_INTERVAL - 1 {
            Rarity::BlackEpic
        } else if coordinate.period_position == DIFFCHANGE_INTERVAL - 1 {
            Rarity::BlackRare
        } else {
            Rarity::BlackUncommon
        }
    } else {
        Rarity::Common
    }
}

/// Every one of the ten tiers is assigned to some coordinate that
/// satisfies the decomposition invariant: the rule set is exhaustive
/// over its range as well as over its domain.
pub proof fn lemma_every_tier_reachable(r: Rarity)
    ensures
        exists|c: Coordinate, s: u64| c.subsidy_position < s && spec_derive(c, s) == r,
{
    match r {
        Rarity::Common => {
            let c = (Coordinate { epoch: 0, epoch_position: 7, period_position: 7, subsidy_position: 1 });
            assert(c.subsidy_position < 3 && spec_derive(c, 3u64) == r);
        },
        Rarity::Uncommon => {
            let c = (Coordinate { epoch: 0, epoch_position: 7, period_position: 7, subsidy_position: 0 });
            assert(c.subsidy_position < 2 && spec_derive(c, 2u64) == r);
        },
        Rarity::Rare => {
            let c = (Coordinate { epoch: 0, epoch_position: 7, period_position: 0, subsidy_position: 0 });
            assert(c.subsidy_position < 2 && spec_derive(c, 2u64) == r);
        },
        Rarity::Epic => {
            let c = (Coordinate { epoch: 1, epoch_position: 0, period_position: 7, subsidy_position: 0 });
            assert(c.subsidy_position < 2 && spec_derive(c, 2u64) == r);
        },
        Rarity::Legendary => {
            let c = (Coordinate { epoch: 1, epoch_position: 0, period_position: 0, subsidy_position: 0 });
            assert(c.subsidy_position < 2 && spec_derive(c, 2u64) == r);
        },
        Rarity::Mythic => {
            let c = (Coordinate { epoch: 0, epoch_position: 0, period_position: 0, subsidy_position: 0 });
            assert(c.subsidy_position < 2 && spec_derive(c, 2u64) == r);
        },
        Rarity::BlackUncommon => {
            let c = (Coordinate { epoch: 0, epoch_position: 7, period_position: 7, subsidy_position: 1 });
            assert(c.subsidy_position < 2 && spec_derive(c, 2u64) == r);
        },
        Rarity::BlackRare => {
            let c = (Coordinate { epoch: 0, epoch_position: 7, period_position: 2015, subsidy_position: 1 });
            assert(c.subsidy_position < 2 && spec_derive(c, 2u64) == r);
        },
        Rarity::BlackEpic => {
            let c = (Coordinate { epoch: 0, epoch_position: 209_999, period_position: 7, subsidy_position: 1 });
            assert(c.subsidy_position < 2 && spec_derive(c, 2u64) == r);
        },
        Rarity::BlackLegendary => {
            let c = (Coordinate { epoch: 0, epoch_position: 209_999, period_position: 2015, subsidy_position: 1 });
            assert(c.subsidy_position < 2 && spec_derive(c, 2u64) == r);
        },
    }
}

} // verus!

//! Scenery scattered over the seabed: batches of coral, rock, seaweed and
//! shells, each item of a randomly picked model. Where an item stands, how
//! large it is and how high the ground is beneath it are drawn and sampled by
//! the caller within the ranges of the category's rule.
use vstd::prelude::*;
use crate::assets::{CoralType, RockType, SeaweedType, ShellType};
use crate::random::choose_one;

verus! {

/// A category of scenery.
#[derive(Debug, Copy, Clone, PartialEq, Eq, Structural)]
pub enum ScatterCategory {
    Coral,
    Rock,
    Seaweed,
    Shell,
}

/// How one category is scattered: how many items, the range their uniform
/// scale is drawn from (in tenths, both ends included), and how far below
/// the sampled ground height they stand.
#[derive(Debug, Copy, Clone, PartialEq, Eq, Structural)]
pub struct ScatterRule {
    pub count: usize,
    pub min_scale_tenths: u32,
    pub max_scale_tenths: u32,
    pub vertical_offset: i32,
}

/// The rule of each category: coral 100 items scaled 0.5 to 4.0 and sunk by
/// 2; rock 80 items scaled 0.5 to 4.0 and sunk by 4; seaweed 100 items scaled
/// 0.5 to 6.0 and sunk by 2; shells 60 items scaled 0.5 to 2.0 on the ground.
pub open spec fn rule_of(c: ScatterCategory) -> ScatterRule {
    match c {
        ScatterCategory::Coral => ScatterRule {
            count: 100,
            min_scale_tenths: 5,
            max_scale_tenths: 40,
            vertical_offset: -2i32,
        },
        ScatterCategory::Rock => ScatterRule {
            count: 80,
            min_scale_tenths: 5,
            max_scale_tenths: 40,
            vertical_offset: -4i32,
        },
        ScatterCategory::Seaweed => ScatterRule {
            count: 100,
            min_scale_tenths: 5,
            max_scale_tenths: 60,
            vertical_offset: -2i32,
        },
        ScatterCategory::Shell => ScatterRule {
            count: 60,
            min_scale_tenths: 5,
            max_scale_tenths: 20,
            vertical_offset: 0,
        },
    }
}

impl ScatterCategory {
    /// The scatter rule of this category.
    pub fn rule(self) -> (r: ScatterRule)
        ensures
            r == rule_of(self),
    {
        match self {
            ScatterCategory::Coral => ScatterRule {
                count: 100,
                min_scale_tenths: 5,
                max_scale_tenths: 40,
                vertical_offset: -2,
            },
            ScatterCategory::Rock => ScatterRule {
                count: 80,
                min_scale_tenths: 5,
                max_scale_tenths: 40,
                vertical_offset: -4,
            },
            ScatterCategory::Seaweed => ScatterRule {
                count: 100,
                min_scale_tenths: 5,
                max_scale_tenths: 60,
                vertical_offset: -2,
            },
            ScatterCategory::Shell => ScatterRule {
                count: 60,
                min_scale_tenths: 5,
                max_scale_tenths: 20,
                vertical_offset: 0,
            },
        }
    }
}

/// The models picked for one scattering pass, one entry per item.
pub struct ScatterPlan {
    pub corals: Vec<CoralType>,
    pub rocks: Vec<RockType>,
    pub seaweeds: Vec<SeaweedType>,
    pub shells: Vec<ShellType>,
}

/// `count` independent uniform picks from `kinds`.
pub fn draw_kinds<T: Copy>(kinds: &Vec<T>, count: usize) -> (r: Vec<T>)
    requires
        kinds@.len() > 0,
    ensures
        r@.len() == count,
        forall|i: int| 0 <= i < count ==> kinds@.contains(#[trigger] r@[i]),
{
    let mut out: Vec<T> = Vec::new();
    let mut i: usize = 0;
    while i < count
        invariant
            kinds@.len() > 0,
            i <= count,
            out@.len() == i,
            forall|j: int| 0 <= j < i ==> kinds@.contains(#[trigger] out@[j]),
        decreases count - i,
    {
        let pick = choose_one(kinds).unwrap();
        out.push(pick);
        i = i + 1;
    }
    out
}

/// Picks the models of one scattering pass: exactly the rule's count of
/// items in each category, each model drawn uniformly from its category.
pub fn plan_scatter() -> (r: ScatterPlan)
    ensures
        r.corals@.len() == rule_of(ScatterCategory::Coral).count,
        r.rocks@.len() == rule_of(ScatterCategory::Rock).count,
        r.seaweeds@.len() == rule_of(ScatterCategory::Seaweed).count,
        r.shells@.len() == rule_of(ScatterCategory::Shell).count,
{
    let corals = draw_kinds(&CoralType::all(), ScatterCategory::Coral.rule().count);
    let rocks = draw_kinds(&RockType::all(), ScatterCategory::Rock.rule().count);
    let seaweeds = draw_kinds(&SeaweedType::all(), ScatterCategory::Seaweed.rule().count);
    let shells = draw_kinds(&ShellType::all(), ScatterCategory::Shell.rule().count);
    ScatterPlan { corals, rocks, seaweeds, shells }
}

} // verus!

//! Hazards: creatures that enter the view from its left or right edge, cross
//! it horizontally and are removed once they leave it. Each archetype has its
//! own fish model, vertical spawn band, facing and speed.
use vstd::prelude::*;
use crate::assets::{FishAnimationCollection, FishAnimations, FishCollection, FishType};
use crate::random::{chance, choose_one};

verus! {

/// The closed set of hazard archetypes.
#[derive(Debug, Copy, Clone, PartialEq, Eq, Structural)]
pub enum HazardType {
    Crab,
    Squid,
    Octopus,
    Hammerhead,
    Eel,
}

/// Side of the view a hazard enters from.
#[derive(Debug, Copy, Clone, PartialEq, Eq, Structural)]
pub enum Side {
    Left,
    Right,
}

/// Which horizontal bound of the view a hazard starts on.
#[derive(Debug, Copy, Clone, PartialEq, Eq, Structural)]
pub enum Edge {
    /// `bounds.min.x`
    Min,
    /// `bounds.max.x`
    Max,
}

/// Vertical band of the view a hazard's height is drawn from.
#[derive(Debug, Copy, Clone, PartialEq, Eq, Structural)]
pub enum SpawnBand {
    /// From `bounds.min.y` up to (not including) `bounds.min.y + height / denominator`.
    Bottom { denominator: u32 },
    /// From `bounds.min.y + height / 2` up to (not including) `bounds.max.y`.
    UpperHalf,
}

/// Rotation of a hazard about the vertical axis when it spawns.
#[derive(Debug, Copy, Clone, PartialEq, Eq, Structural)]
pub enum Facing {
    Unrotated,
    /// A quarter turn by `+PI / 2`.
    QuarterTurnPositive,
    /// A quarter turn by `-PI / 2`.
    QuarterTurnNegative,
}

/// Everything about a new hazard that follows from its archetype and side.
/// Its signed speed is `base * direction * speed_quarters / 4`, with the base
/// speed drawn by the caller.
#[derive(Debug, Copy, Clone, PartialEq, Eq, Structural)]
pub struct SpawnProfile {
    pub fish_type: FishType,
    pub edge: Edge,
    /// `1` towards positive X, `-1` towards negative X.
    pub direction: i8,
    pub band: SpawnBand,
    pub facing: Facing,
    /// Speed multiplier in quarters: 4 is `1.0`, 5 is `1.25`.
    pub speed_quarters: u32,
}

/// An archetype and a side, as drawn for one spawn.
#[derive(Debug, Copy, Clone, PartialEq, Eq, Structural)]
pub struct HazardDraw {
    pub hazard_type: HazardType,
    pub side: Side,
}

impl HazardType {
    /// Every archetype, in declaration order.
    pub fn all() -> (r: Vec<HazardType>)
        ensures
            r@ == seq![
                HazardType::Crab,
                HazardType::Squid,
                HazardType::Octopus,
                HazardType::Hammerhead,
                HazardType::Eel,
            ],
    {
        vec![
            HazardType::Crab,
            HazardType::Squid,
            HazardType::Octopus,
            HazardType::Hammerhead,
            HazardType::Eel,
        ]
    }

    /// The fish that plays this archetype.
    pub open spec fn fish_type_of(self) -> FishType {
        match self {
            HazardType::Crab => FishType::Crab,
            HazardType::Squid => FishType::Squid,
            HazardType::Octopus => FishType::Octopus,
            HazardType::Hammerhead => FishType::Hammerhead,
            HazardType::Eel => FishType::Eel,
        }
    }

    /// The fish that plays this archetype; every archetype has one.
    pub fn into_fish_type(self) -> (r: FishType)
        ensures
            r == self.fish_type_of(),
    {
        match self {
            HazardType::Crab => FishType::Crab,
            HazardType::Squid => FishType::Squid,
            HazardType::Octopus => FishType::Octopus,
            HazardType::Hammerhead => FishType::Hammerhead,
            HazardType::Eel => FishType::Eel,
        }
    }

    /// The scene of this archetype's fish.
    pub fn model_from<H: Clone>(&self, collection: &FishCollection<H>) -> (r: H)
        ensures
            cloned(self.fish_type_of().model_in(*collection), r),
    {
        self.into_fish_type().model_from(collection)
    }

    /// The idle and moving clips of this archetype's fish.
    pub fn animations_from<H: Clone>(&self, collection: &FishAnimationCollection<H>) -> (r:
        FishAnimations<H>)
        requires
            self.fish_type_of().has_clips_in(*collection),
        ensures
            ({
                let fish = self.fish_type_of();
                let clips = fish.clips_in(*collection);
                &&& cloned(clips[fish.idle_slot() as int], r.idle)
                &&& (r.moving is Some <==> fish.moving_slot() is Some)
                &&& (fish.moving_slot() matches Some(m) ==> cloned(
                    clips[m as int],
                    r.moving.unwrap(),
                ))
            }),
    {
        self.into_fish_type().animations_from(collection)
    }
}

/// Bound a hazard entering from `side` starts on.
pub open spec fn edge_of(side: Side) -> Edge {
    match side {
        Side::Left => Edge::Min,
        Side::Right => Edge::Max,
    }
}

/// Direction of travel of a hazard entering from `side`: away from its edge.
pub open spec fn direction_of(side: Side) -> i8 {
    match side {
        Side::Left => 1i8,
        Side::Right => -1i8,
    }
}

/// Vertical band an archetype spawns in.
pub open spec fn band_of(h: HazardType) -> SpawnBand {
    match h {
        HazardType::Crab => SpawnBand::Bottom { denominator: 5 },
        HazardType::Eel => SpawnBand::Bottom { denominator: 3 },
        _ => SpawnBand::UpperHalf,
    }
}

/// Facing of an archetype entering from `side`. Crabs are not turned;
/// hammerheads turn by `-PI / 2` from the left and `+PI / 2` from the right;
/// the others the other way round.
pub open spec fn facing_of(h: HazardType, side: Side) -> Facing {
    match (h, side) {
        (HazardType::Crab, _) => Facing::Unrotated,
        (HazardType::Hammerhead, Side::Left) => Facing::QuarterTurnNegative,
        (HazardType::Hammerhead, Side::Right) => Facing::QuarterTurnPositive,
        (_, Side::Left) => Facing::QuarterTurnPositive,
        (_, Side::Right) => Facing::QuarterTurnNegative,
    }
}

/// Speed multiplier of an archetype, in quarters.
pub open spec fn speed_quarters_of(h: HazardType) -> u32 {
    match h {
        HazardType::Crab => 4,
        HazardType::Eel => 5,
        HazardType::Hammerhead => 8,
        HazardType::Squid | HazardType::Octopus => 6,
    }
}

/// The spawn profile of archetype `h` entering from `side`.
pub open spec fn profile_of(h: HazardType, side: Side) -> SpawnProfile {
    SpawnProfile {
        fish_type: h.fish_type_of(),
        edge: edge_of(side),
        direction: direction_of(side),
        band: band_of(h),
        facing: facing_of(h, side),
        speed_quarters: speed_quarters_of(h),
    }
}

/// How archetype `hazard_type` enters from `side`: a left spawn starts on the
/// minimum X bound moving towards positive X, a right spawn on the maximum X
/// bound moving towards negative X. Crabs keep to the bottom fifth of the
/// view unrotated at speed x1; eels to the bottom third at x1.25; hammerheads
/// to the upper half at x2, turned the other way from the rest; squid and
/// octopuses to the upper half at x1.5.
pub fn spawn_profile(hazard_type: HazardType, side: Side) -> (r: SpawnProfile)
    ensures
        r == profile_of(hazard_type, side),
{
    let left = match side {
        Side::Left => true,
        Side::Right => false,
    };
    let toward = if left {
        Facing::QuarterTurnPositive
    } else {
        Facing::QuarterTurnNegative
    };
    let away = if left {
        Facing::QuarterTurnNegative
    } else {
        Facing::QuarterTurnPositive
    };
    let (band, facing, speed_quarters) = match hazard_type {
        HazardType::Crab => (SpawnBand::Bottom { denominator: 5 }, Facing::Unrotated, 4u32),
        HazardType::Eel => (SpawnBand::Bottom { denominator: 3 }, toward, 5u32),
        HazardType::Hammerhead => (SpawnBand::UpperHalf, away, 8u32),
        _ => (SpawnBand::UpperHalf, toward, 6u32),
    };
    SpawnProfile {
        fish_type: hazard_type.into_fish_type(),
        edge: if left {
            Edge::Min
        } else {
            Edge::Max
        },
        direction: if left {
            1i8
        } else {
            -1i8
        },
        band,
        facing,
        speed_quarters,
    }
}

/// A left spawn starts on `bounds.min.x` with positive direction and a right
/// spawn on `bounds.max.x` with negative direction, whatever the archetype,
/// and the speed multiplier is positive, so the signed speed keeps the side's
/// sign.
pub proof fn lemma_spawn_side(h: HazardType, side: Side)
    ensures
        side == Side::Left ==> profile_of(h, side).edge == Edge::Min && profile_of(h, side).direction
            == 1,
        side == Side::Right ==> profile_of(h, side).edge == Edge::Max && profile_of(
            h,
            side,
        ).direction == -1,
        profile_of(h, side).speed_quarters > 0,
{
}

/// Draws the archetype of the next hazard uniformly from the five, and its
/// side with even odds.
pub fn draw_hazard() -> HazardDraw {
    let kinds = HazardType::all();
    let hazard_type = choose_one(&kinds).unwrap();
    let side = if chance(1, 2) {
        Side::Left
    } else {
        Side::Right
    };
    HazardDraw { hazard_type, side }
}

} // verus!

//! The game's closed sets of scene models and animation clips. A collection
//! holds one loaded handle per model (of whatever handle type the engine
//! uses); each archetype picks its own handle out of it.
use vstd::prelude::*;

verus! {

/// Coral models.
#[derive(Debug, Copy, Clone, PartialEq, Eq, Structural)]
pub enum CoralType {
    Coral,
    Coral1,
    Coral2,
    Coral3,
    Coral4,
    Coral5,
    Coral6,
}

/// Loaded coral scenes, one per `CoralType`.
pub struct CoralCollection<H> {
    pub coral: H,
    pub coral_1: H,
    pub coral_2: H,
    pub coral_3: H,
    pub coral_4: H,
    pub coral_5: H,
    pub coral_6: H,
}

impl CoralType {
    /// Every coral type, in declaration order.
    pub fn all() -> (r: Vec<CoralType>)
        ensures
            r@ == seq![
                CoralType::Coral,
                CoralType::Coral1,
                CoralType::Coral2,
                CoralType::Coral3,
                CoralType::Coral4,
                CoralType::Coral5,
                CoralType::Coral6,
            ],
    {
        vec![
            CoralType::Coral,
            CoralType::Coral1,
            CoralType::Coral2,
            CoralType::Coral3,
            CoralType::Coral4,
            CoralType::Coral5,
            CoralType::Coral6,
        ]
    }

    /// The handle of this coral's scene in `c`.
    pub open spec fn model_in<H>(self, c: CoralCollection<H>) -> H {
        match self {
            CoralType::Coral => c.coral,
            CoralType::Coral1 => c.coral_1,
            CoralType::Coral2 => c.coral_2,
            CoralType::Coral3 => c.coral_3,
            CoralType::Coral4 => c.coral_4,
            CoralType::Coral5 => c.coral_5,
            CoralType::Coral6 => c.coral_6,
        }
    }

    /// Gets the corresponding coral model for the given coral type.
    pub fn model_from<H: Clone>(&self, collection: &CoralCollection<H>) -> (r: H)
        ensures
            cloned(self.model_in(*collection), r),
    {
        match self {
            CoralType::Coral => collection.coral.clone(),
            CoralType::Coral1 => collection.coral_1.clone(),
            CoralType::Coral2 => collection.coral_2.clone(),
            CoralType::Coral3 => collection.coral_3.clone(),
            CoralType::Coral4 => collection.coral_4.clone(),
            CoralType::Coral5 => collection.coral_5.clone(),
            CoralType::Coral6 => collection.coral_6.clone(),
        }
    }
}

/// Rock models.
#[derive(Debug, Copy, Clone, PartialEq, Eq, Structural)]
pub enum RockType {
    Rock,
    Rock1,
    Rock2,
    Rock3,
    Rock4,
    Rock5,
    Rock6,
    Rock7,
    Rock8,
    Rock9,
    Rock10,
}

/// Loaded rock scenes, one per `RockType`.
pub struct RockCollection<H> {
    pub rock: H,
    pub rock_1: H,
    pub rock_2: H,
    pub rock_3: H,
    pub rock_4: H,
    pub rock_5: H,
    pub rock_6: H,
    pub rock_7: H,
    pub rock_8: H,
    pub rock_9: H,
    pub rock_10: H,
}

impl RockType {
    /// Every rock type, in declaration order.
    pub fn all() -> (r: Vec<RockType>)
        ensures
            r@ == seq![
                RockType::Rock,
                RockType::Rock1,
                RockType::Rock2,
                RockType::Rock3,
                RockType::Rock4,
                RockType::Rock5,
                RockType::Rock6,
                RockType::Rock7,
                RockType::Rock8,
                RockType::Rock9,
                RockType::Rock10,
            ],
    {
        vec![
            RockType::Rock,
            RockType::Rock1,
            RockType::Rock2,
            RockType::Rock3,
            RockType::Rock4,
            RockType::Rock5,
            RockType::Rock6,
            RockType::Rock7,
            RockType::Rock8,
            RockType::Rock9,
            RockType::Rock10,
        ]
    }

    /// The handle of this rock's scene in `c`.
    pub open spec fn model_in<H>(self, c: RockCollection<H>) -> H {
        match self {
            RockType::Rock => c.rock,
            RockType::Rock1 => c.rock_1,
            RockType::Rock2 => c.rock_2,
            RockType::Rock3 => c.rock_3,
            RockType::Rock4 => c.rock_4,
            RockType::Rock5 => c.rock_5,
            RockType::Rock6 => c.rock_6,
            RockType::Rock7 => c.rock_7,
            RockType::Rock8 => c.rock_8,
            RockType::Rock9 => c.rock_9,
            RockType::Rock10 => c.rock_10,
        }
    }

    /// Gets the corresponding rock model for the given rock type.
    pub fn model_from<H: Clone>(&self, collection: &RockCollection<H>) -> (r: H)
        ensures
            cloned(self.model_in(*collection), r),
    {
        match self {
            RockType::Rock => collection.rock.clone(),
            RockType::Rock1 => collection.rock_1.clone(),
            RockType::Rock2 => collection.rock_2.clone(),
            RockType::Rock3 => collection.rock_3.clone(),
            RockType::Rock4 => collection.rock_4.clone(),
            RockType::Rock5 => collection.rock_5.clone(),
            RockType::Rock6 => collection.rock_6.clone(),
            RockType::Rock7 => collection.rock_7.clone(),
            RockType::Rock8 => collection.rock_8.clone(),
            RockType::Rock9 => collection.rock_9.clone(),
            RockType::Rock10 => collection.rock_10.clone(),
        }
    }
}

/// Seaweed models.
#[derive(Debug, Copy, Clone, PartialEq, Eq, Structural)]
pub enum SeaweedType {
    Seaweed1,
    Seaweed2,
}

/// Loaded seaweed scenes, one per `SeaweedType`.
pub struct SeaweedCollection<H> {
    pub seaweed_1: H,
    pub seaweed_2: H,
}

impl SeaweedType {
    /// Every seaweed type, in declaration order.
    pub fn all() -> (r: Vec<SeaweedType>)
        ensures
            r@ == seq![
                SeaweedType::Seaweed1,
                SeaweedType::Seaweed2,
            ],
    {
        vec![
            SeaweedType::Seaweed1,
            SeaweedType::Seaweed2,
        ]
    }

    /// The handle of this seaweed's scene in `c`.
    pub open spec fn model_in<H>(self, c: SeaweedCollection<H>) -> H {
        match self {
            SeaweedType::Seaweed1 => c.seaweed_1,
            SeaweedType::Seaweed2 => c.seaweed_2,
        }
    }

    /// Gets the corresponding seaweed model for the given seaweed type.
    pub fn model_from<H: Clone>(&self, collection: &SeaweedCollection<H>) -> (r: H)
        ensures
            cloned(self.model_in(*collection), r),
    {
        match self {
            SeaweedType::Seaweed1 => collection.seaweed_1.clone(),
            SeaweedType::Seaweed2 => collection.seaweed_2.clone(),
        }
    }

    /// The handle of this seaweed's swaying clip in `c`.
    pub open spec fn animation_in<H>(self, c: SeaweedAnimationCollection<H>) -> H {
        match self {
            SeaweedType::Seaweed1 => c.seaweed_1,
            SeaweedType::Seaweed2 => c.seaweed_2,
        }
    }

    /// Gets the corresponding seaweed animation for the given seaweed type.
    pub fn animation_from<H: Clone>(&self, collection: &SeaweedAnimationCollection<H>) -> (r: H)
        ensures
            cloned(self.animation_in(*collection), r),
    {
        match self {
            SeaweedType::Seaweed1 => collection.seaweed_1.clone(),
            SeaweedType::Seaweed2 => collection.seaweed_2.clone(),
        }
    }
}

/// Loaded seaweed animation clips, one per `SeaweedType`.
pub struct SeaweedAnimationCollection<H> {
    pub seaweed_1: H,
    pub seaweed_2: H,
}

/// Shell models.
#[derive(Debug, Copy, Clone, PartialEq, Eq, Structural)]
pub enum ShellType {
    Shell,
    Shell1,
    Shell2,
    Shell3,
}

/// Loaded shell scenes, one per `ShellType`.
pub struct ShellsCollection<H> {
    pub shells: H,
    pub shells_1: H,
    pub shells_2: H,
    pub shells_3: H,
}

impl ShellType {
    /// Every shell type, in declaration order.
    pub fn all() -> (r: Vec<ShellType>)
        ensures
            r@ == seq![
                ShellType::Shell,
                ShellType::Shell1,
                ShellType::Shell2,
                ShellType::Shell3,
            ],
    {
        vec![
            ShellType::Shell,
            ShellType::Shell1,
            ShellType::Shell2,
            ShellType::Shell3,
        ]
    }

    /// The handle of this shell's scene in `c`.
    pub open spec fn model_in<H>(self, c: ShellsCollection<H>) -> H {
        match self {
            ShellType::Shell => c.shells,
            ShellType::Shell1 => c.shells_1,
            ShellType::Shell2 => c.shells_2,
            ShellType::Shell3 => c.shells_3,
        }
    }

    /// Gets the corresponding shell model for the given shell type.
    pub fn model_from<H: Clone>(&self, collection: &ShellsCollection<H>) -> (r: H)
        ensures
            cloned(self.model_in(*collection), r),
    {
        match self {
            ShellType::Shell => collection.shells.clone(),
            ShellType::Shell1 => collection.shells_1.clone(),
            ShellType::Shell2 => collection.shells_2.clone(),
            ShellType::Shell3 => collection.shells_3.clone(),
        }
    }
}

/// Fish models: the player's turtle and every creature that swims or crawls.
#[derive(Debug, Copy, Clone, PartialEq, Eq, Structural)]
pub enum FishType {
    BrownFish,
    ClownFish,
    Crab,
    DoryFish,
    Eel,
    Hammerhead,
    Lobster,
    Octopus,
    Penguin,
    Seal,
    Squid,
    StarFish,
    StingRay,
    TunaFish,
    Turtle,
    Whale,
}

/// Loaded fish scenes, one per `FishType`.
pub struct FishCollection<H> {
    pub brown_fish: H,
    pub clown_fish: H,
    pub crab: H,
    pub dory_fish: H,
    pub eel: H,
    pub hammerhead: H,
    pub lobster: H,
    pub octopus: H,
    pub penguin: H,
    pub seal: H,
    pub squid: H,
    pub starfish: H,
    pub stingray: H,
    pub tuna_fish: H,
    pub turtle: H,
    pub whale: H,
}

impl FishType {
    /// The handle of this fish's scene in `c`.
    pub open spec fn model_in<H>(self, c: FishCollection<H>) -> H {
        match self {
            FishType::BrownFish => c.brown_fish,
            FishType::ClownFish => c.clown_fish,
            FishType::Crab => c.crab,
            FishType::DoryFish => c.dory_fish,
            FishType::Eel => c.eel,
            FishType::Hammerhead => c.hammerhead,
            FishType::Lobster => c.lobster,
            FishType::Octopus => c.octopus,
            FishType::Penguin => c.penguin,
            FishType::Seal => c.seal,
            FishType::Squid => c.squid,
            FishType::StarFish => c.starfish,
            FishType::StingRay => c.stingray,
            FishType::TunaFish => c.tuna_fish,
            FishType::Turtle => c.turtle,
            FishType::Whale => c.whale,
        }
    }

    /// Gets the corresponding fish model for the given fish type.
    pub fn model_from<H: Clone>(&self, collection: &FishCollection<H>) -> (r: H)
        ensures
            cloned(self.model_in(*collection), r),
    {
        match self {
            FishType::BrownFish => collection.brown_fish.clone(),
            FishType::ClownFish => collection.clown_fish.clone(),
            FishType::Crab => collection.crab.clone(),
            FishType::DoryFish => collection.dory_fish.clone(),
            FishType::Eel => collection.eel.clone(),
            FishType::Hammerhead => collection.hammerhead.clone(),
            FishType::Lobster => collection.lobster.clone(),
            FishType::Octopus => collection.octopus.clone(),
            FishType::Penguin => collection.penguin.clone(),
            FishType::Seal => collection.seal.clone(),
            FishType::Squid => collection.squid.clone(),
            FishType::StarFish => collection.starfish.clone(),
            FishType::StingRay => collection.stingray.clone(),
            FishType::TunaFish => collection.tuna_fish.clone(),
            FishType::Turtle => collection.turtle.clone(),
            FishType::Whale => collection.whale.clone(),
        }
    }

    /// The clips of this fish in `c`.
    pub open spec fn clips_in<H>(self, c: FishAnimationCollection<H>) -> Seq<H> {
        let v = match self {
            FishType::BrownFish => c.brown_fish,
            FishType::ClownFish => c.clown_fish,
            FishType::Crab => c.crab,
            FishType::DoryFish => c.dory_fish,
            FishType::Eel => c.eel,
            FishType::Hammerhead => c.hammerhead,
            FishType::Lobster => c.lobster,
            FishType::Octopus => c.octopus,
            FishType::Penguin => c.penguin,
            FishType::Seal => c.seal,
            FishType::Squid => c.squid,
            FishType::StarFish => c.starfish,
            FishType::StingRay => c.stingray,
            FishType::TunaFish => c.tuna_fish,
            FishType::Turtle => c.turtle,
            FishType::Whale => c.whale,
        };
        v@
    }

    /// Slot of the idle clip among this fish's clips.
    pub open spec fn idle_slot(self) -> usize {
        match self {
            FishType::Octopus => 1,
            _ => 0,
        }
    }

    /// Slot of the moving clip among this fish's clips, where it has one.
    pub open spec fn moving_slot(self) -> Option<usize> {
        match self {
            FishType::BrownFish => Some(1usize),
            FishType::Crab => Some(1usize),
            FishType::DoryFish => Some(1usize),
            FishType::Eel => Some(1usize),
            FishType::Lobster => Some(1usize),
            FishType::Octopus => Some(0usize),
            FishType::Seal => Some(1usize),
            FishType::Squid => Some(1usize),
            FishType::Turtle => Some(1usize),
            _ => None,
        }
    }

    /// Whether `c` holds every clip slot this fish uses.
    pub open spec fn has_clips_in<H>(self, c: FishAnimationCollection<H>) -> bool {
        &&& self.idle_slot() < self.clips_in(c).len()
        &&& (self.moving_slot() matches Some(m) ==> m < self.clips_in(c).len())
    }

    /// The idle and moving slots of this fish's clips.
    pub fn clip_slots(&self) -> (r: (usize, Option<usize>))
        ensures
            r == (self.idle_slot(), self.moving_slot()),
    {
        let idle: usize = match self {
            FishType::Octopus => 1,
            _ => 0,
        };
        let moving: Option<usize> = match self {
            FishType::BrownFish => Some(1),
            FishType::Crab => Some(1),
            FishType::DoryFish => Some(1),
            FishType::Eel => Some(1),
            FishType::Lobster => Some(1),
            FishType::Octopus => Some(0),
            FishType::Seal => Some(1),
            FishType::Squid => Some(1),
            FishType::Turtle => Some(1),
            _ => None,
        };
        (idle, moving)
    }

    fn clips_from<'a, H>(&self, collection: &'a FishAnimationCollection<H>) -> (r: &'a Vec<H>)
        ensures
            r@ == self.clips_in(*collection),
    {
        match self {
            FishType::BrownFish => &collection.brown_fish,
            FishType::ClownFish => &collection.clown_fish,
            FishType::Crab => &collection.crab,
            FishType::DoryFish => &collection.dory_fish,
            FishType::Eel => &collection.eel,
            FishType::Hammerhead => &collection.hammerhead,
            FishType::Lobster => &collection.lobster,
            FishType::Octopus => &collection.octopus,
            FishType::Penguin => &collection.penguin,
            FishType::Seal => &collection.seal,
            FishType::Squid => &collection.squid,
            FishType::StarFish => &collection.starfish,
            FishType::StingRay => &collection.stingray,
            FishType::TunaFish => &collection.tuna_fish,
            FishType::Turtle => &collection.turtle,
            FishType::Whale => &collection.whale,
        }
    }

    /// Whether `collection` holds every clip slot this fish uses.
    pub fn has_clips_from<H>(&self, collection: &FishAnimationCollection<H>) -> (r: bool)
        ensures
            r == self.has_clips_in(*collection),
    {
        let len = self.clips_from(collection).len();
        let (idle, moving) = self.clip_slots();
        idle < len && match moving {
            Some(m) => m < len,
            None => true,
        }
    }

    /// Gets the corresponding idle and moving animations for the given fish
    /// type: clones of the clips at its slots.
    pub fn animations_from<H: Clone>(&self, collection: &FishAnimationCollection<H>) -> (r:
        FishAnimations<H>)
        requires
            self.has_clips_in(*collection),
        ensures
            cloned(self.clips_in(*collection)[self.idle_slot() as int], r.idle),
            r.moving is Some <==> self.moving_slot() is Some,
            self.moving_slot() matches Some(m) ==> cloned(
                self.clips_in(*collection)[m as int],
                r.moving.unwrap(),
            ),
    {
        let clips = self.clips_from(collection);
        let (idle, moving) = self.clip_slots();
        let idle_clip = clips[idle].clone();
        let moving_clip = match moving {
            Some(m) => Some(clips[m].clone()),
            None => None,
        };
        FishAnimations { idle: idle_clip, moving: moving_clip }
    }
}

/// Loaded animation clips of every fish, in slot order.
pub struct FishAnimationCollection<H> {
    pub brown_fish: Vec<H>,
    pub clown_fish: Vec<H>,
    pub crab: Vec<H>,
    pub dory_fish: Vec<H>,
    pub eel: Vec<H>,
    pub hammerhead: Vec<H>,
    pub lobster: Vec<H>,
    pub octopus: Vec<H>,
    pub penguin: Vec<H>,
    pub seal: Vec<H>,
    pub squid: Vec<H>,
    pub starfish: Vec<H>,
    pub stingray: Vec<H>,
    pub tuna_fish: Vec<H>,
    pub turtle: Vec<H>,
    pub whale: Vec<H>,
}

/// A fish's idle clip and, where it has one, its moving clip.
pub struct FishAnimations<H> {
    pub idle: H,
    pub moving: Option<H>,
}

impl<H: Clone> FishAnimations<H> {
    /// The clip a newly spawned moving creature starts with, looping: its
    /// moving clip where it has one, else its idle clip.
    pub fn initial_animation(&self) -> (r: InitialAnimation<H>)
        ensures
            r.repeat,
            self.moving matches Some(m) ==> cloned(m, r.animation),
            self.moving is None ==> cloned(self.idle, r.animation),
    {
        let animation = match &self.moving {
            Some(m) => m.clone(),
            None => self.idle.clone(),
        };
        InitialAnimation { animation, repeat: true }
    }

    /// The clip for a creature that is moving (`moving`) or idle: its idle
    /// clip when idle; its moving clip, if it has one, when moving.
    pub fn clip_for(&self, moving: bool) -> (r: Option<H>)
        ensures
            !moving ==> (r matches Some(c) && cloned(self.idle, c)),
            moving ==> (r is Some <==> self.moving is Some),
            moving ==> (self.moving matches Some(m) ==> cloned(m, r.unwrap())),
    {
        if moving {
            match &self.moving {
                Some(m) => Some(m.clone()),
                None => None,
            }
        } else {
            Some(self.idle.clone())
        }
    }
}

/// A clip to start on a creature once its animation player exists, and
/// whether to loop it.
pub struct InitialAnimation<H> {
    pub animation: H,
    pub repeat: bool,
}

/// Tags a creature in the scene with its fish model.
#[derive(Debug, Copy, Clone, PartialEq, Eq, Structural)]
pub struct Fish {
    pub fish_type: FishType,
}

/// Loaded textures.
pub struct TextureCollection<H> {
    pub background: H,
}

} // verus!

use fishy::assets::{FishAnimationCollection, FishCollection, FishType};
use fishy::hazard::{
    draw_hazard, spawn_profile, Edge, Facing, HazardType, Side, SpawnBand, SpawnProfile,
};

#[test]
fn archetypes_in_order() {
    assert_eq!(
        HazardType::all(),
        vec![
            HazardType::Crab,
            HazardType::Squid,
            HazardType::Octopus,
            HazardType::Hammerhead,
            HazardType::Eel
        ]
    );
}

#[test]
fn every_archetype_has_its_fish() {
    assert_eq!(HazardType::Crab.into_fish_type(), FishType::Crab);
    assert_eq!(HazardType::Squid.into_fish_type(), FishType::Squid);
    assert_eq!(HazardType::Octopus.into_fish_type(), FishType::Octopus);
    assert_eq!(HazardType::Hammerhead.into_fish_type(), FishType::Hammerhead);
    assert_eq!(HazardType::Eel.into_fish_type(), FishType::Eel);
}

#[test]
fn left_spawn_starts_at_min_moving_right() {
    for h in HazardType::all() {
        let p = spawn_profile(h, Side::Left);
        assert_eq!(p.edge, Edge::Min);
        assert_eq!(p.direction, 1);
        let q = spawn_profile(h, Side::Right);
        assert_eq!(q.edge, Edge::Max);
        assert_eq!(q.direction, -1);
    }
}

#[test]
fn crab_profile() {
    assert_eq!(
        spawn_profile(HazardType::Crab, Side::Right),
        SpawnProfile {
            fish_type: FishType::Crab,
            edge: Edge::Max,
            direction: -1,
            band: SpawnBand::Bottom { denominator: 5 },
            facing: Facing::Unrotated,
            speed_quarters: 4,
        }
    );
}

#[test]
fn eel_profile() {
    let p = spawn_profile(HazardType::Eel, Side::Left);
    assert_eq!(p.band, SpawnBand::Bottom { denominator: 3 });
    assert_eq!(p.facing, Facing::QuarterTurnPositive);
    assert_eq!(p.speed_quarters, 5);
    assert_eq!(spawn_profile(HazardType::Eel, Side::Right).facing, Facing::QuarterTurnNegative);
}

#[test]
fn hammerhead_turns_the_other_way() {
    let p = spawn_profile(HazardType::Hammerhead, Side::Left);
    assert_eq!(p.band, SpawnBand::UpperHalf);
    assert_eq!(p.facing, Facing::QuarterTurnNegative);
    assert_eq!(p.speed_quarters, 8);
    assert_eq!(
        spawn_profile(HazardType::Hammerhead, Side::Right).facing,
        Facing::QuarterTurnPositive
    );
}

#[test]
fn squid_and_octopus_profiles() {
    for h in [HazardType::Squid, HazardType::Octopus] {
        let p = spawn_profile(h, Side::Left);
        assert_eq!(p.band, SpawnBand::UpperHalf);
        assert_eq!(p.facing, Facing::QuarterTurnPositive);
        assert_eq!(p.speed_quarters, 6);
        assert_eq!(spawn_profile(h, Side::Right).facing, Facing::QuarterTurnNegative);
    }
}

#[test]
fn signed_speed_follows_side() {
    let base = 2.0f32;
    let left = spawn_profile(HazardType::Hammerhead, Side::Left);
    let right = spawn_profile(HazardType::Hammerhead, Side::Right);
    let speed = |p: SpawnProfile| base * p.direction as f32 * (p.speed_quarters as f32 / 4.0);
    assert_eq!(speed(left), 4.0);
    assert_eq!(speed(right), -4.0);
    assert_eq!(speed(spawn_profile(HazardType::Eel, Side::Right)), -2.5);
}

#[test]
fn drawn_hazard_is_an_archetype() {
    for _ in 0..20 {
        let d = draw_hazard();
        assert!(HazardType::all().contains(&d.hazard_type));
        assert!(d.side == Side::Left || d.side == Side::Right);
    }
}

fn named_scenes() -> FishCollection<&'static str> {
    FishCollection {
        brown_fish: "brown",
        clown_fish: "clown",
        crab: "crab",
        dory_fish: "dory",
        eel: "eel",
        hammerhead: "hammerhead",
        lobster: "lobster",
        octopus: "octopus",
        penguin: "penguin",
        seal: "seal",
        squid: "squid",
        starfish: "starfish",
        stingray: "stingray",
        tuna_fish: "tuna",
        turtle: "turtle",
        whale: "whale",
    }
}

fn two_clips(name: &str) -> Vec<String> {
    vec![format!("{name}0"), format!("{name}1")]
}

fn named_clips() -> FishAnimationCollection<String> {
    FishAnimationCollection {
        brown_fish: two_clips("brown"),
        clown_fish: two_clips("clown"),
        crab: two_clips("crab"),
        dory_fish: two_clips("dory"),
        eel: two_clips("eel"),
        hammerhead: two_clips("hammerhead"),
        lobster: two_clips("lobster"),
        octopus: two_clips("octopus"),
        penguin: two_clips("penguin"),
        seal: two_clips("seal"),
        squid: two_clips("squid"),
        starfish: two_clips("starfish"),
        stingray: two_clips("stingray"),
        tuna_fish: two_clips("tuna"),
        turtle: two_clips("turtle"),
        whale: two_clips("whale"),
    }
}

#[test]
fn hazard_models_and_clips() {
    let scenes = named_scenes();
    assert_eq!(HazardType::Eel.model_from(&scenes), "eel");
    assert_eq!(HazardType::Squid.model_from(&scenes), "squid");
    let clips = named_clips();
    let octopus = HazardType::Octopus.animations_from(&clips);
    assert_eq!(octopus.idle, "octopus1");
    assert_eq!(octopus.moving, Some("octopus0".to_string()));
    let hammerhead = HazardType::Hammerhead.animations_from(&clips);
    assert_eq!(hammerhead.idle, "hammerhead0");
    assert_eq!(hammerhead.moving, None);
    assert_eq!(hammerhead.initial_animation().animation, "hammerhead0");
    let crab = HazardType::Crab.animations_from(&clips);
    let start = crab.initial_animation();
    assert_eq!(start.animation, "crab1");
    assert!(start.repeat);
}

#[test]
fn missing_clip_slots_are_detected() {
    let mut clips = named_clips();
    assert!(FishType::Octopus.has_clips_from(&clips));
    clips.octopus = vec!["octopus0".to_string()];
    assert!(!FishType::Octopus.has_clips_from(&clips));
    clips.whale = vec!["whale0".to_string()];
    assert!(FishType::Whale.has_clips_from(&clips));
    clips.whale = vec![];
    assert!(!FishType::Whale.has_clips_from(&clips));
}

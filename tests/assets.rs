use fishy::assets::{
    CoralCollection, CoralType, FishAnimations, RockCollection, RockType, SeaweedAnimationCollection,
    SeaweedCollection, SeaweedType, ShellType, ShellsCollection,
};

#[test]
fn type_lists() {
    assert_eq!(CoralType::all().len(), 7);
    assert_eq!(RockType::all().len(), 11);
    assert_eq!(SeaweedType::all(), vec![SeaweedType::Seaweed1, SeaweedType::Seaweed2]);
    assert_eq!(
        ShellType::all(),
        vec![ShellType::Shell, ShellType::Shell1, ShellType::Shell2, ShellType::Shell3]
    );
}

#[test]
fn coral_models() {
    let c = CoralCollection { coral: 0, coral_1: 1, coral_2: 2, coral_3: 3, coral_4: 4, coral_5: 5, coral_6: 6 };
    for (i, t) in CoralType::all().iter().enumerate() {
        assert_eq!(t.model_from(&c), i);
    }
}

#[test]
fn rock_models() {
    let c = RockCollection {
        rock: 0,
        rock_1: 1,
        rock_2: 2,
        rock_3: 3,
        rock_4: 4,
        rock_5: 5,
        rock_6: 6,
        rock_7: 7,
        rock_8: 8,
        rock_9: 9,
        rock_10: 10,
    };
    for (i, t) in RockType::all().iter().enumerate() {
        assert_eq!(t.model_from(&c), i);
    }
}

#[test]
fn seaweed_models_and_clips() {
    let scenes = SeaweedCollection { seaweed_1: "a", seaweed_2: "b" };
    let clips = SeaweedAnimationCollection { seaweed_1: "sway a", seaweed_2: "sway b" };
    assert_eq!(SeaweedType::Seaweed1.model_from(&scenes), "a");
    assert_eq!(SeaweedType::Seaweed2.model_from(&scenes), "b");
    assert_eq!(SeaweedType::Seaweed2.animation_from(&clips), "sway b");
}

#[test]
fn shell_models() {
    let c = ShellsCollection { shells: 'a', shells_1: 'b', shells_2: 'c', shells_3: 'd' };
    assert_eq!(ShellType::Shell3.model_from(&c), 'd');
    assert_eq!(ShellType::Shell.model_from(&c), 'a');
}

#[test]
fn clip_for_state() {
    let with_moving = FishAnimations { idle: 1, moving: Some(2) };
    assert_eq!(with_moving.clip_for(false), Some(1));
    assert_eq!(with_moving.clip_for(true), Some(2));
    let idle_only = FishAnimations { idle: 1, moving: None };
    assert_eq!(idle_only.clip_for(true), None);
    assert_eq!(idle_only.initial_animation().animation, 1);
    assert_eq!(with_moving.initial_animation().animation, 2);
}

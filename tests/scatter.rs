use fishy::assets::{CoralType, RockType, SeaweedType, ShellType};
use fishy::scatter::{draw_kinds, plan_scatter, ScatterCategory, ScatterRule};

#[test]
fn one_pass_places_the_configured_counts() {
    let plan = plan_scatter();
    assert_eq!(plan.corals.len(), 100);
    assert_eq!(plan.rocks.len(), 80);
    assert_eq!(plan.seaweeds.len(), 100);
    assert_eq!(plan.shells.len(), 60);
    assert!(plan.corals.iter().all(|c| CoralType::all().contains(c)));
    assert!(plan.rocks.iter().all(|c| RockType::all().contains(c)));
    assert!(plan.seaweeds.iter().all(|c| SeaweedType::all().contains(c)));
    assert!(plan.shells.iter().all(|c| ShellType::all().contains(c)));
}

#[test]
fn category_rules() {
    assert_eq!(
        ScatterCategory::Coral.rule(),
        ScatterRule { count: 100, min_scale_tenths: 5, max_scale_tenths: 40, vertical_offset: -2 }
    );
    assert_eq!(
        ScatterCategory::Rock.rule(),
        ScatterRule { count: 80, min_scale_tenths: 5, max_scale_tenths: 40, vertical_offset: -4 }
    );
    assert_eq!(
        ScatterCategory::Seaweed.rule(),
        ScatterRule { count: 100, min_scale_tenths: 5, max_scale_tenths: 60, vertical_offset: -2 }
    );
    assert_eq!(
        ScatterCategory::Shell.rule(),
        ScatterRule { count: 60, min_scale_tenths: 5, max_scale_tenths: 20, vertical_offset: 0 }
    );
}

#[test]
fn single_kind_is_always_picked() {
    let picks = draw_kinds(&vec![RockType::Rock7], 12);
    assert_eq!(picks, vec![RockType::Rock7; 12]);
}

#[test]
fn zero_picks() {
    assert!(draw_kinds(&ShellType::all(), 0).is_empty());
}

#[test]
fn picks_come_from_the_kinds() {
    let kinds = vec![CoralType::Coral2, CoralType::Coral5];
    let picks = draw_kinds(&kinds, 50);
    assert_eq!(picks.len(), 50);
    assert!(picks.iter().all(|p| kinds.contains(p)));
}

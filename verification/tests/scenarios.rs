use lignicide::{Interaction, SeedButton, SeedControls};

#[test]
fn startup_shows_seed_zero() {
    let controls = SeedControls::new();
    assert_eq!(controls.seed().value(), 0);
    assert_eq!(controls.label(), "Seed: 0");
    assert_eq!(controls.tile().seed, 0);
    assert_eq!(controls.tile().seed as f32, 0.0);
}

#[test]
fn pressing_next_once_gives_seed_one() {
    let mut controls = SeedControls::new();
    assert_eq!(controls.label(), "Seed: 0");
    let rewritten = controls.on_interaction_change(SeedButton::Next, Interaction::Pressed);
    assert!(rewritten);
    assert_eq!(controls.seed().value(), 1);
    assert_eq!(controls.label(), "Seed: 1");
    assert_eq!(controls.tile().seed as f32, 1.0);
}

#[test]
fn pressing_prev_twice_from_one_gives_minus_one() {
    let mut controls = SeedControls::new();
    controls.on_interaction_change(SeedButton::Next, Interaction::Pressed);
    assert_eq!(controls.seed().value(), 1);
    controls.on_interaction_change(SeedButton::Prev, Interaction::Pressed);
    controls.on_interaction_change(SeedButton::Prev, Interaction::Idle);
    controls.on_interaction_change(SeedButton::Prev, Interaction::Pressed);
    assert_eq!(controls.seed().value(), -1);
    assert_eq!(controls.label(), "Seed: -1");
    assert_eq!(controls.tile().seed as f32, -1.0);
}

#[test]
fn hovering_next_changes_only_its_background() {
    let mut controls = SeedControls::new();
    let rewritten = controls.on_interaction_change(SeedButton::Next, Interaction::Hovered);
    assert!(!rewritten);
    assert_eq!(controls.seed().value(), 0);
    assert_eq!(controls.label(), "Seed: 0");
    assert_eq!(controls.tile().seed, 0);
    assert_eq!(controls.background(SeedButton::Next), Interaction::Hovered.background());
    assert_eq!(controls.background(SeedButton::Next).tenths as f32 / 10.0, 0.3);
    assert_eq!(controls.background(SeedButton::Prev), Interaction::Idle.background());
}

#[test]
fn pressing_next_a_thousand_times_gives_a_thousand() {
    let mut controls = SeedControls::new();
    for _ in 0..1000 {
        controls.on_interaction_change(SeedButton::Next, Interaction::Pressed);
        controls.on_interaction_change(SeedButton::Next, Interaction::Hovered);
    }
    assert_eq!(controls.seed().value(), 1000);
    assert_eq!(controls.label(), "Seed: 1000");
    assert_eq!(controls.tile().seed as f32, 1000.0);
}

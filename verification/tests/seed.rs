use lignicide::{CurrentSeed, SeedButton};

#[test]
fn a_new_seed_is_zero() {
    assert_eq!(CurrentSeed::new().value(), 0);
    assert_eq!(CurrentSeed::new(), CurrentSeed(0));
}

#[test]
fn deltas_are_minus_one_and_plus_one() {
    assert_eq!(SeedButton::Prev.delta(), -1);
    assert_eq!(SeedButton::Next.delta(), 1);
}

#[test]
fn value_gives_the_number_held() {
    assert_eq!(CurrentSeed(-7).value(), -7);
    assert_eq!(CurrentSeed(i64::MAX).value(), i64::MAX);
    assert_eq!(CurrentSeed(i64::MIN).value(), i64::MIN);
}

#[test]
fn advance_adds_the_delta() {
    let mut seed = CurrentSeed::new();
    seed.advance(SeedButton::Next);
    assert_eq!(seed.value(), 1);
    seed.advance(SeedButton::Next);
    assert_eq!(seed.value(), 2);
    seed.advance(SeedButton::Prev);
    seed.advance(SeedButton::Prev);
    seed.advance(SeedButton::Prev);
    assert_eq!(seed.value(), -1);
}

#[test]
fn the_seed_is_the_sum_of_the_deltas_pressed() {
    let presses = [
        SeedButton::Next,
        SeedButton::Next,
        SeedButton::Prev,
        SeedButton::Next,
        SeedButton::Prev,
        SeedButton::Prev,
        SeedButton::Prev,
        SeedButton::Prev,
        SeedButton::Next,
    ];
    let mut seed = CurrentSeed::new();
    let mut sum = 0;
    let mut float_sum = 0.0f32;
    for button in presses {
        seed.advance(button);
        sum += button.delta();
        float_sum += button.delta() as f32;
        assert_eq!(seed.value(), sum);
        assert_eq!(seed.value() as f32, float_sum);
    }
    assert_eq!(seed.value(), -1);
}

#[test]
fn the_seed_keeps_counting_past_two_to_the_twenty_fourth() {
    let mut seed = CurrentSeed(16_777_215);
    seed.advance(SeedButton::Next);
    assert_eq!(seed.value(), 16_777_216);
    seed.advance(SeedButton::Next);
    assert_eq!(seed.value(), 16_777_217);
    seed.advance(SeedButton::Next);
    assert_eq!(seed.value(), 16_777_218);
    seed.advance(SeedButton::Prev);
    assert_eq!(seed.value(), 16_777_217);
}

#[test]
fn the_seed_keeps_counting_below_minus_two_to_the_twenty_fourth() {
    let mut seed = CurrentSeed(-16_777_215);
    seed.advance(SeedButton::Prev);
    assert_eq!(seed.value(), -16_777_216);
    seed.advance(SeedButton::Prev);
    assert_eq!(seed.value(), -16_777_217);
    seed.advance(SeedButton::Next);
    assert_eq!(seed.value(), -16_777_216);
}

#[test]
fn the_seed_keeps_counting_past_the_thirty_two_bit_range() {
    let mut seed = CurrentSeed(i32::MAX as i64);
    seed.advance(SeedButton::Next);
    assert_eq!(seed.value(), 2_147_483_648);
    let mut seed = CurrentSeed(i32::MIN as i64);
    seed.advance(SeedButton::Prev);
    assert_eq!(seed.value(), -2_147_483_649);
}

#[test]
fn sixteen_million_presses_add_up() {
    let mut seed = CurrentSeed::new();
    let presses: i64 = 16_777_216 + 5;
    for _ in 0..presses {
        seed.advance(SeedButton::Next);
    }
    assert_eq!(seed.value(), 16_777_221);
}

#[test]
fn advance_reaches_both_ends_of_the_machine_range() {
    let mut seed = CurrentSeed(i64::MAX - 1);
    assert!(seed.can_advance(SeedButton::Next));
    seed.advance(SeedButton::Next);
    assert_eq!(seed.value(), i64::MAX);
    let mut seed = CurrentSeed(i64::MIN + 1);
    assert!(seed.can_advance(SeedButton::Prev));
    seed.advance(SeedButton::Prev);
    assert_eq!(seed.value(), i64::MIN);
}

#[test]
fn can_advance_is_false_only_where_the_sum_leaves_the_machine_range() {
    assert!(CurrentSeed(0).can_advance(SeedButton::Next));
    assert!(CurrentSeed(0).can_advance(SeedButton::Prev));
    assert!(CurrentSeed(16_777_216).can_advance(SeedButton::Next));
    assert!(CurrentSeed(-16_777_216).can_advance(SeedButton::Prev));
    assert!(!CurrentSeed(i64::MAX).can_advance(SeedButton::Next));
    assert!(CurrentSeed(i64::MAX).can_advance(SeedButton::Prev));
    assert!(!CurrentSeed(i64::MIN).can_advance(SeedButton::Prev));
    assert!(CurrentSeed(i64::MIN).can_advance(SeedButton::Next));
}

#[test]
fn the_seed_is_exact_where_a_float_accumulator_rounds() {
    let mut seed = CurrentSeed(16_777_216);
    let mut float_seed = 16_777_216.0f32;
    seed.advance(SeedButton::Next);
    float_seed += 1.0;
    assert_eq!(seed.value(), 16_777_217);
    assert_eq!(float_seed, 16_777_216.0);
    assert_eq!(seed.value() as f32, 16_777_216.0);
}

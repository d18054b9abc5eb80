use coffee_model::partial_app::{make_espresso, make_espresso_curried, Size, Strength};

#[test]
fn demo_04_partial_application_test_make_espresso() {
    let espresso = make_espresso(Strength::Strong, Size::Small);
    assert_eq!(espresso.strength, Strength::Strong);
    assert_eq!(espresso.size, Size::Small);
}

#[test]
fn demo_04_partial_application_test_make_strong_all_sizes() {
    let make_strong = |size| make_espresso(Strength::Strong, size);
    let strong_small = make_strong(Size::Small);
    let strong_medium = make_strong(Size::Medium);
    let strong_large = make_strong(Size::Large);

    assert_eq!(strong_small.strength, Strength::Strong);
    assert_eq!(strong_small.size, Size::Small);

    assert_eq!(strong_medium.strength, Strength::Strong);
    assert_eq!(strong_medium.size, Size::Medium);

    assert_eq!(strong_large.strength, Strength::Strong);
    assert_eq!(strong_large.size, Size::Large);
}

#[test]
fn test_make_espresso_curried() {
    let espresso = make_espresso_curried(Strength::Strong)(Size::Small);
    assert_eq!(espresso.strength, Strength::Strong);
    assert_eq!(espresso.size, Size::Small);
}

#[test]
fn test_make_strong_all_sizes_curried() {
    let make_strong = make_espresso_curried(Strength::Strong);
    let espresso_small = make_strong(Size::Small);
    let espresso_medium = make_strong(Size::Medium);
    let espresso_large = make_strong(Size::Large);

    assert_eq!(espresso_small.strength, Strength::Strong);
    assert_eq!(espresso_small.size, Size::Small);

    assert_eq!(espresso_medium.strength, Strength::Strong);
    assert_eq!(espresso_medium.size, Size::Medium);

    assert_eq!(espresso_large.strength, Strength::Strong);
    assert_eq!(espresso_large.size, Size::Large);
}

#[test]
fn test_curried_function_is_reusable() {
    let make_light = make_espresso_curried(Strength::Light);
    let first = make_light(Size::Medium);
    let second = make_light(Size::Medium);
    assert_eq!(first.strength, second.strength);
    assert_eq!(first.size, second.size);
}

use coffee_model::currying::curry3;
use coffee_model::espresso::{
    espresso_chain_reused, espresso_via_chain, make_espresso, Beans, BlendType, Espresso, Size,
    Strength,
};

#[test]
fn demo_04_curried_test_make_espresso() {
    let espresso = curry3(|b, s, z| make_espresso(b, s, z))
        .apply(Beans::Robusta)
        .apply(Strength::Strong)
        .apply(Size::Small);
    assert_eq!(espresso.beans, Beans::Robusta);
    assert_eq!(espresso.strength, Strength::Strong);
    assert_eq!(espresso.size, Size::Small);
}

#[test]
fn demo_04_curried_test_make_strong_all_sizes() {
    let make_robusta = curry3(|b, s, z| make_espresso(b, s, z)).apply(Beans::Robusta);
    let make_strong_robusta = make_robusta.apply(Strength::Strong);

    let strong_small = make_strong_robusta.apply(Size::Small);

    assert_eq!(strong_small.beans, Beans::Robusta);
    assert_eq!(strong_small.strength, Strength::Strong);
    assert_eq!(strong_small.size, Size::Small);
}

#[test]
fn test_partial_chain_is_reusable() {
    let make_strong_robusta =
        curry3(|b, s, z| make_espresso(b, s, z)).apply(Beans::Robusta).apply(Strength::Strong);

    let strong_small = make_strong_robusta.apply(Size::Small);
    let strong_medium = make_strong_robusta.apply(Size::Medium);
    let strong_large = make_strong_robusta.apply(Size::Large);

    assert_eq!(strong_small, make_espresso(Beans::Robusta, Strength::Strong, Size::Small));
    assert_eq!(strong_medium, make_espresso(Beans::Robusta, Strength::Strong, Size::Medium));
    assert_eq!(strong_large, make_espresso(Beans::Robusta, Strength::Strong, Size::Large));

    let again = make_strong_robusta.apply(Size::Small);
    assert_eq!(strong_small, again);
}

#[test]
fn test_chain_equals_direct_for_every_combination() {
    let beans_all = [
        Beans::Arabica,
        Beans::Robusta,
        Beans::Blend(BlendType::Arabica50Robusta50),
        Beans::Blend(BlendType::Arabica40Robusta60),
        Beans::Blend(BlendType::Arabica60Robusta40),
    ];
    let strengths = [Strength::Light, Strength::Medium, Strength::Strong];
    let sizes = [Size::Small, Size::Medium, Size::Large];
    for beans in beans_all {
        for strength in strengths {
            for size in sizes {
                let direct = make_espresso(beans, strength, size);
                let chained = curry3(|b, s, z| make_espresso(b, s, z))
                    .apply(beans)
                    .apply(strength)
                    .apply(size);
                assert_eq!(chained, direct);
                assert_eq!(espresso_via_chain(beans, strength, size), direct);
                let (first, second) = espresso_chain_reused(beans, strength, size);
                assert_eq!(first, direct);
                assert_eq!(second, direct);
            }
        }
    }
}

#[test]
fn test_direct_constructor_fields() {
    let espresso = make_espresso(
        Beans::Blend(BlendType::Arabica40Robusta60),
        Strength::Light,
        Size::Large,
    );
    assert_eq!(
        espresso,
        Espresso {
            beans: Beans::Blend(BlendType::Arabica40Robusta60),
            strength: Strength::Light,
            size: Size::Large,
        }
    );
}

use coffee_model::text::u32_decimal;

use coffee_model::order::{
    choose_cup_color, make_espresso, Bean, BlendType, BrewingMethod, CoffeeOrder, Espresso, Milk,
    Size, Strength,
};

#[test]
fn test_display_coffee_order() {
    let order = CoffeeOrder::Espresso {
        bean: Bean::Blend(BlendType::Arabica50Robusta50),
        strength: Strength::Strong,
    };
    assert_eq!(
        order.describe(),
        "Espresso with Blend(Arabica50Robusta50) beans and Strong strength"
    );
}

#[test]
fn demo_03_algebraic_data_types_test_make_espresso() {
    let espresso = Espresso {
        size: Size::Medium,
        strength: Strength::Medium,
        milk: Some(Milk::Whole),
    };
    let coffee = make_espresso(espresso);
    assert_eq!(
        coffee.0,
        "Espresso of Medium size, Medium strength, and Whole milk"
    );
}

#[test]
fn test_choose_cup_color() {
    let espresso = Espresso {
        size: Size::Small,
        strength: Strength::Strong,
        milk: None,
    };
    assert_eq!(choose_cup_color(espresso), "black");
}

#[test]
fn test_choose_cup_color_exhaustive() {
    let sizes = [Size::Small, Size::Medium, Size::Large];
    let strengths = [Strength::Light, Strength::Medium, Strength::Strong];
    for size in sizes {
        for strength in strengths {
            let espresso = Espresso { size, strength, milk: None };
            let want = match (size, strength) {
                (Size::Small, Strength::Strong) => "black",
                (Size::Medium, Strength::Strong) => "red",
                (Size::Large, Strength::Strong) => "brown",
                _ => "white",
            };
            assert_eq!(choose_cup_color(espresso), want);
        }
    }
}

#[test]
fn test_make_espresso_without_milk() {
    let espresso = Espresso {
        size: Size::Large,
        strength: Strength::Light,
        milk: None,
    };
    let coffee = make_espresso(espresso);
    assert_eq!(coffee.0, "Espresso of Large size and Light strength, no milk");
    assert!(coffee.0.ends_with("no milk"));
}

#[test]
fn test_describe_order_every_tag() {
    let instant = CoffeeOrder::Instant3In1;
    let espresso = CoffeeOrder::Espresso { bean: Bean::Arabica, strength: Strength::Light };
    let pour_over = CoffeeOrder::PourOver(92, 180);
    let other = CoffeeOrder::Other(BrewingMethod::ColdBrew);

    assert_eq!(instant.describe(), "Instant 3-in-1 coffee");
    assert_eq!(
        espresso.describe(),
        "Espresso with Arabica beans and Light strength"
    );
    assert_eq!(pour_over.describe(), "Pour-over at 92\u{b0}C for 180 seconds");
    assert_eq!(other.describe(), "Other method: ColdBrew");

    let texts = [
        instant.describe(),
        espresso.describe(),
        pour_over.describe(),
        other.describe(),
    ];
    for (i, a) in texts.iter().enumerate() {
        assert!(!a.is_empty());
        for (j, b) in texts.iter().enumerate() {
            if i != j {
                assert_ne!(a, b);
            }
        }
    }
}

#[test]
fn test_describe_espresso_signals_missing_milk() {
    let with_milk = Espresso {
        size: Size::Small,
        strength: Strength::Strong,
        milk: Some(Milk::Soy),
    };
    let without_milk = Espresso {
        size: Size::Small,
        strength: Strength::Strong,
        milk: None,
    };
    let with_text = with_milk.describe();
    let without_text = without_milk.describe();
    assert_eq!(with_text, "Espresso of Small size, Strong strength, and Soy milk");
    assert_eq!(without_text, "Espresso of Small size and Strong strength, no milk");
    assert_ne!(with_text, without_text);
    assert!(without_text.ends_with("no milk"));
}

#[test]
fn test_describe_blend_order_names_ratio() {
    let order = CoffeeOrder::Espresso {
        bean: Bean::Blend(BlendType::Arabica60Robusta40),
        strength: Strength::Medium,
    };
    assert_eq!(
        order.describe(),
        "Espresso with Blend(Arabica60Robusta40) beans and Medium strength"
    );
}

#[test]
fn test_u32_decimal_exact() {
    assert_eq!(u32_decimal(0), "0");
    assert_eq!(u32_decimal(7), "7");
    assert_eq!(u32_decimal(10), "10");
    assert_eq!(u32_decimal(180), "180");
    assert_eq!(u32_decimal(1009), "1009");
    assert_eq!(u32_decimal(u32::MAX), "4294967295");
}

#[test]
fn test_pour_over_renders_zero_and_large_numbers() {
    let freezing = CoffeeOrder::PourOver(0, 0);
    assert_eq!(freezing.describe(), "Pour-over at 0\u{b0}C for 0 seconds");
    let hot = CoffeeOrder::PourOver(255, 4000000000);
    assert_eq!(hot.describe(), "Pour-over at 255\u{b0}C for 4000000000 seconds");
}

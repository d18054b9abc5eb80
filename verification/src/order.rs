//! Coffee orders as tagged unions, and their total, exhaustive rendering.
//!
//! Every variant of every enumeration here is covered by an explicit match
//! arm in the functions below; the one deliberate default arm is the
//! "white" fallback of the cup-colour table, which the contract spells out.

use crate::text::decimal_text;
use crate::text::u32_decimal;
use vstd::prelude::*;
use vstd::string::StringExecFns;

verus! {

/// One coffee order: a tagged union over the distinct preparation modes,
/// each tag carrying only the data relevant to that mode.
#[derive(Debug, Clone)]
pub enum CoffeeOrder {
    /// A simple method with no additional data.
    Instant3In1,
    /// An espresso preparation with its parameters.
    Espresso { bean: Bean, strength: Strength },
    /// A pour-over with water temperature and brewing time.
    PourOver(Temperature, Time),
    /// Any other brewing method, drawn from its own closed enumeration.
    Other(BrewingMethod),
}

/// The beans an order is made from: a pure origin or a blend.
#[derive(Debug, Clone, Copy)]
pub enum Bean {
    Arabica,
    Robusta,
    Blend(BlendType),
}

/// The closed set of blend ratios.
#[derive(Debug, Clone, Copy)]
pub enum BlendType {
    Arabica50Robusta50,
    Arabica40Robusta60,
    Arabica60Robusta40,
}

/// Brewing time in seconds.
pub type Time = u32;

/// Water temperature in degrees Celsius.
pub type Temperature = u8;

/// How strong the coffee is brewed.
#[derive(Debug, Clone, Copy)]
pub enum Strength {
    Light,
    Medium,
    Strong,
}

/// How large the cup is.
#[derive(Debug, Clone, Copy)]
pub enum Size {
    Small,
    Medium,
    Large,
}

/// The other brewing methods an order may name.
#[derive(Debug, Clone, Copy)]
pub enum BrewingMethod {
    FrenchPress,
    Aeropress,
    ColdBrew,
}

/// An espresso order: size, strength, and milk if any.
#[derive(Debug, Clone)]
pub struct Espresso {
    pub size: Size,
    pub strength: Strength,
    pub milk: Option<Milk>,
}

/// The kinds of milk an espresso may take.
#[derive(Debug, Clone, Copy)]
pub enum Milk {
    Whole,
    Skim,
    Soy,
    Almond,
}

/// A brewed coffee, described by its preparation text.
pub struct Coffee(pub String);

/// The name of a size.
pub open spec fn size_text(size: Size) -> Seq<char> {
    match size {
        Size::Small => "Small"@,
        Size::Medium => "Medium"@,
        Size::Large => "Large"@,
    }
}

/// The name of a strength.
pub open spec fn strength_text(strength: Strength) -> Seq<char> {
    match strength {
        Strength::Light => "Light"@,
        Strength::Medium => "Medium"@,
        Strength::Strong => "Strong"@,
    }
}

/// The name of a milk kind.
pub open spec fn milk_text(milk: Milk) -> Seq<char> {
    match milk {
        Milk::Whole => "Whole"@,
        Milk::Skim => "Skim"@,
        Milk::Soy => "Soy"@,
        Milk::Almond => "Almond"@,
    }
}

/// The name of a blend ratio.
pub open spec fn blend_text(blend: BlendType) -> Seq<char> {
    match blend {
        BlendType::Arabica50Robusta50 => "Arabica50Robusta50"@,
        BlendType::Arabica40Robusta60 => "Arabica40Robusta60"@,
        BlendType::Arabica60Robusta40 => "Arabica60Robusta40"@,
    }
}

/// The name of a bean choice; a blend names its ratio in parentheses.
pub open spec fn bean_text(bean: Bean) -> Seq<char> {
    match bean {
        Bean::Arabica => "Arabica"@,
        Bean::Robusta => "Robusta"@,
        Bean::Blend(blend) => "Blend("@ + blend_text(blend) + ")"@,
    }
}

/// The name of a brewing method.
pub open spec fn method_text(method: BrewingMethod) -> Seq<char> {
    match method {
        BrewingMethod::FrenchPress => "FrenchPress"@,
        BrewingMethod::Aeropress => "Aeropress"@,
        BrewingMethod::ColdBrew => "ColdBrew"@,
    }
}

/// The cup colour that a size and strength call for: the three strong
/// pairings have their own colours, and every other combination falls back
/// to white.
pub open spec fn cup_color_text(size: Size, strength: Strength) -> Seq<char> {
    match (size, strength) {
        (Size::Small, Strength::Strong) => "black"@,
        (Size::Medium, Strength::Strong) => "red"@,
        (Size::Large, Strength::Strong) => "brown"@,
        _ => "white"@,
    }
}

/// The display text of an order, one shape per tag.
pub open spec fn order_text(order: CoffeeOrder) -> Seq<char> {
    match order {
        CoffeeOrder::Instant3In1 => "Instant 3-in-1 coffee"@,
        CoffeeOrder::Espresso { bean, strength } => "Espresso with "@ + bean_text(bean)
            + " beans and "@ + strength_text(strength) + " strength"@,
        CoffeeOrder::PourOver(temperature, time) => "Pour-over at "@ + decimal_text(
            temperature as nat,
        ) + "°C for "@ + decimal_text(time as nat) + " seconds"@,
        CoffeeOrder::Other(method) => "Other method: "@ + method_text(method),
    }
}

/// The display text of an espresso. An absent milk is named expressly, so
/// the milk dimension is never silently omitted.
pub open spec fn espresso_text(espresso: Espresso) -> Seq<char> {
    match espresso.milk {
        Some(milk) => "Espresso of "@ + size_text(espresso.size) + " size, "@ + strength_text(
            espresso.strength,
        ) + " strength, and "@ + milk_text(milk) + " milk"@,
        None => "Espresso of "@ + size_text(espresso.size) + " size and "@ + strength_text(
            espresso.strength,
        ) + " strength, no milk"@,
    }
}

/// The name of a size, for building display text.
pub fn size_name(size: &Size) -> (name: &'static str)
    ensures
        name@ == size_text(*size),
{
    match size {
        Size::Small => "Small",
        Size::Medium => "Medium",
        Size::Large => "Large",
    }
}

/// The name of a strength, for building display text.
pub fn strength_name(strength: &Strength) -> (name: &'static str)
    ensures
        name@ == strength_text(*strength),
{
    match strength {
        Strength::Light => "Light",
        Strength::Medium => "Medium",
        Strength::Strong => "Strong",
    }
}

/// The name of a milk kind, for building display text.
pub fn milk_name(milk: &Milk) -> (name: &'static str)
    ensures
        name@ == milk_text(*milk),
{
    match milk {
        Milk::Whole => "Whole",
        Milk::Skim => "Skim",
        Milk::Soy => "Soy",
        Milk::Almond => "Almond",
    }
}

/// The name of a blend ratio, for building display text.
pub fn blend_name(blend: &BlendType) -> (name: &'static str)
    ensures
        name@ == blend_text(*blend),
{
    match blend {
        BlendType::Arabica50Robusta50 => "Arabica50Robusta50",
        BlendType::Arabica40Robusta60 => "Arabica40Robusta60",
        BlendType::Arabica60Robusta40 => "Arabica60Robusta40",
    }
}

/// The name of a bean choice, for building display text.
pub fn bean_name(bean: &Bean) -> (name: String)
    ensures
        name@ == bean_text(*bean),
{
    match bean {
        Bean::Arabica => String::from_str("Arabica"),
        Bean::Robusta => String::from_str("Robusta"),
        Bean::Blend(blend) => {
            let mut name = String::from_str("Blend(");
            name.append(blend_name(blend));
            name.append(")");
            name
        },
    }
}

/// The name of a brewing method, for building display text.
pub fn method_name(method: &BrewingMethod) -> (name: &'static str)
    ensures
        name@ == method_text(*method),
{
    match method {
        BrewingMethod::FrenchPress => "FrenchPress",
        BrewingMethod::Aeropress => "Aeropress",
        BrewingMethod::ColdBrew => "ColdBrew",
    }
}

/// Chooses the cup colour for an espresso from the colour table over its
/// size and strength.
pub fn choose_cup_color(espresso: Espresso) -> (color: String)
    ensures
        color@ == cup_color_text(espresso.size, espresso.strength),
{
    match (espresso.size, espresso.strength) {
        (Size::Small, Strength::Strong) => String::from_str("black"),
        (Size::Medium, Strength::Strong) => String::from_str("red"),
        (Size::Large, Strength::Strong) => String::from_str("brown"),
        _ => String::from_str("white"),
    }
}

/// Brews an espresso order into a cup described by its preparation text;
/// a cup with milk names the milk, one without says "no milk" expressly, so
/// the milk dimension is never silently omitted.
pub fn make_espresso(espresso: Espresso) -> (coffee: Coffee)
    ensures
        coffee.0@ == espresso_text(espresso),
{
    let mut t = String::from_str("Espresso of ");
    t.append(size_name(&espresso.size));
    match &espresso.milk {
        Some(milk) => {
            t.append(" size, ");
            t.append(strength_name(&espresso.strength));
            t.append(" strength, and ");
            t.append(milk_name(milk));
            t.append(" milk");
        },
        None => {
            t.append(" size and ");
            t.append(strength_name(&espresso.strength));
            t.append(" strength, no milk");
        },
    }
    Coffee(t)
}

/// Whether two orders carry the same tag.
pub open spec fn same_order_tag(o1: CoffeeOrder, o2: CoffeeOrder) -> bool {
    ||| (o1 is Instant3In1 && o2 is Instant3In1)
    ||| (o1 is Espresso && o2 is Espresso)
    ||| (o1 is PourOver && o2 is PourOver)
    ||| (o1 is Other && o2 is Other)
}

/// The letter an order's display text opens with; one letter per tag.
pub open spec fn order_lead(order: CoffeeOrder) -> char {
    match order {
        CoffeeOrder::Instant3In1 => 'I',
        CoffeeOrder::Espresso { .. } => 'E',
        CoffeeOrder::PourOver(..) => 'P',
        CoffeeOrder::Other(..) => 'O',
    }
}

/// Every order renders to a non-empty text that opens with its tag's letter.
pub proof fn lemma_order_text_opens_with_tag(order: CoffeeOrder)
    ensures
        order_text(order).len() > 0,
        order_text(order)[0] == order_lead(order),
{
    match order {
        CoffeeOrder::Instant3In1 => {
            reveal_strlit("Instant 3-in-1 coffee");
        },
        CoffeeOrder::Espresso { .. } => {
            reveal_strlit("Espresso with ");
        },
        CoffeeOrder::PourOver(..) => {
            reveal_strlit("Pour-over at ");
        },
        CoffeeOrder::Other(..) => {
            reveal_strlit("Other method: ");
        },
    }
}

/// Orders with different tags render to different texts, whatever data the
/// tags carry: each tag's text opens with its own letter.
pub proof fn lemma_order_tags_render_distinct(o1: CoffeeOrder, o2: CoffeeOrder)
    requires
        !same_order_tag(o1, o2),
    ensures
        order_text(o1) != order_text(o2),
{
    lemma_order_text_opens_with_tag(o1);
    lemma_order_text_opens_with_tag(o2);
    assert(order_lead(o1) != order_lead(o2));
}

/// Every espresso renders to a non-empty text, and an espresso with milk
/// never renders like one without: the milk dimension is always visible.
pub proof fn lemma_espresso_text_signals_milk(e1: Espresso, e2: Espresso)
    requires
        e1.milk is Some,
        e2.milk is None,
    ensures
        espresso_text(e1).len() > 0,
        espresso_text(e2).len() > 0,
        espresso_text(e1) != espresso_text(e2),
{
    reveal_strlit("Espresso of ");
    reveal_strlit("Small");
    reveal_strlit("Medium");
    reveal_strlit("Large");
    reveal_strlit(" size, ");
    reveal_strlit(" size and ");
    if size_text(e1.size) =~= size_text(e2.size) {
        // The sizes render alike, so the texts agree up to the size name and
        // part ways right after it: a comma follows it when milk is present,
        // the word "and" when it is absent.
        let p = 12 + size_text(e1.size).len() + 5;
        assert(espresso_text(e1)[p as int] == ',');
        assert(espresso_text(e2)[p as int] == ' ');
    } else {
        // The sizes render differently, and every size name opens with its
        // own letter, so the texts already differ inside the size name.
        assert(espresso_text(e1)[12] == size_text(e1.size)[0]);
        assert(espresso_text(e2)[12] == size_text(e2.size)[0]);
        assert(size_text(e1.size)[0] != size_text(e2.size)[0]);
    }
}

/// For one size and strength, every milk choice renders its own text: two
/// espressos that differ only in their milk option never read alike.
pub proof fn lemma_espresso_milks_render_distinct(e1: Espresso, e2: Espresso)
    requires
        e1.size == e2.size,
        e1.strength == e2.strength,
        e1.milk != e2.milk,
    ensures
        espresso_text(e1) != espresso_text(e2),
{
    match (e1.milk, e2.milk) {
        (Some(m1), Some(m2)) => {
            // The four milk names all have different lengths, so the two
            // texts, equal everywhere else, differ already in length.
            reveal_strlit("Whole");
            reveal_strlit("Skim");
            reveal_strlit("Soy");
            reveal_strlit("Almond");
            assert(milk_text(m1).len() != milk_text(m2).len());
            assert(espresso_text(e1).len() != espresso_text(e2).len());
        },
        (Some(_), None) => {
            lemma_espresso_text_signals_milk(e1, e2);
        },
        (None, Some(_)) => {
            lemma_espresso_text_signals_milk(e2, e1);
        },
        (None, None) => {
            assert(false);
        },
    }
}

/// An espresso without milk says so: its text ends in the words "no milk".
pub proof fn lemma_no_milk_written_out(espresso: Espresso)
    requires
        espresso.milk is None,
    ensures
        espresso_text(espresso).len() >= 7,
        espresso_text(espresso).subrange(
            espresso_text(espresso).len() - 7,
            espresso_text(espresso).len() as int,
        ) =~= "no milk"@,
{
    reveal_strlit(" strength, no milk");
    reveal_strlit("no milk");
}

impl CoffeeOrder {
    /// Describes the order: a total mapping with one arm per tag.
    pub fn describe(&self) -> (text: String)
        ensures
            text@ == order_text(*self),
    {
        match self {
            CoffeeOrder::Instant3In1 => String::from_str("Instant 3-in-1 coffee"),
            CoffeeOrder::Espresso { bean, strength } => {
                let mut t = String::from_str("Espresso with ");
                t.append(bean_name(bean).as_str());
                t.append(" beans and ");
                t.append(strength_name(strength));
                t.append(" strength");
                t
            },
            CoffeeOrder::PourOver(temperature, time) => {
                let mut t = String::from_str("Pour-over at ");
                t.append(u32_decimal(*temperature as u32).as_str());
                t.append("°C for ");
                t.append(u32_decimal(*time).as_str());
                t.append(" seconds");
                t
            },
            CoffeeOrder::Other(method) => {
                let mut t = String::from_str("Other method: ");
                t.append(method_name(method));
                t
            },
        }
    }
}

impl Espresso {
    /// Describes the espresso: size, strength, and the milk by name, or
    /// "no milk" written out when it is absent.
    pub fn describe(&self) -> (text: String)
        ensures
            text@ == espresso_text(*self),
    {
        let mut t = String::from_str("Espresso of ");
        t.append(size_name(&self.size));
        match &self.milk {
            Some(milk) => {
                t.append(" size, ");
                t.append(strength_name(&self.strength));
                t.append(" strength, and ");
                t.append(milk_name(milk));
                t.append(" milk");
            },
            None => {
                t.append(" size and ");
                t.append(strength_name(&self.strength));
                t.append(" strength, no milk");
            },
        }
        t
    }
}

} // verus!

//! The coffee machine: an immutable configuration of grind, strength and
//! size, builder steps that each replace one field of a configuration, and
//! the total quantity functions that a brew derives from it.

use vstd::prelude::*;

verus! {

/// One addressable machine state: an immutable aggregate of the three
/// attribute enumerations. "Updates" always build a new value.
#[derive(Debug, Clone)]
pub struct CoffeeMachineSettings {
    pub grind_setting: GrindSetting,
    pub coffee_strength: CoffeeStrength,
    pub coffee_size: CoffeeSize,
}

/// How finely the beans are ground: a closed enumeration.
#[derive(Debug, Clone)]
pub enum GrindSetting {
    Fine,
    Medium,
    Coarse,
}

/// How strong the coffee is brewed: a closed enumeration.
#[derive(Debug, Clone)]
pub enum CoffeeStrength {
    Light,
    Medium,
    Strong,
}

/// How large the cup is: a closed enumeration.
#[derive(Debug, Clone)]
pub enum CoffeeSize {
    Small,
    Medium,
    Large,
}

/// The canonical baseline configuration: every attribute at its middle value.
pub open spec fn default_settings() -> CoffeeMachineSettings {
    CoffeeMachineSettings {
        grind_setting: GrindSetting::Medium,
        coffee_strength: CoffeeStrength::Medium,
        coffee_size: CoffeeSize::Medium,
    }
}

impl Default for CoffeeMachineSettings {
    /// Returns the canonical baseline configuration.
    fn default() -> (settings: Self)
        ensures
            settings == default_settings(),
    {
        CoffeeMachineSettings {
            grind_setting: GrindSetting::Medium,
            coffee_strength: CoffeeStrength::Medium,
            coffee_size: CoffeeSize::Medium,
        }
    }
}

/// A machine holding one immutable configuration.
#[derive(Debug, Clone)]
pub struct CoffeeMachine(pub CoffeeMachineSettings);

impl vstd::std_specs::convert::FromSpecImpl<CoffeeMachineSettings> for CoffeeMachine {
    open spec fn obeys_from_spec() -> bool {
        true
    }

    open spec fn from_spec(settings: CoffeeMachineSettings) -> CoffeeMachine {
        CoffeeMachine(settings)
    }
}

impl From<CoffeeMachineSettings> for CoffeeMachine {
    /// Wraps a configuration in a machine, unchanged.
    fn from(settings: CoffeeMachineSettings) -> (machine: Self) {
        CoffeeMachine(settings)
    }
}

/// The given configuration with its strength raised to `Strong` and every
/// other field kept.
pub open spec fn with_strength_strong(s: CoffeeMachineSettings) -> CoffeeMachineSettings {
    CoffeeMachineSettings { coffee_strength: CoffeeStrength::Strong, ..s }
}

/// The given configuration with its size lowered to `Small` and every other
/// field kept.
pub open spec fn with_size_small(s: CoffeeMachineSettings) -> CoffeeMachineSettings {
    CoffeeMachineSettings { coffee_size: CoffeeSize::Small, ..s }
}

/// The water volume in millilitres that each cup size receives: a total
/// mapping over the closed enumeration.
pub open spec fn volume_of(size: CoffeeSize) -> u32 {
    match size {
        CoffeeSize::Small => 30u32,
        CoffeeSize::Medium => 60u32,
        CoffeeSize::Large => 120u32,
    }
}

/// The caffeine mass in milligrams that each strength yields: a total
/// mapping over the closed enumeration.
pub open spec fn caffeine_of(strength: CoffeeStrength) -> u32 {
    match strength {
        CoffeeStrength::Light => 20u32,
        CoffeeStrength::Medium => 30u32,
        CoffeeStrength::Strong => 40u32,
    }
}

/// Maps a cup size to its water volume in millilitres.
///
/// Total and pure: defined for every size, and the result is pinned to
/// `volume_of`, so equal inputs always give equal outputs.
pub fn volume_from_size(size: &CoffeeSize) -> (volume_ml: u32)
    ensures
        volume_ml == volume_of(*size),
{
    match size {
        CoffeeSize::Small => 30,
        CoffeeSize::Medium => 60,
        CoffeeSize::Large => 120,
    }
}

/// Maps a strength to its caffeine mass in milligrams.
///
/// Total and pure: defined for every strength, and the result is pinned to
/// `caffeine_of`, so equal inputs always give equal outputs.
pub fn caffeine_from_strength(strength: &CoffeeStrength) -> (caffeine_mg: u32)
    ensures
        caffeine_mg == caffeine_of(*strength),
{
    match strength {
        CoffeeStrength::Light => 20,
        CoffeeStrength::Medium => 30,
        CoffeeStrength::Strong => 40,
    }
}

impl CoffeeMachine {
    /// A new machine whose strength is `Strong`; the given machine's other
    /// fields are kept and the given machine itself is consumed unchanged.
    pub fn with_max_strength(self) -> (machine: Self)
        ensures
            machine.0 == with_strength_strong(self.0),
    {
        CoffeeMachine(
            CoffeeMachineSettings { coffee_strength: CoffeeStrength::Strong, ..self.0 },
        )
    }

    /// A new machine whose size is `Small`; the given machine's other fields
    /// are kept and the given machine itself is consumed unchanged.
    pub fn with_small_size(self) -> (machine: Self)
        ensures
            machine.0 == with_size_small(self.0),
    {
        CoffeeMachine(CoffeeMachineSettings { coffee_size: CoffeeSize::Small, ..self.0 })
    }

    /// Brews a cup from the current configuration.
    ///
    /// Total over the configuration domain: every configuration brews, and
    /// the result's volume and caffeine are exactly the table values for the
    /// configured size and strength. The error variants model operational
    /// shortages; no configuration triggers them.
    pub fn brew(&self) -> (coffee: Result<Coffee, CoffeeMachineError>)
        ensures
            coffee matches Ok(c) && c.water_ml == volume_of(self.0.coffee_size)
                && c.caffeine_mg == caffeine_of(self.0.coffee_strength),
    {
        Ok(
            Coffee {
                water_ml: volume_from_size(&self.0.coffee_size),
                caffeine_mg: caffeine_from_strength(&self.0.coffee_strength),
            },
        )
    }
}

/// The operational shortages a brew may report: expected runtime conditions,
/// never contract violations.
#[derive(Debug, Clone)]
pub enum CoffeeMachineError {
    OutOfWater,
    OutOfBeans,
}

/// A brewed cup: the derived quantities of one configuration.
pub struct Coffee {
    pub water_ml: u32,
    pub caffeine_mg: u32,
}

/// Builder steps target disjoint fields, so their order cannot matter:
/// setting the size small and then the strength strong gives, field by
/// field, the configuration of applying the two steps the other way round;
/// from the default configuration, either order brews 30 ml of water and
/// 40 mg of caffeine.
pub proof fn lemma_builder_order_independent(s: CoffeeMachineSettings)
    ensures
        with_strength_strong(with_size_small(s)) == with_size_small(with_strength_strong(s)),
        volume_of(with_strength_strong(with_size_small(default_settings())).coffee_size) == 30,
        caffeine_of(
            with_strength_strong(with_size_small(default_settings())).coffee_strength,
        ) == 40,
{
}

} // verus!

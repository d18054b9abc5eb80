//! Partial application by hand: a two-argument espresso constructor and a
//! curried form of it that fixes the strength and returns a first-class
//! function awaiting the size.

use vstd::prelude::*;

verus! {

/// An espresso specification: how strong, how large.
pub struct Espresso {
    pub strength: Strength,
    pub size: Size,
}

/// The closed set of blend ratios.
#[derive(Debug, Clone, Copy)]
pub enum BlendType {
    Arabica50Robusta50,
    Arabica40Robusta60,
    Arabica60Robusta40,
}

/// How strong the espresso is pulled.
#[derive(Debug, Clone, Copy, PartialEq)]
pub enum Strength {
    Light,
    Medium,
    Strong,
}

/// How large the cup is.
#[derive(Debug, Clone, Copy, PartialEq)]
pub enum Size {
    Small,
    Medium,
    Large,
}

/// The espresso with exactly the two given attributes.
pub open spec fn espresso_of(strength: Strength, size: Size) -> Espresso {
    Espresso { strength, size }
}

/// The direct two-argument constructor: a pure function whose result
/// carries exactly the given attributes.
pub fn make_espresso(strength: Strength, size: Size) -> (espresso: Espresso)
    ensures
        espresso == espresso_of(strength, size),
{
    Espresso { strength, size }
}

/// Fixes the strength and returns a reusable function awaiting the size.
///
/// The returned function accepts every size, holds no hidden mutable state,
/// and returns exactly the espresso of the direct constructor for the fixed
/// strength and the supplied size.
pub fn make_espresso_curried(strength: Strength) -> (make: impl Fn(Size) -> Espresso)
    ensures
        forall|size: Size| #[trigger] call_requires(make, (size,)),
        forall|size: Size, e: Espresso|
            #[trigger] call_ensures(make, (size,), e) ==> e == espresso_of(strength, size),
{
    move |size: Size| -> (e: Espresso)
        ensures
            e == espresso_of(strength, size),
        { Espresso { strength, size } }
}

} // verus!

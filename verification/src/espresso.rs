//! An espresso built from beans, strength and size, either directly or by
//! supplying the three arguments one at a time through the generic currying
//! chain. Either road ends in the same espresso.

use crate::currying::curry3;
use vstd::prelude::*;

verus! {

/// An espresso specification: which beans, how strong, how large.
#[derive(Debug, Clone, Copy, PartialEq)]
pub struct Espresso {
    pub beans: Beans,
    pub strength: Strength,
    pub size: Size,
}

/// The beans an espresso is pulled from: a pure origin or a blend.
#[derive(Debug, Clone, Copy, PartialEq)]
pub enum Beans {
    Arabica,
    Robusta,
    Blend(BlendType),
}

/// The closed set of blend ratios.
#[derive(Debug, Clone, Copy, PartialEq)]
pub enum BlendType {
    Arabica50Robusta50,
    Arabica40Robusta60,
    Arabica60Robusta40,
}

/// How strong the espresso is pulled.
#[derive(Debug, Clone, Copy, PartialEq)]
pub enum Strength {
    Light,
    Medium,
    Strong,
}

/// How large the cup is.
#[derive(Debug, Clone, Copy, PartialEq)]
pub enum Size {
    Small,
    Medium,
    Large,
}

/// The espresso with exactly the three given attributes.
pub open spec fn espresso_of(beans: Beans, strength: Strength, size: Size) -> Espresso {
    Espresso { beans, strength, size }
}

/// The direct three-argument constructor: a pure function whose result
/// carries exactly the given attributes.
pub fn make_espresso(beans: Beans, strength: Strength, size: Size) -> (espresso: Espresso)
    ensures
        espresso == espresso_of(beans, strength, size),
{
    Espresso { beans, strength, size }
}

/// Supplying the three arguments one at a time through the currying chain
/// yields exactly the espresso of the direct constructor, for every choice
/// of beans, strength and size.
pub fn espresso_via_chain(beans: Beans, strength: Strength, size: Size) -> (espresso: Espresso)
    ensures
        espresso == espresso_of(beans, strength, size),
{
    let ctor = |b: Beans, s: Strength, z: Size| -> (e: Espresso)
        ensures
            e == espresso_of(b, s, z),
        { make_espresso(b, s, z) };
    curry3(ctor).apply(beans).apply(strength).apply(size)
}

/// A partial chain is a reusable first-class value: applying the same
/// two-argument prefix twice to the same size gives two equal espressos,
/// both the espresso of the direct constructor.
pub fn espresso_chain_reused(beans: Beans, strength: Strength, size: Size) -> (pair: (
    Espresso,
    Espresso,
))
    ensures
        pair.0 == pair.1,
        pair.0 == espresso_of(beans, strength, size),
{
    let ctor = |b: Beans, s: Strength, z: Size| -> (e: Espresso)
        ensures
            e == espresso_of(b, s, z),
        { make_espresso(b, s, z) };
    let with_beans_and_strength = curry3(ctor).apply(beans).apply(strength);
    let first = with_beans_and_strength.apply(size);
    let second = with_beans_and_strength.apply(size);
    (first, second)
}

} // verus!

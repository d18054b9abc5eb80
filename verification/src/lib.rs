//! A small coffee-ordering configuration model.
//!
//! The crate models coffee orders and machine settings as closed enumerations
//! and tagged unions, derives physical quantities (water volume, caffeine
//! mass, bean count) from them, builds configurations by immutable updates,
//! turns multi-argument constructors into chains of single-argument
//! applications, and renders every variant to text.

pub mod counting;
pub mod currying;
pub mod espresso;
pub mod partial_app;
pub mod machine;
pub mod order;
pub mod text;

//! Blood-alcohol-concentration journal engine.
//!
//! The engine estimates a person's blood alcohol concentration (BAC) over
//! time from a logged sequence of drinks with the single-stage Widmark
//! formula, and derives time-to-sobriety and legal-limit queries from it.
//!
//! All quantities are held as fixed-point integers so that every step of the
//! computation has an exact mathematical meaning:
//! - masses are held in picograms (`1 g == 1_000_000_000_000 pg`),
//! - alcohol percentages in thousandths of a percent,
//! - BAC values in millionths of a BAC percentage point ("micro-points"),
//! - body-water ratios in hundredths,
//! - metabolic elimination rates in micro-points per hour.

pub mod bac;
pub mod drink;
pub mod effect;
pub mod error;
pub mod person;
pub mod timestamp;
pub mod units;

pub use bac::BAC;
pub use drink::Drink;
pub use effect::EffectInfo;
pub use error::Error;
pub use person::Gender;
pub use person::Person;
pub use units::Mass;

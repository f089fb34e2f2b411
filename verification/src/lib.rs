//! Dietary energy arithmetic: the energy of foods and meals from their
//! macronutrient composition, and daily energy and macronutrient targets for
//! a person from a few biometric measurements.
//!
//! Every amount of energy is held exactly, as a whole number of hundred
//! thousandths of a kilocalorie, so that no formula of this crate rounds
//! before its result is asked for in whole kilocalories or grams.

pub mod food;
pub mod goal;
pub mod human;
pub mod units;

pub use food::{Food, Meal, Portion};
pub use goal::CalorieIntakeRepartition;
pub use human::{ActivityRate, Human, Sex};

pub use units::{
    Centimeters, Grams, Kcal, Kilograms, Milligrams, MilligramsPer100Gram, YearsOld,
    CARBOHYDRATES_CALORIES_PER_GRAM, FATS_CALORIES_PER_GRAM, PROTEINS_CALORIES_PER_GRAM,
    UNITS_PER_KCAL,
};

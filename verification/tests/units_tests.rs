use track_my_macros::human::store_grams;
use track_my_macros::{
    Kcal, CARBOHYDRATES_CALORIES_PER_GRAM, FATS_CALORIES_PER_GRAM, PROTEINS_CALORIES_PER_GRAM,
    UNITS_PER_KCAL,
};

#[test]
fn energy_factors() {
    assert_eq!(4, CARBOHYDRATES_CALORIES_PER_GRAM);
    assert_eq!(9, FATS_CALORIES_PER_GRAM);
    assert_eq!(4, PROTEINS_CALORIES_PER_GRAM);
    assert_eq!(100_000, UNITS_PER_KCAL);
}

#[test]
fn whole_drops_the_fraction_toward_zero() {
    assert_eq!(0, Kcal::from_units(0).whole());
    assert_eq!(0, Kcal::from_units(99_999).whole());
    assert_eq!(1, Kcal::from_units(100_000).whole());
    assert_eq!(1, Kcal::from_units(199_999).whole());
    assert_eq!(281, Kcal::from_units(28_144_000).whole());
    assert_eq!(0, Kcal::from_units(-1).whole());
    assert_eq!(0, Kcal::from_units(-99_999).whole());
    assert_eq!(-1, Kcal::from_units(-100_000).whole());
    assert_eq!(-1, Kcal::from_units(-150_000).whole());
    assert_eq!(-2, Kcal::from_units(-200_000).whole());
}

#[test]
fn whole_at_the_ends_of_the_range() {
    assert_eq!(i128::MAX / 100_000, Kcal::from_units(i128::MAX).whole());
    assert_eq!(i128::MIN / 100_000, Kcal::from_units(i128::MIN).whole());
    assert_eq!((i128::MIN + 1) / 100_000, Kcal::from_units(i128::MIN + 1).whole());
}

#[test]
fn units_are_what_the_amount_was_made_of() {
    assert_eq!(28_144_000, Kcal::from_units(28_144_000).units());
    assert_eq!(Kcal::from_units(7), Kcal::from_units(7));
    assert_ne!(Kcal::from_units(7), Kcal::from_units(8));
}

#[test]
fn stored_grams_stay_in_range() {
    assert_eq!(0, store_grams(0));
    assert_eq!(475, store_grams(475));
    assert_eq!(0, store_grams(-1));
    assert_eq!(0, store_grams(i128::MIN));
    assert_eq!(usize::MAX, store_grams(usize::MAX as i128));
    assert_eq!(usize::MAX, store_grams(usize::MAX as i128 + 1));
    assert_eq!(usize::MAX, store_grams(i128::MAX));
}

use track_my_macros::{Food, Kcal};

fn whole(energy: Kcal) -> u64 {
    energy.whole() as u64
}

#[test]
fn test_carbs_calories() {
    let food = Food {
        name: "something with only carbs".to_string(),
        carbs: 30_000,
        fats: 0,
        prots: 0,
    };

    assert_eq!(120, whole(food.calculate_calories(100)));
}

#[test]
fn test_fats_calories() {
    let food = Food {
        name: "something with only fats".to_string(),
        carbs: 0,
        fats: 20_000,
        prots: 0,
    };

    assert_eq!(180, whole(food.calculate_calories(100)));
}

#[test]
fn test_prots_calories() {
    let food = Food {
        name: "something with only prots".to_string(),
        carbs: 0,
        fats: 0,
        prots: 30_000,
    };

    assert_eq!(120, whole(food.calculate_calories(100)));
}

#[test]
fn test_food_calories() {
    let peanuts = Food {
        name: "Raw Peanuts".to_string(),
        fats: 49_200,
        carbs: 16_100,
        prots: 25_800,
    };

    assert_eq!(610, whole(peanuts.calculate_calories(100)));
}

fn peanuts() -> Food {
    Food {
        name: "Raw Peanuts".to_string(),
        fats: 49_200,
        carbs: 16_100,
        prots: 25_800,
    }
}

#[test]
fn food_calories_are_exact() {
    // 100 mg * (4 * 16_100 + 9 * 49_200 + 4 * 25_800) = 61_040_000 units = 610.4 kcal.
    assert_eq!(61_040_000, peanuts().calculate_calories(100).units());
    assert_eq!(610.4, peanuts().calculate_calories(100).units() as f64 / 100_000.0);
    // One milligram still has its fraction of a kilocalorie.
    assert_eq!(610_400, peanuts().calculate_calories(1).units());
    assert_eq!(0, whole(peanuts().calculate_calories(0)));
    assert_eq!(6, peanuts().calculate_calories(1).whole());
}

#[test]
fn food_calories_each_macro_counts_with_its_factor() {
    let carbs = Food { name: String::new(), carbs: 1, fats: 0, prots: 0 };
    let fats = Food { name: String::new(), carbs: 0, fats: 1, prots: 0 };
    let prots = Food { name: String::new(), carbs: 0, fats: 0, prots: 1 };
    assert_eq!(4, carbs.calculate_calories(1).units());
    assert_eq!(9, fats.calculate_calories(1).units());
    assert_eq!(4, prots.calculate_calories(1).units());
    assert_eq!(4 * 100_000, carbs.calculate_calories(100_000).units());
}

#[test]
fn food_calories_double_with_weight() {
    let weights: Vec<usize> = vec![0, 1, 7, 20, 100, 12_345, 1_000_000];
    for weight in weights {
        let once = peanuts().calculate_calories(weight).units();
        let twice = peanuts().calculate_calories(2 * weight).units();
        assert_eq!(2 * once, twice, "{}", weight);
    }
}

#[test]
fn food_calories_add_up_over_weights() {
    let both = peanuts().calculate_calories(20 + 120).units();
    let first = peanuts().calculate_calories(20).units();
    let second = peanuts().calculate_calories(120).units();
    assert_eq!(both, first + second);
    assert_eq!(3 * first, peanuts().calculate_calories(60).units());
}

#[test]
fn food_name_plays_no_part() {
    let unnamed = Food { name: String::new(), fats: 49_200, carbs: 16_100, prots: 25_800 };
    assert_eq!(peanuts().calculate_calories(321), unnamed.calculate_calories(321));
}

#[test]
fn checked_food_calories_agree_where_they_fit() {
    assert_eq!(Some(peanuts().calculate_calories(100)), peanuts().checked_calculate_calories(100));
    assert_eq!(Some(Kcal::from_units(0)), peanuts().checked_calculate_calories(0));
}

#[test]
fn checked_food_calories_report_what_does_not_fit() {
    let dense = Food {
        name: "beyond any food".to_string(),
        carbs: usize::MAX,
        fats: usize::MAX,
        prots: usize::MAX,
    };
    assert_eq!(None, dense.checked_calculate_calories(usize::MAX));
    // A weight of nothing always fits.
    assert_eq!(Some(Kcal::from_units(0)), dense.checked_calculate_calories(0));
    assert_eq!(
        Some(Kcal::from_units(17 * (usize::MAX as i128))),
        dense.checked_calculate_calories(1)
    );
}

use track_my_macros::{Food, Kcal, Meal};

fn peanuts() -> Food {
    Food {
        name: "Peanuts, Raw".to_string(),
        fats: 49_200,
        carbs: 16_100,
        prots: 25_800,
    } // 122 Kcal
}

fn scrambled_eggs() -> Food {
    Food {
        name: "Eggs, Scrambled".to_string(),
        fats: 5_600,
        carbs: 7_500,
        prots: 13_100,
    } // 159 Kcal
}

fn kcal(energy: Kcal) -> f64 {
    energy.units() as f64 / 100_000.0
}

#[test]
fn test_meal_calories() {
    let peanuts = Food {
        name: "Peanuts, Raw".to_string(),
        fats: 49_200,
        carbs: 16_100,
        prots: 25_800,
    }; // 122 Kcal

    let scrambled_eggs = Food {
        name: "Eggs, Scrambled".to_string(),
        fats: 5_600,
        carbs: 7_500,
        prots: 13_100,
    }; // 159 Kcal

    let breakfast = Meal {
        foods: vec![(peanuts, 20), (scrambled_eggs, 120)],
    };

    assert_eq!(281.44, kcal(breakfast.calculate_calories()));
}

#[test]
fn meal_calories_are_the_sum_of_the_portions() {
    let breakfast = Meal {
        foods: vec![(peanuts(), 20), (scrambled_eggs(), 120)],
    };
    let first = peanuts().calculate_calories(20).units();
    let second = scrambled_eggs().calculate_calories(120).units();
    assert_eq!(12_208_000, first);
    assert_eq!(15_936_000, second);
    let total = breakfast.calculate_calories();
    assert_eq!(first + second, total.units());
    assert_eq!(28_144_000, total.units());
    assert_eq!(281, total.whole());
}

#[test]
fn empty_meal_has_no_calories() {
    let nothing = Meal { foods: vec![] };
    assert_eq!(0, nothing.calculate_calories().units());
    let nothing = Meal { foods: Vec::new() };
    assert_eq!(Some(Kcal::from_units(0)), nothing.checked_calculate_calories());
}

#[test]
fn meal_of_one_portion_has_its_calories() {
    let snack = Meal { foods: vec![(peanuts(), 100)] };
    assert_eq!(peanuts().calculate_calories(100), snack.calculate_calories());
}

#[test]
fn meal_calories_ignore_the_order_of_portions() {
    let one = Meal {
        foods: vec![(peanuts(), 20), (scrambled_eggs(), 120), (peanuts(), 7)],
    };
    let other = Meal {
        foods: vec![(peanuts(), 7), (peanuts(), 20), (scrambled_eggs(), 120)],
    };
    let third = Meal {
        foods: vec![(scrambled_eggs(), 120), (peanuts(), 7), (peanuts(), 20)],
    };
    let energy = one.calculate_calories();
    assert_eq!(energy, other.calculate_calories());
    assert_eq!(energy, third.calculate_calories());
    assert_eq!(28_144_000 + 7 * 610_400, energy.units());
}

#[test]
fn meal_keeps_its_portions_in_order() {
    let breakfast = Meal {
        foods: vec![(peanuts(), 20), (scrambled_eggs(), 120)],
    };
    assert_eq!("Peanuts, Raw", breakfast.foods[0].0.name);
    assert_eq!(20, breakfast.foods[0].1);
    assert_eq!("Eggs, Scrambled", breakfast.foods[1].0.name);
    assert_eq!(120, breakfast.foods[1].1);
}

#[test]
fn checked_meal_calories_agree_where_they_fit() {
    let breakfast = Meal {
        foods: vec![(peanuts(), 20), (scrambled_eggs(), 120)],
    };
    assert_eq!(Some(Kcal::from_units(28_144_000)), breakfast.checked_calculate_calories());
    assert_eq!(Kcal::from_units(28_144_000), breakfast.calculate_calories());
}

#[test]
fn checked_meal_calories_report_what_does_not_fit() {
    let dense = || Food {
        name: "beyond any food".to_string(),
        carbs: usize::MAX,
        fats: usize::MAX,
        prots: usize::MAX,
    };
    // One portion that does not fit by itself.
    let meal = Meal { foods: vec![(peanuts(), 20), (dense(), usize::MAX)] };
    assert_eq!(None, meal.checked_calculate_calories());
    // Portions that fit one by one, and not together.
    let half = (i128::MAX / (17 * (usize::MAX as i128))) as usize;
    assert!(dense().checked_calculate_calories(half).is_some());
    let meal = Meal { foods: vec![(dense(), half), (dense(), half)] };
    assert_eq!(None, meal.checked_calculate_calories());
    let meal = Meal { foods: vec![(dense(), half / 2), (dense(), half / 2)] };
    assert_eq!(
        Some(Kcal::from_units(2 * ((half / 2) as i128) * 17 * (usize::MAX as i128))),
        meal.checked_calculate_calories()
    );
}

//! The energy of a food, of a portion of it and of a meal.

use vstd::prelude::*;
use crate::units::{
    Kcal, Milligrams, MilligramsPer100Gram, CARBOHYDRATES_CALORIES_PER_GRAM,
    FATS_CALORIES_PER_GRAM, PROTEINS_CALORIES_PER_GRAM,
};

verus! {

/// A food, by what 100 grams of it hold of each macronutrient. The name is
/// for display and takes no part in any formula.
#[derive(Debug)]
pub struct Food {
    pub name: String,
    pub carbs: MilligramsPer100Gram,
    pub fats: MilligramsPer100Gram,
    pub prots: MilligramsPer100Gram,
}

/// This much of this food.
pub type Portion = (Food, Milligrams);

/// The portions of a meal, in the order in which they were put together.
#[derive(Debug)]
pub struct Meal {
    pub foods: Vec<Portion>,
}

/// The energy, in units, that one macronutrient gives to `weight` milligrams
/// of a food that holds `density` milligrams of it in 100 grams.
///
/// The portion holds `weight * density / 100_000` grams of the macronutrient,
/// and a gram of it gives `calories_per_gram` kilocalories of 100 000 units
/// each: the two scales cancel.
pub open spec fn macro_energy(weight: int, density: int, calories_per_gram: int) -> int {
    weight * density * calories_per_gram
}

/// The energy of a portion, in units.
pub open spec fn portion_calories(portion: Portion) -> int {
    portion.0.spec_calories(portion.1 as int)
}

/// The energy of portions, in units: the sum over them.
pub open spec fn portions_calories(portions: Seq<Portion>) -> int
    decreases portions.len(),
{
    if portions.len() == 0 {
        0
    } else {
        portions_calories(portions.drop_last()) + portion_calories(portions.last())
    }
}

impl Food {
    /// The energy units in one milligram of this food.
    pub open spec fn spec_calories_per_milligram(self) -> int {
        self.carbs * CARBOHYDRATES_CALORIES_PER_GRAM + self.fats * FATS_CALORIES_PER_GRAM
            + self.prots * PROTEINS_CALORIES_PER_GRAM
    }

    /// The energy of `weight` milligrams of this food, in units: what its
    /// carbohydrate, fat and protein give, summed.
    pub open spec fn spec_calories(self, weight: int) -> int {
        macro_energy(weight, self.carbs as int, CARBOHYDRATES_CALORIES_PER_GRAM as int)
            + macro_energy(weight, self.fats as int, FATS_CALORIES_PER_GRAM as int) + macro_energy(
            weight,
            self.prots as int,
            PROTEINS_CALORIES_PER_GRAM as int,
        )
    }

    /// The energy units in one milligram of this food.
    fn calories_per_milligram(&self) -> (units: i128)
        ensures
            units == self.spec_calories_per_milligram(),
            0 <= units,
    {
        (self.carbs as i128) * CARBOHYDRATES_CALORIES_PER_GRAM + (self.fats as i128)
            * FATS_CALORIES_PER_GRAM + (self.prots as i128) * PROTEINS_CALORIES_PER_GRAM
    }

    /// The energy of `weight` milligrams of this food, exact. The amount must
    /// be one that `Kcal` can hold.
    pub fn calculate_calories(&self, weight: Milligrams) -> (energy: Kcal)
        requires
            self.spec_calories(weight as int) <= i128::MAX,
        ensures
            energy@ == self.spec_calories(weight as int),
    {
        let per_milligram: i128 = self.calories_per_milligram();
        proof {
            lemma_calories_by_milligram(*self, weight as int);
        }
        Kcal::from_units((weight as i128) * per_milligram)
    }

    /// The energy of `weight` milligrams of this food, exact, or `None` where
    /// the amount is more than `Kcal` can hold.
    pub fn checked_calculate_calories(&self, weight: Milligrams) -> (energy: Option<Kcal>)
        ensures
            energy is Some <==> self.spec_calories(weight as int) <= i128::MAX,
            energy is Some ==> energy->Some_0@ == self.spec_calories(weight as int),
    {
        let per_milligram: i128 = self.calories_per_milligram();
        proof {
            lemma_calories_by_milligram(*self, weight as int);
        }
        match (weight as i128).checked_mul(per_milligram) {
            Some(units) => Some(Kcal::from_units(units)),
            None => None,
        }
    }
}

impl Meal {
    /// The energy of the meal, in units: the sum over its portions.
    pub open spec fn spec_calories(self) -> int {
        portions_calories(self.foods@)
    }

    /// The energy of the meal, exact: the sum over its portions, 0 for a meal
    /// of none. The amount must be one that `Kcal` can hold.
    pub fn calculate_calories(self) -> (energy: Kcal)
        requires
            self.spec_calories() <= i128::MAX,
        ensures
            energy@ == self.spec_calories(),
    {
        let count: usize = self.foods.len();
        let mut units: i128 = 0;
        let mut done: usize = 0;
        while done < count
            invariant
                done <= count,
                count == self.foods@.len(),
                units == portions_calories(self.foods@.take(done as int)),
                portions_calories(self.foods@) <= i128::MAX,
            decreases count - done,
        {
            let portion = &self.foods[done];
            proof {
                lemma_calories_of_prefix(self.foods@, done as int);
                lemma_calories_prefix_grows(self.foods@, done as int + 1);
                lemma_calories_not_negative(self.foods@.take(done as int));
            }
            let part: Kcal = portion.0.calculate_calories(portion.1);
            units = units + part.units();
            done = done + 1;
        }
        proof {
            assert(self.foods@.take(count as int) =~= self.foods@);
        }
        Kcal::from_units(units)
    }

    /// The energy of the meal, exact, or `None` where the amount is more than
    /// `Kcal` can hold.
    pub fn checked_calculate_calories(&self) -> (energy: Option<Kcal>)
        ensures
            energy is Some <==> self.spec_calories() <= i128::MAX,
            energy is Some ==> energy->Some_0@ == self.spec_calories(),
    {
        let count: usize = self.foods.len();
        let mut units: i128 = 0;
        let mut done: usize = 0;
        while done < count
            invariant
                done <= count,
                count == self.foods@.len(),
                units == portions_calories(self.foods@.take(done as int)),
            decreases count - done,
        {
            let portion = &self.foods[done];
            proof {
                lemma_calories_of_prefix(self.foods@, done as int);
                lemma_calories_prefix_grows(self.foods@, done as int + 1);
                lemma_calories_not_negative(self.foods@.take(done as int));
                lemma_portion_not_negative(self.foods@[done as int]);
            }
            let sum: Option<i128> = match portion.0.checked_calculate_calories(portion.1) {
                Some(part) => units.checked_add(part.units()),
                None => None,
            };
            match sum {
                Some(next) => {
                    units = next;
                },
                None => {
                    return None;
                },
            }
            done = done + 1;
        }
        proof {
            assert(self.foods@.take(count as int) =~= self.foods@);
        }
        Some(Kcal::from_units(units))
    }
}

/// The energy of a weight of food is the weight times the energy of one
/// milligram, and is not negative for a weight that is not.
pub proof fn lemma_calories_by_milligram(food: Food, weight: int)
    ensures
        food.spec_calories(weight) == weight * food.spec_calories_per_milligram(),
        0 <= food.spec_calories_per_milligram(),
        0 <= weight ==> 0 <= food.spec_calories(weight),
{
    let c = food.carbs as int;
    let f = food.fats as int;
    let p = food.prots as int;
    assert(weight * c * 4 + weight * f * 9 + weight * p * 4 == weight * (c * 4 + f * 9 + p * 4))
        by (nonlinear_arith);
    assert(0 <= weight ==> 0 <= weight * (c * 4 + f * 9 + p * 4)) by (nonlinear_arith)
        requires
            0 <= c,
            0 <= f,
            0 <= p,
    ;
}

/// The energy of a food is linear in the weight: of `times` times the weight
/// it is `times` times as much, and of two weights together it is the sum of
/// what each has.
pub proof fn lemma_calories_linear_in_weight(food: Food, weight: int, other: int, times: int)
    ensures
        food.spec_calories(times * weight) == times * food.spec_calories(weight),
        food.spec_calories(weight + other) == food.spec_calories(weight) + food.spec_calories(
            other,
        ),
{
    let per = food.spec_calories_per_milligram();
    lemma_calories_by_milligram(food, weight);
    lemma_calories_by_milligram(food, other);
    lemma_calories_by_milligram(food, times * weight);
    lemma_calories_by_milligram(food, weight + other);
    assert((times * weight) * per == times * (weight * per)) by (nonlinear_arith);
    assert((weight + other) * per == weight * per + other * per) by (nonlinear_arith);
}

/// Twice the weight of a food has twice the energy.
pub proof fn lemma_calories_double_with_weight(food: Food, weight: Milligrams)
    ensures
        food.spec_calories(2 * weight) == 2 * food.spec_calories(weight as int),
{
    lemma_calories_linear_in_weight(food, weight as int, 0, 2);
}

/// No portion has negative energy.
pub proof fn lemma_portion_not_negative(portion: Portion)
    ensures
        0 <= portion_calories(portion),
{
    lemma_calories_by_milligram(portion.0, portion.1 as int);
}

/// No portions have negative energy together.
pub proof fn lemma_calories_not_negative(portions: Seq<Portion>)
    ensures
        0 <= portions_calories(portions),
    decreases portions.len(),
{
    if portions.len() > 0 {
        lemma_calories_not_negative(portions.drop_last());
        lemma_portion_not_negative(portions.last());
    }
}

/// The first `count + 1` portions have the energy of the first `count` and
/// of the one that follows them.
pub proof fn lemma_calories_of_prefix(portions: Seq<Portion>, count: int)
    requires
        0 <= count < portions.len(),
    ensures
        portions_calories(portions.take(count + 1)) == portions_calories(portions.take(count))
            + portion_calories(portions[count]),
{
    assert(portions.take(count + 1).drop_last() =~= portions.take(count));
}

/// The first portions of a meal never have more energy than all of them.
pub proof fn lemma_calories_prefix_grows(portions: Seq<Portion>, count: int)
    requires
        0 <= count <= portions.len(),
    ensures
        portions_calories(portions.take(count)) <= portions_calories(portions),
    decreases portions.len() - count,
{
    if count == portions.len() {
        assert(portions.take(count) =~= portions);
    } else {
        lemma_calories_of_prefix(portions, count);
        lemma_portion_not_negative(portions[count]);
        lemma_calories_prefix_grows(portions, count + 1);
    }
}

/// Portions put one after the other have the energy of both runs together.
pub proof fn lemma_calories_of_concat(first: Seq<Portion>, second: Seq<Portion>)
    ensures
        portions_calories(first + second) == portions_calories(first) + portions_calories(second),
    decreases second.len(),
{
    if second.len() == 0 {
        assert(first + second =~= first);
    } else {
        assert((first + second).drop_last() =~= first + second.drop_last());
        assert((first + second).last() == second.last());
        lemma_calories_of_concat(first, second.drop_last());
    }
}

/// Taking one portion out of a meal takes exactly its energy out.
pub proof fn lemma_calories_of_remove(portions: Seq<Portion>, at: int)
    requires
        0 <= at < portions.len(),
    ensures
        portions_calories(portions) == portions_calories(portions.remove(at)) + portion_calories(
            portions[at],
        ),
{
    let before = portions.subrange(0, at);
    let one = portions.subrange(at, at + 1);
    let after = portions.subrange(at + 1, portions.len() as int);
    assert(portions =~= (before + one) + after);
    assert(portions.remove(at) =~= before + after);
    assert(one.drop_last() =~= Seq::<Portion>::empty());
    assert(portions_calories(one.drop_last()) == 0);
    assert(portions_calories(one) == portion_calories(portions[at]));
    lemma_calories_of_concat(before, one);
    lemma_calories_of_concat(before + one, after);
    lemma_calories_of_concat(before, after);
}

/// The energy of a meal does not depend on the order of its portions: two
/// runs that hold the same portions, each as often as the other, have the
/// same energy.
pub proof fn lemma_calories_ignore_order(one: Seq<Portion>, other: Seq<Portion>)
    requires
        one.to_multiset() == other.to_multiset(),
    ensures
        portions_calories(one) == portions_calories(other),
    decreases one.len(),
{
    one.to_multiset_ensures();
    other.to_multiset_ensures();
    if one.len() == 0 {
        assert(other.len() == 0);
    } else {
        let last = one.last();
        assert(one.contains(last)) by {
            assert(one[one.len() - 1] == last);
        }
        assert(one.to_multiset().count(last) > 0);
        assert(other.to_multiset().count(last) > 0);
        assert(other.contains(last));
        let at = choose|at: int| 0 <= at < other.len() && other[at] == last;
        assert(one.drop_last() =~= one.remove(one.len() - 1));
        assert(one.drop_last().to_multiset() =~= other.remove(at).to_multiset());
        lemma_calories_of_remove(other, at);
        lemma_calories_ignore_order(one.drop_last(), other.remove(at));
    }
}

/// Two meals that hold the same portions, in whatever order, have the same
/// energy.
pub proof fn lemma_meal_calories_ignore_order(one: Meal, other: Meal)
    requires
        one.foods@.to_multiset() == other.foods@.to_multiset(),
    ensures
        one.spec_calories() == other.spec_calories(),
{
    lemma_calories_ignore_order(one.foods@, other.foods@);
}

} // verus!

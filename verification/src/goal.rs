//! Daily macronutrient targets, in grams or as shares of the day's energy.

use vstd::prelude::*;
use crate::units::{
    Grams, CARBOHYDRATES_CALORIES_PER_GRAM, FATS_CALORIES_PER_GRAM, PROTEINS_CALORIES_PER_GRAM,
};

verus! {

/// A daily target for the three macronutrients.
///
/// `Fixed` gives each macronutrient in grams. `Percentage` gives each as a
/// whole percentage of the day's energy; a value made by this crate has
/// percentages that sum to 100.
#[derive(Clone, Copy, Debug, PartialEq, Eq, Structural)]
#[allow(inconsistent_fields)]
pub enum CalorieIntakeRepartition {
    Fixed { fats: Grams, prots: Grams, carbs: Grams },
    Percentage { fats: u64, prots: u64, carbs: u64 },
}

/// The whole kilocalories in the given grams of fat, protein and carbohydrate.
pub open spec fn grams_energy(fats: int, prots: int, carbs: int) -> int {
    fats * FATS_CALORIES_PER_GRAM + prots * PROTEINS_CALORIES_PER_GRAM + carbs
        * CARBOHYDRATES_CALORIES_PER_GRAM
}

/// The share of `part` in `total` as a percentage, rounded down; 0 where
/// `total` is 0.
pub open spec fn share_percent(part: int, total: int) -> int {
    if total > 0 {
        (100 * part) / total
    } else {
        0
    }
}

/// The share of a part in a total is a percentage, not over 100, and two
/// parts that do not overlap have shares that together are not over 100.
pub proof fn lemma_share_percent_bounds(a: int, b: int, total: int)
    requires
        0 <= a,
        0 <= b,
        a + b <= total,
    ensures
        0 <= share_percent(a, total) <= 100,
        0 <= share_percent(b, total) <= 100,
        share_percent(a, total) + share_percent(b, total) <= 100,
{
    if total > 0 {
        let fa = (100 * a) / total;
        let fb = (100 * b) / total;
        assert(0 <= fa && fa * total <= 100 * a) by (nonlinear_arith)
            requires
                fa == (100 * a) / total,
                total > 0,
                0 <= a,
        ;
        assert(0 <= fb && fb * total <= 100 * b) by (nonlinear_arith)
            requires
                fb == (100 * b) / total,
                total > 0,
                0 <= b,
        ;
        assert(fa + fb <= 100) by (nonlinear_arith)
            requires
                fa * total <= 100 * a,
                fb * total <= 100 * b,
                a + b <= total,
                total > 0,
        ;
    }
}

impl CalorieIntakeRepartition {
    /// Whether this target is consistent: percentages sum to 100. Every
    /// target in grams is.
    pub open spec fn well_formed(self) -> bool {
        match self {
            CalorieIntakeRepartition::Fixed { .. } => true,
            CalorieIntakeRepartition::Percentage { fats, prots, carbs } => fats + prots + carbs
                == 100,
        }
    }

    /// The whole kilocalories of a target in grams; 0 for a target in
    /// percentages, which fixes no amount.
    pub open spec fn spec_energy(self) -> int {
        match self {
            CalorieIntakeRepartition::Fixed { fats, prots, carbs } => grams_energy(
                fats as int,
                prots as int,
                carbs as int,
            ),
            CalorieIntakeRepartition::Percentage { .. } => 0,
        }
    }

    /// This target as shares of its energy.
    ///
    /// Of a target in grams: fat and protein each get their share of the
    /// target's energy as a percentage, rounded down, and carbohydrate gets
    /// what is left of 100, so that rounding falls on carbohydrate. A target
    /// of no energy at all becomes 0, 0 and 100. A target in percentages is
    /// itself.
    pub open spec fn spec_to_percentage(self) -> CalorieIntakeRepartition {
        match self {
            CalorieIntakeRepartition::Fixed { fats, prots, carbs } => {
                let total = self.spec_energy();
                let fats_share = share_percent(fats * FATS_CALORIES_PER_GRAM, total);
                let prots_share = share_percent(prots * PROTEINS_CALORIES_PER_GRAM, total);
                CalorieIntakeRepartition::Percentage {
                    fats: fats_share as u64,
                    prots: prots_share as u64,
                    carbs: (100 - fats_share - prots_share) as u64,
                }
            },
            CalorieIntakeRepartition::Percentage { .. } => self,
        }
    }

    /// The whole kilocalories of a target in grams; 0 for one in percentages.
    pub fn energy(&self) -> (kcal: i128)
        ensures
            kcal == self.spec_energy(),
    {
        match *self {
            CalorieIntakeRepartition::Fixed { fats, prots, carbs } => {
                (fats as i128) * FATS_CALORIES_PER_GRAM + (prots as i128)
                    * PROTEINS_CALORIES_PER_GRAM + (carbs as i128)
                    * CARBOHYDRATES_CALORIES_PER_GRAM
            },
            CalorieIntakeRepartition::Percentage { .. } => 0,
        }
    }

    /// Converts a target in grams to shares of its energy, and hands a target
    /// in percentages back as it is. The result is always in percentages, and
    /// from a target in grams its percentages sum to 100.
    pub fn to_percentage(self) -> (shares: CalorieIntakeRepartition)
        ensures
            shares == self.spec_to_percentage(),
            shares is Percentage,
            self.well_formed() ==> shares.well_formed(),
            self is Percentage ==> shares == self,
    {
        match self {
            CalorieIntakeRepartition::Fixed { fats, prots, carbs } => {
                let fats_calories: i128 = (fats as i128) * FATS_CALORIES_PER_GRAM;
                let prots_calories: i128 = (prots as i128) * PROTEINS_CALORIES_PER_GRAM;
                let total: i128 = self.energy();
                proof {
                    lemma_share_percent_bounds(
                        fats_calories as int,
                        prots_calories as int,
                        total as int,
                    );
                }
                if total == 0 {
                    CalorieIntakeRepartition::Percentage { fats: 0, prots: 0, carbs: 100 }
                } else {
                    let fats_share: u64 = ((100 * fats_calories) / total) as u64;
                    let prots_share: u64 = ((100 * prots_calories) / total) as u64;
                    CalorieIntakeRepartition::Percentage {
                        fats: fats_share,
                        prots: prots_share,
                        carbs: 100 - fats_share - prots_share,
                    }
                }
            },
            CalorieIntakeRepartition::Percentage { .. } => self,
        }
    }
}

/// From a target in grams, the percentages sum to exactly 100, whatever the
/// grams are, and each of them is between 0 and 100.
pub proof fn lemma_percentages_sum_to_hundred(fats: Grams, prots: Grams, carbs: Grams)
    ensures
        ({
            let shares = (CalorieIntakeRepartition::Fixed { fats, prots, carbs })
                .spec_to_percentage();
            &&& shares is Percentage
            &&& shares->Percentage_fats + shares->Percentage_prots + shares->Percentage_carbs
                == 100
            &&& shares->Percentage_fats <= 100
            &&& shares->Percentage_prots <= 100
            &&& shares->Percentage_carbs <= 100
        }),
{
    let total = grams_energy(fats as int, prots as int, carbs as int);
    lemma_share_percent_bounds(
        fats * FATS_CALORIES_PER_GRAM,
        prots * PROTEINS_CALORIES_PER_GRAM,
        total,
    );
}

/// Converting twice is converting once: a target that is already in
/// percentages comes back unchanged.
pub proof fn lemma_to_percentage_idempotent(goal: CalorieIntakeRepartition)
    ensures
        goal.spec_to_percentage().spec_to_percentage() == goal.spec_to_percentage(),
        goal is Percentage ==> goal.spec_to_percentage() == goal,
{
}

/// Rounding down loses less than one percentage point on fat and on protein:
/// each percentage times the target's energy is at most a hundred times that
/// macronutrient's energy, and the next percentage would be over it.
pub proof fn lemma_share_percent_rounds_down(part: int, total: int)
    requires
        0 <= part,
        0 < total,
    ensures
        share_percent(part, total) * total <= 100 * part < (share_percent(part, total) + 1)
            * total,
{
    let share = (100 * part) / total;
    assert(share * total <= 100 * part < (share + 1) * total) by (nonlinear_arith)
        requires
            share == (100 * part) / total,
            0 < total,
    ;
}

} // verus!

//! A person's daily energy expenditure and the macronutrient targets that
//! follow from it.

use vstd::prelude::*;
use crate::goal::CalorieIntakeRepartition;
use crate::units::{
    div_toward_zero, Centimeters, Grams, Kcal, Kilograms, YearsOld,
    CARBOHYDRATES_CALORIES_PER_GRAM, FATS_CALORIES_PER_GRAM, PROTEINS_CALORIES_PER_GRAM,
    UNITS_PER_KCAL,
};

verus! {

/// Energy units of basal expenditure per kilogram of body weight: 10 kcal.
pub const BMR_UNITS_PER_KILOGRAM: i128 = 1_000_000;

/// Energy units of basal expenditure per centimeter of height: 6.25 kcal.
pub const BMR_UNITS_PER_CENTIMETER: i128 = 625_000;

/// Energy units of basal expenditure per year of age: 5 kcal.
pub const BMR_UNITS_PER_YEAR: i128 = 500_000;

/// The scale of an activity multiplier: it is given in thousandths.
pub const MULTIPLIER_SCALE: i128 = 1_000;

/// The scale of a protein factor: it is given in tenths of a gram per kilogram.
pub const PROTEIN_FACTOR_SCALE: i128 = 10;

/// Biological sex, which shifts the basal metabolic rate.
#[derive(Clone, Copy, Debug, PartialEq, Eq, Structural)]
pub enum Sex {
    Male,
    Female,
}

/// How active a person is, from a desk job without exercise to strenuous
/// training twice a day.
#[derive(Clone, Copy, Debug, PartialEq, Eq, Structural)]
pub enum ActivityRate {
    /// Little to no exercise, and a desk job.
    Sedentary,
    /// Light exercise on 1 to 3 days a week.
    LightlyActive,
    /// Moderate exercise on 3 to 5 days a week.
    ModeratelyActive,
    /// Heavy exercise on 6 to 7 days a week.
    VeryActive,
    /// Strenuous training twice a day.
    ExtremelyActive,
}

/// A person, by what the formulas read.
#[derive(Clone, Copy, Debug)]
pub struct Human {
    pub weight: Kilograms,
    pub height: Centimeters,
    pub age: YearsOld,
    pub sex: Sex,
    pub activity_rate: ActivityRate,
}

impl Sex {
    /// The whole kilocalories that the sex adds to the basal metabolic rate.
    pub open spec fn spec_bmr_offset(self) -> int {
        match self {
            Sex::Male => 5,
            Sex::Female => -161,
        }
    }

    /// The whole kilocalories that the sex adds to the basal metabolic rate:
    /// 5 for a man, -161 for a woman.
    pub fn bmr_offset(&self) -> (kcal: i128)
        ensures
            kcal == self.spec_bmr_offset(),
    {
        match self {
            Sex::Male => 5,
            Sex::Female => -161,
        }
    }
}

impl ActivityRate {
    /// The factor from basal to total expenditure, in thousandths.
    pub open spec fn spec_energy_multiplier(self) -> int {
        match self {
            ActivityRate::Sedentary => 1_200,
            ActivityRate::LightlyActive => 1_375,
            ActivityRate::ModeratelyActive => 1_550,
            ActivityRate::VeryActive => 1_725,
            ActivityRate::ExtremelyActive => 1_900,
        }
    }

    /// The daily protein per kilogram of body weight, in tenths of a gram.
    pub open spec fn spec_protein_factor(self) -> int {
        match self {
            ActivityRate::Sedentary => 10,
            ActivityRate::LightlyActive => 12,
            ActivityRate::ModeratelyActive => 14,
            ActivityRate::VeryActive => 18,
            ActivityRate::ExtremelyActive => 22,
        }
    }

    /// The factor from basal to total expenditure, in thousandths: 1.2,
    /// 1.375, 1.55, 1.725 and 1.9 from the least active to the most.
    pub fn energy_multiplier(&self) -> (thousandths: i128)
        ensures
            thousandths == self.spec_energy_multiplier(),
    {
        match self {
            ActivityRate::Sedentary => 1_200,
            ActivityRate::LightlyActive => 1_375,
            ActivityRate::ModeratelyActive => 1_550,
            ActivityRate::VeryActive => 1_725,
            ActivityRate::ExtremelyActive => 1_900,
        }
    }

    /// The daily protein per kilogram of body weight, in tenths of a gram:
    /// 1.0, 1.2, 1.4, 1.8 and 2.2 g from the least active to the most.
    pub fn protein_factor(&self) -> (tenths: i128)
        ensures
            tenths == self.spec_protein_factor(),
    {
        match self {
            ActivityRate::Sedentary => 10,
            ActivityRate::LightlyActive => 12,
            ActivityRate::ModeratelyActive => 14,
            ActivityRate::VeryActive => 18,
            ActivityRate::ExtremelyActive => 22,
        }
    }
}

/// What a count of grams becomes when it is stored: itself where `Grams` can
/// hold it, else the nearest value that `Grams` can hold.
pub open spec fn stored_grams(grams: int) -> int {
    if grams < 0 {
        0
    } else if grams > usize::MAX {
        usize::MAX as int
    } else {
        grams
    }
}

/// Stores a count of grams: itself where `Grams` can hold it, else the
/// nearest value that `Grams` can hold.
pub fn store_grams(grams: i128) -> (stored: Grams)
    ensures
        stored == stored_grams(grams as int),
{
    if grams < 0 {
        0
    } else if grams > usize::MAX as i128 {
        usize::MAX
    } else {
        grams as usize
    }
}

/// The basal metabolic rate after Mifflin and St Jeor, in energy units:
/// 10 kcal per kilogram, 6.25 kcal per centimeter, 5 kcal per year, and the
/// offset of the sex.
pub open spec fn bmr_units(weight: int, height: int, age: int, sex: Sex) -> int {
    BMR_UNITS_PER_KILOGRAM * weight + BMR_UNITS_PER_CENTIMETER * height + BMR_UNITS_PER_YEAR
        * age + sex.spec_bmr_offset() * UNITS_PER_KCAL
}

/// The grams of carbohydrate that fill what protein and fat leave of a
/// day's energy: the rest, a quarter of it for each gram, the fraction
/// dropped, as `Grams` stores it. Where protein and fat already take more than
/// the day's energy, that is 0.
pub open spec fn carbs_for(energy_units: int, prots: int, fats: int) -> int {
    let rest = energy_units - (prots * PROTEINS_CALORIES_PER_GRAM + fats
        * FATS_CALORIES_PER_GRAM) * UNITS_PER_KCAL;
    stored_grams(div_toward_zero(rest, CARBOHYDRATES_CALORIES_PER_GRAM * UNITS_PER_KCAL))
}

impl Human {
    /// The basal metabolic rate, in energy units.
    pub open spec fn spec_bmr(self) -> int {
        bmr_units(self.weight as int, self.height as int, self.age as int, self.sex)
    }

    /// The total daily energy expenditure, in energy units: the basal rate
    /// times the multiplier of the activity rate.
    pub open spec fn spec_tdee(self) -> int {
        self.spec_bmr() * self.activity_rate.spec_energy_multiplier() / (MULTIPLIER_SCALE as int)
    }

    /// The daily protein in grams: the body weight times the factor of the
    /// activity rate, the fraction dropped, as `Grams` stores it.
    pub open spec fn spec_prot_needs(self) -> int {
        stored_grams(
            self.weight * self.activity_rate.spec_protein_factor() / (PROTEIN_FACTOR_SCALE as int),
        )
    }

    /// The daily fat in grams: one gram per kilogram of body weight.
    pub open spec fn spec_fat_needs(self) -> int {
        self.weight as int
    }

    /// The daily carbohydrate in grams, which fills what protein and fat
    /// leave of the total expenditure.
    pub open spec fn spec_carb_needs(self) -> int {
        carbs_for(self.spec_tdee(), self.spec_prot_needs(), self.spec_fat_needs())
    }

    /// The daily target in grams.
    pub open spec fn spec_fixed_goal(self) -> CalorieIntakeRepartition {
        CalorieIntakeRepartition::Fixed {
            fats: self.spec_fat_needs() as usize,
            prots: self.spec_prot_needs() as usize,
            carbs: self.spec_carb_needs() as usize,
        }
    }

    /// Basal metabolic rate: the energy that keeps the body working at rest
    /// for a day, by the formula of Mifflin and St Jeor. It reads weight,
    /// height, age and sex, and not the activity rate.
    ///
    /// The formula suits adults of the population it was fitted to; it does
    /// not know of lean body mass, genetics, sleep or stimulants.
    pub fn bmr(&self) -> (rate: Kcal)
        ensures
            rate@ == self.spec_bmr(),
    {
        let units: i128 = BMR_UNITS_PER_KILOGRAM * (self.weight as i128) + BMR_UNITS_PER_CENTIMETER
            * (self.height as i128) + BMR_UNITS_PER_YEAR * (self.age as i128)
            + self.sex.bmr_offset() * UNITS_PER_KCAL;
        Kcal::from_units(units)
    }

    /// Total daily energy expenditure: the basal rate times the multiplier of
    /// the activity rate. Nothing is rounded.
    pub fn tdee(&self) -> (energy: Kcal)
        ensures
            energy@ == self.spec_tdee(),
            energy@ * MULTIPLIER_SCALE == self.spec_bmr()
                * self.activity_rate.spec_energy_multiplier(),
    {
        let basal: i128 = self.bmr().units();
        let multiplier: i128 = self.activity_rate.energy_multiplier();
        proof {
            lemma_tdee_is_exact(*self);
            lemma_tdee_bounds(*self);
        }
        let scaled: i128 = basal * multiplier;
        if scaled >= 0 {
            Kcal::from_units(scaled / MULTIPLIER_SCALE)
        } else {
            Kcal::from_units(-((-scaled) / MULTIPLIER_SCALE))
        }
    }

    /// The daily protein in grams: the body weight times 1.0 to 2.2,
    /// by the activity rate, the fraction dropped.
    pub fn suggest_daily_prot_needs(&self) -> (prots: Grams)
        ensures
            prots == self.spec_prot_needs(),
    {
        let tenths: i128 = (self.weight as i128) * self.activity_rate.protein_factor();
        store_grams(tenths / PROTEIN_FACTOR_SCALE)
    }

    /// The daily fat in grams: one gram per kilogram of body weight.
    pub fn suggest_daily_fat_needs(&self) -> (fats: Grams)
        ensures
            fats == self.spec_fat_needs(),
            fats == self.weight,
    {
        self.weight
    }

    /// The daily target in grams: protein and fat by body weight and
    /// activity, and as much carbohydrate as fills the rest of the total
    /// expenditure, at 4 kcal a gram, the fraction dropped. Where protein and
    /// fat already take more than the total expenditure, carbohydrate is 0.
    pub fn suggest_fixed_goal(&self) -> (goal: CalorieIntakeRepartition)
        ensures
            goal == self.spec_fixed_goal(),
            goal is Fixed,
            goal->Fixed_fats == self.weight,
            goal->Fixed_prots == self.spec_prot_needs(),
            goal->Fixed_carbs == self.spec_carb_needs(),
    {
        let prots: Grams = self.suggest_daily_prot_needs();
        let fats: Grams = self.suggest_daily_fat_needs();
        let energy: i128 = self.tdee().units();
        proof {
            lemma_tdee_bounds(*self);
        }
        let taken: i128 = ((prots as i128) * PROTEINS_CALORIES_PER_GRAM + (fats as i128)
            * FATS_CALORIES_PER_GRAM) * UNITS_PER_KCAL;
        let rest: i128 = energy - taken;
        let carbs: Grams = if rest <= 0 {
            0
        } else {
            store_grams(rest / (CARBOHYDRATES_CALORIES_PER_GRAM * UNITS_PER_KCAL))
        };
        CalorieIntakeRepartition::Fixed { prots, fats, carbs }
    }

    /// The daily target as shares of its own energy: the target in grams,
    /// converted. The three percentages sum to 100.
    pub fn suggest_percentage_goal(&self) -> (goal: CalorieIntakeRepartition)
        ensures
            goal == self.spec_fixed_goal().spec_to_percentage(),
            goal is Percentage,
            goal.well_formed(),
    {
        self.suggest_fixed_goal().to_percentage()
    }
}

/// The basal rate is a whole number of thousandths of what the multiplier
/// scales, so the total expenditure is the exact product: no fraction is
/// lost in it.
pub proof fn lemma_tdee_is_exact(human: Human)
    ensures
        human.spec_tdee() * MULTIPLIER_SCALE == human.spec_bmr()
            * human.activity_rate.spec_energy_multiplier(),
{
    let basal = human.spec_bmr();
    let multiplier = human.activity_rate.spec_energy_multiplier();
    let thousandth = 1_000 * human.weight + 625 * human.height + 500 * human.age
        + human.sex.spec_bmr_offset() * 100;
    assert(basal == thousandth * 1_000);
    assert(basal * multiplier == (thousandth * multiplier) * 1_000) by (nonlinear_arith)
        requires
            basal == thousandth * 1_000,
    ;
    assert(((thousandth * multiplier) * 1_000) / 1_000 == thousandth * multiplier);
}

/// The total expenditure lies between the lowest a person of no weight,
/// height and age can have and what the largest measurements give.
pub proof fn lemma_tdee_bounds(human: Human)
    ensures
        -30_590_000 <= human.spec_tdee() <= 4_038_450_000 * 0x1_0000_0000_0000_0000,
{
    let basal = human.spec_bmr();
    let multiplier = human.activity_rate.spec_energy_multiplier();
    lemma_tdee_is_exact(human);
    assert(-16_100_000 <= basal <= 2_125_500_000 * 0x1_0000_0000_0000_0000);
    assert(-16_100_000 * 1_900 <= basal * multiplier <= 2_125_500_000 * 0x1_0000_0000_0000_0000
        * 1_900) by (nonlinear_arith)
        requires
            -16_100_000 <= basal <= 2_125_500_000 * 0x1_0000_0000_0000_0000,
            1_200 <= multiplier <= 1_900,
    ;
}

/// Where protein and fat leave something of the total expenditure, and the
/// carbohydrate that fills the rest is a count that `Grams` can hold, the
/// target in grams has the energy of the total expenditure to within a gram
/// of carbohydrate: never more than it, and less by under 4 kcal.
pub proof fn lemma_fixed_goal_fills_expenditure(human: Human)
    requires
        (human.spec_prot_needs() * PROTEINS_CALORIES_PER_GRAM + human.spec_fat_needs()
            * FATS_CALORIES_PER_GRAM) * UNITS_PER_KCAL <= human.spec_tdee(),
        human.spec_tdee() <= usize::MAX * (CARBOHYDRATES_CALORIES_PER_GRAM * UNITS_PER_KCAL),
    ensures
        0 <= human.spec_tdee() - human.spec_fixed_goal().spec_energy() * UNITS_PER_KCAL
            < CARBOHYDRATES_CALORIES_PER_GRAM * UNITS_PER_KCAL,
{
    let prots = human.spec_prot_needs();
    let fats = human.spec_fat_needs();
    let rest = human.spec_tdee() - (prots * 4 + fats * 9) * 100_000;
    let carbs = rest / 400_000;
    assert(0 <= carbs <= usize::MAX);
    assert(human.spec_carb_needs() == carbs);
    assert(human.spec_fixed_goal().spec_energy() == fats * 9 + prots * 4 + carbs * 4);
}

/// The basal metabolic rate does not depend on the activity rate.
pub proof fn lemma_bmr_ignores_activity(human: Human, other: ActivityRate)
    ensures
        (Human { activity_rate: other, ..human }).spec_bmr() == human.spec_bmr(),
{
}

} // verus!

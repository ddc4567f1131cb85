//! The person drinking alcohol: gender and body weight.

use vstd::prelude::*;
use vstd::string::StringExecFns;

use crate::error::Error;
use crate::units::Mass;
use crate::units::PICOGRAMS_PER_KILOGRAM;

verus! {

/// Body-water ratio for a male, in hundredths (0.68).
pub const BODY_WATER_CENTI_MALE: u64 = 68;

/// Body-water ratio for a female, in hundredths (0.55).
pub const BODY_WATER_CENTI_FEMALE: u64 = 55;

/// Metabolic elimination rate for a male, in micro-points of BAC per hour
/// (0.015 percentage points per hour).
pub const METABOLIC_MICRO_MALE: u64 = 15_000;

/// Metabolic elimination rate for a female, in micro-points of BAC per hour
/// (0.017 percentage points per hour).
pub const METABOLIC_MICRO_FEMALE: u64 = 17_000;

/// Gender of the drinker; selects the two physiological constants of the
/// Widmark formula.
#[derive(Clone, Copy, Debug, PartialEq, Eq, Structural)]
pub enum Gender {
    Male,
    Female,
}

/// Body-water ratio of a gender, in hundredths.
pub open spec fn spec_body_water_centi(g: Gender) -> u64 {
    match g {
        Gender::Male => BODY_WATER_CENTI_MALE,
        Gender::Female => BODY_WATER_CENTI_FEMALE,
    }
}

/// Metabolic elimination rate of a gender, in micro-points per hour.
pub open spec fn spec_metabolic_micro(g: Gender) -> u64 {
    match g {
        Gender::Male => METABOLIC_MICRO_MALE,
        Gender::Female => METABOLIC_MICRO_FEMALE,
    }
}

impl Gender {
    /// The body-water ratio for each gender, in hundredths
    /// (Male 0.68, Female 0.55).
    pub fn body_water_ratio(&self) -> (r: u64)
        ensures
            r == spec_body_water_centi(*self),
    {
        match self {
            Gender::Male => BODY_WATER_CENTI_MALE,
            Gender::Female => BODY_WATER_CENTI_FEMALE,
        }
    }

    /// The metabolic elimination rate for each gender, in micro-points of
    /// BAC per hour (Male 0.015 points/h, Female 0.017 points/h).
    pub fn metabolic_rate(&self) -> (r: u64)
        ensures
            r == spec_metabolic_micro(*self),
    {
        match self {
            Gender::Male => METABOLIC_MICRO_MALE,
            Gender::Female => METABOLIC_MICRO_FEMALE,
        }
    }

    /// The persisted label of the gender: "male" or "female".
    pub fn label(&self) -> (r: String)
        ensures
            r@ == spec_gender_label(*self),
    {
        match self {
            Gender::Male => String::from_str("male"),
            Gender::Female => String::from_str("female"),
        }
    }
}

/// The label under which a gender is persisted.
pub open spec fn spec_gender_label(g: Gender) -> Seq<char> {
    match g {
        Gender::Male => "male"@,
        Gender::Female => "female"@,
    }
}

/// The person drinking alcohol.
#[derive(Clone, Copy, Debug, PartialEq, Eq, Structural)]
pub struct Person {
    pub gender: Gender,
    pub weight: Mass,
}

impl Person {
    /// A person is well formed when the weight is positive.
    pub open spec fn wf(&self) -> bool {
        self.weight.picograms >= 1
    }

    /// Create a new person of the given gender weighing `weight_kg`
    /// kilograms.
    pub fn new(gender: Gender, weight_kg: u64) -> (r: Person)
        requires
            1 <= weight_kg,
            weight_kg * PICOGRAMS_PER_KILOGRAM <= u64::MAX,
        ensures
            r.gender == gender,
            r.weight.picograms == weight_kg * PICOGRAMS_PER_KILOGRAM,
            r.wf(),
    {
        Person { gender, weight: Mass::from_kilograms(weight_kg) }
    }

    /// The persisted record of this person.
    ///
    /// Rehydrating the produced record yields this person back exactly.
    pub fn to_json(&self) -> (r: PersonJSON)
        requires
            self.wf(),
        ensures
            r.gender@ == spec_gender_label(self.gender),
            r.picograms == self.weight.picograms,
            spec_as_person(r) == Ok::<Person, Error>(*self),
    {
        let r = PersonJSON { gender: self.gender.label(), picograms: self.weight.picograms };
        proof {
            reveal_strlit("male");
            reveal_strlit("female");
            assert("male"@.len() == 4);
            assert("female"@.len() == 6);
        }
        r
    }
}

/// The persisted record of a person: a gender label and a weight.
///
/// The weight is held in picograms where the on-disk format holds grams;
/// the persistence adapter converts between the two.
#[derive(Debug)]
pub struct PersonJSON {
    /// The gender label; only "male" and "female" are valid.
    pub gender: String,
    /// The weight in picograms; must be positive.
    pub picograms: u64,
}

/// What rehydrating a person record yields: the person, or
/// `InvalidProfileData` when the gender label is neither "male" nor
/// "female" (exact, case-sensitive match) or the weight is not positive.
pub open spec fn spec_as_person(rec: PersonJSON) -> Result<Person, Error> {
    if rec.gender@ == "male"@ || rec.gender@ == "female"@ {
        if rec.picograms >= 1 {
            Ok(
                Person {
                    gender: if rec.gender@ == "male"@ { Gender::Male } else { Gender::Female },
                    weight: Mass { picograms: rec.picograms },
                },
            )
        } else {
            Err(Error::InvalidProfileData)
        }
    } else {
        Err(Error::InvalidProfileData)
    }
}

impl PersonJSON {
    /// Rehydrate the person held in this record.
    ///
    /// Returns the person exactly when the gender label is "male" or
    /// "female" (case-sensitive) and the weight is positive, and
    /// `InvalidProfileData` otherwise.
    pub fn as_person(self) -> (r: Result<Person, Error>)
        ensures
            r == spec_as_person(self),
            r is Ok ==> r->Ok_0.wf(),
    {
        let male = String::from_str("male");
        let female = String::from_str("female");
        let gender: Gender = if self.gender == male {
            Gender::Male
        } else if self.gender == female {
            Gender::Female
        } else {
            return Err(Error::InvalidProfileData);
        };
        if self.picograms < 1 {
            return Err(Error::InvalidProfileData);
        }
        Ok(Person { gender, weight: Mass::from_picograms(self.picograms) })
    }
}

} // verus!

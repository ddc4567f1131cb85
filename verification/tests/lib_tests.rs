use bac_journal::drink::Drink;
use bac_journal::{Gender, Mass, Person, BAC};

fn is_close(val: f64, estimate: f64, sig_fig: u64) {
    let sf: f64 = sig_fig as f64;
    let val_trunc = (val * (sf * 100.0)).round() / (sf * 100.0);
    let estimate_trunc = (estimate * (sf * 100.0)).round() / (sf * 100.0);
    assert_eq!(val_trunc, estimate_trunc);
}

fn drink_test(gender: Gender, alc_milliounces: u64, weight: u64, answer: f64) {
    let drink = Drink::new("Liquor", 100_000, Mass::from_milliounces(alc_milliounces));
    let person = Person::new(gender, weight);
    let mut bac = BAC::with_person(Some(person));
    bac.push_drink(drink);

    is_close(bac.as_float() as f64 / 1_000_000.0, answer, 3);
}

#[test]
fn lib_tests_male_45_kg() {
    drink_test(Gender::Male, 500, 45, 0.046);
}
#[test]
fn lib_tests_male_55_kg() {
    drink_test(Gender::Male, 500, 55, 0.036);
}
#[test]
fn lib_tests_male_64_kg() {
    drink_test(Gender::Male, 500, 64, 0.033);
}

#[test]
fn lib_tests_female_45_kg() {
    drink_test(Gender::Female, 500, 45, 0.056);
}
#[test]
fn lib_tests_female_55_kg() {
    drink_test(Gender::Female, 500, 55, 0.046);
}
#[test]
fn lib_tests_female_64_kg() {
    drink_test(Gender::Female, 500, 64, 0.04);
}

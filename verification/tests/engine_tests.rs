use bac_journal::bac::{log_path, BacJSON, LimitStatus, BAC};
use bac_journal::drink::{legal_limits, limit_for, Drink, DrinkJSON};
use bac_journal::effect::{Effect, EffectInfo};
use bac_journal::person::PersonJSON;
use bac_journal::{Error, Gender, Mass, Person};

fn within(val_micro: i128, expected: f64, tolerance: f64) {
    let val = val_micro as f64 / 1_000_000.0;
    assert!(
        (val - expected).abs() <= tolerance,
        "got {} expected {} within {}",
        val,
        expected,
        tolerance
    );
}

#[test]
fn empty_log_has_exactly_zero_bac() {
    let person = Person::new(Gender::Female, 55);
    let bac = BAC::new(vec![], person);
    assert_eq!(bac.current_bac(0), 0);
    assert_eq!(bac.current_bac(1_000_000_000), 0);
    assert_eq!(bac.as_float(), 0);
}

#[test]
fn single_shot_male_45_kg_now() {
    let ts: i64 = 1_000_000_000;
    let drink = Drink::new_with_date("Liquor", 100_000, Mass::from_milliounces(500), ts);
    let person = Person::new(Gender::Male, 45);
    let bac = BAC::new(vec![drink], person);
    within(bac.current_bac(ts), 0.046, 0.001);
    assert_eq!(bac.current_bac(ts), 46_322);
}

#[test]
fn female_70_kg_25_grams_two_hours_ago() {
    let ts: i64 = 1_000_000_000;
    let drink = Drink::new_with_date("Pure", 100_000, Mass::from_grams(25), ts);
    let person = Person::new(Gender::Female, 70);
    let bac = BAC::new(vec![drink], person);
    within(bac.current_bac(ts + 2 * 3600), 0.03, 0.001);
    assert_eq!(bac.current_bac(ts + 2 * 3600), 64_935 - 34_000);
}

#[test]
fn male_80_kg_one_standard_beer_just_consumed() {
    let beer = Drink::from_beer("Beer");
    let ts = beer.timestamp_secs;
    let person = Person::new(Gender::Male, 80);
    let bac = BAC::new(vec![beer], person);
    within(bac.current_bac(ts), 0.0313, 0.001);
    assert_eq!(bac.current_bac(ts), 31_267);
}

#[test]
fn hours_until_sober_at_bac_003_with_female_rate() {
    let person = Person::new(Gender::Female, 60);
    let bac = BAC::new(vec![], person);
    // 0.03 / 0.017 is about 1.7647 hours: one whole hour, and 45.88
    // remaining minutes, which round to 46.
    let (hours, minutes) = bac.hours_until(30_000);
    assert_eq!(hours, 1);
    assert_eq!(minutes, 46);
}

#[test]
fn gender_parse_accepts_exactly_male_and_female() {
    let ok = |g: &str| {
        PersonJSON { gender: g.to_string(), picograms: 1_000_000_000_000 }.as_person()
    };
    assert_eq!(ok("male").unwrap().gender, Gender::Male);
    assert_eq!(ok("female").unwrap().gender, Gender::Female);
    assert_eq!(ok("Male").unwrap_err(), Error::InvalidProfileData);
    assert_eq!(ok("").unwrap_err(), Error::InvalidProfileData);
    assert_eq!(ok("m").unwrap_err(), Error::InvalidProfileData);
    assert_eq!(ok("FEMALE").unwrap_err(), Error::InvalidProfileData);
}

#[test]
fn zero_weight_is_invalid_profile_data() {
    let rec = PersonJSON { gender: "male".to_string(), picograms: 0 };
    assert_eq!(rec.as_person().unwrap_err(), Error::InvalidProfileData);
}

fn bracket(lo_micro: i128, hi_micro: i128) -> Effect {
    Effect { lo_micro, hi_micro, behaviors: vec!["calm".to_string()], impairments: vec![] }
}

#[test]
fn effect_lookup_uses_half_open_ranges_in_table_order() {
    let info = EffectInfo {
        description: "test table".to_string(),
        source_urls: vec![],
        effects: vec![bracket(0, 50_000), bracket(50_000, 80_000)],
    };
    assert_eq!(info.get_effect(0).unwrap().lo_micro, 0);
    assert_eq!(info.get_effect(49_999).unwrap().lo_micro, 0);
    assert_eq!(info.get_effect(50_000).unwrap().lo_micro, 50_000);
    assert!(info.get_effect(80_000).is_none());
    assert!(info.get_effect(-1).is_none());
}

#[test]
fn effect_lookup_on_empty_table_is_none() {
    let info = EffectInfo {
        description: "empty".to_string(),
        source_urls: vec![],
        effects: vec![],
    };
    assert!(info.get_effect(20_000).is_none());
}

#[test]
fn behaviors_are_bulleted_one_per_line() {
    let e = Effect {
        lo_micro: 0,
        hi_micro: 1,
        behaviors: vec!["relaxation".to_string(), "mild euphoria".to_string()],
        impairments: vec![],
    };
    assert_eq!(e.behaviors(), "- relaxation\n- mild euphoria\n");
}

#[test]
fn person_record_round_trip_is_exact() {
    let person = Person::new(Gender::Female, 70);
    let rec = person.to_json();
    assert_eq!(rec.gender, "female");
    assert_eq!(rec.picograms, 70_000_000_000_000_000);
    let back = rec.as_person().unwrap();
    assert_eq!(back.gender, person.gender);
    assert_eq!(back.weight.picograms, person.weight.picograms);
}

#[test]
fn drink_record_round_trip_is_exact_to_the_second() {
    let drink = Drink::new_with_date("Wine", 12_500, Mass::from_grams(150), 1_424_301_369);
    let rec = drink.to_json();
    let back = rec.as_drink().unwrap();
    assert_eq!(back.name, "Wine");
    assert_eq!(back.percent_milli, 12_500);
    assert_eq!(back.mass.picograms, drink.mass.picograms);
    assert_eq!(back.timestamp_secs, 1_424_301_369);
}

#[test]
fn session_record_round_trip_is_exact() {
    let person = Person::new(Gender::Male, 80);
    let d1 = Drink::new_with_date("Beer", 5_000, Mass::from_ounces(12), 1_424_301_369);
    let d2 = Drink::new_with_date("Wine", 12_500, Mass::from_grams(150), 1_424_305_000);
    let bac = BAC::new(vec![d1, d2], person);
    let rec = bac.to_json();
    let back = rec.as_bac().unwrap();
    assert_eq!(back.drinks.len(), 2);
    assert_eq!(back.person.gender, Gender::Male);
    assert_eq!(back.person.weight.picograms, 80_000_000_000_000_000);
    assert_eq!(back.drinks[0].name, "Beer");
    assert_eq!(back.drinks[0].timestamp_secs, 1_424_301_369);
    assert_eq!(back.drinks[1].name, "Wine");
    assert_eq!(back.drinks[1].percent_milli, 12_500);
}

#[test]
fn malformed_timestamp_is_reported() {
    let rec = DrinkJSON {
        name: "Bad".to_string(),
        percent_milli: 5_000,
        picograms: 1,
        datetime_rfc2822: "not a date".to_string(),
    };
    assert_eq!(rec.as_drink().unwrap_err(), Error::MalformedTimestamp);
}

#[test]
fn percent_above_100_is_invalid_drink_data() {
    let rec = DrinkJSON {
        name: "Bad".to_string(),
        percent_milli: 200_000,
        picograms: 1,
        datetime_rfc2822: "Wed, 18 Feb 2015 23:16:09 GMT".to_string(),
    };
    assert_eq!(rec.as_drink().unwrap_err(), Error::InvalidDrinkData);
}

#[test]
fn session_rehydration_fails_on_first_bad_record() {
    let good = DrinkJSON {
        name: "Good".to_string(),
        percent_milli: 5_000,
        picograms: 1,
        datetime_rfc2822: "Wed, 18 Feb 2015 23:16:09 GMT".to_string(),
    };
    let bad = DrinkJSON {
        name: "Bad".to_string(),
        percent_milli: 5_000,
        picograms: 1,
        datetime_rfc2822: "nonsense".to_string(),
    };
    let rec = BacJSON {
        drinks: vec![good, bad],
        person: PersonJSON { gender: "male".to_string(), picograms: 1_000_000_000_000 },
    };
    assert_eq!(rec.as_bac().unwrap_err(), Error::MalformedTimestamp);
}

#[test]
fn legal_limit_lookup_is_exact_match() {
    assert_eq!(limit_for("China"), Some(20_000));
    assert_eq!(limit_for("United States"), Some(20_000));
    assert_eq!(limit_for("Japan"), Some(30_000));
    assert_eq!(limit_for("India"), Some(30_000));
    assert_eq!(limit_for("japan"), None);
    assert_eq!(limit_for("Germany"), None);
    assert_eq!(limit_for(""), None);
}

#[test]
fn legal_limit_table_holds_the_four_countries() {
    let limits = legal_limits();
    assert_eq!(limits.len(), 4);
    assert_eq!(limits[0], ("China".to_string(), 20_000));
    assert_eq!(limits[1], ("United States".to_string(), 20_000));
    assert_eq!(limits[2], ("Japan".to_string(), 30_000));
    assert_eq!(limits[3], ("India".to_string(), 30_000));
}

#[test]
fn beer_equivalent_bac_for_male_80_kg() {
    let person = Person::new(Gender::Male, 80);
    let bac = BAC::new(vec![], person);
    assert_eq!(bac.beer_ac(), 31_267);
}

#[test]
fn under_the_limit_scales_the_gap_into_beers() {
    let person = Person::new(Gender::Male, 80);
    let bac = BAC::new(vec![], person);
    match bac.limit_status(10_000, 30_000) {
        LimitStatus::Under { deficit_micro, beers_whole, beers_milli_frac } => {
            assert_eq!(deficit_micro, 20_000);
            assert_eq!(beers_whole, 0);
            assert_eq!(beers_milli_frac, 639);
        },
        _ => panic!("expected to be under the limit"),
    }
}

#[test]
fn over_the_limit_reports_sobriety_and_driving_times() {
    let person = Person::new(Gender::Male, 80);
    let bac = BAC::new(vec![], person);
    match bac.limit_status(50_000, 20_000) {
        LimitStatus::Over { excess_micro, sober_hours, sober_minutes, drive_hours, drive_minutes } => {
            assert_eq!(excess_micro, 30_000);
            assert_eq!(sober_hours, 3);
            assert_eq!(sober_minutes, 20);
            assert_eq!(drive_hours, 2);
            assert_eq!(drive_minutes, 0);
        },
        _ => panic!("expected to be over the limit"),
    }
}

#[test]
fn bac_is_monotone_in_alcohol_and_time() {
    let ts: i64 = 1_000_000_000;
    let person = Person::new(Gender::Male, 70);
    let small = BAC::new(
        vec![Drink::new_with_date("Shot", 100_000, Mass::from_grams(10), ts)],
        person,
    );
    let person2 = Person::new(Gender::Male, 70);
    let large = BAC::new(
        vec![Drink::new_with_date("Shot", 100_000, Mass::from_grams(20), ts)],
        person2,
    );
    assert!(small.current_bac(ts) <= large.current_bac(ts));
    assert!(large.current_bac(ts + 3600) <= large.current_bac(ts));
    assert!(large.current_bac(ts + 7200) <= large.current_bac(ts + 3600));
}

#[test]
fn negative_bac_is_not_clamped() {
    let ts: i64 = 1_000_000_000;
    let person = Person::new(Gender::Male, 80);
    let bac = BAC::new(
        vec![Drink::new_with_date("Beer", 5_000, Mass::from_ounces(12), ts)],
        person,
    );
    // After a day the elimination term dwarfs one beer's intake.
    assert!(bac.current_bac(ts + 24 * 3600) < 0);
}

#[test]
fn sober_session_needs_zero_hours() {
    let person = Person::new(Gender::Female, 60);
    let bac = BAC::new(vec![], person);
    assert_eq!(bac.hours_till_0(), 0);
}

#[test]
fn log_mutators_append_in_order() {
    let person = Person::new(Gender::Male, 70);
    let mut bac = BAC::with_person(Some(person));
    assert_eq!(bac.drink_len(), 0);
    assert!(bac.first_drink().is_none());
    bac.new_drink("Beer", 5_000, Mass::from_ounces(12));
    bac.push_drink(Drink::new_with_date("Wine", 12_500, Mass::from_grams(150), 7));
    assert_eq!(bac.drink_len(), 2);
    assert_eq!(bac.first_drink().unwrap().name, "Beer");
    assert_eq!(bac.drinks[1].name, "Wine");
}

#[test]
fn default_person_is_male_60_kg() {
    let bac = BAC::with_person(None);
    assert_eq!(bac.person.gender, Gender::Male);
    assert_eq!(bac.person.weight.picograms, 60_000_000_000_000_000);
}

#[test]
fn mass_conversions_are_exact_in_picograms() {
    assert_eq!(Mass::from_grams(1).picograms, 1_000_000_000_000);
    assert_eq!(Mass::from_kilograms(1).picograms, 1_000_000_000_000_000);
    assert_eq!(Mass::from_ounces(1).picograms, 28_349_523_125_000);
    assert_eq!(Mass::from_milliounces(500).picograms, 14_174_761_562_500);
    assert_eq!(Mass::from_pounds(1).picograms, 453_592_370_000_000);
    assert_eq!(Mass::from_pounds(1).as_grams(), 453);
    assert_eq!(Mass::from_grams(2).plus(Mass::from_grams(3)).as_grams(), 5);
    assert_eq!(Mass::from_picograms(7).as_picograms(), 7);
}

#[test]
fn gender_labels_match_the_persisted_format() {
    assert_eq!(Gender::Male.label(), "male");
    assert_eq!(Gender::Female.label(), "female");
    assert_eq!(Gender::Male.body_water_ratio(), 68);
    assert_eq!(Gender::Female.body_water_ratio(), 55);
    assert_eq!(Gender::Male.metabolic_rate(), 15_000);
    assert_eq!(Gender::Female.metabolic_rate(), 17_000);
}

#[test]
fn error_messages_name_the_failure() {
    assert_eq!(
        Error::MalformedTimestamp.message(),
        "drink timestamp does not parse as RFC 2822"
    );
    assert_eq!(
        Error::InvalidProfileData.message(),
        "person record has an invalid gender or weight"
    );
    assert_eq!(Error::InvalidDrinkData.message(), "drink record has a percentage above 100");
}

#[test]
fn log_path_appends_the_config_file_name() {
    assert_eq!(log_path("/home/someone/.bac"), "/home/someone/.bac/config.json");
}

#[test]
fn elapsed_milli_hours_follow_the_clock() {
    let d = Drink::new_with_date("Beer", 5_000, Mass::from_ounces(12), 1_000);
    assert_eq!(d.elapsed_milli_hours_at(1_000 + 3600), 1_000);
    assert_eq!(d.elapsed_milli_hours_at(1_000 + 1800), 500);
    assert_eq!(d.elapsed_milli_hours_at(1_000), 0);
    assert_eq!(d.elapsed_milli_hours_at(1_000 - 3600), -1_000);
}

#[test]
fn alcohol_mass_is_mass_times_percent() {
    let d = Drink::new_with_date("Beer", 5_000, Mass::from_grams(340), 0);
    assert_eq!(d.alcohol_mass().picograms, 17_000_000_000_000);
    let pure = Drink::new_with_date("Pure", 100_000, Mass::from_grams(340), 0);
    assert_eq!(pure.alcohol_mass().picograms, 340_000_000_000_000);
}

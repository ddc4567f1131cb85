use bac_journal::drink::{Drink, DrinkJSON};

#[test]
fn can_parse_json_drink() {
    let data = r#"
        {
            "name": "Bud",
            "percent": 5,
            "grams": 100,
            "datetime_rfc2822": "Wed, 18 Feb 2015 23:16:09 GMT"
        }
    "#;

    let v: serde_json::Value = serde_json::from_str(data).unwrap();
    let drink_json = DrinkJSON {
        name: v.get("name").unwrap().as_str().unwrap().to_string(),
        percent_milli: (v.get("percent").unwrap().as_f64().unwrap() * 1000.0).round() as u64,
        picograms: (v.get("grams").unwrap().as_f64().unwrap() * 1e12).round() as u64,
        datetime_rfc2822: v.get("datetime_rfc2822").unwrap().as_str().unwrap().to_string(),
    };
    let drink: Drink = drink_json.as_drink().unwrap();
    assert_eq!(drink.name, "Bud");
    assert_eq!(drink.percent_milli, 5_000);
    assert_eq!(drink.mass.picograms, 100_000_000_000_000);
    assert_eq!(drink.timestamp_secs, 1424301369);
}

//! A single consumption event, its persisted record, and the static
//! legal-limit table.

use vstd::prelude::*;
use vstd::arithmetic::div_mod::lemma_div_by_multiple;
use vstd::arithmetic::div_mod::lemma_div_is_ordered;
use vstd::arithmetic::mul::lemma_mul_inequality;
use vstd::arithmetic::mul::lemma_mul_is_commutative;
use vstd::string::StringExecFns;

use crate::error::Error;
use crate::timestamp::MAX_RFC2822_SECS;
use crate::timestamp::format_rfc2822;
use crate::timestamp::now_seconds;
use crate::timestamp::parse_rfc2822_seconds;
use crate::timestamp::rfc2822_of;
use crate::timestamp::rfc2822_timestamp;
use crate::units::Mass;
use crate::units::PICOGRAMS_PER_OUNCE;

verus! {

/// Alcohol percentage of a standard beer, in thousandths of a percent
/// (5 percent).
pub const BEER_PERCENT_MILLI: u64 = 5_000;

/// Mass of a standard beer: twelve ounces, in ounces.
pub const BEER_MASS_OUNCES: u64 = 12;

/// Mass of pure alcohol in a standard beer, in picograms:
/// twelve ounces at five percent.
pub const BEER_ALCOHOL_PG: u64 = 17_009_713_875_000;

/// An alcohol percentage is held in thousandths of a percent, so one
/// hundred percent is 100_000.
pub const PERCENT_MILLI_MAX: u64 = 100_000;

/// Holds data about an alcoholic drink.
#[derive(Debug)]
pub struct Drink {
    /// Name of the drink, for logging only.
    pub name: String,
    /// Alcohol percentage by volume, in thousandths of a percent;
    /// at most `PERCENT_MILLI_MAX`.
    pub percent_milli: u64,
    /// Mass of the liquid consumed.
    pub mass: Mass,
    /// When the drink was consumed: seconds since the Unix epoch, UTC.
    pub timestamp_secs: i64,
}

/// The mass of pure alcohol in a drink, in picograms:
/// mass times percent / 100, rounded down to a picogram.
pub open spec fn spec_alcohol_pg(d: Drink) -> int {
    d.mass.picograms * d.percent_milli / (PERCENT_MILLI_MAX as int)
}

/// Elapsed time in thousandths of an hour for an elapsed number of
/// seconds, rounded towards zero.
pub open spec fn spec_milli_hours_of_secs(secs: int) -> int {
    if secs >= 0 {
        secs * 1000 / 3600
    } else {
        -((-secs) * 1000 / 3600)
    }
}

/// Elapsed time in thousandths of an hour between a drink's timestamp
/// and a query instant, rounded towards zero; negative when the
/// timestamp lies in the future.
pub open spec fn spec_elapsed_milli_hours(ts: i64, now: i64) -> int {
    spec_milli_hours_of_secs(now - ts)
}

impl Drink {
    /// A drink is well formed when its percentage is at most 100.
    pub open spec fn wf(&self) -> bool {
        self.percent_milli <= PERCENT_MILLI_MAX
    }

    /// Create a drink consumed now, where `name` is the name of the
    /// drink (for logging purposes), `percent_milli` its alcohol
    /// percentage in thousandths of a percent, and `mass` the mass of
    /// the liquid (e.g. twelve ounces).
    pub fn new(name: &str, percent_milli: u64, mass: Mass) -> (r: Drink)
        requires
            percent_milli <= PERCENT_MILLI_MAX,
        ensures
            r.name@ == name@,
            r.percent_milli == percent_milli,
            r.mass == mass,
            0 <= r.timestamp_secs,
            r.wf(),
    {
        Drink { name: name.to_owned(), percent_milli, mass, timestamp_secs: now_seconds() }
    }

    /// Create a drink consumed at an explicit instant, given as seconds
    /// since the Unix epoch; used for back-dating and for rehydration.
    pub fn new_with_date(name: &str, percent_milli: u64, mass: Mass, timestamp_secs: i64) -> (r:
        Drink)
        requires
            percent_milli <= PERCENT_MILLI_MAX,
        ensures
            r.name@ == name@,
            r.percent_milli == percent_milli,
            r.mass == mass,
            r.timestamp_secs == timestamp_secs,
            r.wf(),
    {
        Drink { name: name.to_owned(), percent_milli, mass, timestamp_secs }
    }

    /// Create a drink as a common beer: five percent alcohol, twelve
    /// ounces, consumed now.
    pub fn from_beer(name: &str) -> (r: Drink)
        ensures
            r.name@ == name@,
            r.percent_milli == BEER_PERCENT_MILLI,
            r.mass.picograms == BEER_MASS_OUNCES * PICOGRAMS_PER_OUNCE,
            0 <= r.timestamp_secs,
            r.wf(),
    {
        Drink {
            name: name.to_owned(),
            percent_milli: BEER_PERCENT_MILLI,
            mass: Mass::from_ounces(BEER_MASS_OUNCES),
            timestamp_secs: now_seconds(),
        }
    }

    /// The mass of pure alcohol in the drink: mass times percent / 100,
    /// rounded down to a picogram.
    pub fn alcohol_mass(&self) -> (r: Mass)
        requires
            self.wf(),
        ensures
            r.picograms == spec_alcohol_pg(*self),
    {
        let m: u128 = self.mass.picograms as u128;
        let p: u128 = self.percent_milli as u128;
        proof {
            lemma_mul_inequality(p as int, PERCENT_MILLI_MAX as int, m as int);
            lemma_mul_is_commutative(p as int, m as int);
            lemma_mul_is_commutative(PERCENT_MILLI_MAX as int, m as int);
            lemma_div_is_ordered(
                m as int * p as int,
                m as int * PERCENT_MILLI_MAX as int,
                PERCENT_MILLI_MAX as int,
            );
            lemma_div_by_multiple(m as int, PERCENT_MILLI_MAX as int);
        }
        let a: u128 = m * p / (PERCENT_MILLI_MAX as u128);
        Mass::from_picograms(a as u64)
    }

    /// Elapsed time from the drink's timestamp to the instant `now`, in
    /// thousandths of an hour, rounded towards zero; negative when the
    /// timestamp lies in the future of `now`.
    pub fn elapsed_milli_hours_at(&self, now: i64) -> (r: i64)
        ensures
            r == spec_elapsed_milli_hours(self.timestamp_secs, now),
    {
        let now_w: i128 = now as i128;
        let ts_w: i128 = self.timestamp_secs as i128;
        if now_w >= ts_w {
            let secs: u128 = (now_w - ts_w) as u128;
            let mh: u128 = secs * 1000 / 3600;
            proof {
                lemma_mul_inequality(secs as int, u64::MAX as int + 1, 1000);
                lemma_div_is_ordered(secs as int * 1000, (u64::MAX as int + 1) * 1000, 3600);
            }
            mh as i64
        } else {
            let secs: u128 = (ts_w - now_w) as u128;
            let mh: u128 = secs * 1000 / 3600;
            proof {
                lemma_mul_inequality(secs as int, u64::MAX as int + 1, 1000);
                lemma_div_is_ordered(secs as int * 1000, (u64::MAX as int + 1) * 1000, 3600);
            }
            -(mh as i64)
        }
    }

    /// Elapsed time from the drink's timestamp to the clock's present
    /// instant, in thousandths of an hour, rounded towards zero.
    pub fn hours_ago(&self) -> (r: i64)
        ensures
            exists|now: i64|
                #![auto]
                0 <= now && r == spec_elapsed_milli_hours(self.timestamp_secs, now),
    {
        let now = now_seconds();
        let r = self.elapsed_milli_hours_at(now);
        proof {
            assert(0 <= now && r == spec_elapsed_milli_hours(self.timestamp_secs, now));
        }
        r
    }

    /// The persisted record of this drink.
    ///
    /// Rehydrating the produced record yields this drink back exactly.
    pub fn to_json(&self) -> (r: DrinkJSON)
        requires
            self.wf(),
            0 <= self.timestamp_secs <= MAX_RFC2822_SECS,
        ensures
            r.name@ == self.name@,
            r.percent_milli == self.percent_milli,
            r.picograms == self.mass.picograms,
            r.datetime_rfc2822@ == rfc2822_of(self.timestamp_secs),
            spec_as_drink(r) == Ok::<Drink, Error>(*self),
    {
        DrinkJSON {
            name: self.name.clone(),
            percent_milli: self.percent_milli,
            picograms: self.mass.picograms,
            datetime_rfc2822: format_rfc2822(self.timestamp_secs),
        }
    }
}

/// The persisted record of a drink.
///
/// The liquid mass is held in picograms and the percentage in
/// thousandths of a percent where the on-disk format holds floating
/// grams and percent; the persistence adapter converts between the two.
#[derive(Debug)]
pub struct DrinkJSON {
    /// Name of the drink.
    pub name: String,
    /// Alcohol percentage by volume, in thousandths of a percent.
    pub percent_milli: u64,
    /// Mass of the liquid, in picograms.
    pub picograms: u64,
    /// When the drink was consumed, as an RFC-2822 date-and-time string.
    pub datetime_rfc2822: String,
}

/// What rehydrating a drink record yields: the drink, or
/// `MalformedTimestamp` when the timestamp string does not parse, or
/// `InvalidDrinkData` when the percentage is above 100.
pub open spec fn spec_as_drink(rec: DrinkJSON) -> Result<Drink, Error> {
    match rfc2822_timestamp(rec.datetime_rfc2822@) {
        None => Err(Error::MalformedTimestamp),
        Some(t) => if rec.percent_milli > PERCENT_MILLI_MAX {
            Err(Error::InvalidDrinkData)
        } else {
            Ok(
                Drink {
                    name: rec.name,
                    percent_milli: rec.percent_milli,
                    mass: Mass { picograms: rec.picograms },
                    timestamp_secs: t,
                },
            )
        },
    }
}

impl DrinkJSON {
    /// Rehydrate the drink held in this record.
    ///
    /// Returns the drink exactly when the timestamp string parses as
    /// RFC 2822 and the percentage is at most 100; returns
    /// `MalformedTimestamp` or `InvalidDrinkData` otherwise.
    pub fn as_drink(self) -> (r: Result<Drink, Error>)
        ensures
            r == spec_as_drink(self),
            r is Ok ==> r->Ok_0.wf(),
    {
        let ts = match parse_rfc2822_seconds(self.datetime_rfc2822.as_str()) {
            Some(t) => t,
            None => {
                return Err(Error::MalformedTimestamp);
            },
        };
        if self.percent_milli > PERCENT_MILLI_MAX {
            return Err(Error::InvalidDrinkData);
        }
        Ok(
            Drink {
                name: self.name,
                percent_milli: self.percent_milli,
                mass: Mass::from_picograms(self.picograms),
                timestamp_secs: ts,
            },
        )
    }
}

/// The legal driving limit of a country, in micro-points of BAC:
/// the fixed table China 0.02, United States 0.02, Japan 0.03,
/// India 0.03, matched exactly and case-sensitively.
pub open spec fn spec_limit_for(country: Seq<char>) -> Option<u64> {
    if country == "China"@ {
        Some(20_000u64)
    } else if country == "United States"@ {
        Some(20_000u64)
    } else if country == "Japan"@ {
        Some(30_000u64)
    } else if country == "India"@ {
        Some(30_000u64)
    } else {
        None
    }
}

/// The fixed legal-limit table, as pairs of country name and limit in
/// micro-points of BAC.
pub fn legal_limits() -> (r: Vec<(String, u64)>)
    ensures
        r@.len() == 4,
        r@[0].0@ == "China"@ && r@[0].1 == 20_000,
        r@[1].0@ == "United States"@ && r@[1].1 == 20_000,
        r@[2].0@ == "Japan"@ && r@[2].1 == 30_000,
        r@[3].0@ == "India"@ && r@[3].1 == 30_000,
        forall|i: int|
            0 <= i < 4 ==> #[trigger] spec_limit_for(r@[i].0@) == Some(r@[i].1),
{
    let mut limits: Vec<(String, u64)> = Vec::new();
    limits.push((String::from_str("China"), 20_000));
    limits.push((String::from_str("United States"), 20_000));
    limits.push((String::from_str("Japan"), 30_000));
    limits.push((String::from_str("India"), 30_000));
    proof {
        reveal_strlit("China");
        reveal_strlit("United States");
        reveal_strlit("Japan");
        reveal_strlit("India");
        assert("China"@.len() == 5);
        assert("United States"@.len() == 13);
        assert("Japan"@.len() == 5);
        assert("India"@.len() == 5);
        assert("China"@[0] == 'C' && "Japan"@[0] == 'J' && "India"@[0] == 'I');
        assert(spec_limit_for(limits@[0].0@) == Some(20_000u64));
        assert(spec_limit_for(limits@[1].0@) == Some(20_000u64));
        assert(spec_limit_for(limits@[2].0@) == Some(30_000u64));
        assert(spec_limit_for(limits@[3].0@) == Some(30_000u64));
    }
    limits
}

/// Look up a country's legal driving limit, in micro-points of BAC.
///
/// Exact string match, case-sensitive; countries outside the table get
/// `None`.
pub fn limit_for(country: &str) -> (r: Option<u64>)
    ensures
        r == spec_limit_for(country@),
{
    let c = country.to_owned();
    if c == String::from_str("China") {
        Some(20_000)
    } else if c == String::from_str("United States") {
        Some(20_000)
    } else if c == String::from_str("Japan") {
        Some(30_000)
    } else if c == String::from_str("India") {
        Some(30_000)
    } else {
        None
    }
}

} // verus!

//! The BAC engine: a session of one person and their ordered drink log,
//! the Widmark-formula evaluator, and the queries derived from it.
//!
//! The Widmark formula is `A / (r * Wt) - beta * T`, where
//! - `A` is the total mass of alcohol consumed,
//! - `r` is the body-water ratio of the drinker,
//! - `Wt` is the drinker's body weight,
//! - `beta` is the rate at which alcohol is metabolized, and
//! - `T` is the time since consumption began, anchored on the first
//!   logged drink.
//!
//! BAC values are held in micro-points: millionths of a BAC percentage
//! point. With masses in picograms and the ratio in hundredths, the
//! intake term in micro-points is `A * 10^10 / (r_centi * Wt)`.

use vstd::prelude::*;
use vstd::arithmetic::div_mod::lemma_div_is_ordered;
use vstd::arithmetic::div_mod::lemma_fundamental_div_mod_converse;
use vstd::arithmetic::div_mod::lemma_div_is_ordered_by_denominator;
use vstd::arithmetic::div_mod::lemma_div_non_zero;
use vstd::arithmetic::div_mod::lemma_div_of0;
use vstd::arithmetic::div_mod::lemma_fundamental_div_mod;
use vstd::arithmetic::div_mod::lemma_div_by_multiple;
use vstd::arithmetic::div_mod::lemma_hoist_over_denominator;
use vstd::arithmetic::div_mod::lemma_multiply_divide_lt;
use vstd::arithmetic::div_mod::lemma_div_pos_is_pos;
use vstd::arithmetic::mul::lemma_mul_inequality;
use vstd::arithmetic::mul::lemma_mul_is_commutative;
use vstd::arithmetic::mul::lemma_mul_nonnegative;
use vstd::arithmetic::mul::lemma_mul_strictly_positive;
use vstd::arithmetic::mul::lemma_mul_upper_bound;

use vstd::string::StringExecFns;

use crate::drink::BEER_ALCOHOL_PG;
use crate::drink::BEER_MASS_OUNCES;
use crate::drink::BEER_PERCENT_MILLI;
use crate::drink::DrinkJSON;
use crate::drink::spec_as_drink;
use crate::error::Error;
use crate::person::PersonJSON;
use crate::person::spec_as_person;
use crate::timestamp::MAX_RFC2822_SECS;
use crate::drink::Drink;
use crate::drink::spec_alcohol_pg;
use crate::person::Gender;
use crate::person::Person;
use crate::person::spec_body_water_centi;
use crate::person::spec_metabolic_micro;
use crate::units::Mass;
use crate::timestamp::now_seconds;
use crate::units::PICOGRAMS_PER_KILOGRAM;
use crate::units::PICOGRAMS_PER_OUNCE;

verus! {

/// Factor taking picograms of alcohol per (centi-ratio times picograms
/// of body weight) to micro-points of BAC: 100 to percent, times 100
/// for the ratio held in hundredths, times one million to micro-points.
pub const BAC_SCALE: u128 = 10_000_000_000;

/// Total mass of pure alcohol over a drink log, in picograms.
pub open spec fn spec_total_alcohol_pg(drinks: Seq<Drink>) -> int
    decreases drinks.len(),
{
    if drinks.len() == 0 {
        0
    } else {
        spec_total_alcohol_pg(drinks.drop_last()) + spec_alcohol_pg(drinks.last())
    }
}

/// The total mass of alcohol is never negative.
pub proof fn lemma_total_alcohol_nonneg(drinks: Seq<Drink>)
    ensures
        spec_total_alcohol_pg(drinks) >= 0,
    decreases drinks.len(),
{
    if drinks.len() > 0 {
        lemma_total_alcohol_nonneg(drinks.drop_last());
        lemma_mul_nonnegative(
            drinks.last().mass.picograms as int,
            drinks.last().percent_milli as int,
        );
        lemma_div_pos_is_pos(
            drinks.last().mass.picograms * drinks.last().percent_milli,
            100_000,
        );
    }
}

/// The intake term of the Widmark formula, in micro-points of BAC:
/// alcohol mass over (body-water ratio times body weight), rounded down
/// to a micro-point.
pub open spec fn spec_intake_micro(a_pg: int, r_centi: int, wt_pg: int) -> int {
    a_pg * (BAC_SCALE as int) / (r_centi * wt_pg)
}

/// The elimination term of the Widmark formula, in micro-points of BAC:
/// the metabolic rate times the elapsed time in seconds, rounded
/// towards zero; negative when the elapsed time is negative (a first
/// drink time-stamped in the future).
pub open spec fn spec_elimination_micro(beta_micro: int, secs: int) -> int {
    if secs >= 0 {
        beta_micro * secs / 3600
    } else {
        -(beta_micro * (-secs) / 3600)
    }
}

/// The Widmark formula in micro-points of BAC: intake minus
/// elimination. Not clamped at zero: after enough elapsed time the
/// value goes negative, which consumers read as fully sober.
pub open spec fn spec_widmark_micro(
    a_pg: int,
    r_centi: int,
    wt_pg: int,
    beta_micro: int,
    secs: int,
) -> int {
    spec_intake_micro(a_pg, r_centi, wt_pg) - spec_elimination_micro(beta_micro, secs)
}

/// The Widmark formula as the engine evaluates it: exact up to an
/// astronomic total of alcohol (above three hundred billion kilograms
/// the scaled numerator leaves `u128` and the engine pins the result to
/// `i128::MAX`).
pub open spec fn spec_capped_bac_micro(
    a_pg: int,
    r_centi: int,
    wt_pg: int,
    beta_micro: int,
    secs: int,
) -> int {
    if a_pg * (BAC_SCALE as int) <= u128::MAX {
        spec_widmark_micro(a_pg, r_centi, wt_pg, beta_micro, secs)
    } else {
        i128::MAX as int
    }
}

/// The BAC of a session at the instant `now` (seconds since the Unix
/// epoch), in micro-points: zero for an empty log, and otherwise the
/// Widmark formula over the summed alcohol mass, with the elapsed time
/// anchored on the first logged drink.
pub open spec fn spec_session_bac_micro(drinks: Seq<Drink>, person: Person, now: int) -> int {
    if drinks.len() == 0 {
        0
    } else {
        spec_capped_bac_micro(
            spec_total_alcohol_pg(drinks),
            spec_body_water_centi(person.gender) as int,
            person.weight.picograms as int,
            spec_metabolic_micro(person.gender) as int,
            now - drinks[0].timestamp_secs,
        )
    }
}

/// Blood Alcohol Concentration: a session of one person and their
/// ordered drink log.
#[derive(Debug)]
pub struct BAC {
    pub drinks: Vec<Drink>,
    pub person: Person,
}

/// The BAC of a session at a query instant, in micro-points.
pub open spec fn spec_bac_at(b: BAC, now: i64) -> int {
    spec_session_bac_micro(b.drinks@, b.person, now as int)
}

impl BAC {
    /// A session is well formed when the person's weight is positive
    /// and no logged percentage is above 100.
    pub open spec fn wf(&self) -> bool {
        &&& self.person.wf()
        &&& forall|i: int| 0 <= i < self.drinks@.len() ==> (#[trigger] self.drinks@[i]).wf()
    }

    /// Make a new session from an ordered drink log and a person.
    pub fn new(drinks: Vec<Drink>, person: Person) -> (r: BAC)
        ensures
            r.drinks == drinks,
            r.person == person,
    {
        BAC { drinks, person }
    }

    /// Make a new session with an empty drink log; a missing person
    /// defaults to a male weighing 60 kilograms.
    pub fn with_person(person: Option<Person>) -> (r: BAC)
        ensures
            r.drinks@.len() == 0,
            match person {
                Some(p) => r.person == p,
                None => r.person.gender == Gender::Male && r.person.weight.picograms == 60
                    * PICOGRAMS_PER_KILOGRAM,
            },
            (match person {
                Some(p) => p.wf(),
                None => true,
            }) ==> r.wf(),
    {
        let p = match person {
            Some(p) => p,
            None => Person::new(Gender::Male, 60),
        };
        BAC { drinks: Vec::new(), person: p }
    }

    /// Add a drink to the session's log.
    pub fn push_drink(&mut self, drink: Drink)
        ensures
            final(self).drinks@ == old(self).drinks@.push(drink),
            final(self).person == old(self).person,
    {
        self.drinks.push(drink);
    }

    /// Specify a drink, consumed now, to add to the session's log.
    pub fn new_drink(&mut self, name: &str, percent_milli: u64, mass: Mass)
        requires
            percent_milli <= 100_000,
        ensures
            final(self).person == old(self).person,
            exists|d: Drink|
                #![auto]
                final(self).drinks@ == old(self).drinks@.push(d) && d.name@ == name@
                    && d.percent_milli == percent_milli && d.mass == mass && 0 <= d.timestamp_secs
                    && d.wf(),
    {
        let d = Drink::new(name, percent_milli, mass);
        let ghost gd = d;
        self.push_drink(d);
        proof {
            assert(self.drinks@ == old(self).drinks@.push(gd) && gd.name@ == name@
                && gd.percent_milli == percent_milli && gd.mass == mass && 0 <= gd.timestamp_secs
                && gd.wf());
        }
    }

    /// The first drink the user has had in the session: the oldest log
    /// entry, which anchors the elapsed-time term.
    pub fn first_drink(&self) -> (r: Option<&Drink>)
        ensures
            match r {
                Some(d) => self.drinks@.len() > 0 && *d == self.drinks@[0],
                None => self.drinks@.len() == 0,
            },
    {
        if self.drinks.len() == 0 {
            None
        } else {
            Some(&self.drinks[0])
        }
    }

    /// The number of drinks the user has had.
    pub fn drink_len(&self) -> (r: usize)
        ensures
            r == self.drinks@.len(),
    {
        self.drinks.len()
    }

    /// The session's BAC at the instant `now_secs` (seconds since the
    /// Unix epoch), in micro-points of BAC: zero for an empty log, and
    /// otherwise the Widmark formula with the elapsed time anchored on
    /// the first logged drink. Not clamped at zero.
    pub fn current_bac(&self, now_secs: i64) -> (r: i128)
        requires
            self.wf(),
        ensures
            r == spec_bac_at(*self, now_secs),
            self.drinks@.len() == 0 ==> r == 0,
    {
        let n = self.drinks.len();
        if n == 0 {
            return 0;
        }
        let mut total: u128 = 0;
        let mut i: usize = 0;
        while i < n
            invariant
                self.wf(),
                n == self.drinks@.len(),
                0 <= i <= n,
                total == spec_total_alcohol_pg(self.drinks@.take(i as int)),
                total <= i * (u64::MAX as int),
            decreases n - i,
        {
            let a = self.drinks[i].alcohol_mass().as_picograms();
            proof {
                assert(self.drinks@.take(i + 1 as int).drop_last() =~= self.drinks@.take(i as int));
                assert(self.drinks@.take(i + 1 as int).last() == self.drinks@[i as int]);
                lemma_mul_inequality(i + 1 as int, n as int, u64::MAX as int);
            }
            total = total + (a as u128);
            i = i + 1;
        }
        proof {
            assert(self.drinks@.take(n as int) =~= self.drinks@);
        }
        let r_centi = self.person.gender.body_water_ratio();
        let wt_pg = self.person.weight.as_picograms();
        let beta = self.person.gender.metabolic_rate();
        let intake: i128 = match total.checked_mul(BAC_SCALE) {
            Some(prod) => {
                proof {
                    lemma_mul_strictly_positive(r_centi as int, wt_pg as int);
                    lemma_mul_inequality(1, wt_pg as int, r_centi as int);
                    lemma_mul_is_commutative(wt_pg as int, r_centi as int);
                    lemma_div_is_ordered_by_denominator(
                        prod as int,
                        55,
                        r_centi as int * wt_pg as int,
                    );
                    lemma_div_pos_is_pos(prod as int, r_centi as int * wt_pg as int);
                }
                let d: u128 = (r_centi as u128) * (wt_pg as u128);
                let q: u128 = prod / d;
                q as i128
            },
            None => {
                return i128::MAX;
            },
        };
        let t0 = self.drinks[0].timestamp_secs;
        let now_w: i128 = now_secs as i128;
        let t0_w: i128 = t0 as i128;
        if now_w >= t0_w {
            let secs: u128 = (now_w - t0_w) as u128;
            proof {
                lemma_mul_upper_bound(beta as int, 17_000, secs as int, u64::MAX as int + 1);
                lemma_div_is_ordered(
                    beta as int * secs as int,
                    17_000 * (u64::MAX as int + 1),
                    3600,
                );
                lemma_div_pos_is_pos(beta as int * secs as int, 3600);
                lemma_mul_nonnegative(beta as int, secs as int);
            }
            let em: u128 = (beta as u128) * secs / 3600;
            intake - (em as i128)
        } else {
            let secs: u128 = (t0_w - now_w) as u128;
            proof {
                lemma_mul_upper_bound(beta as int, 17_000, secs as int, u64::MAX as int + 1);
                lemma_div_is_ordered(
                    beta as int * secs as int,
                    17_000 * (u64::MAX as int + 1),
                    3600,
                );
                lemma_div_pos_is_pos(beta as int * secs as int, 3600);
                lemma_mul_nonnegative(beta as int, secs as int);
            }
            let em: u128 = (beta as u128) * secs / 3600;
            intake + (em as i128)
        }
    }

    /// The session's BAC at the clock's present instant, in
    /// micro-points of BAC.
    pub fn as_float(&self) -> (r: i128)
        requires
            self.wf(),
        ensures
            exists|now: i64| #![auto] 0 <= now && r == spec_bac_at(*self, now),
            self.drinks@.len() == 0 ==> r == 0,
    {
        let now = now_seconds();
        let r = self.current_bac(now);
        proof {
            assert(0 <= now && r == spec_bac_at(*self, now));
        }
        r
    }

    /// The BAC contribution of one standard beer (five percent, twelve
    /// ounces) for this session's person, in micro-points of BAC.
    ///
    /// This is the BAC of a synthetic single-drink session holding one
    /// fresh beer, queried at the beer's own creation instant, so its
    /// elimination term is zero and only the intake term of one beer
    /// remains; `lemma_one_beer_session_bac` states that equivalence.
    pub fn beer_ac(&self) -> (r: i128)
        requires
            self.person.wf(),
        ensures
            r == spec_intake_micro(
                BEER_ALCOHOL_PG as int,
                spec_body_water_centi(self.person.gender) as int,
                self.person.weight.picograms as int,
            ),
            r >= 1,
    {
        let r_centi = self.person.gender.body_water_ratio();
        let wt_pg = self.person.weight.as_picograms();
        proof {
            lemma_mul_upper_bound(r_centi as int, 100, wt_pg as int, u64::MAX as int);
        }
        intake_micro(BEER_ALCOHOL_PG, r_centi, wt_pg)
    }

    /// Invert the elimination term: how long until the given BAC delta
    /// (in micro-points, non-negative) has been metabolized, as whole
    /// hours and remainder minutes. Hours round down; minutes round to
    /// the nearest whole minute, halves up, so they can reach 60.
    pub fn hours_until(&self, delta_micro: i128) -> (r: (u128, u64))
        requires
            0 <= delta_micro,
        ensures
            r.0 == spec_whole_hours(
                delta_micro as int,
                spec_metabolic_micro(self.person.gender) as int,
            ),
            r.1 == spec_rem_minutes(
                delta_micro as int,
                spec_metabolic_micro(self.person.gender) as int,
            ),
            r.1 <= 60,
    {
        let beta = self.person.gender.metabolic_rate();
        let d: u128 = delta_micro as u128;
        let b: u128 = beta as u128;
        let h: u128 = d / b;
        let rem: u128 = d % b;
        proof {
            lemma_fundamental_div_mod_converse(
                121 * (b as int),
                2 * (b as int),
                60,
                b as int,
            );
            lemma_div_is_ordered(120 * (rem as int) + b as int, 121 * (b as int), 2 * (b as int));
        }
        let m: u128 = (120 * rem + b) / (2 * b);
        (h, m as u64)
    }
}

/// The intake term of the Widmark formula, in micro-points of BAC, for
/// an alcohol mass that fits a `u64`.
fn intake_micro(a_pg: u64, r_centi: u64, wt_pg: u64) -> (r: i128)
    requires
        1 <= wt_pg,
        55 <= r_centi <= 100,
        1 <= a_pg,
    ensures
        r == spec_intake_micro(a_pg as int, r_centi as int, wt_pg as int),
        r >= 0,
        a_pg as int * (BAC_SCALE as int) >= r_centi as int * wt_pg as int ==> r >= 1,
{
    proof {
        lemma_mul_strictly_positive(r_centi as int, wt_pg as int);
        lemma_mul_inequality(1, wt_pg as int, r_centi as int);
        lemma_mul_is_commutative(wt_pg as int, r_centi as int);
        lemma_mul_upper_bound(r_centi as int, 100, wt_pg as int, u64::MAX as int);
        lemma_div_pos_is_pos(a_pg as int * (BAC_SCALE as int), r_centi as int * wt_pg as int);
        lemma_div_is_ordered_by_denominator(
            a_pg as int * (BAC_SCALE as int),
            55,
            r_centi as int * wt_pg as int,
        );
        if a_pg as int * (BAC_SCALE as int) >= r_centi as int * wt_pg as int {
            lemma_div_non_zero(a_pg as int * (BAC_SCALE as int), r_centi as int * wt_pg as int);
        }
    }
    let prod: u128 = (a_pg as u128) * BAC_SCALE;
    let d: u128 = (r_centi as u128) * (wt_pg as u128);
    let q: u128 = prod / d;
    q as i128
}

/// Whole hours until a BAC delta (micro-points) is metabolized at the
/// rate `beta` (micro-points per hour), rounded down.
pub open spec fn spec_whole_hours(delta: int, beta: int) -> int {
    delta / beta
}

/// Remainder minutes past the whole hours until a BAC delta
/// (micro-points) is metabolized at the rate `beta` (micro-points per
/// hour), rounded to the nearest minute with halves up.
pub open spec fn spec_rem_minutes(delta: int, beta: int) -> int {
    (120 * (delta % beta) + beta) / (2 * beta)
}

/// Thousandths of an hour until a BAC value (micro-points) is
/// metabolized at the rate `beta` (micro-points per hour), rounded
/// towards zero; negative for a negative BAC.
pub open spec fn spec_milli_hours_to_zero(bac: int, beta: int) -> int {
    if bac >= 0 {
        bac * 1000 / beta
    } else {
        -((-bac) * 1000 / beta)
    }
}

/// For a well-formed session the BAC in micro-points never falls below
/// minus 10^20: the intake term is never negative, and the elimination
/// term is bounded by the metabolic rate over the span of `i64`
/// timestamps.
pub proof fn lemma_bac_lower_bound(b: BAC, now: i64)
    requires
        b.wf(),
    ensures
        spec_bac_at(b, now) >= -100_000_000_000_000_000_000,
{
    if b.drinks@.len() > 0 {
        let a = spec_total_alcohol_pg(b.drinks@);
        lemma_total_alcohol_nonneg(b.drinks@);
        let rc = spec_body_water_centi(b.person.gender) as int;
        let wt = b.person.weight.picograms as int;
        let beta = spec_metabolic_micro(b.person.gender) as int;
        let secs = now - b.drinks@[0].timestamp_secs;
        if a * (BAC_SCALE as int) <= u128::MAX {
            lemma_mul_strictly_positive(rc, wt);
            lemma_mul_nonnegative(a, BAC_SCALE as int);
            lemma_div_pos_is_pos(a * (BAC_SCALE as int), rc * wt);
            if secs >= 0 {
                lemma_mul_upper_bound(beta, 17_000, secs, 0x2_0000_0000_0000_0000 as int);
                lemma_div_is_ordered(beta * secs, 17_000 * (0x2_0000_0000_0000_0000 as int), 3600);
            } else {
                lemma_mul_nonnegative(beta, -secs);
                lemma_div_pos_is_pos(beta * (-secs), 3600);
            }
        }
    }
}

/// `mag * 1000 / beta`, computed without leaving `u128`.
fn scaled_milli_div(mag: u128, beta: u64) -> (r: u128)
    requires
        1000 <= beta,
        mag <= i128::MAX,
    ensures
        r == mag as int * 1000 / (beta as int),
        r <= mag,
{
    let b: u128 = beta as u128;
    let q: u128 = mag / b;
    let rem: u128 = mag % b;
    proof {
        lemma_fundamental_div_mod(mag as int, b as int);
        lemma_fundamental_div_mod(mag as int, 1000);
        lemma_div_is_ordered_by_denominator(mag as int, 1000, b as int);
        assert((rem as int) * 1000 + ((q as int) * 1000) * (b as int) == (mag as int)
            * 1000) by (nonlinear_arith)
            requires
                (mag as int) == (b as int) * (q as int) + (rem as int),
        ;
        lemma_hoist_over_denominator((rem as int) * 1000, (q as int) * 1000, beta as nat);
        lemma_div_is_ordered_by_denominator((mag as int) * 1000, 1000, b as int);
        lemma_div_by_multiple(mag as int, 1000);
        lemma_mul_is_commutative(mag as int, 1000);
    }
    q * 1000 + rem * 1000 / b
}

impl BAC {
    /// The number of hours needed to reach a zero BAC from the clock's
    /// present reading, in thousandths of an hour, rounded towards
    /// zero; negative when the session is already past sober.
    pub fn hours_till_0(&self) -> (r: i128)
        requires
            self.wf(),
        ensures
            exists|now: i64|
                #![auto]
                0 <= now && r == spec_milli_hours_to_zero(
                    spec_bac_at(*self, now),
                    spec_metabolic_micro(self.person.gender) as int,
                ),
    {
        let bac = self.as_float();
        let ghost gnow = choose|now: i64| 0 <= now && bac == spec_bac_at(*self, now);
        proof {
            lemma_bac_lower_bound(*self, gnow);
        }
        let beta = self.person.gender.metabolic_rate();
        let r: i128 = if bac >= 0 {
            let mh = scaled_milli_div(bac as u128, beta);
            mh as i128
        } else {
            let mag: u128 = (-bac) as u128;
            let mh = scaled_milli_div(mag, beta);
            -(mh as i128)
        };
        proof {
            assert(0 <= gnow && r == spec_milli_hours_to_zero(
                spec_bac_at(*self, gnow),
                spec_metabolic_micro(self.person.gender) as int,
            ));
        }
        r
    }
}

/// Holding the person and a non-negative elapsed time fixed, the BAC is
/// monotonically non-decreasing in the total alcohol mass.
pub proof fn lemma_bac_monotone_in_alcohol(
    a1: int,
    a2: int,
    r_centi: int,
    wt_pg: int,
    beta_micro: int,
    secs: int,
)
    requires
        0 <= a1 <= a2,
        r_centi == 55 || r_centi == 68,
        1 <= wt_pg,
        0 <= beta_micro,
        0 <= secs,
    ensures
        spec_capped_bac_micro(a1, r_centi, wt_pg, beta_micro, secs) <= spec_capped_bac_micro(
            a2,
            r_centi,
            wt_pg,
            beta_micro,
            secs,
        ),
{
    lemma_mul_strictly_positive(r_centi, wt_pg);
    if a2 * (BAC_SCALE as int) <= u128::MAX {
        lemma_mul_inequality(a1, a2, BAC_SCALE as int);
        lemma_div_is_ordered(a1 * (BAC_SCALE as int), a2 * (BAC_SCALE as int), r_centi * wt_pg);
    } else if a1 * (BAC_SCALE as int) <= u128::MAX {
        lemma_mul_inequality(1, wt_pg, r_centi);
        lemma_mul_is_commutative(wt_pg, r_centi);
        lemma_mul_nonnegative(a1, BAC_SCALE as int);
        lemma_div_is_ordered_by_denominator(a1 * (BAC_SCALE as int), 55, r_centi * wt_pg);
        lemma_div_is_ordered(a1 * (BAC_SCALE as int), u128::MAX as int, 55);
        lemma_mul_nonnegative(beta_micro, secs);
        lemma_div_pos_is_pos(beta_micro * secs, 3600);
    }
}

/// Holding the person and the total alcohol mass fixed, the BAC is
/// monotonically non-increasing in the elapsed time.
pub proof fn lemma_bac_monotone_in_time(
    a: int,
    r_centi: int,
    wt_pg: int,
    beta_micro: int,
    secs1: int,
    secs2: int,
)
    requires
        0 <= a,
        1 <= r_centi,
        1 <= wt_pg,
        0 <= beta_micro,
        secs1 <= secs2,
    ensures
        spec_capped_bac_micro(a, r_centi, wt_pg, beta_micro, secs2) <= spec_capped_bac_micro(
            a,
            r_centi,
            wt_pg,
            beta_micro,
            secs1,
        ),
{
    if a * (BAC_SCALE as int) <= u128::MAX {
        if secs1 >= 0 {
            lemma_mul_inequality(secs1, secs2, beta_micro);
            lemma_mul_is_commutative(secs1, beta_micro);
            lemma_mul_is_commutative(secs2, beta_micro);
            lemma_div_is_ordered(beta_micro * secs1, beta_micro * secs2, 3600);
        } else if secs2 >= 0 {
            lemma_mul_nonnegative(beta_micro, -secs1);
            lemma_div_pos_is_pos(beta_micro * (-secs1), 3600);
            lemma_mul_nonnegative(beta_micro, secs2);
            lemma_div_pos_is_pos(beta_micro * secs2, 3600);
        } else {
            lemma_mul_inequality(-secs2, -secs1, beta_micro);
            lemma_mul_is_commutative(-secs2, beta_micro);
            lemma_mul_is_commutative(-secs1, beta_micro);
            lemma_div_is_ordered(beta_micro * (-secs2), beta_micro * (-secs1), 3600);
        }
    }
}

/// For a fixed person and drink log, the session BAC is monotonically
/// non-increasing as the query instant advances.
pub proof fn lemma_session_bac_monotone_in_time(
    drinks: Seq<Drink>,
    person: Person,
    now1: int,
    now2: int,
)
    requires
        person.wf(),
        now1 <= now2,
    ensures
        spec_session_bac_micro(drinks, person, now2) <= spec_session_bac_micro(
            drinks,
            person,
            now1,
        ),
{
    if drinks.len() > 0 {
        lemma_total_alcohol_nonneg(drinks);
        lemma_bac_monotone_in_time(
            spec_total_alcohol_pg(drinks),
            spec_body_water_centi(person.gender) as int,
            person.weight.picograms as int,
            spec_metabolic_micro(person.gender) as int,
            now1 - drinks[0].timestamp_secs,
            now2 - drinks[0].timestamp_secs,
        );
    }
}

/// For a fixed person and query instant not before the first drink,
/// a session with at least as much total alcohol, anchored on the same
/// first-drink instant, has at least as high a BAC.
pub proof fn lemma_session_bac_monotone_in_alcohol(
    drinks1: Seq<Drink>,
    drinks2: Seq<Drink>,
    person: Person,
    now: int,
)
    requires
        person.wf(),
        drinks1.len() > 0,
        drinks2.len() > 0,
        drinks1[0].timestamp_secs == drinks2[0].timestamp_secs,
        spec_total_alcohol_pg(drinks1) <= spec_total_alcohol_pg(drinks2),
        now >= drinks1[0].timestamp_secs,
    ensures
        spec_session_bac_micro(drinks1, person, now) <= spec_session_bac_micro(
            drinks2,
            person,
            now,
        ),
{
    lemma_total_alcohol_nonneg(drinks1);
    lemma_bac_monotone_in_alcohol(
        spec_total_alcohol_pg(drinks1),
        spec_total_alcohol_pg(drinks2),
        spec_body_water_centi(person.gender) as int,
        person.weight.picograms as int,
        spec_metabolic_micro(person.gender) as int,
        now - drinks1[0].timestamp_secs,
    );
}

/// How a session's BAC stands to a legal driving limit.
#[derive(Clone, Copy, Debug, PartialEq, Eq, Structural)]
pub enum LimitStatus {
    /// Under the limit: how far below, in micro-points, and how many
    /// standard beers (whole beers plus thousandths) would close the
    /// gap.
    Under { deficit_micro: i128, beers_whole: u128, beers_milli_frac: u64 },
    /// At or over the limit: how far above, in micro-points, and how
    /// long until complete sobriety and until legal to drive, each as
    /// whole hours and rounded minutes.
    Over {
        excess_micro: i128,
        sober_hours: u128,
        sober_minutes: u64,
        drive_hours: u128,
        drive_minutes: u64,
    },
}

impl BAC {
    /// Compare a BAC reading against a legal limit (both in
    /// micro-points) for this session's person.
    ///
    /// Under the limit, the gap is scaled by the BAC contribution of
    /// one standard beer into whole beers and thousandths of a beer.
    /// At or over the limit, the time to metabolize the whole reading
    /// (complete sobriety) and the time to metabolize the excess
    /// (legal to drive) are both given as whole hours and rounded
    /// minutes.
    pub fn limit_status(&self, bac_micro: i128, limit_micro: i64) -> (r: LimitStatus)
        requires
            self.person.wf(),
            0 <= limit_micro <= 1_000_000,
            i128::MIN + 2_000_000 <= bac_micro,
        ensures
            ({
                let beta = spec_metabolic_micro(self.person.gender) as int;
                let beer = spec_intake_micro(
                    BEER_ALCOHOL_PG as int,
                    spec_body_water_centi(self.person.gender) as int,
                    self.person.weight.picograms as int,
                );
                let diff = limit_micro - bac_micro;
                if diff > 0 {
                    r matches LimitStatus::Under { deficit_micro, beers_whole, beers_milli_frac }
                        && deficit_micro == diff && beers_whole == diff / beer
                        && beers_milli_frac == (diff % beer) * 1000 / beer
                } else {
                    r matches LimitStatus::Over {
                        excess_micro,
                        sober_hours,
                        sober_minutes,
                        drive_hours,
                        drive_minutes,
                    } && excess_micro == -diff && sober_hours == spec_whole_hours(
                        bac_micro as int,
                        beta,
                    ) && sober_minutes == spec_rem_minutes(bac_micro as int, beta)
                        && drive_hours == spec_whole_hours(-diff, beta) && drive_minutes
                        == spec_rem_minutes(-diff, beta)
                }
            }),
    {
        let r_centi = self.person.gender.body_water_ratio();
        let wt_pg = self.person.weight.as_picograms();
        proof {
            lemma_mul_upper_bound(r_centi as int, 100, wt_pg as int, u64::MAX as int);
        }
        let beer: i128 = intake_micro(BEER_ALCOHOL_PG, r_centi, wt_pg);
        let diff: i128 = (limit_micro as i128) - bac_micro;
        if diff > 0 {
            let d: u128 = diff as u128;
            let b: u128 = beer as u128;
            let whole: u128 = d / b;
            let rem: u128 = d % b;
            proof {
                lemma_multiply_divide_lt((rem as int) * 1000, b as int, 1000);
            }
            let frac: u128 = rem * 1000 / b;
            LimitStatus::Under {
                deficit_micro: diff,
                beers_whole: whole,
                beers_milli_frac: frac as u64,
            }
        } else {
            let excess: i128 = -diff;
            let (sober_hours, sober_minutes) = self.hours_until(bac_micro);
            let (drive_hours, drive_minutes) = self.hours_until(excess);
            LimitStatus::Over { excess_micro: excess, sober_hours, sober_minutes, drive_hours, drive_minutes }
        }
    }
}

/// The persisted record of a whole session: the drink records and the
/// person record.
#[derive(Debug)]
pub struct BacJSON {
    pub drinks: Vec<DrinkJSON>,
    pub person: PersonJSON,
}

impl BacJSON {
    /// Rehydrate the session held in this record.
    ///
    /// Fails on the first drink record that does not rehydrate, with
    /// that record's error, and otherwise on an invalid person record;
    /// no record is silently dropped or defaulted.
    #[verifier::loop_isolation(false)]
    #[verifier::rlimit(30)]
    pub fn as_bac(self) -> (r: Result<BAC, Error>)
        ensures
            match r {
                Ok(b) => {
                    &&& forall|i: int|
                        0 <= i < self.drinks@.len() ==> #[trigger] spec_as_drink(self.drinks@[i])
                            is Ok
                    &&& b.drinks@.len() == self.drinks@.len()
                    &&& forall|i: int|
                        0 <= i < self.drinks@.len() ==> #[trigger] b.drinks@[i] == spec_as_drink(
                            self.drinks@[i],
                        )->Ok_0
                    &&& spec_as_person(self.person) == Ok::<Person, Error>(b.person)
                    &&& b.wf()
                },
                Err(e) => {
                    ||| exists|i: int|
                        #![auto]
                        0 <= i < self.drinks@.len() && spec_as_drink(self.drinks@[i]) == Err::<
                            Drink,
                            Error,
                        >(e) && (forall|j: int|
                            0 <= j < i ==> #[trigger] spec_as_drink(self.drinks@[j]) is Ok)
                    ||| (forall|i: int|
                        0 <= i < self.drinks@.len() ==> #[trigger] spec_as_drink(self.drinks@[i])
                            is Ok) && spec_as_person(self.person) == Err::<Person, Error>(e)
                },
            },
    {
        let BacJSON { drinks, person } = self;
        let ghost orig = drinks@;
        proof {
            assert(orig == self.drinks@);
            assert(person == self.person);
        }
        let mut recs = drinks;
        let n_total = recs.len();
        let mut ds: Vec<Drink> = Vec::new();
        let mut i: usize = 0;
        while recs.len() > 0
            invariant
                n_total == orig.len(),
                orig.len() == i + recs@.len(),
                recs@ =~= orig.skip(i as int),
                ds@.len() == i,
                forall|j: int|
                    0 <= j < i ==> #[trigger] spec_as_drink(orig[j]) is Ok && ds@[j]
                        == spec_as_drink(orig[j])->Ok_0 && ds@[j].wf(),
            decreases recs@.len(),
        {
            let rec = recs.remove(0);
            proof {
                assert(rec == orig[i as int]);
                assert(recs@ =~= orig.skip(i as int + 1));
            }
            match rec.as_drink() {
                Ok(d) => {
                    ds.push(d);
                },
                Err(e) => {
                    proof {
                        assert(spec_as_drink(self.drinks@[i as int]) == Err::<Drink, Error>(e));
                        assert(exists|k: int|
                            #![auto]
                            0 <= k < self.drinks@.len() && spec_as_drink(self.drinks@[k]) == Err::<
                                Drink,
                                Error,
                            >(e) && (forall|j: int|
                                0 <= j < k ==> #[trigger] spec_as_drink(self.drinks@[j]) is Ok)) by {
                            assert((i as int) < self.drinks@.len());
                            assert(forall|j: int|
                                0 <= j < (i as int) ==> #[trigger] spec_as_drink(self.drinks@[j])
                                    is Ok);
                        }
                    }
                    return Err(e);
                },
            }
            i = i + 1;
        }
        match person.as_person() {
            Ok(p) => {
                let b = BAC { drinks: ds, person: p };
                proof {
                    assert(forall|i: int|
                        0 <= i < self.drinks@.len() ==> #[trigger] spec_as_drink(self.drinks@[i])
                            is Ok);
                    assert(b.drinks@.len() == self.drinks@.len());
                    assert(forall|i: int|
                        0 <= i < self.drinks@.len() ==> #[trigger] b.drinks@[i] == spec_as_drink(
                            self.drinks@[i],
                        )->Ok_0);
                    assert(spec_as_person(self.person) == Ok::<Person, Error>(b.person));
                    assert(b.wf());
                }
                Ok(b)
            },
            Err(e) => {
                proof {
                    assert((forall|i: int|
                        0 <= i < self.drinks@.len() ==> #[trigger] spec_as_drink(self.drinks@[i])
                            is Ok) && spec_as_person(self.person) == Err::<Person, Error>(e));
                }
                Err(e)
            },
        }
    }
}

impl BAC {
    /// The persisted record of this session.
    ///
    /// Rehydrating the produced record yields this session back
    /// exactly: the same person and the same drinks.
    pub fn to_json(&self) -> (r: BacJSON)
        requires
            self.wf(),
            forall|i: int|
                0 <= i < self.drinks@.len() ==> 0 <= (#[trigger] self.drinks@[i]).timestamp_secs
                    <= MAX_RFC2822_SECS,
        ensures
            r.drinks@.len() == self.drinks@.len(),
            forall|i: int|
                0 <= i < self.drinks@.len() ==> #[trigger] spec_as_drink(r.drinks@[i]) == Ok::<
                    Drink,
                    Error,
                >(self.drinks@[i]),
            spec_as_person(r.person) == Ok::<Person, Error>(self.person),
    {
        let mut drinks: Vec<DrinkJSON> = Vec::new();
        let n = self.drinks.len();
        let mut i: usize = 0;
        while i < n
            invariant
                self.wf(),
                forall|k: int|
                    0 <= k < self.drinks@.len() ==> 0 <= (
                    #[trigger] self.drinks@[k]).timestamp_secs <= MAX_RFC2822_SECS,
                n == self.drinks@.len(),
                0 <= i <= n,
                drinks@.len() == i,
                forall|j: int|
                    0 <= j < i ==> #[trigger] spec_as_drink(drinks@[j]) == Ok::<Drink, Error>(
                        self.drinks@[j],
                    ),
            decreases n - i,
        {
            drinks.push(self.drinks[i].to_json());
            i = i + 1;
        }
        BacJSON { drinks, person: self.person.to_json() }
    }
}

/// The path of the session's persisted record inside a profile
/// directory.
pub fn log_path(dir: &str) -> (r: String)
    ensures
        r@ == dir@ + "/config.json"@,
{
    let mut s = dir.to_owned();
    s.append("/config.json");
    s
}

/// A session holding one standard beer, queried at the beer's own
/// timestamp, has exactly the intake term of one beer: its elimination
/// term is zero. This is what `beer_ac` computes.
pub proof fn lemma_one_beer_session_bac(d: Drink, person: Person, now: i64)
    requires
        person.wf(),
        d.percent_milli == BEER_PERCENT_MILLI,
        d.mass.picograms == BEER_MASS_OUNCES * PICOGRAMS_PER_OUNCE,
        d.timestamp_secs == now,
    ensures
        spec_session_bac_micro(seq![d], person, now as int) == spec_intake_micro(
            BEER_ALCOHOL_PG as int,
            spec_body_water_centi(person.gender) as int,
            person.weight.picograms as int,
        ),
{
    let s = seq![d];
    assert(s.drop_last() =~= Seq::<Drink>::empty());
    assert(s.last() == d);
    lemma_fundamental_div_mod_converse(
        ((BEER_MASS_OUNCES * PICOGRAMS_PER_OUNCE) as int) * (BEER_PERCENT_MILLI as int),
        100_000,
        BEER_ALCOHOL_PG as int,
        0,
    );
    assert(spec_total_alcohol_pg(Seq::<Drink>::empty()) == 0);
    assert(spec_alcohol_pg(d) == BEER_ALCOHOL_PG);
    assert(spec_total_alcohol_pg(s) == BEER_ALCOHOL_PG);
    lemma_div_of0(3600);
}

} // verus!

//! The behavioral-effects table: maps a BAC value to a descriptive
//! bracket by point-containment in half-open ranges.

use vstd::prelude::*;
use vstd::string::StringExecFns;

verus! {

/// One bracket of the effects table: a half-open BAC range (in
/// micro-points) and the behaviors and impairments observed in it.
#[derive(Debug)]
pub struct Effect {
    /// Inclusive lower bound of the bracket, in micro-points of BAC.
    pub lo_micro: i128,
    /// Exclusive upper bound of the bracket, in micro-points of BAC.
    pub hi_micro: i128,
    /// Observed behaviors, one description per entry.
    pub behaviors: Vec<String>,
    /// Observed impairments, one description per entry.
    pub impairments: Vec<String>,
}

/// The behavior descriptions as one string: each on its own line,
/// prefixed with "- ".
pub open spec fn spec_bullet_lines(items: Seq<Seq<char>>) -> Seq<char>
    decreases items.len(),
{
    if items.len() == 0 {
        Seq::empty()
    } else {
        spec_bullet_lines(items.drop_last()) + "- "@ + items.last() + "\n"@
    }
}

impl Effect {
    /// Whether a BAC value (micro-points) falls in the bracket's
    /// half-open range.
    pub open spec fn spec_in_range(&self, bac: int) -> bool {
        self.lo_micro <= bac < self.hi_micro
    }

    /// Whether a BAC value (micro-points) falls in the bracket's
    /// half-open range.
    fn in_range(&self, n: i128) -> (r: bool)
        ensures
            r == self.spec_in_range(n as int),
    {
        self.lo_micro <= n && n < self.hi_micro
    }

    /// The bracket's behaviors as one string, each description on its
    /// own line prefixed with "- ".
    pub fn behaviors(&self) -> (r: String)
        ensures
            r@ == spec_bullet_lines(self.behaviors@.map_values(|s: String| s@)),
    {
        let ghost views = self.behaviors@.map_values(|s: String| s@);
        let mut r = String::new();
        let n = self.behaviors.len();
        let mut i: usize = 0;
        while i < n
            invariant
                n == self.behaviors@.len(),
                0 <= i <= n,
                views == self.behaviors@.map_values(|s: String| s@),
                r@ == spec_bullet_lines(views.take(i as int)),
            decreases n - i,
        {
            r.append("- ");
            r.append(self.behaviors[i].as_str());
            r.append("\n");
            proof {
                assert(views.take(i + 1 as int).drop_last() =~= views.take(i as int));
                assert(views.take(i + 1 as int).last() == views[i as int]);
            }
            i = i + 1;
        }
        proof {
            assert(views.take(n as int) =~= views);
        }
        r
    }
}

/// The effects table: a description, its sources, and the ordered list
/// of brackets.
#[derive(Debug)]
pub struct EffectInfo {
    /// What the table describes.
    pub description: String,
    /// Where the table's contents come from.
    pub source_urls: Vec<String>,
    /// The brackets, queried in table order.
    pub effects: Vec<Effect>,
}

impl EffectInfo {
    /// The first bracket, in table order, whose half-open range
    /// contains the BAC value (micro-points); empty when none does
    /// (for instance a negative BAC, or one at or above the highest
    /// bound).
    pub fn get_effect(&self, bac: i128) -> (r: Option<&Effect>)
        ensures
            match r {
                Some(e) => exists|i: int|
                    #![auto]
                    0 <= i < self.effects@.len() && self.effects@[i] == *e
                        && self.effects@[i].spec_in_range(bac as int) && (forall|j: int|
                        0 <= j < i ==> !(#[trigger] self.effects@[j]).spec_in_range(bac as int)),
                None => forall|j: int|
                    0 <= j < self.effects@.len() ==> !(#[trigger] self.effects@[j]).spec_in_range(
                        bac as int,
                    ),
            },
    {
        let n = self.effects.len();
        let mut i: usize = 0;
        while i < n
            invariant
                n == self.effects@.len(),
                0 <= i <= n,
                forall|j: int|
                    0 <= j < i ==> !(#[trigger] self.effects@[j]).spec_in_range(bac as int),
            decreases n - i,
        {
            if self.effects[i].in_range(bac) {
                return Some(&self.effects[i]);
            }
            i = i + 1;
        }
        None
    }
}

} // verus!

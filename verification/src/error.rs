//! Errors raised while rehydrating a profile from its persisted records.

use vstd::prelude::*;
use vstd::string::StringExecFns;

verus! {

/// Why a persisted record could not be turned into a domain value.
#[derive(Clone, Copy, Debug, PartialEq, Eq, Structural)]
pub enum Error {
    /// A drink record's timestamp string does not parse as an RFC-2822
    /// date and time.
    MalformedTimestamp,
    /// A person record's gender string is neither "male" nor "female",
    /// or its weight is not positive.
    InvalidProfileData,
    /// A drink record's alcohol percentage is above 100 percent.
    InvalidDrinkData,
}

impl Error {
    /// A short description of the error.
    pub fn message(&self) -> (r: String)
        ensures
            *self is MalformedTimestamp ==> r@ == "drink timestamp does not parse as RFC 2822"@,
            *self is InvalidProfileData ==> r@ == "person record has an invalid gender or weight"@,
            *self is InvalidDrinkData ==> r@ == "drink record has a percentage above 100"@,
    {
        match self {
            Error::MalformedTimestamp => String::from_str("drink timestamp does not parse as RFC 2822"),
            Error::InvalidProfileData => String::from_str("person record has an invalid gender or weight"),
            Error::InvalidDrinkData => String::from_str("drink record has a percentage above 100"),
        }
    }
}

} // verus!

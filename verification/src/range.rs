//! Counts that have to lie between two bounds.

use crate::text;
use vstd::prelude::*;

verus! {

/// A count that was asked for and lies outside the range it has to lie in.
#[derive(Clone, Copy, Debug, PartialEq, Eq)]
pub struct OutOfRange {
    /// What was counted.
    pub what: &'static str,
    /// What it was counted in.
    pub unit: &'static str,
    pub value: u32,
    pub min: u32,
    pub max: u32,
}

impl OutOfRange {
    /// The sentence that says what was asked for and what would have been accepted.
    pub open spec fn text(self) -> Seq<char> {
        self.what@ + " must be between "@ + text::decimal(self.min as nat) + " and "@
            + text::decimal(self.max as nat) + " "@ + self.unit@ + ", got "@ + text::decimal(
            self.value as nat,
        )
    }

    /// The sentence that says what was asked for and what would have been accepted.
    pub fn message(&self) -> (message: String)
        ensures
            message@ == self.text(),
    {
        let mut message: String = self.what.to_owned();
        message.append(" must be between ");
        text::push_decimal(&mut message, self.min as u64);
        message.append(" and ");
        text::push_decimal(&mut message, self.max as u64);
        message.append(" ");
        message.append(self.unit);
        message.append(", got ");
        text::push_decimal(&mut message, self.value as u64);
        message
    }
}

/// What [`check_range`] answers.
pub open spec fn checked(
    what: &'static str,
    unit: &'static str,
    value: u32,
    min: u32,
    max: u32,
) -> Result<u32, OutOfRange> {
    if min <= value <= max {
        Ok(value)
    } else {
        Err(OutOfRange { what, unit, value, min, max })
    }
}

/// Hands `value` back where it lies between `min` and `max`, both included.
pub fn check_range(
    what: &'static str,
    unit: &'static str,
    value: u32,
    min: u32,
    max: u32,
) -> (result: Result<u32, OutOfRange>)
    ensures
        result == checked(what, unit, value, min, max),
{
    if min <= value && value <= max {
        Ok(value)
    } else {
        Err(OutOfRange { what, unit, value, min, max })
    }
}

/// The range that somebody else holds a count to, and the words it is refused in.
#[derive(Clone, Copy, Debug, PartialEq, Eq)]
pub struct Bounds {
    /// What is counted.
    pub what: &'static str,
    /// What it is counted in.
    pub unit: &'static str,
    pub min: u32,
    pub max: u32,
}

impl Bounds {
    /// What [`check`](Bounds::check) answers.
    pub open spec fn checked(self, value: u32) -> Result<u32, OutOfRange> {
        checked(self.what, self.unit, value, self.min, self.max)
    }

    /// Hands `value` back where it lies in the range, and refuses it where it does not.
    pub fn check(self, value: u32) -> (result: Result<u32, OutOfRange>)
        ensures
            result == self.checked(value),
    {
        check_range(self.what, self.unit, value, self.min, self.max)
    }
}

} // verus!

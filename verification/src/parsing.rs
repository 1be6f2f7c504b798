//! Parsing a number out of part of a text: before a delimiter, or between
//! two delimiters.
use vstd::prelude::*;
use crate::text::{parse_between, parse_between_chars, parse_until, parse_until_chars, to_chars, Pattern};

verus! {

/// Parses the part of a text before the first occurrence of a delimiter
/// (or the whole text without one) as an unsigned number no larger than
/// `max`.
pub trait ParseUntil {
    fn parse_until(&self, delimiter: &Pattern, max: u64) -> Option<u64>;
}

/// Parses the part of a text between the first occurrence of the first
/// delimiter and the first occurrence of the second one after it as an
/// unsigned number no larger than `max`.
pub trait ParseBetween {
    fn parse_between(&self, first: &Pattern, second: &Pattern, max: u64) -> Option<u64>;
}

impl ParseUntil for str {
    fn parse_until(&self, delimiter: &Pattern, max: u64) -> (r: Option<u64>)
        ensures
            match r {
                Some(v) => parse_until(self@, delimiter@, max as nat) == Some(v as nat),
                None => parse_until(self@, delimiter@, max as nat) is None,
            },
    {
        let chars = to_chars(self);
        parse_until_chars(chars.as_slice(), delimiter, max)
    }
}

impl ParseBetween for str {
    fn parse_between(&self, first: &Pattern, second: &Pattern, max: u64) -> (r: Option<u64>)
        ensures
            match r {
                Some(v) => parse_between(self@, first@, second@, max as nat) == Some(v as nat),
                None => parse_between(self@, first@, second@, max as nat) is None,
            },
    {
        let chars = to_chars(self);
        parse_between_chars(chars.as_slice(), first, second, max)
    }
}

} // verus!

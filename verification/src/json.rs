//! Reading integers that arrive in JSON as numbers or as text.
//!
//! Identifiers are 64-bit, and many clients cannot hold such a number; they
//! send it as text. These readers take both forms.
use vstd::prelude::*;
use std::collections::HashSet;
use vstd::string::StringSliceAdditionalSpecFns;
use vstd::utf8::encode_utf8;
use crate::text::{parse_i64, spec_parse_i64};

verus! {

/// What the readers look at in a JSON value.
#[derive(Debug)]
pub enum JsonValue {
    /// A string.
    Text(String),
    /// A number that is an integer and fits an `i64`.
    Integer(i64),
    /// Anything else.
    Other,
}

/// Why a JSON value could not be read as an integer.
#[derive(Debug, Clone, Copy, PartialEq, Eq, Structural)]
pub enum IntError {
    /// The value is a string that does not write an `i64`.
    Parse,
    /// The value is neither a string nor an integer.
    Type,
}

impl IntError {
    /// The message of the error.
    pub fn message(&self) -> (text: &'static str)
        ensures
            text@ == match *self {
                IntError::Parse => "string parse int error"@,
                IntError::Type => "type error"@,
            },
    {
        match self {
            IntError::Parse => "string parse int error",
            IntError::Type => "type error",
        }
    }
}

/// The integer that a JSON value stands for: an integer itself, or the one
/// that a string writes in decimal.
pub open spec fn spec_to_i64(value: JsonValue) -> Result<i64, IntError> {
    match value {
        JsonValue::Text(text) => match spec_parse_i64(encode_utf8(text@)) {
            Some(number) => Ok(number),
            None => Err(IntError::Parse),
        },
        JsonValue::Integer(number) => Ok(number),
        JsonValue::Other => Err(IntError::Type),
    }
}

/// Reads one JSON value as an integer.
pub fn to_i64(value: &JsonValue) -> (outcome: Result<i64, IntError>)
    ensures
        outcome == spec_to_i64(*value),
{
    match value {
        JsonValue::Text(text) => match parse_i64(text.as_str()) {
            Some(number) => Ok(number),
            None => Err(IntError::Parse),
        },
        JsonValue::Integer(number) => Ok(*number),
        JsonValue::Other => Err(IntError::Type),
    }
}

/// Reads a JSON value that may be absent: an absent value is no integer and
/// no error.
pub fn to_i64_option(value: Option<&JsonValue>) -> (outcome: Result<Option<i64>, IntError>)
    ensures
        outcome == match value {
            None => Ok::<Option<i64>, IntError>(None),
            Some(present) => match spec_to_i64(*present) {
                Ok(number) => Ok(Some(number)),
                Err(error) => Err(error),
            },
        },
{
    match value {
        None => Ok(None),
        Some(present) => match to_i64(present) {
            Ok(number) => Ok(Some(number)),
            Err(error) => Err(error),
        },
    }
}

/// Whether the first `count` values all stand for integers.
pub open spec fn all_readable(values: Seq<JsonValue>, count: int) -> bool {
    forall|i: int| 0 <= i < count ==> (#[trigger] spec_to_i64(values[i])) is Ok
}

/// Reads a JSON array as integers, in their order. The first value that
/// stands for none gives the error.
pub fn to_vec_i64(values: &Vec<JsonValue>) -> (outcome: Result<Vec<i64>, IntError>)
    ensures
        match outcome {
            Ok(numbers) => {
                &&& all_readable(values@, values@.len() as int)
                &&& numbers@.len() == values@.len()
                &&& forall|i: int|
                    0 <= i < values@.len() ==> spec_to_i64(values@[i]) == Ok::<i64, IntError>(
                        #[trigger] numbers@[i],
                    )
            },
            Err(error) => exists|first: int|
                0 <= first < values@.len() && all_readable(values@, first) && (
                #[trigger] spec_to_i64(values@[first])) == Err::<i64, IntError>(error),
        },
{
    let mut numbers: Vec<i64> = Vec::new();
    let mut at: usize = 0;
    while at < values.len()
        invariant
            at <= values@.len(),
            all_readable(values@, at as int),
            numbers@.len() == at,
            forall|i: int|
                0 <= i < at ==> spec_to_i64(values@[i]) == Ok::<i64, IntError>(
                    #[trigger] numbers@[i],
                ),
        decreases values@.len() - at,
    {
        match to_i64(&values[at]) {
            Ok(number) => {
                numbers.push(number);
            },
            Err(error) => {
                assert(spec_to_i64(values@[at as int]) == Err::<i64, IntError>(error));
                return Err(error);
            },
        }
        at = at + 1;
    }
    Ok(numbers)
}

/// Reads a JSON array as a set of integers. The first value that stands for
/// none gives the error.
pub fn to_set_i64(values: &Vec<JsonValue>) -> (outcome: Result<HashSet<i64>, IntError>)
    ensures
        match outcome {
            Ok(numbers) => {
                &&& all_readable(values@, values@.len() as int)
                &&& forall|number: i64|
                    numbers@.contains(number) <==> exists|i: int|
                        0 <= i < values@.len() && (#[trigger] spec_to_i64(values@[i])) == Ok::<
                            i64,
                            IntError,
                        >(number)
            },
            Err(error) => exists|first: int|
                0 <= first < values@.len() && all_readable(values@, first) && (
                #[trigger] spec_to_i64(values@[first])) == Err::<i64, IntError>(error),
        },
{
    broadcast use vstd::std_specs::hash::group_hash_axioms;

    let mut numbers: HashSet<i64> = HashSet::new();
    let mut at: usize = 0;
    while at < values.len()
        invariant
            at <= values@.len(),
            all_readable(values@, at as int),
            forall|number: i64|
                numbers@.contains(number) <==> exists|i: int|
                    0 <= i < at && (#[trigger] spec_to_i64(values@[i])) == Ok::<i64, IntError>(
                        number,
                    ),
        decreases values@.len() - at,
    {
        match to_i64(&values[at]) {
            Ok(number) => {
                let ghost before = numbers@;
                numbers.insert(number);
                assert forall|other: i64|
                    numbers@.contains(other) <==> exists|i: int|
                        0 <= i < at + 1 && (#[trigger] spec_to_i64(values@[i])) == Ok::<
                            i64,
                            IntError,
                        >(other) by {
                    if numbers@.contains(other) {
                        if other == number {
                            assert(spec_to_i64(values@[at as int]) == Ok::<i64, IntError>(other));
                        } else {
                            assert(before.contains(other));
                        }
                    }
                    if exists|i: int|
                        0 <= i < at + 1 && (#[trigger] spec_to_i64(values@[i])) == Ok::<
                            i64,
                            IntError,
                        >(other) {
                        let i = choose|i: int|
                            0 <= i < at + 1 && (#[trigger] spec_to_i64(values@[i])) == Ok::<
                                i64,
                                IntError,
                            >(other);
                        if i < at {
                            assert(before.contains(other));
                        }
                    }
                }
            },
            Err(error) => {
                assert(spec_to_i64(values@[at as int]) == Err::<i64, IntError>(error));
                return Err(error);
            },
        }
        at = at + 1;
    }
    Ok(numbers)
}

} // verus!

//! Validate-then-transform over a text and a number.
//!
//! `function_name` checks that the text is non-empty and the number is
//! non-negative, then returns the text behind the prefix `processed_` together
//! with twice the number.

use vstd::prelude::*;
use vstd::string::*;

mod model;

pub use model::{
    contains_text, empty_input_message, lemma_deterministic, lemma_zero_boundary,
    negative_number_message, outcome, outcome_of, processed_text,
};

verus! {

/// The value produced from a text and a number that passed validation.
#[derive(Debug)]
pub struct FunctionResult {
    pub key1: String,
    pub key2: i32,
}

impl View for FunctionResult {
    type V = (Seq<char>, int);

    open spec fn view(&self) -> (Seq<char>, int) {
        (self.key1@, self.key2 as int)
    }
}

impl PartialEq for FunctionResult {
    fn eq(&self, o: &FunctionResult) -> (r: bool) {
        self.key1 == o.key1 && self.key2 == o.key2
    }
}

impl vstd::std_specs::cmp::PartialEqSpecImpl for FunctionResult {
    open spec fn obeys_eq_spec() -> bool {
        true
    }

    open spec fn eq_spec(&self, o: &FunctionResult) -> bool {
        self@ == o@
    }
}

/// Validates `param1` and `param2`, then transforms them.
///
/// An empty `param1` is rejected first, with a message that holds `empty`;
/// otherwise a negative `param2` is rejected with a message that holds
/// `non-negative`. On success `key1` is `processed_` followed by `param1`
/// and `key2` is `2 * param2`.
///
/// Doubling must fit in `i32`: a valid input above `i32::MAX / 2` is not
/// accepted.
pub fn function_name(param1: &str, param2: i32) -> (r: Result<FunctionResult, String>)
    requires
        param1@.len() > 0 && param2 >= 0 ==> 2 * param2 <= i32::MAX,
    ensures
        outcome_of(&r) == outcome(param1@, param2 as int),
        param1@.len() > 0 && param2 >= 0 ==> (r is Ok && r->Ok_0.key1@ == processed_text(param1@)
            && r->Ok_0.key2 == 2 * param2),
        param1@.len() == 0 ==> (r is Err && contains_text(r->Err_0@, "empty"@)),
        param1@.len() > 0 && param2 < 0 ==> (r is Err && contains_text(
            r->Err_0@,
            "non-negative"@,
        )),
{
    if param1.is_empty() {
        let msg = String::from_str("param1 cannot be empty");
        proof {
            model::lemma_empty_message_names_empty();
        }
        return Err(msg);
    }
    if param2 < 0 {
        let msg = String::from_str("param2 must be non-negative");
        proof {
            model::lemma_negative_message_names_non_negative();
        }
        return Err(msg);
    }
    let mut key1 = String::from_str("processed_");
    key1.append(param1);
    let result = FunctionResult { key1, key2: param2 * 2 };
    Ok(result)
}

} // verus!

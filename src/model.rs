//! The mathematical model of the operation and the laws that hold of it.

use vstd::prelude::*;

use crate::FunctionResult;

verus! {

/// `needle` occurs somewhere in `hay` as a contiguous run.
pub open spec fn contains_text(hay: Seq<char>, needle: Seq<char>) -> bool {
    exists|i: int|
        0 <= i && i + needle.len() <= hay.len() && #[trigger] hay.subrange(i, i + needle.len())
            == needle
}

/// The text of a successful result: the prefix `processed_`, then `s` unchanged.
pub open spec fn processed_text(s: Seq<char>) -> Seq<char> {
    "processed_"@ + s
}

/// The message returned for an empty text.
pub open spec fn empty_input_message() -> Seq<char> {
    "param1 cannot be empty"@
}

/// The message returned for a negative number.
pub open spec fn negative_number_message() -> Seq<char> {
    "param2 must be non-negative"@
}

/// What the operation yields on text `s` and number `n`: the empty-text check
/// comes first, then the sign check, then the transform.
pub open spec fn outcome(s: Seq<char>, n: int) -> Result<(Seq<char>, int), Seq<char>> {
    if s.len() == 0 {
        Err(empty_input_message())
    } else if n < 0 {
        Err(negative_number_message())
    } else {
        Ok((processed_text(s), 2 * n))
    }
}

/// The view of an executable outcome.
pub open spec fn outcome_of(r: &Result<FunctionResult, String>) -> Result<(Seq<char>, int), Seq<char>> {
    match r {
        Ok(v) => Ok(v@),
        Err(e) => Err(e@),
    }
}

pub(crate) proof fn lemma_empty_message_names_empty()
    ensures
        contains_text(empty_input_message(), "empty"@),
{
    reveal_strlit("param1 cannot be empty");
    reveal_strlit("empty");
    assert(empty_input_message().subrange(17, 17int + "empty"@.len()) =~= "empty"@);
}

pub(crate) proof fn lemma_negative_message_names_non_negative()
    ensures
        contains_text(negative_number_message(), "non-negative"@),
{
    reveal_strlit("param2 must be non-negative");
    reveal_strlit("non-negative");
    assert(negative_number_message().subrange(15, 15int + "non-negative"@.len()) =~= "non-negative"@);
}

/// Two calls on the same text and number give the same outcome: the operation
/// keeps no hidden state.
pub proof fn lemma_deterministic(
    s: Seq<char>,
    n: int,
    r1: Result<FunctionResult, String>,
    r2: Result<FunctionResult, String>,
)
    requires
        outcome_of(&r1) == outcome(s, n),
        outcome_of(&r2) == outcome(s, n),
    ensures
        outcome_of(&r1) == outcome_of(&r2),
        r1 is Ok <==> r2 is Ok,
        r1 is Ok ==> r1->Ok_0@ == r2->Ok_0@,
        r1 is Err ==> r1->Err_0@ == r2->Err_0@,
{
}

/// A non-empty text with the number zero succeeds, and its number is zero.
pub proof fn lemma_zero_boundary(s: Seq<char>)
    requires
        s.len() > 0,
    ensures
        outcome(s, 0) is Ok,
        outcome(s, 0)->Ok_0.1 == 0,
        outcome(s, 0)->Ok_0.0 == processed_text(s),
{
}

} // verus!

//! Mathematical views shared by the library's types, and its error type.
use vstd::prelude::*;
use vstd::string::*;

verus! {

/// The view of an optional value: the value's own view, where there is one.
pub open spec fn opt<T: View>(value: Option<T>) -> Option<T::V> {
    match value {
        Some(inner) => Some(inner@),
        None => None,
    }
}

/// The texts held by a sequence of strings.
pub open spec fn texts(values: Seq<String>) -> Seq<Seq<char>> {
    values.map_values(|value: String| value@)
}

/// The views of a sequence of values.
pub open spec fn views<T: View>(values: Seq<T>) -> Seq<T::V> {
    values.map_values(|value: T| value@)
}

/// The error of every fallible operation: a sentence that says what was wrong.
#[derive(Debug, PartialEq, Eq)]
pub struct StageError {
    pub message: String,
}

impl View for StageError {
    type V = Seq<char>;

    open spec fn view(&self) -> Seq<char> {
        self.message@
    }
}

impl StageError {
    /// An error with the given sentence.
    pub fn new(message: String) -> (r: Self)
        ensures
            r@ == message@,
    {
        StageError { message }
    }

    /// The sentence, as an owned string.
    pub fn to_string(&self) -> (r: String)
        ensures
            r@ == self@,
    {
        self.message.clone()
    }
}

/// The sentence that a check ended with, or `None` where it passed.
pub open spec fn failure<T>(result: Result<T, StageError>) -> Option<Seq<char>> {
    match result {
        Ok(_) => None,
        Err(error) => Some(error@),
    }
}

/// The outcome of two checks in a row: the first failure wins.
pub open spec fn then_check(first: Option<Seq<char>>, second: Option<Seq<char>>) -> Option<Seq<char>> {
    if first is Some {
        first
    } else {
        second
    }
}

/// A failed check with the sentence of a literal.
pub(crate) fn fail<T>(message: &str) -> (r: Result<T, StageError>)
    ensures
        failure(r) == Some(message@),
{
    Err(StageError::new(message.to_owned()))
}

/// A failed check with the sentence given.
pub(crate) fn fail_with<T>(message: String) -> (r: Result<T, StageError>)
    ensures
        failure(r) == Some(message@),
{
    Err(StageError::new(message))
}

/// Copies a list of strings.
pub(crate) fn clone_texts(values: &Vec<String>) -> (r: Vec<String>)
    ensures
        texts(r@) == texts(values@),
        r@ == values@,
{
    let r = values.clone();
    proof {
        assert forall|i: int| 0 <= i < values@.len() implies r@[i] == values@[i] by {
            assert(cloned::<String>(values@[i], r@[i]));
        }
        assert(r@ =~= values@);
    }
    r
}

/// Whether two lists of strings are equal.
pub(crate) fn same_texts(a: &[String], b: &[String]) -> (r: bool)
    ensures
        r == (texts(a@) == texts(b@)),
{
    if a.len() != b.len() {
        assert(texts(a@).len() != texts(b@).len());
        return false;
    }
    let mut index: usize = 0;
    while index < a.len()
        invariant
            index <= a@.len(),
            a@.len() == b@.len(),
            forall|i: int| 0 <= i < index ==> #[trigger] texts(a@)[i] == texts(b@)[i],
        decreases a@.len() - index,
    {
        if a[index] != b[index] {
            assert(texts(a@)[index as int] != texts(b@)[index as int]);
            return false;
        }
        index += 1;
    }
    assert(texts(a@) =~= texts(b@));
    true
}

/// Whether two optional strings are equal.
pub(crate) fn same_opt_text(a: &Option<String>, b: &Option<String>) -> (r: bool)
    ensures
        r == (opt(*a) == opt(*b)),
{
    match (a, b) {
        (None, None) => true,
        (Some(x), Some(y)) => *x == *y,
        _ => false,
    }
}

} // verus!

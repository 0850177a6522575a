//! The two ways in which collecting statistics fails.

use vstd::prelude::*;

verus! {

/// Why a parser gave no statistics.
#[derive(Debug, Clone, PartialEq, Eq)]
pub enum StatsError {
    /// The file at `path` is missing or could not be read.
    Io { path: String },
    /// The file at `path` was read, but `value`, its raw content, does not
    /// have the expected form.
    Parse { path: String, value: String },
}

/// A [`StatsError`] with its texts as sequences of characters.
pub enum StatsErrorView {
    Io { path: Seq<char> },
    Parse { path: Seq<char>, value: Seq<char> },
}

impl View for StatsError {
    type V = StatsErrorView;

    open spec fn view(&self) -> StatsErrorView {
        match self {
            StatsError::Io { path } => StatsErrorView::Io { path: path@ },
            StatsError::Parse { path, value } => StatsErrorView::Parse {
                path: path@,
                value: value@,
            },
        }
    }
}

/// Whether the outcome `r` is the outcome `expected`, errors compared by
/// their texts.
pub open spec fn outcome_is<T>(r: Result<T, StatsError>, expected: Result<T, StatsErrorView>) -> bool {
    match r {
        Ok(v) => expected == Ok::<T, StatsErrorView>(v),
        Err(e) => expected == Err::<T, StatsErrorView>(e@),
    }
}

/// Two outcomes that are both the outcome `expected` agree: both succeed
/// with the same value, or both fail with errors of the same texts.
pub proof fn lemma_same_outcome<T>(
    first: Result<T, StatsError>,
    second: Result<T, StatsError>,
    expected: Result<T, StatsErrorView>,
)
    requires
        outcome_is(first, expected),
        outcome_is(second, expected),
    ensures
        first is Ok <==> second is Ok,
        first is Ok ==> first->Ok_0 == second->Ok_0,
        first is Err ==> first->Err_0@ == second->Err_0@,
{
}

} // verus!

//! How far an operation has come.
use vstd::prelude::*;

verus! {

/// An operation that still has a call to make, or the result of one that has
/// none.
#[derive(Debug, PartialEq, Eq)]
#[verifier::ext_equal]
pub enum Step<S, T, E> {
    /// The call that the operation names is to be made next.
    Pending(S),
    /// There is nothing left to do.
    Finished(Result<T, E>),
}

impl<S: View, T: View, E: View> View for Step<S, T, E> {
    type V = Step<S::V, T::V, E::V>;

    open spec fn view(&self) -> Step<S::V, T::V, E::V> {
        match self {
            Step::Pending(operation) => Step::Pending(operation@),
            Step::Finished(result) => Step::Finished(result_view(*result)),
        }
    }
}

/// What a result says.
pub open spec fn result_view<T: View, E: View>(result: Result<T, E>) -> Result<T::V, E::V> {
    match result {
        Ok(value) => Ok(value@),
        Err(error) => Err(error@),
    }
}

/// What comes of an operation that is carried on for at most `fuel` calls: the
/// calls that were made, after those `made` before, and how far it has come.
///
/// `call` and `next` say what the operation does in each state, and `world`
/// what comes back of each call, given its place among the calls.
pub open spec fn run<S, C, R, T, E>(
    state: S,
    call: spec_fn(S) -> C,
    next: spec_fn(S, R) -> Step<S, T, E>,
    world: spec_fn(int, C) -> R,
    made: Seq<C>,
    fuel: nat,
) -> (Seq<C>, Step<S, T, E>)
    decreases fuel,
{
    if fuel == 0 {
        (made, Step::Pending(state))
    } else {
        let asked = call(state);
        match next(state, world(made.len() as int, asked)) {
            Step::Pending(later) => run(
                later,
                call,
                next,
                world,
                made.push(asked),
                (fuel - 1) as nat,
            ),
            Step::Finished(result) => (made.push(asked), Step::Finished(result)),
        }
    }
}

/// A step is told as it is: the operation that goes on, the value that it ended
/// with, or the error.
pub proof fn steps_are_told_as_they_are<S: View, T: View, E: View>(state: S, value: T, error: E)
    ensures
        Step::<S, T, E>::Pending(state)@ == Step::<S::V, T::V, E::V>::Pending(state@),
        Step::<S, T, E>::Finished(Ok(value))@ == Step::<S::V, T::V, E::V>::Finished(Ok(value@)),
        Step::<S, T, E>::Finished(Err(error))@ == Step::<S::V, T::V, E::V>::Finished(Err(error@)),
{
}

} // verus!

use vstd::prelude::*;

verus! {

/// The phase of an acquisition whose time budget ran out.
#[derive(PartialEq, Eq, Structural, Clone, Copy, Debug)]
pub enum TimeoutType {
    /// The manager's `create` took too long.
    Create,
    /// No resource was returned to the pool in time.
    Wait,
    /// The manager's `recycle` took too long.
    Recycle,
}

/// Why a manager refused to hand a resource out again.
#[derive(Debug)]
pub enum RecycleError<E> {
    /// A free-form reason that is not a domain error.
    Message(String),
    /// A domain error of the manager.
    Backend(E),
}

/// What `recycle` returns.
pub type RecycleResult<E> = Result<(), RecycleError<E>>;

/// The errors that acquiring a resource can end with.
#[derive(Debug)]
pub enum PoolError<E> {
    /// The budget of the given phase, in milliseconds, elapsed.
    Timeout(TimeoutType, u64),
    /// The manager's `create` failed.
    Backend(E),
    /// The manager's `recycle` refused a resource.
    RecycleFailure(RecycleError<E>),
}

/// Turns the outcome of racing a phase against its optional deadline into a
/// result: `Some(o)` when the phase finished, `None` when the deadline passed
/// first, which can only happen when there is a deadline.
pub fn apply_timeout<O, E>(outcome: Option<O>, timeout_type: TimeoutType, duration: Option<u64>) -> (r:
    Result<O, PoolError<E>>)
    requires
        outcome is None ==> duration is Some,
    ensures
        outcome is Some ==> r == Ok::<O, PoolError<E>>(outcome->0),
        outcome is None ==> r == Err::<O, PoolError<E>>(
            PoolError::Timeout(timeout_type, duration->0),
        ),
{
    match outcome {
        Some(o) => Ok(o),
        None => {
            let d = match duration {
                Some(d) => d,
                None => 0,
            };
            Err(PoolError::Timeout(timeout_type, d))
        },
    }
}

/// The result of a `create` phase: the new resource, the manager's error as
/// `Backend`, or `Timeout(Create, _)` when the deadline passed first.
pub fn create_outcome<T, E>(outcome: Option<Result<T, E>>, duration: Option<u64>) -> (r: Result<
    T,
    PoolError<E>,
>)
    requires
        outcome is None ==> duration is Some,
    ensures
        outcome matches Some(Ok(t)) ==> r == Ok::<T, PoolError<E>>(t),
        outcome matches Some(Err(e)) ==> r == Err::<T, PoolError<E>>(PoolError::Backend(e)),
        outcome is None ==> r == Err::<T, PoolError<E>>(
            PoolError::Timeout(TimeoutType::Create, duration->0),
        ),
{
    match apply_timeout(outcome, TimeoutType::Create, duration) {
        Ok(Ok(t)) => Ok(t),
        Ok(Err(e)) => Err(PoolError::Backend(e)),
        Err(e) => Err(e),
    }
}

/// The result of a `recycle` phase: `Ok(true)` when the manager accepted the
/// resource, `Ok(false)` when it rejected it (the acquirer then goes on), and
/// `Timeout(Recycle, _)` when the deadline passed first.
pub fn recycle_outcome<E>(outcome: Option<RecycleResult<E>>, duration: Option<u64>) -> (r: Result<
    bool,
    PoolError<E>,
>)
    requires
        outcome is None ==> duration is Some,
    ensures
        outcome matches Some(Ok(_)) ==> r == Ok::<bool, PoolError<E>>(true),
        outcome matches Some(Err(_)) ==> r == Ok::<bool, PoolError<E>>(false),
        outcome is None ==> r == Err::<bool, PoolError<E>>(
            PoolError::Timeout(TimeoutType::Recycle, duration->0),
        ),
{
    match apply_timeout(outcome, TimeoutType::Recycle, duration) {
        Ok(Ok(())) => Ok(true),
        Ok(Err(_)) => Ok(false),
        Err(e) => Err(e),
    }
}

} // verus!

//! The one error type that every test reports: a line of text.

use vstd::prelude::*;
use vstd::string::to_string_from_display_ensures;

verus! {

/// The result is one that [`e`] can give: the same success, or a text that `to_string`
/// can give for the error.
pub open spec fn told<T, E: std::fmt::Display>(
    error: Result<T, E>,
    result: Result<T, String>,
) -> bool {
    match (error, result) {
        (Ok(value), Ok(kept)) => kept == value,
        (Err(err), Err(message)) => to_string_from_display_ensures(&err, message),
        _ => false,
    }
}

/// A result with its success replaced.
pub open spec fn mapped<T, U, E>(result: Result<T, E>, f: spec_fn(T) -> U) -> Result<U, E> {
    match result {
        Ok(value) => Ok(f(value)),
        Err(err) => Err(err),
    }
}

/// Replaces the error of a result by its text, and leaves a success as it is.
///
/// The text is the one that `to_string` gives for the error. What `to_string` gives
/// for a `String` is known no more closely than for any other error.
pub fn e<T, E: std::fmt::Display>(error: Result<T, E>) -> (result: Result<T, String>)
    ensures
        told(error, result),
{
    match error {
        Ok(value) => Ok(value),
        Err(err) => Err(err.to_string()),
    }
}

/// Replacing the error and replacing the success do not get into each other's way: what
/// [`e`] can give for a result with its success replaced is what it can give for the
/// result itself, with the success replaced in that.
pub proof fn law_successes_are_not_looked_at<T, U, E: std::fmt::Display>(
    error: Result<T, E>,
    f: spec_fn(T) -> U,
    result: Result<U, String>,
)
    ensures
        told(mapped(error, f), result) <==> exists|direct: Result<T, String>|
            #[trigger] told(error, direct) && mapped(direct, f) == result,
{
    if told(mapped(error, f), result) {
        let direct: Result<T, String> = match (error, result) {
            (Ok(value), _) => Ok(value),
            (_, Err(message)) => Err(message),
            _ => arbitrary(),
        };
        assert(told(error, direct) && mapped(direct, f) == result);
    }
}

/// A success is the same however often [`e`] is applied, and an error stays an error.
pub proof fn law_a_second_use_keeps_successes<T, E: std::fmt::Display>(
    error: Result<T, E>,
    once: Result<T, String>,
    twice: Result<T, String>,
)
    requires
        told(error, once),
        told(once, twice),
    ensures
        error matches Ok(value) ==> once == Ok::<T, String>(value) && twice == once,
        error is Err ==> once is Err && twice is Err,
{
}

/// A second use of [`e`] keeps the text of an error, given that `to_string` gives for that
/// text the text itself.
pub proof fn law_a_second_use_keeps_the_text<T, E: std::fmt::Display>(
    error: Result<T, E>,
    once: Result<T, String>,
    twice: Result<T, String>,
)
    requires
        told(error, once),
        told(once, twice),
        error is Err,
        forall|message: String| #[trigger]
            to_string_from_display_ensures(&once->Err_0, message) ==> message@
                == once->Err_0@,
    ensures
        twice is Err,
        twice->Err_0@ == once->Err_0@,
{
}

/// A success is told as it is, and an error as a text that `to_string` gives for it. Nothing
/// else is told of either.
pub proof fn law_what_is_told<T, E: std::fmt::Display>(
    value: T,
    err: E,
    result: Result<T, String>,
)
    ensures
        told(Ok::<T, E>(value), result) <==> result == Ok::<T, String>(value),
        told(Err::<T, E>(err), result) <==> (result is Err && to_string_from_display_ensures(
            &err,
            result->Err_0,
        )),
{
}

} // verus!

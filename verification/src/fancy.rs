use vstd::prelude::*;
use vstd::pervasive::unreached;

verus! {

/// Unwrapping with a friendly message for `Result`. The verified library
/// never panics, so the failure case is ruled out by contract: a caller must
/// show the value is `Ok` before asking for it.
pub trait FancyError<T, E>: Sized {
    /// The value carries a success.
    spec fn fancy_ok(&self) -> bool;

    /// The success value carried.
    spec fn fancy_value(&self) -> T;

    /// Returns the success value.
    fn expect_fancy(self, msg: &str) -> (r: T)
        requires
            self.fancy_ok(),
        ensures
            r == self.fancy_value(),
    ;
}

impl<T, E> FancyError<T, E> for Result<T, E> {
    open spec fn fancy_ok(&self) -> bool {
        (*self) is Ok
    }

    open spec fn fancy_value(&self) -> T {
        (*self)->Ok_0
    }

    fn expect_fancy(self, msg: &str) -> (r: T) {
        match self {
            Result::Ok(t) => t,
            Result::Err(_) => unreached(),
        }
    }
}

/// Unwrapping with a friendly message for `Option`; as with `FancyError`, a
/// caller must show the value is `Some` before asking for it.
pub trait FancyNone<T>: Sized {
    /// The value carries something.
    spec fn fancy_some(&self) -> bool;

    /// The value carried.
    spec fn fancy_value(&self) -> T;

    /// Returns the carried value.
    fn expect_fancy(self, msg: &str) -> (r: T)
        requires
            self.fancy_some(),
        ensures
            r == self.fancy_value(),
    ;
}

impl<T> FancyNone<T> for Option<T> {
    open spec fn fancy_some(&self) -> bool {
        (*self) is Some
    }

    open spec fn fancy_value(&self) -> T {
        (*self)->Some_0
    }

    fn expect_fancy(self, msg: &str) -> (r: T) {
        match self {
            Option::Some(t) => t,
            Option::None => unreached(),
        }
    }
}

} // verus!

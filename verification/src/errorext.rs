//! Small conversions of `Result` values: to an `Option`, and of the error
//! into another error type.
use vstd::prelude::*;
use vstd::std_specs::convert::FromSpec;

verus! {

/// Turns a `Result` into an `Option`, dropping the error.
pub trait HandleErr: Sized {
    type OkValue;

    fn log_err(self) -> Option<Self::OkValue>;

    fn log_err_with_msg(self, msg: &str) -> Option<Self::OkValue>;

    fn log_warn(self) -> Option<Self::OkValue>;

    fn log_warn_with_msg(self, msg: &str) -> Option<Self::OkValue>;
}

pub open spec fn ok_value<T, E>(r: Result<T, E>) -> Option<T> {
    match r {
        Ok(v) => Some(v),
        Err(_) => None,
    }
}

impl<T, E> HandleErr for Result<T, E> {
    type OkValue = T;

    fn log_err(self) -> (r: Option<T>)
        ensures
            r == ok_value(self),
    {
        match self {
            Ok(v) => Some(v),
            Err(_) => None,
        }
    }

    fn log_err_with_msg(self, msg: &str) -> (r: Option<T>)
        ensures
            r == ok_value(self),
    {
        match self {
            Ok(v) => Some(v),
            Err(_) => None,
        }
    }

    fn log_warn(self) -> (r: Option<T>)
        ensures
            r == ok_value(self),
    {
        match self {
            Ok(v) => Some(v),
            Err(_) => None,
        }
    }

    fn log_warn_with_msg(self, msg: &str) -> (r: Option<T>)
        ensures
            r == ok_value(self),
    {
        match self {
            Ok(v) => Some(v),
            Err(_) => None,
        }
    }
}

/// Discards a value on purpose.
pub trait Ignore {
    fn ignore(self);
}

impl<T> Ignore for T {
    fn ignore(self) {
    }
}

/// Converts the error of a `Result` with `From`.
pub trait ConvertErr<T, F> {
    fn convert_err<E: From<F>>(self) -> Result<T, E>;
}

impl<T, F> ConvertErr<T, F> for Result<T, F> {
    fn convert_err<E: From<F>>(self) -> (r: Result<T, E>)
        ensures
            match self {
                Ok(v) => r == Ok::<T, E>(v),
                Err(f) => r is Err && (<E as FromSpec<F>>::obeys_from_spec() ==> r == Err::<T, E>(
                    <E as FromSpec<F>>::from_spec(f),
                )),
            },
    {
        match self {
            Ok(v) => Ok(v),
            Err(f) => Err(E::from(f)),
        }
    }
}

} // verus!

//! A service that reads the current time.
//!
//! Clock readings are not guaranteed to be monotonic: they may move forwards
//! or backwards arbitrarily.

use vstd::prelude::*;
use crate::empty::Empty;
use crate::timestamp::Timestamp;

verus! {

/// A service to measure the current time.
pub trait Clock {
    /// Read the current time, or `None` if the clock couldn't be read.
    fn now(&self) -> Option<Timestamp>;
}

impl<'a, T: Clock> Clock for &'a T {
    /// The reading of the referenced clock.
    fn now(&self) -> (r: Option<Timestamp>)
        ensures
            call_ensures(T::now, (*self,), r),
    {
        (**self).now()
    }
}

impl<T: Clock> Clock for Option<T> {
    fn now(&self) -> (r: Option<Timestamp>)
        ensures
            match self {
                Some(clock) => call_ensures(T::now, (clock,), r),
                None => r is None,
            },
    {
        match self {
            Some(time) => time.now(),
            None => Empty.now(),
        }
    }
}

impl Clock for Empty {
    fn now(&self) -> (r: Option<Timestamp>)
        ensures
            r is None,
    {
        None
    }
}

} // verus!

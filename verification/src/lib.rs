use vstd::prelude::*;

pub mod buffer;
pub mod radio;
pub mod types;

verus! {

/// The unified failure category a driver fault is reported under when it
/// propagates upward: every radio-side error surfaces as `Radio`, wrapping
/// the driver's own cause exactly once.
#[derive(Debug)]
pub enum Error<R> {
    Radio(R),
}

impl<R> vstd::std_specs::convert::FromSpecImpl<radio::Error<R>> for Error<R> {
    open spec fn obeys_from_spec() -> bool {
        true
    }

    open spec fn from_spec(e: radio::Error<R>) -> Self {
        Error::Radio(e.0)
    }
}

impl<R> From<radio::Error<R>> for Error<R> {
    /// A driver failure is wrapped exactly once into the unified `Radio`
    /// category, carrying the driver's cause unchanged; it is never
    /// downgraded to a success.
    fn from(e: radio::Error<R>) -> (r: Self) {
        Error::Radio(e.0)
    }
}

} // verus!

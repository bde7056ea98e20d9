//! The class factory: the rules by which a calculator object is made on
//! demand.
use vstd::prelude::*;
use vstd::string::*;
use crate::calculator::{
    Calculator,
    CalculatorState,
    lemma_mode_names_recognized,
    standard_mode,
};
use crate::error::ErrorKind;
use windows_core::HRESULT;

verus! {

/// The precision of a freshly activated calculator.
pub const DEFAULT_PRECISION: i32 = 2;

/// The mode of a freshly activated calculator.
pub const DEFAULT_MODE: &'static str = "standard";

/// The state every activated calculator starts in.
pub open spec fn default_state() -> CalculatorState {
    CalculatorState { precision: DEFAULT_PRECISION, mode: standard_mode() }
}

/// Whether an instance is made: aggregation is refused first, then a
/// missing interface identifier or output slot.
pub open spec fn instance_outcome(
    outer_present: bool,
    iid_present: bool,
    slot_present: bool,
) -> Result<(), ErrorKind> {
    if outer_present {
        Err(ErrorKind::NoAggregation)
    } else if !iid_present || !slot_present {
        Err(ErrorKind::InvalidPointer)
    } else {
        Ok(())
    }
}

/// What an activation reports once the host has queried the new object for
/// the requested interface: success for a status that is not negative, and
/// the query's own status as the error otherwise.
pub open spec fn query_outcome_spec(status: i32) -> Result<(), i32> {
    if status < 0 {
        Err(status)
    } else {
        Ok(())
    }
}

/// Tells whether a status is a failure, by `HRESULT::is_err` of
/// `windows_core`: a status fails exactly when it is negative.
#[verifier::external_body]
fn status_failed(status: i32) -> (failed: bool)
    ensures
        failed == (status < 0),
{
    HRESULT(status).is_err()
}

/// Concludes an activation from the status of the interface query.
pub fn query_outcome(status: i32) -> (outcome: Result<(), i32>)
    ensures
        outcome == query_outcome_spec(status),
{
    if status_failed(status) {
        Err(status)
    } else {
        Ok(())
    }
}

/// The factory of calculator objects. It holds no state.
#[derive(Debug)]
pub struct CalculatorFactory {}

impl CalculatorFactory {
    pub fn new() -> (factory: CalculatorFactory)
        ensures
            factory == (CalculatorFactory {  }),
    {
        CalculatorFactory {  }
    }

    /// Makes a calculator in its default state. `outer_present` tells
    /// whether the caller supplied an aggregating outer object,
    /// `iid_present` whether it named the interface it wants, and
    /// `slot_present` whether there is a place to put the result. The host
    /// then queries the object for that interface; the identifier itself is
    /// not looked at here.
    pub fn CreateInstance(&self, outer_present: bool, iid_present: bool, slot_present: bool) -> (made:
        Result<Calculator, ErrorKind>)
        ensures
            match made {
                Ok(object) => instance_outcome(outer_present, iid_present, slot_present) is Ok
                    && object@ == default_state(),
                Err(kind) => instance_outcome(outer_present, iid_present, slot_present) == Err::<
                    (),
                    ErrorKind,
                >(kind),
            },
    {
        if outer_present {
            return Err(ErrorKind::NoAggregation);
        }
        if !iid_present {
            return Err(ErrorKind::InvalidPointer);
        }
        if !slot_present {
            return Err(ErrorKind::InvalidPointer);
        }
        proof {
            lemma_mode_names_recognized();
        }
        Calculator::new(DEFAULT_PRECISION, DEFAULT_MODE)
    }

    /// Does nothing and succeeds: the server keeps no lock count.
    pub fn LockServer(&self, lock: bool) -> (done: Result<(), ErrorKind>)
        ensures
            done == Ok::<(), ErrorKind>(()),
    {
        Ok(())
    }
}

/// Activation succeeds exactly when no outer object is supplied and both
/// the interface identifier and the output slot are present; a supplied
/// outer object is refused as aggregation whatever else is given.
pub proof fn lemma_instance_rules(outer_present: bool, iid_present: bool, slot_present: bool)
    ensures
        instance_outcome(outer_present, iid_present, slot_present) is Ok <==> !outer_present
            && iid_present && slot_present,
        outer_present ==> instance_outcome(outer_present, iid_present, slot_present) == Err::<
            (),
            ErrorKind,
        >(ErrorKind::NoAggregation),
        default_state().is_valid(),
{
    lemma_mode_names_recognized();
}

} // verus!

//! The decisions behind the server's four entry points.
use vstd::prelude::*;
use crate::class_factory::CalculatorFactory;
use crate::error::{ErrorKind, S_FALSE};
use crate::identity::{CLSID_Calculator, Guid};
use crate::registration::{JobKind, JobState, RegistryJob};

verus! {

/// Whether the class factory is handed out: a missing class identifier,
/// interface identifier or output slot is refused first, then a class
/// identifier other than the calculator's.
pub open spec fn class_object_outcome(
    clsid: Option<Guid>,
    iid_present: bool,
    slot_present: bool,
) -> Result<(), ErrorKind> {
    if clsid is None || !iid_present || !slot_present {
        Err(ErrorKind::InvalidPointer)
    } else if clsid->Some_0.value != CLSID_Calculator {
        Err(ErrorKind::ClassNotAvailable)
    } else {
        Ok(())
    }
}

/// Hands out the calculator's class factory. `clsid` is the requested class
/// identifier where one was given, `iid_present` tells whether the caller
/// named the interface it wants, and `slot_present` whether there is a
/// place to put the result. The host then queries the factory for that
/// interface; the identifier itself is not looked at here.
pub fn DllGetClassObject(clsid: Option<Guid>, iid_present: bool, slot_present: bool) -> (found:
    Result<CalculatorFactory, ErrorKind>)
    ensures
        match found {
            Ok(factory) => class_object_outcome(clsid, iid_present, slot_present) is Ok,
            Err(kind) => class_object_outcome(clsid, iid_present, slot_present) == Err::<
                (),
                ErrorKind,
            >(kind),
        },
{
    let class = match clsid {
        Some(class) => class,
        None => {
            return Err(ErrorKind::InvalidPointer);
        },
    };
    if !iid_present {
        return Err(ErrorKind::InvalidPointer);
    }
    if !slot_present {
        return Err(ErrorKind::InvalidPointer);
    }
    let factory = CalculatorFactory::new();
    if class.value != CLSID_Calculator {
        return Err(ErrorKind::ClassNotAvailable);
    }
    Ok(factory)
}

/// Begins a registration. The job returned names the first registry call;
/// its last request carries the status to return.
pub fn DllRegisterServer() -> (job: RegistryJob)
    ensures
        job@ == JobState::start(JobKind::Register),
        job@.wf(),
{
    RegistryJob::begin(JobKind::Register)
}

/// Begins an unregistration, in the same way.
pub fn DllUnregisterServer() -> (job: RegistryJob)
    ensures
        job@ == JobState::start(JobKind::Unregister),
        job@.wf(),
{
    RegistryJob::begin(JobKind::Unregister)
}

/// Always answers that the module must stay loaded: outstanding references
/// are not counted.
pub fn DllCanUnloadNow() -> (status: i32)
    ensures
        status == S_FALSE,
{
    S_FALSE
}

/// The class factory is handed out exactly when all three inputs are
/// present and the class identifier is the calculator's; with all inputs
/// present and any other class identifier the class is reported as not
/// available; and with the interface identifier or the output slot missing
/// the answer does not depend on the class identifier.
pub proof fn lemma_class_object_rules(clsid: Option<Guid>, iid_present: bool, slot_present: bool)
    ensures
        class_object_outcome(clsid, iid_present, slot_present) is Ok <==> clsid == Some(
            Guid { value: CLSID_Calculator },
        ) && iid_present && slot_present,
        clsid is Some && iid_present && slot_present && clsid->Some_0.value != CLSID_Calculator
            ==> class_object_outcome(clsid, iid_present, slot_present) == Err::<(), ErrorKind>(
            ErrorKind::ClassNotAvailable,
        ),
        !iid_present || !slot_present ==> class_object_outcome(clsid, iid_present, slot_present)
            == Err::<(), ErrorKind>(ErrorKind::InvalidPointer),
{
}

} // verus!

//! The calculator object's instance state: construction, and the accessor
//! and mutator methods of its interface.
//!
//! The hosting object keeps one `Calculator` behind its lock. Each method
//! here is one critical section; a mutator is told whether the lock was
//! found poisoned and refuses to write if it was.
use vstd::prelude::*;
use vstd::string::*;
use crate::error::ErrorKind;

verus! {

/// The lower-case form of an ASCII capital letter; every other character is
/// left as it is.
pub open spec fn ascii_lower(c: char) -> char {
    if 'A' <= c && c <= 'Z' {
        ((c as int) + 32) as char
    } else {
        c
    }
}

/// A text with every ASCII capital letter replaced by its lower-case form.
pub open spec fn fold_case(text: Seq<char>) -> Seq<char> {
    text.map_values(|c: char| ascii_lower(c))
}

pub open spec fn standard_mode() -> Seq<char> {
    "standard"@
}

pub open spec fn scientific_mode() -> Seq<char> {
    "scientific"@
}

/// A mode is recognized when, letter case aside, it reads `standard` or
/// `scientific`.
pub open spec fn recognized_mode(mode: Seq<char>) -> bool {
    fold_case(mode) == standard_mode() || fold_case(mode) == scientific_mode()
}

pub open spec fn valid_precision(precision: int) -> bool {
    0 <= precision <= 15
}

/// What acquiring the instance lock reported.
#[derive(Clone, Copy, Debug, PartialEq, Eq, Structural)]
pub enum LockState {
    /// The lock was acquired cleanly.
    Held,
    /// An earlier holder left its critical section abnormally.
    Poisoned,
}

/// The mathematical content of a calculator's state.
pub struct CalculatorState {
    pub precision: i32,
    pub mode: Seq<char>,
}

impl CalculatorState {
    /// The state a constructor or an in-range mutation leaves behind.
    pub open spec fn is_valid(self) -> bool {
        valid_precision(self.precision as int) && recognized_mode(self.mode)
    }

    /// What a mutator reports for a given lock outcome.
    pub open spec fn store_outcome(lock: LockState) -> Result<(), ErrorKind> {
        match lock {
            LockState::Held => Ok(()),
            LockState::Poisoned => Err(ErrorKind::Fatal),
        }
    }

    /// The state after an attempt to store `precision`.
    pub open spec fn store_precision(self, lock: LockState, precision: i32) -> CalculatorState {
        match lock {
            LockState::Held => CalculatorState { precision, mode: self.mode },
            LockState::Poisoned => self,
        }
    }

    /// The state after an attempt to store `mode`.
    pub open spec fn store_mode(self, lock: LockState, mode: Seq<char>) -> CalculatorState {
        match lock {
            LockState::Held => CalculatorState { precision: self.precision, mode },
            LockState::Poisoned => self,
        }
    }

    /// What reading the precision yields: the stored value under a clean
    /// lock, a fatal error under a poisoned one.
    pub open spec fn read_precision(self, lock: LockState) -> Result<i32, ErrorKind> {
        match lock {
            LockState::Held => Ok(self.precision),
            LockState::Poisoned => Err(ErrorKind::Fatal),
        }
    }

    /// What reading the mode yields: the stored text under a clean lock, a
    /// fatal error under a poisoned one.
    pub open spec fn read_mode(self, lock: LockState) -> Result<Seq<char>, ErrorKind> {
        match lock {
            LockState::Held => Ok(self.mode),
            LockState::Poisoned => Err(ErrorKind::Fatal),
        }
    }
}

/// What is told to a caller whose precision was refused.
pub const PRECISION_MESSAGE: &'static str = "Precision must be between 0 and 15";

/// What is told to a caller whose mode was refused.
pub const MODE_MESSAGE: &'static str = "Mode must be 'standard' or 'scientific'";

/// What is told to a caller whose call found the lock poisoned.
pub const POISONED_MESSAGE: &'static str = "Mutex poisoning";

/// What is told to a caller who divided by zero.
pub const DIVISION_MESSAGE: &'static str = "Division by zero";

/// The text that goes with a method's refusal: a method fails fatally only
/// for a poisoned lock, and refuses an argument only for a zero divisor.
pub open spec fn method_message_spec(kind: ErrorKind) -> Option<Seq<char>> {
    match kind {
        ErrorKind::Fatal => Some(POISONED_MESSAGE@),
        ErrorKind::InvalidArgument => Some(DIVISION_MESSAGE@),
        _ => None,
    }
}

/// The text that explains a method's refusal to the caller, where there is
/// one.
pub fn method_message(kind: ErrorKind) -> (text: Option<&'static str>)
    ensures
        match text {
            Some(message) => method_message_spec(kind) == Some(message@),
            None => method_message_spec(kind) is None,
        },
{
    match kind {
        ErrorKind::Fatal => Some(POISONED_MESSAGE),
        ErrorKind::InvalidArgument => Some(DIVISION_MESSAGE),
        _ => None,
    }
}

/// The argument that construction refused.
#[derive(Clone, Copy, Debug, PartialEq, Eq, Structural)]
pub enum ArgumentFault {
    /// The precision lies outside `0..=15`.
    Precision,
    /// The mode is not recognized.
    Mode,
}

impl ArgumentFault {
    pub open spec fn message_spec(self) -> Seq<char> {
        match self {
            ArgumentFault::Precision => PRECISION_MESSAGE@,
            ArgumentFault::Mode => MODE_MESSAGE@,
        }
    }

    /// The text that explains the refusal to the caller.
    pub fn message(&self) -> (text: &'static str)
        ensures
            text@ == self.message_spec(),
    {
        match self {
            ArgumentFault::Precision => PRECISION_MESSAGE,
            ArgumentFault::Mode => MODE_MESSAGE,
        }
    }
}

/// The first argument that construction refuses, if it refuses any: the
/// precision is looked at before the mode.
pub open spec fn argument_fault_spec(precision: i32, mode: Seq<char>) -> Option<ArgumentFault> {
    if !valid_precision(precision as int) {
        Some(ArgumentFault::Precision)
    } else if !recognized_mode(mode) {
        Some(ArgumentFault::Mode)
    } else {
        None
    }
}

/// True when a single-precision bit pattern is positive or negative zero,
/// the two values that compare equal to zero.
pub open spec fn is_zero_bits(bits: u32) -> bool {
    bits == 0 || bits == 0x8000_0000
}

/// The code of the character's lower-case form.
fn lower_code(c: char) -> (code: u32)
    ensures
        code == ascii_lower(c) as u32,
{
    if 'A' <= c && c <= 'Z' {
        c as u32 + 32
    } else {
        c as u32
    }
}

/// Compares `text`, letter case aside, with a name that holds no capitals.
fn reads_as(text: &str, name: &str) -> (same: bool)
    requires
        forall|i: int| 0 <= i < name@.len() ==> ascii_lower(#[trigger] name@[i]) == name@[i],
    ensures
        same == (fold_case(text@) == name@),
{
    let n: usize = text.unicode_len();
    if n != name.unicode_len() {
        return false;
    }
    let mut i: usize = 0;
    while i < n
        invariant
            n == text@.len(),
            n == name@.len(),
            i <= n,
            forall|j: int| 0 <= j < i ==> ascii_lower(#[trigger] text@[j]) == name@[j],
        decreases n - i,
    {
        if lower_code(text.get_char(i)) != name.get_char(i) as u32 {
            assert(fold_case(text@)[i as int] != name@[i as int]);
            return false;
        }
        i += 1;
    }
    assert(fold_case(text@) =~= name@);
    true
}

/// Decides whether a mode is recognized.
pub fn is_recognized_mode(mode: &str) -> (known: bool)
    ensures
        known == recognized_mode(mode@),
{
    proof {
        reveal_strlit("standard");
        reveal_strlit("scientific");
    }
    reads_as(mode, "standard") || reads_as(mode, "scientific")
}

/// The state of one calculator object: how many decimal places results are
/// rounded to, and the operating mode.
#[derive(Debug)]
pub struct Calculator {
    precision: i32,
    mode: String,
}

impl View for Calculator {
    type V = CalculatorState;

    closed spec fn view(&self) -> CalculatorState {
        CalculatorState { precision: self.precision, mode: self.mode@ }
    }
}

impl Calculator {
    /// What construction yields: the given state when the precision lies in
    /// `0..=15` and the mode is recognized, an argument error otherwise.
    pub open spec fn construct(precision: i32, mode: Seq<char>) -> Result<
        CalculatorState,
        ErrorKind,
    > {
        match argument_fault_spec(precision, mode) {
            None => Ok(CalculatorState { precision, mode }),
            Some(_) => Err(ErrorKind::InvalidArgument),
        }
    }

    /// Tells which argument construction would refuse, if any.
    pub fn argument_fault(precision: i32, mode: &str) -> (fault: Option<ArgumentFault>)
        ensures
            fault == argument_fault_spec(precision, mode@),
    {
        if precision < 0 || precision > 15 {
            Some(ArgumentFault::Precision)
        } else if !is_recognized_mode(mode) {
            Some(ArgumentFault::Mode)
        } else {
            None
        }
    }

    pub fn new(precision: i32, mode: &str) -> (made: Result<Calculator, ErrorKind>)
        ensures
            match made {
                Ok(calculator) => Self::construct(precision, mode@) == Ok::<
                    CalculatorState,
                    ErrorKind,
                >(calculator@),
                Err(kind) => Self::construct(precision, mode@) == Err::<CalculatorState, ErrorKind>(
                    kind,
                ),
            },
    {
        match Self::argument_fault(precision, mode) {
            Some(_) => Err(ErrorKind::InvalidArgument),
            None => Ok(Calculator { precision, mode: mode.to_owned() }),
        }
    }

    /// Stores `precision` as it is, without a range check, unless the lock
    /// was poisoned; then nothing is written.
    pub fn SetPrecision(&mut self, lock: LockState, precision: i32) -> (stored: Result<
        (),
        ErrorKind,
    >)
        ensures
            final(self)@ == old(self)@.store_precision(lock, precision),
            stored == CalculatorState::store_outcome(lock),
            lock == LockState::Held && old(self)@.is_valid() && valid_precision(precision as int)
                ==> final(self)@.is_valid(),
    {
        match lock {
            LockState::Held => {
                self.precision = precision;
                Ok(())
            },
            LockState::Poisoned => Err(ErrorKind::Fatal),
        }
    }

    /// Reads the precision, unless the lock was poisoned.
    pub fn GetPrecision(&self, lock: LockState) -> (read: Result<i32, ErrorKind>)
        ensures
            read == self@.read_precision(lock),
    {
        match lock {
            LockState::Held => Ok(self.precision),
            LockState::Poisoned => Err(ErrorKind::Fatal),
        }
    }

    /// Stores `mode` as it is, recognized or not, unless the lock was
    /// poisoned; then nothing is written.
    pub fn SetMode(&mut self, lock: LockState, mode: &str) -> (stored: Result<(), ErrorKind>)
        ensures
            final(self)@ == old(self)@.store_mode(lock, mode@),
            stored == CalculatorState::store_outcome(lock),
            lock == LockState::Held && old(self)@.is_valid() && recognized_mode(mode@)
                ==> final(self)@.is_valid(),
    {
        match lock {
            LockState::Held => {
                self.mode = mode.to_owned();
                Ok(())
            },
            LockState::Poisoned => Err(ErrorKind::Fatal),
        }
    }

    /// Reads the mode, unless the lock was poisoned.
    pub fn GetMode(&self, lock: LockState) -> (read: Result<String, ErrorKind>)
        ensures
            match read {
                Ok(mode) => self@.read_mode(lock) == Ok::<Seq<char>, ErrorKind>(mode@),
                Err(kind) => self@.read_mode(lock) == Err::<Seq<char>, ErrorKind>(kind),
            },
    {
        match lock {
            LockState::Held => Ok(self.mode.clone()),
            LockState::Poisoned => Err(ErrorKind::Fatal),
        }
    }

    /// Refuses a divisor whose single-precision bit pattern is a zero.
    pub fn check_divisor(divisor_bits: u32) -> (checked: Result<(), ErrorKind>)
        ensures
            is_zero_bits(divisor_bits) ==> checked == Err::<(), ErrorKind>(
                ErrorKind::InvalidArgument,
            ),
            !is_zero_bits(divisor_bits) ==> checked == Ok::<(), ErrorKind>(()),
    {
        if divisor_bits == 0 || divisor_bits == 0x8000_0000 {
            Err(ErrorKind::InvalidArgument)
        } else {
            Ok(())
        }
    }
}

/// Both mode names, written in lower case, are recognized.
pub proof fn lemma_mode_names_recognized()
    ensures
        recognized_mode(standard_mode()),
        recognized_mode(scientific_mode()),
{
    reveal_strlit("standard");
    reveal_strlit("scientific");
    assert(fold_case(standard_mode()) =~= standard_mode());
    assert(fold_case(scientific_mode()) =~= scientific_mode());
}

/// Letter case does not matter to recognition: a mode is recognized exactly
/// when its lower-case form is.
pub proof fn lemma_recognition_ignores_case(mode: Seq<char>)
    ensures
        recognized_mode(mode) == recognized_mode(fold_case(mode)),
{
    assert(fold_case(fold_case(mode)) =~= fold_case(mode));
}

/// Construction accepts every precision from 0 to 15 together with either
/// mode name, and the object made reads back, under a clean lock, exactly
/// what was given.
pub proof fn lemma_valid_settings_echoed(precision: i32, mode: Seq<char>)
    requires
        valid_precision(precision as int),
        mode == standard_mode() || mode == scientific_mode(),
    ensures
        Calculator::construct(precision, mode) is Ok,
        Calculator::construct(precision, mode)->Ok_0.read_precision(LockState::Held) == Ok::<
            i32,
            ErrorKind,
        >(precision),
        Calculator::construct(precision, mode)->Ok_0.read_mode(LockState::Held) == Ok::<
            Seq<char>,
            ErrorKind,
        >(mode),
        Calculator::construct(precision, mode)->Ok_0.is_valid(),
{
    lemma_mode_names_recognized();
}

/// Construction fails, with an argument error, exactly when the precision
/// lies outside `0..=15` or the mode is not recognized.
pub proof fn lemma_construction_refusals(precision: i32, mode: Seq<char>)
    ensures
        Calculator::construct(precision, mode) is Err <==> precision < 0 || precision > 15
            || !recognized_mode(mode),
        Calculator::construct(precision, mode) is Err ==> Calculator::construct(
            precision,
            mode,
        )->Err_0 == ErrorKind::InvalidArgument,
        Calculator::construct(precision, mode) is Err <==> argument_fault_spec(precision, mode)
            is Some,
        argument_fault_spec(precision, mode) == Some(ArgumentFault::Precision) <==> precision < 0
            || precision > 15,
{
}

/// A mode stored under a clean lock is the mode read afterwards, whatever
/// it is, and the precision is untouched.
pub proof fn lemma_mode_round_trip(state: CalculatorState, mode: Seq<char>)
    ensures
        state.store_mode(LockState::Held, mode).read_mode(LockState::Held) == Ok::<
            Seq<char>,
            ErrorKind,
        >(mode),
        state.store_mode(LockState::Held, mode).read_precision(LockState::Held)
            == state.read_precision(LockState::Held),
{
}

/// A precision stored under a clean lock is the precision read afterwards,
/// and the mode is untouched: a read sees the whole of one write.
pub proof fn lemma_precision_round_trip(state: CalculatorState, precision: i32)
    ensures
        state.store_precision(LockState::Held, precision).read_precision(LockState::Held) == Ok::<
            i32,
            ErrorKind,
        >(precision),
        state.store_precision(LockState::Held, precision).read_mode(LockState::Held)
            == state.read_mode(LockState::Held),
{
}

/// One call on the precision of an object.
pub enum PrecisionCall {
    SetPrecision(i32),
    GetPrecision,
}

/// The state after a series of calls on one object, each made under a clean
/// lock, in the order in which the lock was granted to them.
pub open spec fn after_calls(state: CalculatorState, calls: Seq<PrecisionCall>) -> CalculatorState
    decreases calls.len(),
{
    if calls.len() == 0 {
        state
    } else {
        let before = after_calls(state, calls.drop_last());
        match calls.last() {
            PrecisionCall::SetPrecision(precision) => before.store_precision(
                LockState::Held,
                precision,
            ),
            PrecisionCall::GetPrecision => before,
        }
    }
}

/// The precision written by the latest `SetPrecision` of a series of calls,
/// or the one given where the series holds none.
pub open spec fn latest_write(initial: i32, calls: Seq<PrecisionCall>) -> i32
    decreases calls.len(),
{
    if calls.len() == 0 {
        initial
    } else {
        match calls.last() {
            PrecisionCall::SetPrecision(precision) => precision,
            PrecisionCall::GetPrecision => latest_write(initial, calls.drop_last()),
        }
    }
}

/// However the calls of several callers on one object are put in order by
/// its lock, a read that follows them returns a value that one of them
/// wrote whole, the one written last, or the first value where nothing
/// was written; it never returns a mix of two writes. The mode is left as
/// it was.
pub proof fn lemma_reads_see_whole_writes(state: CalculatorState, calls: Seq<PrecisionCall>)
    ensures
        after_calls(state, calls).read_precision(LockState::Held) == Ok::<i32, ErrorKind>(
            latest_write(state.precision, calls),
        ),
        latest_write(state.precision, calls) == state.precision || exists|i: int|
            0 <= i < calls.len() && calls[i] == PrecisionCall::SetPrecision(
                latest_write(state.precision, calls),
            ),
        after_calls(state, calls).mode == state.mode,
    decreases calls.len(),
{
    if calls.len() > 0 {
        let earlier = calls.drop_last();
        lemma_reads_see_whole_writes(state, earlier);
        let latest = latest_write(state.precision, calls);
        match calls.last() {
            PrecisionCall::SetPrecision(precision) => {
                assert(calls[calls.len() - 1] == PrecisionCall::SetPrecision(latest));
            },
            PrecisionCall::GetPrecision => {
                if latest != state.precision {
                    let i = choose|i: int|
                        0 <= i < earlier.len() && earlier[i] == PrecisionCall::SetPrecision(latest);
                    assert(calls[i] == PrecisionCall::SetPrecision(latest));
                }
            },
        }
    }
}

/// A call that finds the lock poisoned reports a fatal error, whether it
/// reads or writes, and leaves the state as it was, so a later call under
/// a clean lock still works.
pub proof fn lemma_refused_store_changes_nothing(
    state: CalculatorState,
    precision: i32,
    mode: Seq<char>,
)
    ensures
        CalculatorState::store_outcome(LockState::Poisoned) == Err::<(), ErrorKind>(
            ErrorKind::Fatal,
        ),
        state.store_precision(LockState::Poisoned, precision) == state,
        state.store_mode(LockState::Poisoned, mode) == state,
        state.read_precision(LockState::Poisoned) == Err::<i32, ErrorKind>(ErrorKind::Fatal),
        state.read_mode(LockState::Poisoned) == Err::<Seq<char>, ErrorKind>(ErrorKind::Fatal),
        state.store_precision(LockState::Poisoned, precision).store_precision(
            LockState::Held,
            precision,
        ).read_precision(LockState::Held) == Ok::<i32, ErrorKind>(precision),
{
}

/// Storing an in-range precision or a recognized mode keeps a valid state
/// valid.
pub proof fn lemma_checked_stores_keep_validity(
    state: CalculatorState,
    lock: LockState,
    precision: i32,
    mode: Seq<char>,
)
    requires
        state.is_valid(),
        valid_precision(precision as int),
        recognized_mode(mode),
    ensures
        state.store_precision(lock, precision).is_valid(),
        state.store_mode(lock, mode).is_valid(),
{
}

} // verus!

//! Sizing the buffer that receives the loaded module's path.
//!
//! The loader call itself is made by the host: it fills the buffer and
//! reports how many units it wrote. What follows from that report is
//! decided here.
use vstd::prelude::*;

verus! {

/// Number of 16-bit units in the first buffer offered to the loader.
pub const INITIAL_PATH_UNITS: usize = 1024;

/// What to do after one call of the loader.
#[derive(Debug, PartialEq, Eq)]
pub enum ModulePathStep {
    /// The path, cut just behind its terminator.
    Resolved(Vec<u16>),
    /// The buffer was filled to the brim: call again with this larger one.
    Retry(Vec<u16>),
    /// The loader reported failure.
    Failed,
}

/// The mathematical content of a `ModulePathStep`.
pub enum ModulePathOutcome {
    Resolved(Seq<u16>),
    Retry(Seq<u16>),
    Failed,
}

impl View for ModulePathStep {
    type V = ModulePathOutcome;

    open spec fn view(&self) -> ModulePathOutcome {
        match self {
            ModulePathStep::Resolved(path) => ModulePathOutcome::Resolved(path@),
            ModulePathStep::Retry(buffer) => ModulePathOutcome::Retry(buffer@),
            ModulePathStep::Failed => ModulePathOutcome::Failed,
        }
    }
}

/// The step that follows a loader call which was given `buffer` and
/// reported `written` units: failure for zero; a larger buffer, twice as
/// long and zero-filled behind the old contents, when the buffer was filled
/// completely; otherwise the buffer cut to one unit more than was written.
pub open spec fn next_step(buffer: Seq<u16>, written: u32) -> ModulePathOutcome {
    if written == 0 {
        ModulePathOutcome::Failed
    } else if written != buffer.len() {
        if written < buffer.len() {
            ModulePathOutcome::Resolved(buffer.subrange(0, written + 1))
        } else {
            ModulePathOutcome::Resolved(buffer)
        }
    } else {
        ModulePathOutcome::Retry(buffer + Seq::new(buffer.len(), |i: int| 0u16))
    }
}

/// The first buffer to offer to the loader.
pub fn module_path_buffer() -> (buffer: Vec<u16>)
    ensures
        buffer@ == Seq::new(INITIAL_PATH_UNITS as nat, |i: int| 0u16),
{
    let buffer: Vec<u16> = vec![0u16; INITIAL_PATH_UNITS];
    assert(buffer@ =~= Seq::new(INITIAL_PATH_UNITS as nat, |i: int| 0u16));
    buffer
}

/// Decides what follows one loader call.
pub fn get_module_path(buffer: Vec<u16>, written: u32) -> (step: ModulePathStep)
    requires
        buffer.len() * 2 <= usize::MAX,
    ensures
        step@ == next_step(buffer@, written),
{
    let mut path = buffer;
    let len: usize = path.len();
    if written == 0 {
        ModulePathStep::Failed
    } else if written as usize != len {
        if (written as usize) < len {
            path.truncate(written as usize + 1);
        }
        ModulePathStep::Resolved(path)
    } else {
        path.resize(len * 2, 0u16);
        assert(path@ =~= buffer@ + Seq::new(buffer@.len(), |i: int| 0u16));
        ModulePathStep::Retry(path)
    }
}

/// A path resolved by `get_module_path` is never longer than the buffer it
/// came from and agrees with it unit by unit; a retry keeps the old
/// contents and doubles the length.
pub proof fn lemma_step_keeps_contents(buffer: Seq<u16>, written: u32)
    ensures
        match next_step(buffer, written) {
            ModulePathOutcome::Resolved(path) => path.len() <= buffer.len() && path
                == buffer.subrange(0, path.len() as int),
            ModulePathOutcome::Retry(larger) => larger.len() == 2 * buffer.len()
                && larger.subrange(0, buffer.len() as int) == buffer,
            ModulePathOutcome::Failed => written == 0,
        },
{
    match next_step(buffer, written) {
        ModulePathOutcome::Resolved(path) => {
            assert(path =~= buffer.subrange(0, path.len() as int));
        },
        ModulePathOutcome::Retry(larger) => {
            assert(larger.subrange(0, buffer.len() as int) =~= buffer);
        },
        ModulePathOutcome::Failed => {},
    }
}

} // verus!

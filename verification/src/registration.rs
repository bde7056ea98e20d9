//! Publishing the calculator class in the registry, and retracting it.
//!
//! The registry calls are made by the host. A `RegistryJob` tells it which
//! call comes next and takes the call's report back; what the report means
//! for the rest of the run is decided here. A run follows a fixed script
//! while every call succeeds.
//!
//! A registration is abandoned at its first failure: the keys that are open
//! at that moment are closed, innermost first, and the run ends in failure.
//! What earlier calls wrote stays written. An unregistration carries out
//! both of its deletions whatever the first one reported, and ends in
//! failure if either failed.
use vstd::prelude::*;
use vstd::string::*;
use vstd::utf8::*;
use crate::error::{E_FAIL, ErrorKind, S_OK};
use crate::identity::{CLSID_Calculator, Guid, ProgID, class_id};

verus! {

/// The display name stored as default value of both top-level keys.
pub const DESCRIPTION: &'static str = "Rust Calculator COM Object";

/// The threading-model tag: callers of either threading model are served.
pub const THREADING_MODEL: &'static str = "Both";

/// The status with which a registry call reports success; every other
/// status is a failure.
pub const ERROR_SUCCESS: u32 = 0;

/// The keys a run opens or deletes.
#[derive(Clone, Copy, Debug, PartialEq, Eq, Structural)]
pub enum RegistryKey {
    /// The key named by the program identifier, below the classes root.
    ProgramId,
    /// Its `CLSID` sub-key.
    ProgramIdClass,
    /// The key of the class identifier, below the classes root.
    ClassId,
    /// Its `ProgID` sub-key.
    ClassIdProgram,
    /// Its `InprocServer32` sub-key.
    InprocServer,
}

/// Where a key is created.
#[derive(Clone, Copy, Debug, PartialEq, Eq, Structural)]
pub enum KeyParent {
    /// Directly below the classes root.
    ClassesRoot,
    /// Below a key that this run holds open.
    Key(RegistryKey),
}

/// Which value of a key is set.
#[derive(Clone, Copy, Debug, PartialEq, Eq, Structural)]
pub enum ValueName {
    /// The key's unnamed default value.
    Default,
    /// The value named `ThreadingModel`.
    ThreadingModel,
}

/// What is stored in a value.
#[derive(Clone, Copy, Debug, PartialEq, Eq, Structural)]
pub enum ValueData {
    /// The display name.
    Description,
    /// The class identifier in braces.
    ClassId,
    /// The program identifier.
    ProgramId,
    /// The path of the loaded module, as resolved earlier in the run: a
    /// wide text, stored unit for unit.
    ModulePath,
    /// The threading-model tag.
    ThreadingModel,
}

/// One request to the host.
#[derive(Clone, Copy, Debug, PartialEq, Eq, Structural)]
pub enum RegistryAction {
    /// Create or open `key` below `parent` and keep it open.
    CreateKey { parent: KeyParent, key: RegistryKey },
    /// Set a string value of the open key `key`.
    SetValue { key: RegistryKey, name: ValueName, data: ValueData },
    /// Close the open key `key`.
    CloseKey { key: RegistryKey },
    /// Delete `key`, found by its path below the classes root, together
    /// with every key and value below it.
    DeleteKey { key: RegistryKey },
    /// Resolve the absolute path of the loaded module.
    ResolveModulePath,
    /// The run is over: hand `status` to the caller.
    Return { status: i32 },
}

/// The host's report on the request it was given.
#[derive(Debug, PartialEq, Eq)]
pub enum RegistryEvent {
    /// The status code a registry call returned.
    Status(u32),
    /// The module's path, in 16-bit units.
    ModulePath(Vec<u16>),
    /// The module's path could not be resolved.
    ModulePathUnavailable,
}

/// The mathematical content of a `RegistryEvent`.
pub enum EventView {
    Status(u32),
    ModulePath(Seq<u16>),
    ModulePathUnavailable,
}

impl View for RegistryEvent {
    type V = EventView;

    open spec fn view(&self) -> EventView {
        match self {
            RegistryEvent::Status(code) => EventView::Status(*code),
            RegistryEvent::ModulePath(path) => EventView::ModulePath(path@),
            RegistryEvent::ModulePathUnavailable => EventView::ModulePathUnavailable,
        }
    }
}

/// What the host stores in a string value.
#[derive(Debug, PartialEq, Eq)]
pub enum ValueContent {
    /// A text in single bytes, for the byte-wise registry call.
    Bytes(Vec<u8>),
    /// A wide text in 16-bit units, for the wide-character registry call.
    Units(Vec<u16>),
}

/// The mathematical content of a `ValueContent`.
pub enum ContentView {
    Bytes(Seq<u8>),
    Units(Seq<u16>),
}

impl View for ValueContent {
    type V = ContentView;

    open spec fn view(&self) -> ContentView {
        match self {
            ValueContent::Bytes(bytes) => ContentView::Bytes(bytes@),
            ValueContent::Units(units) => ContentView::Units(units@),
        }
    }
}

/// Which of the two runs a job performs.
#[derive(Clone, Copy, Debug, PartialEq, Eq, Structural)]
pub enum JobKind {
    Register,
    Unregister,
}

/// The requests of a registration in which every call succeeds.
pub open spec fn register_script() -> Seq<RegistryAction> {
    seq![
        RegistryAction::CreateKey { parent: KeyParent::ClassesRoot, key: RegistryKey::ProgramId },
        RegistryAction::SetValue {
            key: RegistryKey::ProgramId,
            name: ValueName::Default,
            data: ValueData::Description,
        },
        RegistryAction::CreateKey {
            parent: KeyParent::Key(RegistryKey::ProgramId),
            key: RegistryKey::ProgramIdClass,
        },
        RegistryAction::SetValue {
            key: RegistryKey::ProgramIdClass,
            name: ValueName::Default,
            data: ValueData::ClassId,
        },
        RegistryAction::CloseKey { key: RegistryKey::ProgramIdClass },
        RegistryAction::CloseKey { key: RegistryKey::ProgramId },
        RegistryAction::CreateKey { parent: KeyParent::ClassesRoot, key: RegistryKey::ClassId },
        RegistryAction::SetValue {
            key: RegistryKey::ClassId,
            name: ValueName::Default,
            data: ValueData::Description,
        },
        RegistryAction::CreateKey {
            parent: KeyParent::Key(RegistryKey::ClassId),
            key: RegistryKey::ClassIdProgram,
        },
        RegistryAction::SetValue {
            key: RegistryKey::ClassIdProgram,
            name: ValueName::Default,
            data: ValueData::ProgramId,
        },
        RegistryAction::CreateKey {
            parent: KeyParent::Key(RegistryKey::ClassId),
            key: RegistryKey::InprocServer,
        },
        RegistryAction::ResolveModulePath,
        RegistryAction::SetValue {
            key: RegistryKey::InprocServer,
            name: ValueName::Default,
            data: ValueData::ModulePath,
        },
        RegistryAction::SetValue {
            key: RegistryKey::InprocServer,
            name: ValueName::ThreadingModel,
            data: ValueData::ThreadingModel,
        },
        RegistryAction::CloseKey { key: RegistryKey::InprocServer },
        RegistryAction::CloseKey { key: RegistryKey::ClassIdProgram },
        RegistryAction::CloseKey { key: RegistryKey::ClassId },
    ]
}

/// The requests of an unregistration in which every call succeeds.
pub open spec fn unregister_script() -> Seq<RegistryAction> {
    seq![
        RegistryAction::DeleteKey { key: RegistryKey::ProgramId },
        RegistryAction::DeleteKey { key: RegistryKey::ClassId },
    ]
}

pub open spec fn script(kind: JobKind) -> Seq<RegistryAction> {
    match kind {
        JobKind::Register => register_script(),
        JobKind::Unregister => unregister_script(),
    }
}

/// The open keys after one more request has succeeded.
pub open spec fn keys_after(open: Seq<RegistryKey>, action: RegistryAction) -> Seq<RegistryKey> {
    match action {
        RegistryAction::CreateKey { parent, key } => open.push(key),
        RegistryAction::CloseKey { key } => if open.len() > 0 {
            open.drop_last()
        } else {
            open
        },
        _ => open,
    }
}

/// The keys that are open once the first `done` requests of a script have
/// succeeded, outermost first.
pub open spec fn open_after(script: Seq<RegistryAction>, done: nat) -> Seq<RegistryKey>
    decreases done,
{
    if done == 0 || done > script.len() {
        Seq::empty()
    } else {
        keys_after(open_after(script, (done - 1) as nat), script[done - 1])
    }
}

/// Whether a report means that the request it answers succeeded. Closing a
/// key counts as done whatever was reported.
pub open spec fn answered(action: RegistryAction, event: EventView) -> bool {
    match action {
        RegistryAction::CloseKey { key } => true,
        RegistryAction::Return { status } => true,
        RegistryAction::ResolveModulePath => event is ModulePath,
        _ => event == EventView::Status(ERROR_SUCCESS),
    }
}

impl JobKind {
    /// Whether a failed request ends the run at once. A registration stops
    /// at its first failure; an unregistration goes on with the deletions
    /// that are left.
    pub open spec fn stops_at_failure(self) -> bool {
        self == JobKind::Register
    }
}

/// The mathematical content of a job.
pub struct JobState {
    pub kind: JobKind,
    /// How many requests of the script are over: answered with success, or,
    /// in a run that goes on after a failure, answered at all.
    pub done: nat,
    /// The keys held open, outermost first.
    pub open: Seq<RegistryKey>,
    /// Whether a request has failed.
    pub failed: bool,
    /// The module's path in 16-bit units, as it was resolved; empty until
    /// then.
    pub path: Seq<u16>,
}

impl JobState {
    /// The state in which a run begins.
    pub open spec fn start(kind: JobKind) -> JobState {
        JobState { kind, done: 0, open: Seq::empty(), failed: false, path: Seq::empty() }
    }

    /// Whether the run has left its script and is closing keys on its way
    /// to a failed end.
    pub open spec fn is_unwinding(self) -> bool {
        self.failed && self.kind.stops_at_failure()
    }

    /// The open keys are those the script has opened and not yet closed;
    /// in an abandoned run, those of them that are still to be closed.
    pub open spec fn wf(self) -> bool {
        &&& self.done <= script(self.kind).len()
        &&& self.open.is_prefix_of(open_after(script(self.kind), self.done))
        &&& !self.is_unwinding() ==> self.open == open_after(script(self.kind), self.done)
    }

    /// How the run ends, once it has ended: in success if no request
    /// failed, as a failed registry operation otherwise.
    pub open spec fn outcome(self) -> Result<(), ErrorKind> {
        if self.failed {
            Err(ErrorKind::RegistryOperationFailed)
        } else {
            Ok(())
        }
    }

    /// The status that the closing request carries.
    pub open spec fn closing_status(self) -> i32 {
        match self.outcome() {
            Ok(_) => S_OK,
            Err(kind) => kind.status_spec(),
        }
    }

    /// The request the host is to carry out in this state.
    pub open spec fn pending(self) -> RegistryAction {
        if self.is_unwinding() && self.open.len() > 0 {
            RegistryAction::CloseKey { key: self.open.last() }
        } else if !self.is_unwinding() && self.done < script(self.kind).len() {
            script(self.kind)[self.done as int]
        } else {
            RegistryAction::Return { status: self.closing_status() }
        }
    }

    pub open spec fn is_finished(self) -> bool {
        self.pending() is Return
    }

    /// The state after the host has reported on the pending request.
    pub open spec fn advance(self, event: EventView) -> JobState {
        let action = self.pending();
        if action is Return {
            self
        } else if self.is_unwinding() {
            JobState { open: keys_after(self.open, action), ..self }
        } else if answered(action, event) {
            JobState {
                done: self.done + 1,
                open: keys_after(self.open, action),
                path: match (action, event) {
                    (RegistryAction::ResolveModulePath, EventView::ModulePath(units)) => units,
                    _ => self.path,
                },
                ..self
            }
        } else if self.kind.stops_at_failure() {
            JobState { failed: true, ..self }
        } else {
            JobState { failed: true, done: self.done + 1, ..self }
        }
    }

    /// An upper bound on the number of reports the run still takes.
    pub open spec fn remaining(self) -> nat {
        if self.is_unwinding() {
            self.open.len()
        } else {
            (2 * (script(self.kind).len() - self.done) + self.open.len() + 1) as nat
        }
    }

    /// What to store for `data`.
    pub open spec fn value_content(self, data: ValueData) -> ContentView {
        data.content_spec(self.path)
    }
}

impl ValueData {
    /// What is stored for this value, given the module's path as it was
    /// resolved: the path itself, unit for unit, as a wide text; every other
    /// value as the UTF-8 encoding of its text, without a terminator.
    pub open spec fn content_spec(self, path: Seq<u16>) -> ContentView {
        match self {
            ValueData::Description => ContentView::Bytes(encode_utf8(DESCRIPTION@)),
            ValueData::ClassId => ContentView::Bytes(
                encode_utf8((Guid { value: CLSID_Calculator }).braced_spec()),
            ),
            ValueData::ProgramId => ContentView::Bytes(encode_utf8(ProgID@)),
            ValueData::ModulePath => ContentView::Units(path),
            ValueData::ThreadingModel => ContentView::Bytes(encode_utf8(THREADING_MODEL@)),
        }
    }
}

impl RegistryKey {
    /// The key's path below its parent.
    pub open spec fn subkey_spec(self) -> Seq<char> {
        match self {
            RegistryKey::ProgramId => ProgID@,
            RegistryKey::ProgramIdClass => "CLSID"@,
            RegistryKey::ClassId => (Guid { value: CLSID_Calculator }).class_key_spec(),
            RegistryKey::ClassIdProgram => "ProgID"@,
            RegistryKey::InprocServer => "InprocServer32"@,
        }
    }

    /// The key below which this key lives.
    pub open spec fn parent(self) -> KeyParent {
        match self {
            RegistryKey::ProgramId => KeyParent::ClassesRoot,
            RegistryKey::ProgramIdClass => KeyParent::Key(RegistryKey::ProgramId),
            RegistryKey::ClassId => KeyParent::ClassesRoot,
            RegistryKey::ClassIdProgram => KeyParent::Key(RegistryKey::ClassId),
            RegistryKey::InprocServer => KeyParent::Key(RegistryKey::ClassId),
        }
    }

    /// The key directly below the classes root that this key is or lives in.
    pub open spec fn top(self) -> RegistryKey {
        match self.parent() {
            KeyParent::ClassesRoot => self,
            KeyParent::Key(above) => above,
        }
    }

    /// The key's full path below the classes root.
    pub open spec fn path_spec(self) -> Seq<char> {
        match self.parent() {
            KeyParent::ClassesRoot => self.subkey_spec(),
            KeyParent::Key(above) => above.subkey_spec() + seq!['\\'] + self.subkey_spec(),
        }
    }

    pub fn subkey(&self) -> (path: String)
        ensures
            path@ == self.subkey_spec(),
    {
        match self {
            RegistryKey::ProgramId => String::from_str(ProgID),
            RegistryKey::ProgramIdClass => String::from_str("CLSID"),
            RegistryKey::ClassId => class_id().class_key(),
            RegistryKey::ClassIdProgram => String::from_str("ProgID"),
            RegistryKey::InprocServer => String::from_str("InprocServer32"),
        }
    }
}

impl ValueName {
    /// The value's name; none for the default value.
    pub open spec fn text_spec(self) -> Option<Seq<char>> {
        match self {
            ValueName::Default => None,
            ValueName::ThreadingModel => Some("ThreadingModel"@),
        }
    }

    pub fn text(&self) -> (name: Option<String>)
        ensures
            match name {
                Some(text) => self.text_spec() == Some(text@),
                None => self.text_spec() is None,
            },
    {
        match self {
            ValueName::Default => None,
            ValueName::ThreadingModel => Some(String::from_str("ThreadingModel")),
        }
    }
}

/// The request at a given place of a script, if the script is that long.
fn scripted(kind: JobKind, place: usize) -> (action: Option<RegistryAction>)
    ensures
        place < script(kind).len() ==> action == Some(script(kind)[place as int]),
        place >= script(kind).len() ==> action is None,
{
    match kind {
        JobKind::Register => match place {
            0 => Some(
                RegistryAction::CreateKey {
                    parent: KeyParent::ClassesRoot,
                    key: RegistryKey::ProgramId,
                },
            ),
            1 => Some(
                RegistryAction::SetValue {
                    key: RegistryKey::ProgramId,
                    name: ValueName::Default,
                    data: ValueData::Description,
                },
            ),
            2 => Some(
                RegistryAction::CreateKey {
                    parent: KeyParent::Key(RegistryKey::ProgramId),
                    key: RegistryKey::ProgramIdClass,
                },
            ),
            3 => Some(
                RegistryAction::SetValue {
                    key: RegistryKey::ProgramIdClass,
                    name: ValueName::Default,
                    data: ValueData::ClassId,
                },
            ),
            4 => Some(RegistryAction::CloseKey { key: RegistryKey::ProgramIdClass }),
            5 => Some(RegistryAction::CloseKey { key: RegistryKey::ProgramId }),
            6 => Some(
                RegistryAction::CreateKey {
                    parent: KeyParent::ClassesRoot,
                    key: RegistryKey::ClassId,
                },
            ),
            7 => Some(
                RegistryAction::SetValue {
                    key: RegistryKey::ClassId,
                    name: ValueName::Default,
                    data: ValueData::Description,
                },
            ),
            8 => Some(
                RegistryAction::CreateKey {
                    parent: KeyParent::Key(RegistryKey::ClassId),
                    key: RegistryKey::ClassIdProgram,
                },
            ),
            9 => Some(
                RegistryAction::SetValue {
                    key: RegistryKey::ClassIdProgram,
                    name: ValueName::Default,
                    data: ValueData::ProgramId,
                },
            ),
            10 => Some(
                RegistryAction::CreateKey {
                    parent: KeyParent::Key(RegistryKey::ClassId),
                    key: RegistryKey::InprocServer,
                },
            ),
            11 => Some(RegistryAction::ResolveModulePath),
            12 => Some(
                RegistryAction::SetValue {
                    key: RegistryKey::InprocServer,
                    name: ValueName::Default,
                    data: ValueData::ModulePath,
                },
            ),
            13 => Some(
                RegistryAction::SetValue {
                    key: RegistryKey::InprocServer,
                    name: ValueName::ThreadingModel,
                    data: ValueData::ThreadingModel,
                },
            ),
            14 => Some(RegistryAction::CloseKey { key: RegistryKey::InprocServer }),
            15 => Some(RegistryAction::CloseKey { key: RegistryKey::ClassIdProgram }),
            16 => Some(RegistryAction::CloseKey { key: RegistryKey::ClassId }),
            _ => None,
        },
        JobKind::Unregister => match place {
            0 => Some(RegistryAction::DeleteKey { key: RegistryKey::ProgramId }),
            1 => Some(RegistryAction::DeleteKey { key: RegistryKey::ClassId }),
            _ => None,
        },
    }
}

/// One run of registration or unregistration, between two requests.
pub struct RegistryJob {
    kind: JobKind,
    done: usize,
    open: Vec<RegistryKey>,
    failed: bool,
    path: Vec<u16>,
}

impl View for RegistryJob {
    type V = JobState;

    closed spec fn view(&self) -> JobState {
        JobState {
            kind: self.kind,
            done: self.done as nat,
            open: self.open@,
            failed: self.failed,
            path: self.path@,
        }
    }
}

impl RegistryJob {
    /// A run that has not issued a request yet.
    pub fn begin(kind: JobKind) -> (job: RegistryJob)
        ensures
            job@ == JobState::start(kind),
            job@.wf(),
    {
        RegistryJob { kind, done: 0, open: Vec::new(), failed: false, path: Vec::new() }
    }

    /// Whether the run has left its script and is closing keys.
    fn is_unwinding(&self) -> (unwinding: bool)
        ensures
            unwinding == self@.is_unwinding(),
    {
        self.failed && stops_at_failure(self.kind)
    }

    /// The status that the closing request carries.
    fn closing_status(&self) -> (status: i32)
        ensures
            status == self@.closing_status(),
    {
        if self.failed {
            ErrorKind::RegistryOperationFailed.status()
        } else {
            S_OK
        }
    }

    /// The request the host is to carry out now.
    pub fn pending(&self) -> (action: RegistryAction)
        ensures
            action == self@.pending(),
    {
        if self.is_unwinding() {
            let held: usize = self.open.len();
            if held > 0 {
                RegistryAction::CloseKey { key: self.open[held - 1] }
            } else {
                RegistryAction::Return { status: self.closing_status() }
            }
        } else {
            match scripted(self.kind, self.done) {
                Some(action) => action,
                None => RegistryAction::Return { status: self.closing_status() },
            }
        }
    }

    /// How the run has ended, if it has: in success, or as a failed
    /// registry operation.
    pub fn outcome(&self) -> (ended: Option<Result<(), ErrorKind>>)
        ensures
            match ended {
                Some(outcome) => self@.is_finished() && outcome == self@.outcome(),
                None => !self@.is_finished(),
            },
    {
        match self.pending() {
            RegistryAction::Return { status } => {
                if self.failed {
                    Some(Err(ErrorKind::RegistryOperationFailed))
                } else {
                    Some(Ok(()))
                }
            },
            _ => None,
        }
    }

    /// Notes that the pending request has failed: a registration leaves
    /// its script, an unregistration goes on with the next request.
    fn note_failure(&mut self)
        requires
            old(self)@.done < script(old(self)@.kind).len(),
        ensures
            final(self)@ == (JobState {
                failed: true,
                done: if old(self)@.kind.stops_at_failure() {
                    old(self)@.done
                } else {
                    old(self)@.done + 1
                },
                ..old(self)@
            }),
    {
        proof {
            lemma_script_requests(self@.kind, 0);
        }
        self.failed = true;
        if !stops_at_failure(self.kind) {
            self.done = self.done + 1;
        }
    }

    /// Takes the host's report on the pending request and returns the
    /// request that follows. Once the run is over, nothing changes any more.
    pub fn advance(&mut self, event: RegistryEvent) -> (next: RegistryAction)
        ensures
            final(self)@ == old(self)@.advance(event@),
            next == final(self)@.pending(),
            old(self)@.wf() ==> final(self)@.wf(),
            !old(self)@.is_finished() ==> final(self)@.remaining() < old(self)@.remaining(),
    {
        let action = self.pending();
        let unwinding = self.is_unwinding();
        match action {
            RegistryAction::Return { status } => {},
            RegistryAction::CloseKey { key } => {
                self.open.pop();
                if !unwinding {
                    self.done = self.done + 1;
                }
            },
            RegistryAction::ResolveModulePath => {
                match event {
                    RegistryEvent::ModulePath(units) => {
                        self.path = units;
                        self.done = self.done + 1;
                    },
                    _ => {
                        self.note_failure();
                    },
                }
            },
            RegistryAction::CreateKey { parent, key } => {
                if succeeded(&event) {
                    self.open.push(key);
                    self.done = self.done + 1;
                } else {
                    self.note_failure();
                }
            },
            _ => {
                if succeeded(&event) {
                    self.done = self.done + 1;
                } else {
                    self.note_failure();
                }
            },
        }
        proof {
            assert(self@.open =~= old(self)@.advance(event@).open);
            if old(self)@.wf() {
                lemma_advance_keeps_wf(old(self)@, event@);
            }
            lemma_advance_makes_progress(old(self)@, event@);
        }
        self.pending()
    }

    /// What to store for `data`.
    pub fn value_content(&self, data: ValueData) -> (content: ValueContent)
        ensures
            content@ == self@.value_content(data),
    {
        match data {
            ValueData::Description => ValueContent::Bytes(DESCRIPTION.as_bytes_vec()),
            ValueData::ClassId => ValueContent::Bytes(
                class_id().braced().as_str().as_bytes_vec(),
            ),
            ValueData::ProgramId => ValueContent::Bytes(ProgID.as_bytes_vec()),
            ValueData::ModulePath => ValueContent::Units(self.path.clone()),
            ValueData::ThreadingModel => ValueContent::Bytes(THREADING_MODEL.as_bytes_vec()),
        }
    }
}

/// Whether a failed request ends a run of this kind at once.
fn stops_at_failure(kind: JobKind) -> (stops: bool)
    ensures
        stops == kind.stops_at_failure(),
{
    match kind {
        JobKind::Register => true,
        JobKind::Unregister => false,
    }
}

/// Whether a report says that a registry call succeeded.
fn succeeded(event: &RegistryEvent) -> (ok: bool)
    ensures
        ok == (event@ == EventView::Status(ERROR_SUCCESS)),
{
    match event {
        RegistryEvent::Status(code) => *code == ERROR_SUCCESS,
        _ => false,
    }
}

/// One value in the registry: the full path of its key below the classes
/// root, its name (none for the default value) and what it holds.
pub struct RegistryValue {
    pub key: Seq<char>,
    pub name: Option<Seq<char>>,
    pub data: ContentView,
}

/// The value that a request sets, if it sets one.
pub open spec fn value_set(action: RegistryAction, path: Seq<u16>) -> Option<RegistryValue> {
    match action {
        RegistryAction::SetValue { key, name, data } => Some(
            RegistryValue {
                key: key.path_spec(),
                name: name.text_spec(),
                data: data.content_spec(path),
            },
        ),
        _ => None,
    }
}

/// The values that the first `done` requests of a script set, in order,
/// where `path` is the module's path as it was resolved.
pub open spec fn values_set(script: Seq<RegistryAction>, path: Seq<u16>, done: nat) -> Seq<
    RegistryValue,
>
    decreases done,
{
    if done == 0 || done > script.len() {
        Seq::empty()
    } else {
        let earlier = values_set(script, path, (done - 1) as nat);
        match value_set(script[done - 1], path) {
            Some(value) => earlier.push(value),
            None => earlier,
        }
    }
}

/// The values of a registered calculator class.
pub open spec fn registered_values(path: Seq<u16>) -> Seq<RegistryValue> {
    seq![
        RegistryValue {
            key: RegistryKey::ProgramId.path_spec(),
            name: None,
            data: ContentView::Bytes(encode_utf8(DESCRIPTION@)),
        },
        RegistryValue {
            key: RegistryKey::ProgramIdClass.path_spec(),
            name: None,
            data: ContentView::Bytes(
                encode_utf8((Guid { value: CLSID_Calculator }).braced_spec()),
            ),
        },
        RegistryValue {
            key: RegistryKey::ClassId.path_spec(),
            name: None,
            data: ContentView::Bytes(encode_utf8(DESCRIPTION@)),
        },
        RegistryValue {
            key: RegistryKey::ClassIdProgram.path_spec(),
            name: None,
            data: ContentView::Bytes(encode_utf8(ProgID@)),
        },
        RegistryValue {
            key: RegistryKey::InprocServer.path_spec(),
            name: None,
            data: ContentView::Units(path),
        },
        RegistryValue {
            key: RegistryKey::InprocServer.path_spec(),
            name: Some("ThreadingModel"@),
            data: ContentView::Bytes(encode_utf8(THREADING_MODEL@)),
        },
    ]
}

/// The state after a series of reports, taken in order.
pub open spec fn run(state: JobState, events: Seq<EventView>) -> JobState
    decreases events.len(),
{
    if events.len() == 0 {
        state
    } else {
        run(state, events.drop_last()).advance(events.last())
    }
}

/// A report keeps the open keys in step with the script.
pub proof fn lemma_advance_keeps_wf(state: JobState, event: EventView)
    requires
        state.wf(),
    ensures
        state.advance(event).wf(),
{
    let next = state.advance(event);
    let all = open_after(script(state.kind), state.done);
    if state.failed && state.open.len() > 0 {
        assert(next.open =~= all.subrange(0, next.open.len() as int));
    }
}

/// The keys that are open at each place of the two scripts.
pub proof fn lemma_open_keys_by_place()
    ensures
        open_after(register_script(), 0) == Seq::<RegistryKey>::empty(),
        open_after(register_script(), 1) == seq![RegistryKey::ProgramId],
        open_after(register_script(), 2) == seq![RegistryKey::ProgramId],
        open_after(register_script(), 3) == seq![
            RegistryKey::ProgramId,
            RegistryKey::ProgramIdClass,
        ],
        open_after(register_script(), 4) == seq![
            RegistryKey::ProgramId,
            RegistryKey::ProgramIdClass,
        ],
        open_after(register_script(), 5) == seq![RegistryKey::ProgramId],
        open_after(register_script(), 6) == Seq::<RegistryKey>::empty(),
        open_after(register_script(), 7) == seq![RegistryKey::ClassId],
        open_after(register_script(), 8) == seq![RegistryKey::ClassId],
        open_after(register_script(), 9) == seq![RegistryKey::ClassId, RegistryKey::ClassIdProgram],
        open_after(register_script(), 10) == seq![
            RegistryKey::ClassId,
            RegistryKey::ClassIdProgram,
        ],
        open_after(register_script(), 11) == seq![
            RegistryKey::ClassId,
            RegistryKey::ClassIdProgram,
            RegistryKey::InprocServer,
        ],
        open_after(register_script(), 12) == open_after(register_script(), 11),
        open_after(register_script(), 13) == open_after(register_script(), 11),
        open_after(register_script(), 14) == open_after(register_script(), 11),
        open_after(register_script(), 15) == seq![
            RegistryKey::ClassId,
            RegistryKey::ClassIdProgram,
        ],
        open_after(register_script(), 16) == seq![RegistryKey::ClassId],
        open_after(register_script(), 17) == Seq::<RegistryKey>::empty(),
        open_after(unregister_script(), 0) == Seq::<RegistryKey>::empty(),
        open_after(unregister_script(), 1) == Seq::<RegistryKey>::empty(),
        open_after(unregister_script(), 2) == Seq::<RegistryKey>::empty(),
{
    let r = register_script();
    assert(r.len() == 17);
    assert(open_after(r, 0) =~= Seq::<RegistryKey>::empty());
    assert(open_after(r, 1) =~= seq![RegistryKey::ProgramId]);
    assert(open_after(r, 2) =~= seq![RegistryKey::ProgramId]);
    assert(open_after(r, 3) =~= seq![RegistryKey::ProgramId, RegistryKey::ProgramIdClass]);
    assert(open_after(r, 4) =~= seq![RegistryKey::ProgramId, RegistryKey::ProgramIdClass]);
    assert(open_after(r, 5) =~= seq![RegistryKey::ProgramId]);
    assert(open_after(r, 6) =~= Seq::<RegistryKey>::empty());
    assert(open_after(r, 7) =~= seq![RegistryKey::ClassId]);
    assert(open_after(r, 8) =~= seq![RegistryKey::ClassId]);
    assert(open_after(r, 9) =~= seq![RegistryKey::ClassId, RegistryKey::ClassIdProgram]);
    assert(open_after(r, 10) =~= seq![RegistryKey::ClassId, RegistryKey::ClassIdProgram]);
    assert(open_after(r, 11) =~= seq![
        RegistryKey::ClassId,
        RegistryKey::ClassIdProgram,
        RegistryKey::InprocServer,
    ]);
    assert(open_after(r, 12) =~= open_after(r, 11));
    assert(open_after(r, 13) =~= open_after(r, 11));
    assert(open_after(r, 14) =~= open_after(r, 11));
    assert(open_after(r, 15) =~= seq![RegistryKey::ClassId, RegistryKey::ClassIdProgram]);
    assert(open_after(r, 16) =~= seq![RegistryKey::ClassId]);
    assert(open_after(r, 17) =~= Seq::<RegistryKey>::empty());
    let u = unregister_script();
    assert(u.len() == 2);
    assert(open_after(u, 0) =~= Seq::<RegistryKey>::empty());
    assert(open_after(u, 1) =~= Seq::<RegistryKey>::empty());
    assert(open_after(u, 2) =~= Seq::<RegistryKey>::empty());
}

/// Every request names only keys that the run holds open: a value is set
/// in, and a key is created below, an open key, and the key to close is the
/// one opened last.
pub proof fn lemma_requests_name_open_keys(state: JobState)
    requires
        state.wf(),
    ensures
        match state.pending() {
            RegistryAction::CreateKey { parent: KeyParent::Key(above), key } => state.open.contains(
                above,
            ) && !state.open.contains(key),
            RegistryAction::CreateKey { parent: KeyParent::ClassesRoot, key } => state.open.len()
                == 0,
            RegistryAction::SetValue { key, name, data } => state.open.len() > 0
                && state.open.last() == key,
            RegistryAction::CloseKey { key } => state.open.len() > 0 && state.open.last() == key,
            RegistryAction::DeleteKey { key } => state.open.len() == 0,
            RegistryAction::ResolveModulePath => true,
            RegistryAction::Return { status } => state.open.len() == 0,
        },
{
    lemma_open_keys_by_place();
    lemma_script_requests(state.kind, 0);
    if !state.failed && state.kind == JobKind::Register {
        if state.done == 2 {
            assert(state.open[0] == RegistryKey::ProgramId);
        } else if state.done == 8 || state.done == 10 {
            assert(state.open[0] == RegistryKey::ClassId);
        }
    }
}

/// A run ends with success exactly when no request has failed. Otherwise
/// it ends as a failed registry operation, whose status is the generic
/// failure status.
pub proof fn lemma_status_tells_failure(state: JobState)
    requires
        state.is_finished(),
    ensures
        state.pending() == (RegistryAction::Return {
            status: if state.failed {
                E_FAIL
            } else {
                S_OK
            },
        }),
        state.failed <==> state.outcome() == Err::<(), ErrorKind>(
            ErrorKind::RegistryOperationFailed,
        ),
        state.failed ==> state.closing_status()
            == ErrorKind::RegistryOperationFailed.status_spec(),
        !state.is_unwinding() ==> state.done >= script(state.kind).len(),
{
    lemma_script_requests(state.kind, state.done as int);
}

/// An unregistration requests both deletions, the second whatever the
/// first one reported, and then returns: success exactly when both
/// deletions were reported as successful, the failure status otherwise.
pub proof fn lemma_unregistration_deletes_both(first: EventView, second: EventView)
    ensures
        JobState::start(JobKind::Unregister).pending() == (RegistryAction::DeleteKey {
            key: RegistryKey::ProgramId,
        }),
        JobState::start(JobKind::Unregister).advance(first).pending()
            == (RegistryAction::DeleteKey { key: RegistryKey::ClassId }),
        JobState::start(JobKind::Unregister).advance(first).advance(second).pending()
            == (RegistryAction::Return {
            status: if first == EventView::Status(ERROR_SUCCESS) && second == EventView::Status(
                ERROR_SUCCESS,
            ) {
                S_OK
            } else {
                E_FAIL
            },
        }),
{
    let begun = JobState::start(JobKind::Unregister);
    let u = unregister_script();
    assert(u.len() == 2);
    assert(u[0] == (RegistryAction::DeleteKey { key: RegistryKey::ProgramId }));
    assert(u[1] == (RegistryAction::DeleteKey { key: RegistryKey::ClassId }));
    let midway = begun.advance(first);
    assert(midway.done == 1);
    let ended = midway.advance(second);
    assert(ended.done == 2);
}

/// No place of a script holds the closing request `Return`, and the
/// module's path is resolved at one place only: the twelfth request of a
/// registration.
pub proof fn lemma_script_requests(kind: JobKind, place: int)
    ensures
        0 <= place < script(kind).len() ==> !(script(kind)[place] is Return),
        0 <= place < script(kind).len() ==> (script(kind)[place] is ResolveModulePath <==> kind
            == JobKind::Register && place == 11),
        script(JobKind::Register).len() == 17,
        script(JobKind::Unregister).len() == 2,
{
}

/// A failure ends a registration: the run stays failed, issues no request
/// but to close the keys that were open, innermost first, and then returns
/// the failure status.
pub proof fn lemma_failure_unwinds(state: JobState, events: Seq<EventView>)
    requires
        state.failed,
        state.kind == JobKind::Register,
    ensures
        run(state, events).failed,
        run(state, events).kind == state.kind,
        run(state, events).done == state.done,
        run(state, events).path == state.path,
        events.len() <= state.open.len() ==> run(state, events).open == state.open.subrange(
            0,
            state.open.len() - events.len(),
        ),
        events.len() < state.open.len() ==> run(state, events).pending()
            == (RegistryAction::CloseKey { key: state.open[state.open.len() - events.len() - 1] }),
        events.len() >= state.open.len() ==> run(state, events).pending()
            == (RegistryAction::Return { status: E_FAIL }),
    decreases events.len(),
{
    if events.len() == 0 {
        assert(state.open.subrange(0, state.open.len() as int) =~= state.open);
    } else {
        lemma_failure_unwinds(state, events.drop_last());
        let before = run(state, events.drop_last());
        let after = run(state, events);
        assert(after == before.advance(events.last()));
        if events.len() <= state.open.len() {
            assert(after.open =~= state.open.subrange(0, state.open.len() - events.len()));
        }
    }
}

/// While every request is answered with success, the run issues the
/// requests of its script in order and then returns success; and from the
/// moment the module's path is reported, the run holds that path, unit for
/// unit, as the value to store.
pub proof fn lemma_success_follows_script(kind: JobKind, events: Seq<EventView>)
    requires
        events.len() <= script(kind).len(),
        forall|i: int| 0 <= i < events.len() ==> answered(script(kind)[i], #[trigger] events[i]),
    ensures
        !run(JobState::start(kind), events).failed,
        run(JobState::start(kind), events).done == events.len(),
        run(JobState::start(kind), events).wf(),
        run(JobState::start(kind), events).pending() == if events.len() < script(kind).len() {
            script(kind)[events.len() as int]
        } else {
            RegistryAction::Return { status: S_OK }
        },
        kind == JobKind::Register && events.len() > 11 ==> events[11] is ModulePath && run(
            JobState::start(kind),
            events,
        ).value_content(ValueData::ModulePath) == ContentView::Units(events[11]->ModulePath_0),
    decreases events.len(),
{
    lemma_script_requests(kind, 11);
    if events.len() > 0 {
        let earlier = events.drop_last();
        assert forall|i: int| 0 <= i < earlier.len() implies answered(
            script(kind)[i],
            #[trigger] earlier[i],
        ) by {
            assert(earlier[i] == events[i]);
        }
        lemma_success_follows_script(kind, earlier);
        let before = run(JobState::start(kind), earlier);
        lemma_script_requests(kind, earlier.len() as int);
        lemma_advance_keeps_wf(before, events.last());
    }
}

/// Registration and unregistration are all or nothing to the caller: if any
/// request of a run that started afresh was answered with a failure, the
/// run is failed ever after and can only return the failure status, as a
/// failed registry operation.
pub proof fn lemma_one_failure_fails_the_run(kind: JobKind, events: Seq<EventView>, place: int)
    requires
        0 <= place < events.len(),
        !answered(
            run(JobState::start(kind), events.subrange(0, place)).pending(),
            events[place],
        ),
    ensures
        run(JobState::start(kind), events).failed,
        run(JobState::start(kind), events).is_finished() ==> run(
            JobState::start(kind),
            events,
        ).pending() == (RegistryAction::Return { status: E_FAIL }),
    decreases events.len(),
{
    let earlier = events.drop_last();
    if place == events.len() - 1 {
        assert(earlier =~= events.subrange(0, place));
    } else {
        assert(earlier.subrange(0, place) =~= events.subrange(0, place));
        lemma_one_failure_fails_the_run(kind, earlier, place);
    }
}

/// The value stored for the module's path determines the path: two paths
/// that differ in any unit are stored as different values.
pub proof fn lemma_stored_path_is_the_path(first: Seq<u16>, second: Seq<u16>)
    ensures
        ValueData::ModulePath.content_spec(first) == ContentView::Units(first),
        ValueData::ModulePath.content_spec(first) == ValueData::ModulePath.content_spec(second)
            ==> first == second,
{
}

/// Every key is created where it belongs: below the classes root or below
/// its parent key, and nowhere else.
pub proof fn lemma_keys_are_created_below_their_parents(kind: JobKind, place: int)
    requires
        0 <= place < script(kind).len(),
    ensures
        match script(kind)[place] {
            RegistryAction::CreateKey { parent, key } => parent == key.parent(),
            _ => true,
        },
{
}

/// A registration in which every request succeeds sets exactly the values
/// of a registered class: the description under the program identifier,
/// the class identifier under its `CLSID` sub-key, the description under
/// the class key, the program identifier under its `ProgID` sub-key, and
/// the module's path and the threading model under `InprocServer32`.
pub proof fn lemma_registration_sets_the_layout(path: Seq<u16>)
    ensures
        values_set(register_script(), path, register_script().len()) == registered_values(path),
{
    let r = register_script();
    let all = registered_values(path);
    assert(r.len() == 17);
    assert(values_set(r, path, 0) =~= all.subrange(0, 0));
    assert(values_set(r, path, 1) =~= all.subrange(0, 0));
    assert(values_set(r, path, 2) =~= all.subrange(0, 1));
    assert(values_set(r, path, 3) =~= all.subrange(0, 1));
    assert(values_set(r, path, 4) =~= all.subrange(0, 2));
    assert(values_set(r, path, 5) =~= all.subrange(0, 2));
    assert(values_set(r, path, 6) =~= all.subrange(0, 2));
    assert(values_set(r, path, 7) =~= all.subrange(0, 2));
    assert(values_set(r, path, 8) =~= all.subrange(0, 3));
    assert(values_set(r, path, 9) =~= all.subrange(0, 3));
    assert(values_set(r, path, 10) =~= all.subrange(0, 4));
    assert(values_set(r, path, 11) =~= all.subrange(0, 4));
    assert(values_set(r, path, 12) =~= all.subrange(0, 4));
    assert(values_set(r, path, 13) =~= all.subrange(0, 5));
    assert(values_set(r, path, 14) =~= all.subrange(0, 6));
    assert(values_set(r, path, 15) =~= all.subrange(0, 6));
    assert(values_set(r, path, 16) =~= all.subrange(0, 6));
    assert(values_set(r, path, 17) =~= all.subrange(0, 6));
    assert(all.subrange(0, 6) =~= all);
}

/// Unregistration retracts what registration published: every key that a
/// registration creates is, or lives in, a key that an unregistration
/// deletes, and an unregistration sets no value and opens no key.
pub proof fn lemma_unregistration_covers_registration(place: int)
    requires
        0 <= place < register_script().len(),
    ensures
        match register_script()[place] {
            RegistryAction::CreateKey { parent, key } => exists|i: int|
                0 <= i < unregister_script().len() && unregister_script()[i]
                    == (RegistryAction::DeleteKey { key: key.top() }),
            RegistryAction::SetValue { key, name, data } => exists|i: int|
                0 <= i < unregister_script().len() && unregister_script()[i]
                    == (RegistryAction::DeleteKey { key: key.top() }),
            _ => true,
        },
        forall|i: int|
            0 <= i < unregister_script().len() ==> #[trigger] unregister_script()[i] is DeleteKey,
{
    let u = unregister_script();
    assert(u[0] == (RegistryAction::DeleteKey { key: RegistryKey::ProgramId }));
    assert(u[1] == (RegistryAction::DeleteKey { key: RegistryKey::ClassId }));
}

/// A run that holds to its script never has more than three keys open, and
/// ends within a bounded number of reports.
pub proof fn lemma_run_is_bounded(state: JobState)
    requires
        state.wf(),
    ensures
        state.open.len() <= 3,
        state.remaining() <= 35,
{
    lemma_open_keys_by_place();
    lemma_script_requests(state.kind, 0);
}

/// Every report brings an unfinished run closer to its end.
pub proof fn lemma_advance_makes_progress(state: JobState, event: EventView)
    ensures
        !state.is_finished() ==> state.advance(event).remaining() < state.remaining(),
        state.is_finished() ==> state.advance(event) == state,
{
}

} // verus!

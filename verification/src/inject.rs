//! The remote-injection protocol, sequenced stage by stage.
//!
//! Injecting a module into a target process allocates a remote region,
//! writes the module path into it, starts a remote thread at the host
//! loader routine, and tears the region down again, strictly in order;
//! the first failing stage aborts the remainder, with no rollback of the
//! stages already completed.
//!
//! The machine here holds the protocol's decisions. Each [`Action`] names
//! one operating-system call for the unverified driver to perform; the
//! driver reports what came of it as an [`Event`], and [`Injection::on_event`]
//! decides the next action, success, or the failing stage and its cause.

use vstd::prelude::*;
use vstd::pervasive::unreached;

verus! {

/// Delay granted to the remote thread before its argument memory is zeroed
/// and released: a heuristic, not a synchronisation primitive.
pub const LOAD_WAIT_MILLIS: u64 = 400;

/// The stages of the protocol, in the order they run.
#[derive(Clone, Copy, Debug, PartialEq, Eq, Structural)]
pub enum Stage {
    /// Resolve the host loader routine's address.
    ResolveLoader,
    /// Compute the byte length of the encoded module path.
    ComputeSize,
    /// Open a full-access handle to the target process.
    OpenTarget,
    /// Allocate the remote region.
    Allocate,
    /// Write the encoded path into the remote region.
    WritePath,
    /// Start the remote thread at the loader routine.
    SpawnThread,
    /// Give the remote thread time to complete the load.
    Waiting,
    /// Overwrite the remote region with zero bytes.
    ZeroOut,
    /// Release the remote region.
    Release,
    /// Close the remote thread's handle.
    CloseThread,
    /// Close the target process's handle.
    CloseProcess,
}

/// Why a stage failed.
#[derive(Clone, Copy, Debug, PartialEq, Eq, Structural)]
pub enum Cause {
    /// The operating-system call failed with this error code.
    Os(i32),
    /// A remote write reported a byte count other than the one requested.
    PartialWrite {
        /// Bytes the write was asked for.
        requested: usize,
        /// Bytes the host says it wrote.
        written: usize,
    },
    /// The remote thread handle came back null.
    NullThread,
    /// The encoded path's byte length does not fit the address space.
    SizeOverflow,
}

/// A single structured failure: the stage that failed and its cause.
#[derive(Clone, Copy, Debug, PartialEq, Eq, Structural)]
pub struct StageFailure {
    /// The protocol stage that failed.
    pub stage: Stage,
    /// What went wrong there.
    pub cause: Cause,
}

/// One operating-system call for the driver to perform next.
#[derive(Clone, Copy, Debug, PartialEq, Eq, Structural)]
pub enum Action {
    /// Resolve the loader routine's address in the host process.
    ResolveLoader,
    /// Open a full-access handle to the process with this identifier.
    OpenTarget {
        /// The target's process identifier.
        pid: u32,
    },
    /// Allocate a committed, reserved, read/write remote region of this length.
    Allocate {
        /// Bytes to allocate.
        byte_len: usize,
    },
    /// Write the encoded module path, of this length, into the remote region.
    WritePath {
        /// Bytes to write.
        byte_len: usize,
    },
    /// Start the remote thread at the loader routine, with the region as argument.
    SpawnThread,
    /// Sleep this long.
    Wait {
        /// Milliseconds to sleep.
        millis: u64,
    },
    /// Overwrite the remote region with this many zero bytes.
    ZeroOut {
        /// Bytes to zero.
        byte_len: usize,
    },
    /// Release the remote region.
    Release,
    /// Close the remote thread's handle.
    CloseThread,
    /// Close the target process's handle.
    CloseProcess,
}

/// What the driver reports back for the action it performed.
#[derive(Clone, Copy, Debug)]
pub enum Event {
    /// The loader routine's address was resolved, or the error code.
    Resolved(Result<(), i32>),
    /// The target process was opened, or the error code.
    Opened(Result<(), i32>),
    /// The remote region was allocated at a non-null address, or the error code.
    Allocated(Result<(), i32>),
    /// How many bytes the path write reported, or the error code.
    PathWritten(Result<usize, i32>),
    /// Whether the remote thread handle came back null, or the error code.
    ThreadSpawned(Result<bool, i32>),
    /// The wait elapsed.
    Waited,
    /// How many bytes the zeroing write reported, or the error code.
    Zeroed(Result<usize, i32>),
    /// The remote region was released, or the error code.
    Released(Result<(), i32>),
    /// The remote thread's handle was closed, or the error code.
    ThreadClosed(Result<(), i32>),
    /// The target process's handle was closed, or the error code.
    ProcessClosed(Result<(), i32>),
}

/// The protocol's state between two actions.
#[derive(Clone, Copy, Debug, PartialEq, Eq, Structural)]
pub struct Injection {
    /// The stage whose action is outstanding.
    pub stage: Stage,
    /// The target's process identifier.
    pub target: u32,
    /// Wide-character units of the encoded module path.
    pub units_len: usize,
    /// Byte length of the remote region, once computed.
    pub byte_len: usize,
}

/// What the protocol decided on an event: the next action, overall success,
/// or the first failing stage. A failure is terminal: no machine remains, so
/// no further stage is attempted.
#[derive(Clone, Copy, Debug, PartialEq, Eq, Structural)]
pub enum Step {
    /// The protocol goes on: its new state, and the action to perform.
    Continue(Injection, Action),
    /// Every stage completed.
    Done,
    /// This stage failed; the remainder is aborted, nothing is rolled back.
    Failed(StageFailure),
}

/// What the text encoded by `str::encode_utf16` reads as in wide units.
pub uninterp spec fn utf16_of(s: Seq<char>) -> Seq<u16>;

/// Relies on str::encode_utf16: the wide encoding depends on the characters
/// alone.
#[verifier::external_body]
pub(crate) fn encode_wide(s: &String) -> (r: Vec<u16>)
    ensures
        r@ == utf16_of(s@),
{
    s.encode_utf16().collect()
}

/// The byte length the remote region needs: two bytes per wide unit of the
/// path, plus a terminating null unit.
pub open spec fn wide_byte_len(units_len: nat) -> nat {
    2 * units_len + 2
}

/// The event kind the machine's outstanding stage awaits.
pub open spec fn expects(m: Injection, e: Event) -> bool {
    match (m.stage, e) {
        (Stage::ResolveLoader, Event::Resolved(_)) => true,
        (Stage::OpenTarget, Event::Opened(_)) => true,
        (Stage::Allocate, Event::Allocated(_)) => true,
        (Stage::WritePath, Event::PathWritten(_)) => true,
        (Stage::SpawnThread, Event::ThreadSpawned(_)) => true,
        (Stage::Waiting, Event::Waited) => true,
        (Stage::ZeroOut, Event::Zeroed(_)) => true,
        (Stage::Release, Event::Released(_)) => true,
        (Stage::CloseThread, Event::ThreadClosed(_)) => true,
        (Stage::CloseProcess, Event::ProcessClosed(_)) => true,
        _ => false,
    }
}

/// The whole transition relation of the protocol.
pub open spec fn spec_step(m: Injection, e: Event) -> Step {
    match (m.stage, e) {
        (Stage::ResolveLoader, Event::Resolved(res)) => match res {
            Ok(_) => if m.units_len <= (usize::MAX - 2) / 2 {
                Step::Continue(
                    Injection {
                        stage: Stage::OpenTarget,
                        target: m.target,
                        units_len: m.units_len,
                        byte_len: (2 * m.units_len + 2) as usize,
                    },
                    Action::OpenTarget { pid: m.target },
                )
            } else {
                Step::Failed(StageFailure { stage: Stage::ComputeSize, cause: Cause::SizeOverflow })
            },
            Err(code) => Step::Failed(
                StageFailure { stage: Stage::ResolveLoader, cause: Cause::Os(code) },
            ),
        },
        (Stage::OpenTarget, Event::Opened(res)) => match res {
            Ok(_) => Step::Continue(
                Injection { stage: Stage::Allocate, ..m },
                Action::Allocate { byte_len: m.byte_len },
            ),
            Err(code) => Step::Failed(
                StageFailure { stage: Stage::OpenTarget, cause: Cause::Os(code) },
            ),
        },
        (Stage::Allocate, Event::Allocated(res)) => match res {
            Ok(_) => Step::Continue(
                Injection { stage: Stage::WritePath, ..m },
                Action::WritePath { byte_len: m.byte_len },
            ),
            Err(code) => Step::Failed(
                StageFailure { stage: Stage::Allocate, cause: Cause::Os(code) },
            ),
        },
        (Stage::WritePath, Event::PathWritten(res)) => match res {
            Ok(written) => if written == m.byte_len {
                Step::Continue(Injection { stage: Stage::SpawnThread, ..m }, Action::SpawnThread)
            } else {
                Step::Failed(
                    StageFailure {
                        stage: Stage::WritePath,
                        cause: Cause::PartialWrite { requested: m.byte_len, written },
                    },
                )
            },
            Err(code) => Step::Failed(
                StageFailure { stage: Stage::WritePath, cause: Cause::Os(code) },
            ),
        },
        (Stage::SpawnThread, Event::ThreadSpawned(res)) => match res {
            Ok(is_null) => if is_null {
                Step::Failed(StageFailure { stage: Stage::SpawnThread, cause: Cause::NullThread })
            } else {
                Step::Continue(
                    Injection { stage: Stage::Waiting, ..m },
                    Action::Wait { millis: LOAD_WAIT_MILLIS },
                )
            },
            Err(code) => Step::Failed(
                StageFailure { stage: Stage::SpawnThread, cause: Cause::Os(code) },
            ),
        },
        (Stage::Waiting, Event::Waited) => Step::Continue(
            Injection { stage: Stage::ZeroOut, ..m },
            Action::ZeroOut { byte_len: m.byte_len },
        ),
        (Stage::ZeroOut, Event::Zeroed(res)) => match res {
            Ok(written) => if written == m.byte_len {
                Step::Continue(Injection { stage: Stage::Release, ..m }, Action::Release)
            } else {
                Step::Failed(
                    StageFailure {
                        stage: Stage::ZeroOut,
                        cause: Cause::PartialWrite { requested: m.byte_len, written },
                    },
                )
            },
            Err(code) => Step::Failed(StageFailure { stage: Stage::ZeroOut, cause: Cause::Os(code) }),
        },
        (Stage::Release, Event::Released(res)) => match res {
            Ok(_) => Step::Continue(Injection { stage: Stage::CloseThread, ..m }, Action::CloseThread),
            Err(code) => Step::Failed(
                StageFailure { stage: Stage::Release, cause: Cause::Os(code) },
            ),
        },
        (Stage::CloseThread, Event::ThreadClosed(res)) => match res {
            Ok(_) => Step::Continue(
                Injection { stage: Stage::CloseProcess, ..m },
                Action::CloseProcess,
            ),
            Err(code) => Step::Failed(
                StageFailure { stage: Stage::CloseThread, cause: Cause::Os(code) },
            ),
        },
        (Stage::CloseProcess, Event::ProcessClosed(res)) => match res {
            Ok(_) => Step::Done,
            Err(code) => Step::Failed(
                StageFailure { stage: Stage::CloseProcess, cause: Cause::Os(code) },
            ),
        },
        // An event of a kind the outstanding stage does not await; `expects`
        // rules these pairs out for every caller.
        _ => Step::Done,
    }
}

impl Injection {
    /// Begins an injection: the machine awaiting the loader resolution, and
    /// the first action to perform.
    pub fn start(target: u32, path: &String) -> (r: (Injection, Action))
        ensures
            r.0 == (Injection {
                stage: Stage::ResolveLoader,
                target,
                units_len: utf16_of(path@).len() as usize,
                byte_len: 0,
            }),
            r.1 == Action::ResolveLoader,
    {
        let units = encode_wide(path);
        (
            Injection {
                stage: Stage::ResolveLoader,
                target,
                units_len: units.len(),
                byte_len: 0,
            },
            Action::ResolveLoader,
        )
    }

    /// Decides what the reported outcome of the outstanding action means:
    /// the next stage's action, overall success, or the failing stage with
    /// its cause, exactly as [`spec_step`] lays the protocol down.
    pub fn on_event(self, event: Event) -> (r: Step)
        requires
            expects(self, event),
        ensures
            r == spec_step(self, event),
    {
        match (self.stage, event) {
            (Stage::ResolveLoader, Event::Resolved(res)) => match res {
                Ok(_) => {
                    if self.units_len <= (usize::MAX - 2) / 2 {
                        Step::Continue(
                            Injection {
                                stage: Stage::OpenTarget,
                                target: self.target,
                                units_len: self.units_len,
                                byte_len: 2 * self.units_len + 2,
                            },
                            Action::OpenTarget { pid: self.target },
                        )
                    } else {
                        Step::Failed(
                            StageFailure { stage: Stage::ComputeSize, cause: Cause::SizeOverflow },
                        )
                    }
                },
                Err(code) => Step::Failed(
                    StageFailure { stage: Stage::ResolveLoader, cause: Cause::Os(code) },
                ),
            },
            (Stage::OpenTarget, Event::Opened(res)) => match res {
                Ok(_) => Step::Continue(
                    Injection { stage: Stage::Allocate, ..self },
                    Action::Allocate { byte_len: self.byte_len },
                ),
                Err(code) => Step::Failed(
                    StageFailure { stage: Stage::OpenTarget, cause: Cause::Os(code) },
                ),
            },
            (Stage::Allocate, Event::Allocated(res)) => match res {
                Ok(_) => Step::Continue(
                    Injection { stage: Stage::WritePath, ..self },
                    Action::WritePath { byte_len: self.byte_len },
                ),
                Err(code) => Step::Failed(
                    StageFailure { stage: Stage::Allocate, cause: Cause::Os(code) },
                ),
            },
            (Stage::WritePath, Event::PathWritten(res)) => match res {
                Ok(written) => {
                    if written == self.byte_len {
                        Step::Continue(
                            Injection { stage: Stage::SpawnThread, ..self },
                            Action::SpawnThread,
                        )
                    } else {
                        Step::Failed(
                            StageFailure {
                                stage: Stage::WritePath,
                                cause: Cause::PartialWrite { requested: self.byte_len, written },
                            },
                        )
                    }
                },
                Err(code) => Step::Failed(
                    StageFailure { stage: Stage::WritePath, cause: Cause::Os(code) },
                ),
            },
            (Stage::SpawnThread, Event::ThreadSpawned(res)) => match res {
                Ok(is_null) => {
                    if is_null {
                        Step::Failed(
                            StageFailure { stage: Stage::SpawnThread, cause: Cause::NullThread },
                        )
                    } else {
                        Step::Continue(
                            Injection { stage: Stage::Waiting, ..self },
                            Action::Wait { millis: LOAD_WAIT_MILLIS },
                        )
                    }
                },
                Err(code) => Step::Failed(
                    StageFailure { stage: Stage::SpawnThread, cause: Cause::Os(code) },
                ),
            },
            (Stage::Waiting, Event::Waited) => Step::Continue(
                Injection { stage: Stage::ZeroOut, ..self },
                Action::ZeroOut { byte_len: self.byte_len },
            ),
            (Stage::ZeroOut, Event::Zeroed(res)) => match res {
                Ok(written) => {
                    if written == self.byte_len {
                        Step::Continue(
                            Injection { stage: Stage::Release, ..self },
                            Action::Release,
                        )
                    } else {
                        Step::Failed(
                            StageFailure {
                                stage: Stage::ZeroOut,
                                cause: Cause::PartialWrite { requested: self.byte_len, written },
                            },
                        )
                    }
                },
                Err(code) => Step::Failed(
                    StageFailure { stage: Stage::ZeroOut, cause: Cause::Os(code) },
                ),
            },
            (Stage::Release, Event::Released(res)) => match res {
                Ok(_) => Step::Continue(
                    Injection { stage: Stage::CloseThread, ..self },
                    Action::CloseThread,
                ),
                Err(code) => Step::Failed(
                    StageFailure { stage: Stage::Release, cause: Cause::Os(code) },
                ),
            },
            (Stage::CloseThread, Event::ThreadClosed(res)) => match res {
                Ok(_) => Step::Continue(
                    Injection { stage: Stage::CloseProcess, ..self },
                    Action::CloseProcess,
                ),
                Err(code) => Step::Failed(
                    StageFailure { stage: Stage::CloseThread, cause: Cause::Os(code) },
                ),
            },
            (Stage::CloseProcess, Event::ProcessClosed(res)) => match res {
                Ok(_) => Step::Done,
                Err(code) => Step::Failed(
                    StageFailure { stage: Stage::CloseProcess, cause: Cause::Os(code) },
                ),
            },
            _ => unreached(),
        }
    }
}

/// The byte length law: on a resolved loader, the region planned for a module
/// path of L wide-character units is exactly 2·L + 2 bytes, and that length
/// is what the allocation and both writes are asked for.
pub proof fn lemma_path_byte_len(m: Injection)
    requires
        m.stage == Stage::ResolveLoader,
        m.units_len <= (usize::MAX - 2) / 2,
    ensures
        spec_step(m, Event::Resolved(Ok(()))) matches Step::Continue(m2, a) && m2.byte_len
            == wide_byte_len(m.units_len as nat) && a == (Action::OpenTarget { pid: m.target }),
{
}

/// The partial-write law: whenever the path write or the zero-out write
/// reports a byte count other than the one requested, the protocol fails at
/// that stage with a partial-write cause carrying both counts.
pub proof fn lemma_partial_write_fails(m: Injection, written: usize)
    requires
        written != m.byte_len,
    ensures
        m.stage == Stage::WritePath ==> spec_step(m, Event::PathWritten(Ok(written)))
            == Step::Failed(
            StageFailure {
                stage: Stage::WritePath,
                cause: Cause::PartialWrite { requested: m.byte_len, written },
            },
        ),
        m.stage == Stage::ZeroOut ==> spec_step(m, Event::Zeroed(Ok(written))) == Step::Failed(
            StageFailure {
                stage: Stage::ZeroOut,
                cause: Cause::PartialWrite { requested: m.byte_len, written },
            },
        ),
{
}

/// The null-thread law: a null remote-thread handle fails the protocol at
/// the spawn stage. The failure is terminal — no machine and no action
/// remain — so the wait, zero-out, and release stages are never attempted
/// with an invalid handle.
pub proof fn lemma_null_thread_fails(m: Injection)
    requires
        m.stage == Stage::SpawnThread,
    ensures
        spec_step(m, Event::ThreadSpawned(Ok(true))) == Step::Failed(
            StageFailure { stage: Stage::SpawnThread, cause: Cause::NullThread },
        ),
{
}

} // verus!

//! The open/alloc sequences for format contexts, as verified state
//! machines.
//!
//! Opening a context is a fixed sequence of native calls with a
//! decision after each one. The native calls themselves (open, probe,
//! sink open, close) happen outside this crate; the machines here make
//! every decision: which call comes next, how each status code
//! translates into a typed error, and when a partially-allocated
//! context must be released. Their invariants guarantee that every
//! terminal state holds no allocation and no borrowed dictionary —
//! including the output sink failure, after which the allocated
//! context is released rather than leaked.
//!
//! An input sequence is: open (probing the format from the content
//! unless an explicit format was given, and with the caller's options
//! and interrupt predicate installed, if any) — then discover stream
//! metadata — then hand the context over. An output sequence is:
//! allocate the output context for the format and path — then open the
//! byte sink for writing (threading the options through, if any) —
//! then hand the context over.

use vstd::prelude::*;

use crate::context::{ContextRegistry, Input, Output};
use crate::error::Error;

verus! {

/// Which native allocation path an open call takes: a demuxer to read
/// from, or a muxer to write to.
#[derive(Clone, Copy, Debug, PartialEq, Eq, Structural)]
pub enum Format {
    Input,
    Output,
}

/// Where an input open sequence stands.
#[derive(Clone, Copy, Debug, PartialEq, Eq, Structural)]
pub enum InputPhase {
    /// No native call has been made yet.
    Start,
    /// The open call succeeded; stream-information discovery is pending.
    Probing,
    /// The probe failed; the just-opened context still has to be closed.
    Closing,
    /// The context is open and probed; the handle can be taken.
    Succeeded,
    /// Terminal failure; nothing is allocated or lent any more.
    Failed,
}

/// The next native call an input open sequence asks its driver for.
#[derive(Clone, Copy, Debug, PartialEq, Eq, Structural)]
pub enum InputAction {
    /// Call the native open on the path, with the session's options
    /// dictionary and interrupt callback if it has them.
    CallOpen,
    /// Call the native stream-information discovery.
    CallProbe,
    /// Close the native context, then report `on_context_closed`.
    CloseContext,
    /// The sequence is over; `finish` yields the handle or the error.
    Finish,
}

/// One attempt to open an input (demuxer) context.
pub struct InputOpen {
    /// Where the sequence stands.
    pub phase: InputPhase,
    /// The options dictionary is currently out on loan to the native
    /// layer; it must be reclaimed before the sequence can end.
    pub dict_lent: bool,
    /// The sequence is currently responsible for one native context
    /// allocation.
    pub owns_context: bool,
    /// The failure recorded so far, if any.
    pub error: Option<Error>,
}

impl InputOpen {
    /// Phases and resources agree: a context is held exactly while
    /// probing or closing, the dictionary loan never outlives the open
    /// call, and an error is recorded exactly from the moment a native
    /// call fails. In particular every terminal state holds nothing.
    pub open spec fn wf(self) -> bool {
        &&& (self.owns_context <==> (self.phase is Probing || self.phase is Closing
            || self.phase is Succeeded))
        &&& (self.dict_lent ==> self.phase is Start)
        &&& (self.error is Some <==> (self.phase is Closing || self.phase is Failed))
    }

    /// The state a fresh input sequence starts in.
    pub open spec fn spec_new(with_options: bool) -> InputOpen {
        InputOpen { phase: InputPhase::Start, dict_lent: with_options, owns_context: false, error: None }
    }

    /// What the native open call's status code decides: zero opens the
    /// context and moves on to the probe; anything else is a terminal
    /// `OpenFailed` (the native open releases its own allocation when
    /// it fails). Either way the dictionary loan ends with the call.
    pub open spec fn spec_on_open(self, code: i32) -> InputOpen {
        if code == 0 {
            InputOpen { phase: InputPhase::Probing, dict_lent: false, owns_context: true, error: None }
        } else {
            InputOpen {
                phase: InputPhase::Failed,
                dict_lent: false,
                owns_context: false,
                error: Some(Error::OpenFailed { code }),
            }
        }
    }

    /// What the probe's status code decides: a non-negative code
    /// completes the sequence; a negative one records `ProbeFailed`
    /// and demands that the just-opened context be closed first.
    pub open spec fn spec_on_probe(self, code: i32) -> InputOpen {
        if code >= 0 {
            InputOpen { phase: InputPhase::Succeeded, dict_lent: false, owns_context: true, error: None }
        } else {
            InputOpen {
                phase: InputPhase::Closing,
                dict_lent: false,
                owns_context: true,
                error: Some(Error::ProbeFailed { code }),
            }
        }
    }

    /// Once the cleanup close has run, nothing is allocated any more
    /// and the recorded probe failure becomes terminal.
    pub open spec fn spec_on_closed(self) -> InputOpen {
        InputOpen { phase: InputPhase::Failed, dict_lent: false, owns_context: false, error: self.error }
    }

    /// The action each phase asks of the driver.
    pub open spec fn spec_next_action(self) -> InputAction {
        match self.phase {
            InputPhase::Start => InputAction::CallOpen,
            InputPhase::Probing => InputAction::CallProbe,
            InputPhase::Closing => InputAction::CloseContext,
            InputPhase::Succeeded => InputAction::Finish,
            InputPhase::Failed => InputAction::Finish,
        }
    }

    /// Begin an input open sequence. `with_options` says whether an
    /// options dictionary is lent to the native open call.
    pub fn new(with_options: bool) -> (s: Self)
        ensures
            s == Self::spec_new(with_options),
            s.wf(),
    {
        InputOpen { phase: InputPhase::Start, dict_lent: with_options, owns_context: false, error: None }
    }

    /// What the driver has to do next.
    pub fn next_action(&self) -> (a: InputAction)
        ensures
            a == self.spec_next_action(),
    {
        match self.phase {
            InputPhase::Start => InputAction::CallOpen,
            InputPhase::Probing => InputAction::CallProbe,
            InputPhase::Closing => InputAction::CloseContext,
            InputPhase::Succeeded => InputAction::Finish,
            InputPhase::Failed => InputAction::Finish,
        }
    }

    /// Feed the status code the native open call returned.
    pub fn on_open_returned(self, code: i32) -> (r: Self)
        requires
            self.wf(),
            self.phase is Start,
        ensures
            r == self.spec_on_open(code),
            r.wf(),
            !r.dict_lent,
    {
        if code == 0 {
            InputOpen { phase: InputPhase::Probing, dict_lent: false, owns_context: true, error: None }
        } else {
            InputOpen {
                phase: InputPhase::Failed,
                dict_lent: false,
                owns_context: false,
                error: Some(Error::OpenFailed { code }),
            }
        }
    }

    /// Feed the status code the stream-information probe returned.
    pub fn on_probe_returned(self, code: i32) -> (r: Self)
        requires
            self.wf(),
            self.phase is Probing,
        ensures
            r == self.spec_on_probe(code),
            r.wf(),
    {
        if code >= 0 {
            InputOpen { phase: InputPhase::Succeeded, dict_lent: false, owns_context: true, error: None }
        } else {
            InputOpen {
                phase: InputPhase::Closing,
                dict_lent: false,
                owns_context: true,
                error: Some(Error::ProbeFailed { code }),
            }
        }
    }

    /// Report that the cleanup close has run.
    pub fn on_context_closed(self) -> (r: Self)
        requires
            self.wf(),
            self.phase is Closing,
        ensures
            r == self.spec_on_closed(),
            r.wf(),
    {
        InputOpen { phase: InputPhase::Failed, dict_lent: false, owns_context: false, error: self.error }
    }

    /// End the sequence: on success, register the context and take the
    /// owning handle; on failure, take the recorded error. The registry
    /// changes exactly when a handle is created, and the handle owns a
    /// fresh, live allocation.
    pub fn finish(self, registry: &mut ContextRegistry) -> (r: Result<Input, Error>)
        requires
            self.wf(),
            self.phase is Succeeded || self.phase is Failed,
            old(registry).wf(),
            old(registry).issued() < u64::MAX,
        ensures
            final(registry).wf(),
            r is Ok <==> self.phase is Succeeded,
            self.phase is Succeeded ==> {
                &&& old(registry).live_ids().count(r.unwrap().spec_id()) == 0
                &&& final(registry).live_ids() == old(registry).live_ids().insert(
                    r.unwrap().spec_id(),
                )
                &&& final(registry).issued() == old(registry).issued() + 1
            },
            self.phase is Failed ==> {
                &&& r.unwrap_err() == self.error.unwrap()
                &&& *final(registry) == *old(registry)
            },
    {
        match self.phase {
            InputPhase::Succeeded => {
                let id = registry.allocate();
                Ok(Input::wrap(id))
            },
            _ => Err(self.error.unwrap()),
        }
    }
}

/// Where an output open sequence stands.
#[derive(Clone, Copy, Debug, PartialEq, Eq, Structural)]
pub enum OutputPhase {
    /// No native call has been made yet.
    Start,
    /// The context is allocated; the byte sink has to be opened.
    SinkPending,
    /// The sink could not be opened; the allocated context still has
    /// to be released.
    Closing,
    /// The context is allocated and its sink is open; the handle can
    /// be taken.
    Succeeded,
    /// Terminal failure; nothing is allocated or lent any more.
    Failed,
}

/// The next native call an output open sequence asks its driver for.
#[derive(Clone, Copy, Debug, PartialEq, Eq, Structural)]
pub enum OutputAction {
    /// Allocate the native output context for the format and path.
    CallAlloc,
    /// Open the byte sink for writing, with the session's options
    /// dictionary if it has one.
    CallOpenSink,
    /// Release the native context, then report `on_context_closed`.
    CloseContext,
    /// The sequence is over; `finish` yields the handle or the error.
    Finish,
}

/// One attempt to open an output (muxer) context.
pub struct OutputOpen {
    /// Where the sequence stands.
    pub phase: OutputPhase,
    /// The options dictionary is currently out on loan to the native
    /// layer; it must be reclaimed before the sequence can end.
    pub dict_lent: bool,
    /// The sequence is currently responsible for one native context
    /// allocation.
    pub owns_context: bool,
    /// The failure recorded so far, if any.
    pub error: Option<Error>,
}

impl OutputOpen {
    /// Phases and resources agree: a context is held from successful
    /// allocation until it is handed over or released, the dictionary
    /// loan never outlives the sink call, and an error is recorded
    /// exactly from the moment a native call fails. In particular
    /// every terminal state holds nothing: the sink-failure path
    /// releases the allocated context instead of leaking it.
    pub open spec fn wf(self) -> bool {
        &&& (self.owns_context <==> (self.phase is SinkPending || self.phase is Closing
            || self.phase is Succeeded))
        &&& (self.dict_lent ==> (self.phase is Start || self.phase is SinkPending))
        &&& (self.error is Some <==> (self.phase is Closing || self.phase is Failed))
    }

    /// The state a fresh output sequence starts in.
    pub open spec fn spec_new(with_options: bool) -> OutputOpen {
        OutputOpen { phase: OutputPhase::Start, dict_lent: with_options, owns_context: false, error: None }
    }

    /// What the allocation call's status code decides: zero allocates
    /// the context and moves on to the sink; anything else is a
    /// terminal `OpenFailed` with nothing allocated, and the
    /// dictionary loan ends at once since the sink call never happens.
    pub open spec fn spec_on_alloc(self, code: i32) -> OutputOpen {
        if code == 0 {
            OutputOpen {
                phase: OutputPhase::SinkPending,
                dict_lent: self.dict_lent,
                owns_context: true,
                error: None,
            }
        } else {
            OutputOpen {
                phase: OutputPhase::Failed,
                dict_lent: false,
                owns_context: false,
                error: Some(Error::OpenFailed { code }),
            }
        }
    }

    /// What the sink call's status code decides: zero completes the
    /// sequence; anything else records `OpenFailed` and demands that
    /// the allocated context be released first. Either way the
    /// dictionary loan ends with the call.
    pub open spec fn spec_on_sink(self, code: i32) -> OutputOpen {
        if code == 0 {
            OutputOpen { phase: OutputPhase::Succeeded, dict_lent: false, owns_context: true, error: None }
        } else {
            OutputOpen {
                phase: OutputPhase::Closing,
                dict_lent: false,
                owns_context: true,
                error: Some(Error::OpenFailed { code }),
            }
        }
    }

    /// Once the cleanup release has run, nothing is allocated any more
    /// and the recorded sink failure becomes terminal.
    pub open spec fn spec_on_closed(self) -> OutputOpen {
        OutputOpen { phase: OutputPhase::Failed, dict_lent: false, owns_context: false, error: self.error }
    }

    /// The action each phase asks of the driver.
    pub open spec fn spec_next_action(self) -> OutputAction {
        match self.phase {
            OutputPhase::Start => OutputAction::CallAlloc,
            OutputPhase::SinkPending => OutputAction::CallOpenSink,
            OutputPhase::Closing => OutputAction::CloseContext,
            OutputPhase::Succeeded => OutputAction::Finish,
            OutputPhase::Failed => OutputAction::Finish,
        }
    }

    /// Begin an output open sequence. `with_options` says whether an
    /// options dictionary is lent to the native sink call.
    pub fn new(with_options: bool) -> (s: Self)
        ensures
            s == Self::spec_new(with_options),
            s.wf(),
    {
        OutputOpen { phase: OutputPhase::Start, dict_lent: with_options, owns_context: false, error: None }
    }

    /// What the driver has to do next.
    pub fn next_action(&self) -> (a: OutputAction)
        ensures
            a == self.spec_next_action(),
    {
        match self.phase {
            OutputPhase::Start => OutputAction::CallAlloc,
            OutputPhase::SinkPending => OutputAction::CallOpenSink,
            OutputPhase::Closing => OutputAction::CloseContext,
            OutputPhase::Succeeded => OutputAction::Finish,
            OutputPhase::Failed => OutputAction::Finish,
        }
    }

    /// Feed the status code the native allocation call returned.
    pub fn on_alloc_returned(self, code: i32) -> (r: Self)
        requires
            self.wf(),
            self.phase is Start,
        ensures
            r == self.spec_on_alloc(code),
            r.wf(),
            code != 0 ==> !r.dict_lent,
    {
        if code == 0 {
            OutputOpen {
                phase: OutputPhase::SinkPending,
                dict_lent: self.dict_lent,
                owns_context: true,
                error: None,
            }
        } else {
            OutputOpen {
                phase: OutputPhase::Failed,
                dict_lent: false,
                owns_context: false,
                error: Some(Error::OpenFailed { code }),
            }
        }
    }

    /// Feed the status code the sink open call returned.
    pub fn on_sink_returned(self, code: i32) -> (r: Self)
        requires
            self.wf(),
            self.phase is SinkPending,
        ensures
            r == self.spec_on_sink(code),
            r.wf(),
            !r.dict_lent,
    {
        if code == 0 {
            OutputOpen { phase: OutputPhase::Succeeded, dict_lent: false, owns_context: true, error: None }
        } else {
            OutputOpen {
                phase: OutputPhase::Closing,
                dict_lent: false,
                owns_context: true,
                error: Some(Error::OpenFailed { code }),
            }
        }
    }

    /// Report that the cleanup release has run.
    pub fn on_context_closed(self) -> (r: Self)
        requires
            self.wf(),
            self.phase is Closing,
        ensures
            r == self.spec_on_closed(),
            r.wf(),
    {
        OutputOpen { phase: OutputPhase::Failed, dict_lent: false, owns_context: false, error: self.error }
    }

    /// End the sequence: on success, register the context and take the
    /// owning handle; on failure, take the recorded error. The registry
    /// changes exactly when a handle is created, and the handle owns a
    /// fresh, live allocation.
    pub fn finish(self, registry: &mut ContextRegistry) -> (r: Result<Output, Error>)
        requires
            self.wf(),
            self.phase is Succeeded || self.phase is Failed,
            old(registry).wf(),
            old(registry).issued() < u64::MAX,
        ensures
            final(registry).wf(),
            r is Ok <==> self.phase is Succeeded,
            self.phase is Succeeded ==> {
                &&& old(registry).live_ids().count(r.unwrap().spec_id()) == 0
                &&& final(registry).live_ids() == old(registry).live_ids().insert(
                    r.unwrap().spec_id(),
                )
                &&& final(registry).issued() == old(registry).issued() + 1
            },
            self.phase is Failed ==> {
                &&& r.unwrap_err() == self.error.unwrap()
                &&& *final(registry) == *old(registry)
            },
    {
        match self.phase {
            OutputPhase::Succeeded => {
                let id = registry.allocate();
                Ok(Output::wrap(id))
            },
            _ => Err(self.error.unwrap()),
        }
    }
}

/// An open sequence of either direction, as the combined entry points
/// start it: the format descriptor selects which native path runs.
pub enum OpenSession {
    Input(InputOpen),
    Output(OutputOpen),
}

impl OpenSession {
    /// Begin the sequence that the format descriptor selects, with or
    /// without an options dictionary riding along.
    pub fn begin(format: &Format, with_options: bool) -> (s: Self)
        ensures
            (format is Input ==> s == (OpenSession::Input(InputOpen::spec_new(with_options)))),
            (format is Output ==> s == (OpenSession::Output(OutputOpen::spec_new(with_options)))),
    {
        match format {
            Format::Input => OpenSession::Input(InputOpen::new(with_options)),
            Format::Output => OpenSession::Output(OutputOpen::new(with_options)),
        }
    }
}

/// Opening a path that cannot be opened leaves nothing behind: for
/// every non-zero status the native open call can return, the input
/// sequence ends at once in `OpenFailed` with that code, owning no
/// allocation and holding no dictionary.
pub proof fn lemma_failed_input_open_leaves_nothing(s: InputOpen, code: i32)
    requires
        s.wf(),
        s.phase is Start,
        code != 0,
    ensures
        s.spec_on_open(code).wf(),
        s.spec_on_open(code).phase is Failed,
        !s.spec_on_open(code).owns_context,
        !s.spec_on_open(code).dict_lent,
        s.spec_on_open(code).error == Some(Error::OpenFailed { code }),
{
}

/// A probe failure never leaks the just-opened context: for every
/// negative probe status, the sequence first demands the cleanup
/// close, and once that has run it is terminal with `ProbeFailed`,
/// owning no allocation and holding no dictionary.
pub proof fn lemma_failed_probe_releases_context(s: InputOpen, code: i32)
    requires
        s.wf(),
        s.phase is Probing,
        code < 0,
    ensures
        s.spec_on_probe(code).owns_context,
        s.spec_on_probe(code).spec_next_action() is CloseContext,
        s.spec_on_probe(code).spec_on_closed().wf(),
        s.spec_on_probe(code).spec_on_closed().phase is Failed,
        !s.spec_on_probe(code).spec_on_closed().owns_context,
        !s.spec_on_probe(code).spec_on_closed().dict_lent,
        s.spec_on_probe(code).spec_on_closed().error == Some(Error::ProbeFailed { code }),
{
}

/// An output sink that cannot be created yields `OpenFailed` and does
/// not leak the allocated context: the sequence first demands the
/// cleanup release, and once that has run it is terminal, owning no
/// allocation and holding no dictionary.
pub proof fn lemma_failed_sink_releases_context(s: OutputOpen, code: i32)
    requires
        s.wf(),
        s.phase is SinkPending,
        code != 0,
    ensures
        s.spec_on_sink(code).owns_context,
        s.spec_on_sink(code).spec_next_action() is CloseContext,
        s.spec_on_sink(code).spec_on_closed().wf(),
        s.spec_on_sink(code).spec_on_closed().phase is Failed,
        !s.spec_on_sink(code).spec_on_closed().owns_context,
        !s.spec_on_sink(code).spec_on_closed().dict_lent,
        s.spec_on_sink(code).spec_on_closed().error == Some(Error::OpenFailed { code }),
{
}

/// The dictionary loan ends with the native call on every path: after
/// the input open call returns — whatever its status — the dictionary
/// is back with the caller, and no later step of the sequence lends it
/// out again.
pub proof fn lemma_input_dictionary_always_reclaimed(s: InputOpen, code: i32, probe_code: i32)
    requires
        s.wf(),
        s.phase is Start,
    ensures
        !s.spec_on_open(code).dict_lent,
        !s.spec_on_open(code).spec_on_probe(probe_code).dict_lent,
        !s.spec_on_open(code).spec_on_probe(probe_code).spec_on_closed().dict_lent,
{
}

/// The dictionary loan ends on every output path as well: whether the
/// allocation fails, the sink fails, or everything succeeds, no
/// terminal state of the sequence still holds the dictionary.
pub proof fn lemma_output_dictionary_always_reclaimed(s: OutputOpen, code: i32, sink_code: i32)
    requires
        s.wf(),
        s.phase is Start,
    ensures
        code != 0 ==> !s.spec_on_alloc(code).dict_lent,
        !s.spec_on_alloc(code).spec_on_sink(sink_code).dict_lent,
        !s.spec_on_alloc(code).spec_on_sink(sink_code).spec_on_closed().dict_lent,
{
}

/// An interrupt predicate that asks for an abort ends the open call at
/// once: when the native open reports the interruption status, the
/// sequence is terminal in a single step, carries an error that
/// identifies the interruption, and holds nothing.
pub proof fn lemma_interrupt_ends_open_at_once(s: InputOpen)
    requires
        s.wf(),
        s.phase is Start,
    ensures
        s.spec_on_open(crate::error::INTERRUPT_CODE).wf(),
        s.spec_on_open(crate::error::INTERRUPT_CODE).phase is Failed,
        s.spec_on_open(crate::error::INTERRUPT_CODE).spec_next_action() is Finish,
        s.spec_on_open(crate::error::INTERRUPT_CODE).error matches Some(e) && e.spec_is_interrupt(),
        !s.spec_on_open(crate::error::INTERRUPT_CODE).owns_context,
        !s.spec_on_open(crate::error::INTERRUPT_CODE).dict_lent,
{
}

} // verus!



//! SPIR-V side of the library: execution models, the module to translate, and
//! the session that drives the native engine through one translation.
//!
//! A session never calls the engine. An operation hands back a [`Step`]: either
//! the outcome, or the next [`NativeCall`] for the embedder to perform. The
//! embedder performs it and gives the engine's reply to [`Ast::resume`], which
//! hands back the next step, until the operation is over.

use crate::bindings::{NativeCall, NativeCallView, NativeReply, NativeReplyView};
use crate::error::{ErrorCode, ErrorCodeView};
use core::marker::PhantomData;
use vstd::prelude::*;

verus! {

/// The pipeline stage that an entry point runs in.
#[derive(Copy, Clone, Debug, Hash, PartialEq, Eq, Structural)]
pub enum ExecutionModel {
    Vertex,
    TessellationControl,
    TessellationEvaluation,
    Geometry,
    Fragment,
    GlCompute,
    Kernel,
}

impl ExecutionModel {
    /// The stage code that the native engine knows this execution model by.
    pub open spec fn raw_code(self) -> int {
        match self {
            ExecutionModel::Vertex => 0,
            ExecutionModel::TessellationControl => 1,
            ExecutionModel::TessellationEvaluation => 2,
            ExecutionModel::Geometry => 3,
            ExecutionModel::Fragment => 4,
            ExecutionModel::GlCompute => 5,
            ExecutionModel::Kernel => 6,
        }
    }

    /// The execution model that a stage code stands for, if any.
    pub open spec fn of_raw_code(raw: int) -> Option<ExecutionModel> {
        if raw == 0 {
            Some(ExecutionModel::Vertex)
        } else if raw == 1 {
            Some(ExecutionModel::TessellationControl)
        } else if raw == 2 {
            Some(ExecutionModel::TessellationEvaluation)
        } else if raw == 3 {
            Some(ExecutionModel::Geometry)
        } else if raw == 4 {
            Some(ExecutionModel::Fragment)
        } else if raw == 5 {
            Some(ExecutionModel::GlCompute)
        } else if raw == 6 {
            Some(ExecutionModel::Kernel)
        } else {
            None
        }
    }

    /// Converts the execution model to its stage code.
    pub fn as_raw(self) -> (raw: i32)
        ensures
            raw == self.raw_code(),
    {
        match self {
            ExecutionModel::Vertex => 0,
            ExecutionModel::TessellationControl => 1,
            ExecutionModel::TessellationEvaluation => 2,
            ExecutionModel::Geometry => 3,
            ExecutionModel::Fragment => 4,
            ExecutionModel::GlCompute => 5,
            ExecutionModel::Kernel => 6,
        }
    }

    /// Reads a stage code back: `None` for a code that names no execution model.
    pub fn from_raw(raw: i32) -> (model: Option<ExecutionModel>)
        ensures
            model == ExecutionModel::of_raw_code(raw as int),
    {
        match raw {
            0 => Some(ExecutionModel::Vertex),
            1 => Some(ExecutionModel::TessellationControl),
            2 => Some(ExecutionModel::TessellationEvaluation),
            3 => Some(ExecutionModel::Geometry),
            4 => Some(ExecutionModel::Fragment),
            5 => Some(ExecutionModel::GlCompute),
            6 => Some(ExecutionModel::Kernel),
            _ => None,
        }
    }

    /// Every execution model is read back from its own stage code, and two
    /// execution models with one stage code are the same.
    pub proof fn lemma_raw_code_round_trip(a: ExecutionModel, b: ExecutionModel)
        ensures
            0 <= a.raw_code() <= 6,
            ExecutionModel::of_raw_code(a.raw_code()) == Some(a),
            a.raw_code() == b.raw_code() ==> a == b,
    {
    }
}

/// A SPIR-V module: the 32-bit words of its binary form.
#[derive(Debug, Clone)]
pub struct Module<'a> {
    pub words: &'a [u32],
}

impl<'a> Module<'a> {
    /// A module made of the given words.
    pub fn from_words(words: &'a [u32]) -> (module: Module<'a>)
        ensures
            module.words@ == words@,
    {
        Module { words }
    }
}

/// Where a session stands in its life.
#[derive(Copy, Clone, Debug, Hash, PartialEq, Eq, Structural)]
pub enum Phase {
    /// No native compiler stands behind the session: its construction is
    /// under way, or the engine refused the module.
    Unborn,
    /// The compiler is constructed and no options are set.
    Created,
    /// The options are set.
    Configured,
    /// A compilation was requested, whatever came of it.
    Compiled,
    /// The compiler is released.
    Released,
}

impl Phase {
    /// True while a native compiler stands behind the session.
    pub open spec fn is_live(self) -> bool {
        self == Phase::Created || self == Phase::Configured || self == Phase::Compiled
    }
}

/// The native call whose reply a session waits for.
#[derive(Debug, Clone, PartialEq, Eq)]
pub enum Awaiting {
    /// No call is under way.
    Nothing,
    /// The construction of the compiler.
    Construction,
    /// The selection of the entry point; `then` is the call that sets the
    /// options, due once the entry point is selected.
    Selection { then: NativeCall },
    /// The call that sets the options.
    Configuration,
    /// A call that leaves the phase as it is: a layout, a remap or a binding.
    Adjustment,
    /// The compilation.
    Compilation,
}

/// What an [`Awaiting`] is, over the view of the call it holds.
pub enum AwaitingView {
    Nothing,
    Construction,
    Selection { then: NativeCallView },
    Configuration,
    Adjustment,
    Compilation,
}

impl View for Awaiting {
    type V = AwaitingView;

    open spec fn view(&self) -> AwaitingView {
        match self {
            Awaiting::Nothing => AwaitingView::Nothing,
            Awaiting::Construction => AwaitingView::Construction,
            Awaiting::Selection { then } => AwaitingView::Selection { then: then@ },
            Awaiting::Configuration => AwaitingView::Configuration,
            Awaiting::Adjustment => AwaitingView::Adjustment,
            Awaiting::Compilation => AwaitingView::Compilation,
        }
    }
}

/// What an operation hands back to the embedder.
#[derive(Debug, Clone, PartialEq, Eq)]
pub enum Step {
    /// Perform this call and give its reply to [`Ast::resume`].
    Call(NativeCall),
    /// The operation succeeded.
    Done,
    /// The compilation succeeded, with this source text.
    Source(String),
    /// The operation failed.
    Failed(ErrorCode),
}

/// What a [`Step`] is, over the views of what it holds.
pub enum StepView {
    Call(NativeCallView),
    Done,
    Source(Seq<char>),
    Failed(ErrorCodeView),
}

impl View for Step {
    type V = StepView;

    open spec fn view(&self) -> StepView {
        match self {
            Step::Call(call) => StepView::Call(call@),
            Step::Done => StepView::Done,
            Step::Source(text) => StepView::Source(text@),
            Step::Failed(error) => StepView::Failed(error@),
        }
    }
}

/// The state of a session: its phase and the reply it waits for.
pub struct Session {
    pub phase: Phase,
    pub awaiting: AwaitingView,
}

impl Session {
    /// True when an operation can begin: the compiler is live and no call is
    /// under way.
    pub open spec fn ready(self) -> bool {
        self.phase.is_live() && self.awaiting == AwaitingView::Nothing
    }

    /// The phase after the engine has accepted the options.
    pub open spec fn configured_phase(self) -> Phase {
        if self.phase == Phase::Created {
            Phase::Configured
        } else {
            self.phase
        }
    }

    /// The session after a reply, and the step that the reply leads to.
    ///
    /// A failure ends the operation with the engine's message and cancels the
    /// calls still due. A success moves the operation on: to its next call
    /// where one is due, else to its end.
    pub open spec fn after_reply(self, reply: NativeReplyView) -> (Session, StepView) {
        match reply {
            NativeReplyView::Failure { message } => (
                Session { phase: self.phase, awaiting: AwaitingView::Nothing },
                StepView::Failed(ErrorCodeView::CompilationError(message)),
            ),
            NativeReplyView::Success { output } => match self.awaiting {
                AwaitingView::Construction => (
                    Session { phase: Phase::Created, awaiting: AwaitingView::Nothing },
                    StepView::Done,
                ),
                AwaitingView::Selection { then } => (
                    Session { phase: self.phase, awaiting: AwaitingView::Configuration },
                    StepView::Call(then),
                ),
                AwaitingView::Configuration => (
                    Session { phase: self.configured_phase(), awaiting: AwaitingView::Nothing },
                    StepView::Done,
                ),
                AwaitingView::Compilation => (
                    Session { phase: self.phase, awaiting: AwaitingView::Nothing },
                    StepView::Source(output),
                ),
                _ => (
                    Session { phase: self.phase, awaiting: AwaitingView::Nothing },
                    StepView::Done,
                ),
            },
        }
    }
}

impl Session {
    /// An operation fails on a reply exactly when the reply is a failure,
    /// and then with the engine's own message: never with
    /// [`ErrorCode::Unhandled`], which is kept for what this library itself
    /// refuses.
    pub proof fn lemma_engine_failure_is_distinct(self, reply: NativeReplyView)
        ensures
            self.after_reply(reply).1 is Failed <==> reply is Failure,
            reply matches NativeReplyView::Failure { message } ==> self.after_reply(reply).1
                == StepView::Failed(ErrorCodeView::CompilationError(message)),
            self.after_reply(reply).1 != StepView::Failed(ErrorCodeView::Unhandled),
    {
    }

    /// A call that adjusts a ready session, a layout, a remap or a binding,
    /// leaves it ready and in its phase whatever the engine answers: the
    /// next operation begins as if the call had not been made.
    pub proof fn lemma_adjustment_returns_to_ready(self, reply: NativeReplyView)
        requires
            self.ready(),
        ensures
            (Session { phase: self.phase, awaiting: AwaitingView::Adjustment }).after_reply(
                reply,
            ).0 == self,
    {
    }
}

/// A session with the native engine on one module, for the target `TTarget`.
#[derive(Debug)]
pub struct Ast<TTarget> {
    phase: Phase,
    awaiting: Awaiting,
    target_type: PhantomData<TTarget>,
}

impl<TTarget> View for Ast<TTarget> {
    type V = Session;

    closed spec fn view(&self) -> Session {
        Session { phase: self.phase, awaiting: self.awaiting@ }
    }
}

impl<TTarget> Ast<TTarget> {
    /// A session whose compiler is being constructed.
    pub(crate) fn under_construction() -> (ast: Ast<TTarget>)
        ensures
            ast@ == (Session { phase: Phase::Unborn, awaiting: AwaitingView::Construction }),
    {
        Ast { phase: Phase::Unborn, awaiting: Awaiting::Construction, target_type: PhantomData }
    }

    /// Notes the call that is now under way.
    pub(crate) fn await_reply(&mut self, awaiting: Awaiting)
        ensures
            final(self)@ == (Session { phase: old(self)@.phase, awaiting: awaiting@ }),
    {
        self.awaiting = awaiting;
    }

    /// The phase of the session.
    pub fn phase(&self) -> (phase: Phase)
        ensures
            phase == self@.phase,
    {
        self.phase
    }

    /// True once a compilation was requested.
    pub fn has_been_compiled(&self) -> (compiled: bool)
        ensures
            compiled == (self@.phase == Phase::Compiled),
    {
        matches!(self.phase, Phase::Compiled)
    }

    /// True when a call is under way, and [`Ast::resume`] due.
    pub fn awaits_reply(&self) -> (waiting: bool)
        ensures
            waiting == (self@.awaiting != AwaitingView::Nothing),
    {
        !matches!(self.awaiting, Awaiting::Nothing)
    }

    /// True when an operation can begin.
    pub fn is_ready(&self) -> (ready: bool)
        ensures
            ready == self@.ready(),
    {
        matches!(self.phase, Phase::Created | Phase::Configured | Phase::Compiled) && matches!(
            self.awaiting,
            Awaiting::Nothing
        )
    }

    /// Requests the generated source text.
    ///
    /// The request is recorded at once: the session is in the phase
    /// [`Phase::Compiled`] whatever the engine answers. Nothing but readiness
    /// is asked of the session: a compilation may come before any option is
    /// set, and may be repeated.
    pub fn compile(&mut self) -> (step: Step)
        requires
            old(self)@.ready(),
        ensures
            step@ == StepView::Call(NativeCallView::Compile),
            final(self)@ == (Session {
                phase: Phase::Compiled,
                awaiting: AwaitingView::Compilation,
            }),
    {
        self.phase = Phase::Compiled;
        self.awaiting = Awaiting::Compilation;
        Step::Call(NativeCall::Compile)
    }

    /// Takes the engine's reply to the call under way and hands back the next
    /// step of the operation.
    pub fn resume(&mut self, reply: NativeReply) -> (step: Step)
        requires
            old(self)@.awaiting != AwaitingView::Nothing,
        ensures
            (final(self)@, step@) == old(self)@.after_reply(reply@),
    {
        let mut awaited = Awaiting::Nothing;
        core::mem::swap(&mut self.awaiting, &mut awaited);
        match reply {
            NativeReply::Failure { message } => Step::Failed(ErrorCode::CompilationError(message)),
            NativeReply::Success { output } => match awaited {
                Awaiting::Construction => {
                    self.phase = Phase::Created;
                    Step::Done
                },
                Awaiting::Selection { then } => {
                    self.awaiting = Awaiting::Configuration;
                    Step::Call(then)
                },
                Awaiting::Configuration => {
                    if matches!(self.phase, Phase::Created) {
                        self.phase = Phase::Configured;
                    }
                    Step::Done
                },
                Awaiting::Compilation => Step::Source(output),
                _ => Step::Done,
            },
        }
    }

    /// Ends the session: hands back the call that releases the compiler, once.
    ///
    /// A session without a live compiler, one that was never constructed or
    /// is released already, has nothing to release and is left as it is.
    pub fn release(&mut self) -> (call: Option<NativeCall>)
        ensures
            call is Some <==> old(self)@.phase.is_live(),
            call matches Some(c) ==> c@ == NativeCallView::Delete,
            final(self)@ == if old(self)@.phase.is_live() {
                Session { phase: Phase::Released, awaiting: AwaitingView::Nothing }
            } else {
                old(self)@
            },
    {
        if matches!(self.phase, Phase::Created | Phase::Configured | Phase::Compiled) {
            self.phase = Phase::Released;
            self.awaiting = Awaiting::Nothing;
            Some(NativeCall::Delete)
        } else {
            None
        }
    }
}

} // verus!

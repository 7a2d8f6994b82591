//! The decision core of the dictionary lookup.
//!
//! A lookup resolves the executable path, spawns the tool with the word
//! as its single argument in the given working directory, and reads the
//! child's standard output to completion. The library decides each step;
//! an unverified driver performs the filesystem and process work and
//! reports back what happened. Every failure is final: the flow aborts
//! with the failing step's error and never produces output.
//!
//! The contracts speak over mathematical views of the request, states,
//! events and actions, in which every text is a `Seq<char>`; `next` is
//! the transition relation over those views.

use vstd::prelude::*;

verus! {

/// What one lookup asks for: a working directory for the child process,
/// the path of the executable to resolve and run, and the word handed
/// to it as its single command-line argument.
pub struct LookupRequest {
    pub working_dir: String,
    pub exec_path: String,
    pub word: String,
}

/// The mathematical view of a request: its three texts.
pub struct LookupRequestView {
    pub working_dir: Seq<char>,
    pub exec_path: Seq<char>,
    pub word: Seq<char>,
}

impl View for LookupRequest {
    type V = LookupRequestView;

    open spec fn view(&self) -> LookupRequestView {
        LookupRequestView {
            working_dir: self.working_dir@,
            exec_path: self.exec_path@,
            word: self.word@,
        }
    }
}

/// The step on which a lookup failed.
#[derive(Clone, Copy, PartialEq, Eq, Structural, Debug)]
pub enum LookupError {
    /// The executable path could not be resolved to a canonical path.
    Resolve,
    /// The resolved executable could not be spawned.
    Spawn,
    /// The child's standard output could not be read as text.
    Read,
}

/// Where a lookup stands between two decisions.
pub enum LookupState {
    /// Waiting for the executable path to be resolved.
    Resolving { request: LookupRequest },
    /// Waiting for the child process to be spawned.
    Spawning { request: LookupRequest, resolved: String },
    /// Waiting for the child's standard output to be read to its end.
    Reading,
    /// The lookup finished; `output` is the child's standard output.
    Done { output: String },
    /// The lookup aborted on the step named by `error`.
    Failed { error: LookupError },
}

/// The mathematical view of a lookup state.
pub enum LookupStateView {
    Resolving { request: LookupRequestView },
    Spawning { request: LookupRequestView, resolved: Seq<char> },
    Reading,
    Done { output: Seq<char> },
    Failed { error: LookupError },
}

impl View for LookupState {
    type V = LookupStateView;

    open spec fn view(&self) -> LookupStateView {
        match self {
            LookupState::Resolving { request } => LookupStateView::Resolving {
                request: request@,
            },
            LookupState::Spawning { request, resolved } => LookupStateView::Spawning {
                request: request@,
                resolved: resolved@,
            },
            LookupState::Reading => LookupStateView::Reading,
            LookupState::Done { output } => LookupStateView::Done { output: output@ },
            LookupState::Failed { error } => LookupStateView::Failed { error: *error },
        }
    }
}

/// What the driver reports after performing an action.
pub enum LookupEvent {
    /// The executable path resolved to the canonical path `resolved`.
    Resolved { resolved: String },
    /// The executable path does not exist or could not be resolved.
    ResolveFailed,
    /// The child process started, stdin and stdout piped.
    Spawned,
    /// The operating system refused to start the child process.
    SpawnFailed,
    /// The child's standard output, read to completion as text.
    OutputRead { output: String },
    /// Reading the child's output failed or produced invalid text.
    ReadFailed,
}

/// The mathematical view of a driver report.
pub enum LookupEventView {
    Resolved { resolved: Seq<char> },
    ResolveFailed,
    Spawned,
    SpawnFailed,
    OutputRead { output: Seq<char> },
    ReadFailed,
}

impl View for LookupEvent {
    type V = LookupEventView;

    open spec fn view(&self) -> LookupEventView {
        match self {
            LookupEvent::Resolved { resolved } => LookupEventView::Resolved {
                resolved: resolved@,
            },
            LookupEvent::ResolveFailed => LookupEventView::ResolveFailed,
            LookupEvent::Spawned => LookupEventView::Spawned,
            LookupEvent::SpawnFailed => LookupEventView::SpawnFailed,
            LookupEvent::OutputRead { output } => LookupEventView::OutputRead {
                output: output@,
            },
            LookupEvent::ReadFailed => LookupEventView::ReadFailed,
        }
    }
}

/// What the machine asks the driver to do next.
pub enum LookupAction {
    /// Resolve `path` to a canonical absolute path.
    Resolve { path: String },
    /// Spawn `exec_path` with the single argument `word`, working
    /// directory `working_dir`, stdin and stdout piped.
    Spawn { exec_path: String, word: String, working_dir: String },
    /// Read the child's standard output to completion.
    ReadOutput,
    /// The lookup is complete: hand `output` to the caller.
    Return { output: String },
    /// Abort the lookup, reporting the failing step.
    Abort { error: LookupError },
}

/// The mathematical view of an action.
pub enum LookupActionView {
    Resolve { path: Seq<char> },
    Spawn { exec_path: Seq<char>, word: Seq<char>, working_dir: Seq<char> },
    ReadOutput,
    Return { output: Seq<char> },
    Abort { error: LookupError },
}

impl View for LookupAction {
    type V = LookupActionView;

    open spec fn view(&self) -> LookupActionView {
        match self {
            LookupAction::Resolve { path } => LookupActionView::Resolve { path: path@ },
            LookupAction::Spawn { exec_path, word, working_dir } => LookupActionView::Spawn {
                exec_path: exec_path@,
                word: word@,
                working_dir: working_dir@,
            },
            LookupAction::ReadOutput => LookupActionView::ReadOutput,
            LookupAction::Return { output } => LookupActionView::Return { output: output@ },
            LookupAction::Abort { error } => LookupActionView::Abort { error: *error },
        }
    }
}

/// Which events can answer which state: each pending step is answered
/// by its own success or failure report, and a finished lookup accepts
/// nothing further.
pub open spec fn accepts(state: LookupStateView, event: LookupEventView) -> bool {
    match state {
        LookupStateView::Resolving { .. } => event is Resolved || event is ResolveFailed,
        LookupStateView::Spawning { .. } => event is Spawned || event is SpawnFailed,
        LookupStateView::Reading => event is OutputRead || event is ReadFailed,
        LookupStateView::Done { .. } => false,
        LookupStateView::Failed { .. } => false,
    }
}

/// The transition relation: the state after `event` and the action the
/// driver must perform next.
pub open spec fn next(state: LookupStateView, event: LookupEventView) -> (
    LookupStateView,
    LookupActionView,
)
    recommends
        accepts(state, event),
{
    match (state, event) {
        (LookupStateView::Resolving { request }, LookupEventView::Resolved { resolved }) => (
            LookupStateView::Spawning { request, resolved },
            LookupActionView::Spawn {
                exec_path: resolved,
                word: request.word,
                working_dir: request.working_dir,
            },
        ),
        (LookupStateView::Resolving { .. }, _) => (
            LookupStateView::Failed { error: LookupError::Resolve },
            LookupActionView::Abort { error: LookupError::Resolve },
        ),
        (LookupStateView::Spawning { .. }, LookupEventView::Spawned) => (
            LookupStateView::Reading,
            LookupActionView::ReadOutput,
        ),
        (LookupStateView::Spawning { .. }, _) => (
            LookupStateView::Failed { error: LookupError::Spawn },
            LookupActionView::Abort { error: LookupError::Spawn },
        ),
        (LookupStateView::Reading, LookupEventView::OutputRead { output }) => (
            LookupStateView::Done { output },
            LookupActionView::Return { output },
        ),
        (_, _) => (
            LookupStateView::Failed { error: LookupError::Read },
            LookupActionView::Abort { error: LookupError::Read },
        ),
    }
}

/// Begins a lookup: the first action resolves the requested executable
/// path, and the machine waits on that answer.
pub fn start(request: LookupRequest) -> (r: (LookupState, LookupAction))
    ensures
        r.0@ == (LookupStateView::Resolving { request: request@ }),
        r.1@ == (LookupActionView::Resolve { path: request@.exec_path }),
{
    let path = request.exec_path.clone();
    (LookupState::Resolving { request }, LookupAction::Resolve { path })
}

/// Tells the driver whether `event` answers the step that `state` is
/// waiting on; `step` may only be called when it does.
pub fn event_fits(state: &LookupState, event: &LookupEvent) -> (r: bool)
    ensures
        r == accepts(state@, event@),
{
    match state {
        LookupState::Resolving { .. } => matches!(
            event,
            LookupEvent::Resolved { .. } | LookupEvent::ResolveFailed
        ),
        LookupState::Spawning { .. } => matches!(
            event,
            LookupEvent::Spawned | LookupEvent::SpawnFailed
        ),
        LookupState::Reading => matches!(
            event,
            LookupEvent::OutputRead { .. } | LookupEvent::ReadFailed
        ),
        LookupState::Done { .. } => false,
        LookupState::Failed { .. } => false,
    }
}

/// Advances the lookup by one step: consumes the driver's report and
/// decides the next action, exactly as the transition relation says.
pub fn step(state: LookupState, event: LookupEvent) -> (r: (LookupState, LookupAction))
    requires
        accepts(state@, event@),
    ensures
        r.0@ == next(state@, event@).0,
        r.1@ == next(state@, event@).1,
{
    match (state, event) {
        (LookupState::Resolving { request }, LookupEvent::Resolved { resolved }) => {
            let exec_path = resolved.clone();
            let word = request.word.clone();
            let working_dir = request.working_dir.clone();
            (
                LookupState::Spawning { request, resolved },
                LookupAction::Spawn { exec_path, word, working_dir },
            )
        },
        (LookupState::Resolving { .. }, _) => (
            LookupState::Failed { error: LookupError::Resolve },
            LookupAction::Abort { error: LookupError::Resolve },
        ),
        (LookupState::Spawning { .. }, LookupEvent::Spawned) => (
            LookupState::Reading,
            LookupAction::ReadOutput,
        ),
        (LookupState::Spawning { .. }, _) => (
            LookupState::Failed { error: LookupError::Spawn },
            LookupAction::Abort { error: LookupError::Spawn },
        ),
        (LookupState::Reading, LookupEvent::OutputRead { output }) => {
            let returned = output.clone();
            (LookupState::Done { output }, LookupAction::Return { output: returned })
        },
        (_, _) => (
            LookupState::Failed { error: LookupError::Read },
            LookupAction::Abort { error: LookupError::Read },
        ),
    }
}

/// The machine hands output to the caller only verbatim: whenever a
/// step yields `Return`, the returned text is exactly the text the
/// driver read from the child's standard output, and the lookup is
/// done with that same text.
pub proof fn lemma_return_is_child_output(state: LookupStateView, event: LookupEventView)
    requires
        accepts(state, event),
    ensures
        next(state, event).1 is Return ==> {
            &&& event matches LookupEventView::OutputRead { output }
            &&& next(state, event).1 == (LookupActionView::Return { output })
            &&& next(state, event).0 == (LookupStateView::Done { output })
        },
{
}

/// The only way to finish is to read: a step ends in `Done` only when
/// the machine was waiting on the child's output and the driver
/// reported it, and the finished state holds exactly that output.
pub proof fn lemma_done_only_from_output_read(state: LookupStateView, event: LookupEventView)
    requires
        accepts(state, event),
    ensures
        next(state, event).0 is Done ==> {
            &&& state is Reading
            &&& event matches LookupEventView::OutputRead { output }
            &&& next(state, event).0 == (LookupStateView::Done { output })
        },
{
}

/// Every failure report aborts the lookup at once: the machine moves to
/// `Failed` on the failing step and asks the driver to abort with that
/// step's error, never to return output.
pub proof fn lemma_failure_aborts(state: LookupStateView, event: LookupEventView)
    requires
        accepts(state, event),
        event is ResolveFailed || event is SpawnFailed || event is ReadFailed,
    ensures
        next(state, event).0 matches LookupStateView::Failed { error } && (next(state, event).1
            == (LookupActionView::Abort { error })),
        !(next(state, event).1 is Return),
{
}

/// The state after the machine has consumed a whole sequence of driver
/// reports, one step at a time.
pub open spec fn run(state: LookupStateView, events: Seq<LookupEventView>) -> LookupStateView
    decreases events.len(),
{
    if events.len() == 0 {
        state
    } else {
        run(next(state, events[0]).0, events.subrange(1, events.len() as int))
    }
}

/// Whether every report in `events` answers, in turn, the state the
/// machine has then reached.
pub open spec fn run_accepted(state: LookupStateView, events: Seq<LookupEventView>) -> bool
    decreases events.len(),
{
    events.len() == 0 || (accepts(state, events[0]) && run_accepted(
        next(state, events[0]).0,
        events.subrange(1, events.len() as int),
    ))
}

/// Over any whole run of the machine: it finishes in `Done` only when
/// the last report delivered the child's output, the finished state
/// holds exactly that output, and no report anywhere in the run was a
/// failure. A lookup that completes therefore returned the child's
/// standard output verbatim, and a failed step can never lead to one.
pub proof fn lemma_run_done_returns_last_output(
    state: LookupStateView,
    events: Seq<LookupEventView>,
)
    requires
        run_accepted(state, events),
        !(state is Done),
        run(state, events) is Done,
    ensures
        events.len() > 0,
        events.last() matches LookupEventView::OutputRead { output } && run(state, events) == (
        LookupStateView::Done { output }),
        forall|i: int|
            0 <= i < events.len() ==> !(#[trigger] events[i] is ResolveFailed) && !(events[i]
                is SpawnFailed) && !(events[i] is ReadFailed),
    decreases events.len(),
{
    let e0 = events[0];
    let s1 = next(state, e0).0;
    let rest = events.subrange(1, events.len() as int);
    if events.len() == 1 {
        assert(run(s1, rest) == s1);
        lemma_done_only_from_output_read(state, e0);
        assert(events.last() == e0);
    } else {
        assert(run_accepted(s1, rest));
        assert(accepts(s1, rest[0]));
        if s1 is Done {
            assert(!accepts(s1, rest[0]));
        }
        lemma_run_done_returns_last_output(s1, rest);
        assert(events.last() == rest.last());
        if e0 is ResolveFailed || e0 is SpawnFailed || e0 is ReadFailed {
            lemma_failure_aborts(state, e0);
            assert(!accepts(s1, rest[0]));
        }
        assert forall|i: int| 0 <= i < events.len() implies !(#[trigger] events[i]
            is ResolveFailed) && !(events[i] is SpawnFailed) && !(events[i] is ReadFailed) by {
            if i > 0 {
                assert(events[i] == rest[i - 1]);
            }
        }
    }
}

/// An unresolvable executable path fails the whole lookup on its first
/// step: no process is spawned and no output handle is produced.
pub proof fn lemma_resolve_failure_is_fatal(request: LookupRequestView)
    ensures
        next(
            LookupStateView::Resolving { request },
            LookupEventView::ResolveFailed,
        ) == (
            LookupStateView::Failed { error: LookupError::Resolve },
            LookupActionView::Abort { error: LookupError::Resolve },
        ),
{
}

} // verus!

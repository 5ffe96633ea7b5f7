//! The controller that keeps the store in step with the windowing system.
//!
//! The controller does no input or output of its own. It asks for one thing
//! at a time, by the [`Action`] it hands out, and is told the outcome by the
//! [`Input`] of the next step. Whoever drives it performs the actions.

use crate::associations::{
    apply_op, lemma_op_keeps_single_owner, lemma_with_window, lemma_without_window,
    no_empty_entries, single_owner, Associations, ProcessIdentity, StoreOp, WindowRecord,
};
use crate::info::{found_identity, looked_up, ProcessInfo, ProcessesWindowsInfo};
use crate::x11_client::{
    Answers, GatherInfoError, GatherInfoErrorType, WindowMetadata, WindowReplies,
    X11WindowInformation,
};
use vstd::prelude::*;

verus! {

/// The exit code of a lost connection to the windowing system.
pub const CONNECTION_ERROR_CODE: i32 = 10;

/// The exit code of a malformed exchange with the windowing system.
pub const PROTOCOL_ERROR_CODE: i32 = 11;

/// The exit code of a windowing system that does not list its windows.
pub const X11_ERROR_CODE: i32 = 12;

/// The name of the property by which a windowing system lists its windows.
pub const WINDOW_LIST_PROPERTY: &'static str = "_NET_CLIENT_LIST";

/// Why the controller gave up.
#[derive(Clone, Copy, Debug, PartialEq, Eq)]
pub enum ApplicationErrorType {
    /// The windowing system does not list its windows.
    X11Error,
    /// The connection to the windowing system was lost.
    ConnectionError,
    /// An exchange with the windowing system was malformed.
    ProtocolError,
}

/// A fatal failure, with the exit code that reports it.
#[derive(Clone, Copy, Debug, PartialEq, Eq)]
pub struct ApplicationError {
    pub kind: ApplicationErrorType,
    pub retcode: i32,
}

/// The failure of the given kind: each kind has an exit code of its own, and
/// none of them is zero.
pub open spec fn failure(kind: ApplicationErrorType) -> ApplicationError {
    ApplicationError {
        kind,
        retcode: match kind {
            ApplicationErrorType::X11Error => X11_ERROR_CODE,
            ApplicationErrorType::ConnectionError => CONNECTION_ERROR_CODE,
            ApplicationErrorType::ProtocolError => PROTOCOL_ERROR_CODE,
        },
    }
}

impl ApplicationError {
    /// The failure of the given kind.
    pub fn of(kind: ApplicationErrorType) -> (r: Self)
        ensures
            r == failure(kind),
            r.retcode != 0,
    {
        let retcode: i32 = match kind {
            ApplicationErrorType::X11Error => X11_ERROR_CODE,
            ApplicationErrorType::ConnectionError => CONNECTION_ERROR_CODE,
            ApplicationErrorType::ProtocolError => PROTOCOL_ERROR_CODE,
        };
        ApplicationError { kind, retcode }
    }
}

/// Where the controller stands in its life.
#[derive(Clone, Copy, Debug, PartialEq, Eq)]
pub enum Phase {
    Initializing,
    BulkSyncing,
    Listening,
    Draining,
    Terminated,
}

/// Why the controller asked for a window's metadata.
#[derive(Clone, Copy, Debug, PartialEq, Eq)]
pub enum Purpose {
    /// The window was there when the controller started.
    BulkSync,
    /// The window has just been created.
    Created,
    /// The window has just been destroyed.
    Destroyed,
}

/// What the windowing system reports of a window.
#[derive(Clone, Copy, Debug, PartialEq, Eq)]
pub enum WindowEvent {
    Created(u32),
    Destroyed(u32),
    /// Anything else, a change of a property for one.
    Other,
}

/// What the controller asks its driver to do next.
#[derive(Clone, Copy, Debug, PartialEq, Eq)]
pub enum Action {
    /// Find out whether the windowing system lists its windows.
    QueryCapability,
    /// Fetch the list of windows.
    ListWindows,
    /// Ask the windowing system the four questions about this window.
    ResolveWindow(u32),
    /// Write out which windows each process owns.
    Report,
    /// Read the flag that says whether to keep running.
    CheckKeepRunning,
    /// Wait for the next event of the windowing system.
    AwaitEvent,
    /// Stop, with this status.
    Exit(Result<i32, ApplicationError>),
}

/// What the controller is waiting for.
#[derive(Clone, Copy, Debug, PartialEq, Eq)]
pub enum Stage {
    AwaitingCapability,
    AwaitingWindows,
    AwaitingReplies { window: u32, purpose: Purpose },
    AwaitingReport,
    AwaitingKeepRunning,
    AwaitingEvent,
    /// Shutdown was asked for: the driver has been told to stop.
    Draining,
    /// Nothing more happens.
    Terminated(Result<i32, ApplicationError>),
}

/// The outcome of an action.
#[derive(Debug)]
pub enum Input {
    /// Whether the windowing system lists its windows.
    Capability(bool),
    /// The windows that exist, in the order in which they are listed.
    Windows(Vec<u32>),
    /// The answers to the four questions about the window asked for.
    Replies(WindowReplies),
    /// The report has been written.
    Reported,
    /// The flag that says whether to keep running.
    KeepRunning(bool),
    /// The next event.
    Event(WindowEvent),
    /// Waiting for an event failed: the connection is lost.
    ConnectionFailed,
    /// Waiting for an event failed: an exchange was malformed.
    ProtocolFailed,
}

/// The outcome of an action, as contracts see it.
pub enum Stimulus {
    Capability(bool),
    Windows(Seq<u32>),
    Replies(Answers),
    Reported,
    KeepRunning(bool),
    Event(WindowEvent),
    ConnectionFailed,
    ProtocolFailed,
}

impl View for Input {
    type V = Stimulus;

    open spec fn view(&self) -> Stimulus {
        match *self {
            Input::Capability(present) => Stimulus::Capability(present),
            Input::Windows(windows) => Stimulus::Windows(windows@),
            Input::Replies(replies) => Stimulus::Replies(replies@),
            Input::Reported => Stimulus::Reported,
            Input::KeepRunning(keep) => Stimulus::KeepRunning(keep),
            Input::Event(event) => Stimulus::Event(event),
            Input::ConnectionFailed => Stimulus::ConnectionFailed,
            Input::ProtocolFailed => Stimulus::ProtocolFailed,
        }
    }
}

/// The controller, as contracts see it.
pub struct Controller {
    /// Which windows belong to which process.
    pub store: Associations,
    /// What the controller is waiting for.
    pub stage: Stage,
    /// The windows of the first enumeration that are still to be looked at.
    pub backlog: Seq<u32>,
}

/// The phase that a stage belongs to.
pub open spec fn phase_of(stage: Stage) -> Phase {
    match stage {
        Stage::AwaitingCapability => Phase::Initializing,
        Stage::AwaitingWindows => Phase::BulkSyncing,
        Stage::AwaitingReplies { window, purpose } => match purpose {
            Purpose::BulkSync => Phase::BulkSyncing,
            _ => Phase::Listening,
        },
        Stage::AwaitingReport => Phase::BulkSyncing,
        Stage::AwaitingKeepRunning => Phase::Listening,
        Stage::AwaitingEvent => Phase::Listening,
        Stage::Draining => Phase::Draining,
        Stage::Terminated(_) => Phase::Terminated,
    }
}

/// The action that a stage waits on.
pub open spec fn request_of(stage: Stage) -> Action {
    match stage {
        Stage::AwaitingCapability => Action::QueryCapability,
        Stage::AwaitingWindows => Action::ListWindows,
        Stage::AwaitingReplies { window, purpose } => Action::ResolveWindow(window),
        Stage::AwaitingReport => Action::Report,
        Stage::AwaitingKeepRunning => Action::CheckKeepRunning,
        Stage::AwaitingEvent => Action::AwaitEvent,
        Stage::Draining => Action::Exit(Ok(0)),
        Stage::Terminated(status) => Action::Exit(status),
    }
}

/// The controller at `stage`, and the action that this stage waits on.
pub open spec fn moved(c: Controller, stage: Stage) -> (Controller, Action) {
    (Controller { stage, ..c }, request_of(stage))
}

/// The change that the answers about a window call for: a window that is
/// there is recorded for its owner, a window that is gone is dropped from
/// it, and there is none where the metadata could not be had or no owner was
/// found.
pub open spec fn change_of(
    purpose: Purpose,
    metadata: Result<WindowMetadata, GatherInfoErrorType>,
    owner: Option<ProcessIdentity>,
) -> Option<StoreOp> {
    match (metadata, owner) {
        (Ok(info), Some(process)) => Some(
            match purpose {
                Purpose::Destroyed => StoreOp::Remove { xid: info.resource_id, process },
                _ => StoreOp::Insert { window: info.record(), process },
            },
        ),
        _ => None,
    }
}

/// The store after the change, if any, that the answers about a window call
/// for.
pub open spec fn absorbed(
    store: Associations,
    purpose: Purpose,
    metadata: Result<WindowMetadata, GatherInfoErrorType>,
    owner: Option<ProcessIdentity>,
) -> Associations {
    match change_of(purpose, metadata, owner) {
        Some(op) => apply_op(store, op),
        None => store,
    }
}

/// The controller turned to the next window of the backlog, or to the report
/// where the backlog is empty.
pub open spec fn turned_to_backlog(c: Controller) -> (Controller, Action) {
    if c.backlog.len() > 0 {
        moved(
            Controller { backlog: c.backlog.drop_first(), ..c },
            Stage::AwaitingReplies { window: c.backlog.first(), purpose: Purpose::BulkSync },
        )
    } else {
        moved(c, Stage::AwaitingReport)
    }
}

/// The controller after the answers about the window it asked for.
pub open spec fn settled(
    c: Controller,
    purpose: Purpose,
    metadata: Result<WindowMetadata, GatherInfoErrorType>,
    owner: Option<ProcessIdentity>,
) -> (Controller, Action) {
    let after = Controller { store: absorbed(c.store, purpose, metadata, owner), ..c };
    match purpose {
        Purpose::BulkSync => turned_to_backlog(after),
        _ => moved(after, Stage::AwaitingKeepRunning),
    }
}

/// The controller stopped for a failure of the given kind.
pub open spec fn failed(c: Controller, kind: ApplicationErrorType) -> (Controller, Action) {
    moved(c, Stage::Terminated(Err(failure(kind))))
}

/// One step of the controller: the state after `input`, and the action asked
/// for next. `owner` is the process that the process table names for the
/// window of the answers, and is looked at only where answers arrive that
/// give the window's metadata. An input that the stage does not wait for
/// changes nothing, and the action is asked for again.
pub open spec fn step_of(c: Controller, input: Stimulus, owner: Option<ProcessIdentity>) -> (
    Controller,
    Action,
) {
    match (c.stage, input) {
        (Stage::AwaitingCapability, Stimulus::Capability(present)) => if present {
            moved(c, Stage::AwaitingWindows)
        } else {
            failed(c, ApplicationErrorType::X11Error)
        },
        (Stage::AwaitingWindows, Stimulus::Windows(windows)) => turned_to_backlog(
            Controller { backlog: windows, ..c },
        ),
        (Stage::AwaitingReplies { window, purpose }, Stimulus::Replies(answers)) => settled(
            c,
            purpose,
            answers.metadata(window),
            owner,
        ),
        (Stage::AwaitingReport, Stimulus::Reported) => moved(c, Stage::AwaitingKeepRunning),
        (Stage::AwaitingKeepRunning, Stimulus::KeepRunning(keep)) => if keep {
            moved(c, Stage::AwaitingEvent)
        } else {
            moved(c, Stage::Draining)
        },
        (Stage::AwaitingEvent, Stimulus::Event(event)) => match event {
            WindowEvent::Created(window) => moved(
                c,
                Stage::AwaitingReplies { window, purpose: Purpose::Created },
            ),
            WindowEvent::Destroyed(window) => moved(
                c,
                Stage::AwaitingReplies { window, purpose: Purpose::Destroyed },
            ),
            WindowEvent::Other => moved(c, Stage::AwaitingKeepRunning),
        },
        (Stage::AwaitingEvent, Stimulus::ConnectionFailed) => failed(
            c,
            ApplicationErrorType::ConnectionError,
        ),
        (Stage::AwaitingEvent, Stimulus::ProtocolFailed) => failed(
            c,
            ApplicationErrorType::ProtocolError,
        ),
        (Stage::Draining, _) => moved(c, Stage::Terminated(Ok(0))),
        _ => moved(c, c.stage),
    }
}

/// The process identifier that has to be looked up before the step on
/// `input` can be taken: that of the window's metadata, where answers arrive
/// that give it.
pub open spec fn wanted_process(stage: Stage, input: Stimulus) -> Option<u32> {
    match (stage, input) {
        (Stage::AwaitingReplies { window, purpose }, Stimulus::Replies(answers)) => match answers.metadata(
            window,
        ) {
            Ok(info) => Some(info.process_id),
            Err(_) => None,
        },
        _ => None,
    }
}

/// The owner that a process table names for the step on `input`: the
/// process that it holds under the identifier that has to be looked up, and
/// none where nothing has to be looked up.
pub open spec fn owner_at(stage: Stage, input: Stimulus, table: Map<usize, Seq<Seq<char>>>) -> Option<
    ProcessIdentity,
> {
    match wanted_process(stage, input) {
        Some(pid) => looked_up(table, pid),
        None => None,
    }
}

/// One step of a run: an input, and the owner that the process table named.
pub struct Turn {
    pub input: Stimulus,
    pub owner: Option<ProcessIdentity>,
}

/// The controller after the steps of `turns`, first to last.
pub open spec fn after_turns(c: Controller, turns: Seq<Turn>) -> Controller
    decreases turns.len(),
{
    if turns.len() == 0 {
        c
    } else {
        after_turns(step_of(c, turns.first().input, turns.first().owner).0, turns.drop_first())
    }
}

/// The controller has been told to shut down, or has stopped.
pub open spec fn stopping(stage: Stage) -> bool {
    stage is Draining || stage is Terminated
}

/// The status that a stopping controller reports.
pub open spec fn status_of(stage: Stage) -> Result<i32, ApplicationError> {
    match stage {
        Stage::Terminated(status) => status,
        _ => Ok(0),
    }
}

/// A step changes the store only where answers arrive that give the
/// metadata of the window asked for, and an owner was found for it. So a
/// window whose process the table does not hold is skipped, and so is a
/// window whose metadata can no longer be had.
pub proof fn lemma_skipped_window(c: Controller, input: Stimulus, owner: Option<ProcessIdentity>)
    requires
        wanted_process(c.stage, input) is None || owner is None,
    ensures
        step_of(c, input, owner).0.store == c.store,
{
}

/// The change to the store that a step makes, if it makes one.
pub open spec fn change_at(c: Controller, input: Stimulus, owner: Option<ProcessIdentity>) -> Option<
    StoreOp,
> {
    match (c.stage, input) {
        (Stage::AwaitingReplies { window, purpose }, Stimulus::Replies(answers)) => change_of(
            purpose,
            answers.metadata(window),
            owner,
        ),
        _ => None,
    }
}

/// A step makes at most one change to the store: one insert, or one removal.
pub proof fn lemma_step_changes_once(c: Controller, input: Stimulus, owner: Option<ProcessIdentity>)
    ensures
        step_of(c, input, owner).0.store == match change_at(c, input, owner) {
            Some(op) => apply_op(c.store, op),
            None => c.store,
        },
{
}

/// No step leaves a process without windows in the store.
pub proof fn lemma_step_keeps_entries(
    c: Controller,
    input: Stimulus,
    owner: Option<ProcessIdentity>,
)
    requires
        no_empty_entries(c.store),
    ensures
        no_empty_entries(step_of(c, input, owner).0.store),
{
    match change_at(c, input, owner) {
        Some(StoreOp::Insert { window, process }) => {
            lemma_with_window(c.store, window, process);
        },
        Some(StoreOp::Remove { xid, process }) => {
            lemma_without_window(c.store, xid, process);
        },
        None => {},
    }
}

/// No step puts a window identifier under two processes.
pub proof fn lemma_step_keeps_single_owner(
    c: Controller,
    input: Stimulus,
    owner: Option<ProcessIdentity>,
)
    requires
        single_owner(c.store),
    ensures
        single_owner(step_of(c, input, owner).0.store),
{
    if let Some(op) = change_at(c, input, owner) {
        lemma_op_keeps_single_owner(c.store, op);
    }
}

/// When the flag says to stop, the controller takes no further event: it
/// leaves the store as it is and tells its driver to stop with success.
pub proof fn lemma_shutdown(c: Controller, owner: Option<ProcessIdentity>)
    requires
        c.stage is AwaitingKeepRunning,
    ensures
        step_of(c, Stimulus::KeepRunning(false), owner) == (
            Controller { stage: Stage::Draining, ..c },
            Action::Exit(Ok(0)),
        ),
{
}

/// A failure while waiting for an event stops the controller at once, with
/// the failure's own status and the store as it is.
pub proof fn lemma_wait_failure(c: Controller, owner: Option<ProcessIdentity>)
    requires
        c.stage is AwaitingEvent,
    ensures
        step_of(c, Stimulus::ConnectionFailed, owner) == (
            Controller {
                stage: Stage::Terminated(Err(failure(ApplicationErrorType::ConnectionError))),
                ..c
            },
            Action::Exit(Err(failure(ApplicationErrorType::ConnectionError))),
        ),
        step_of(c, Stimulus::ProtocolFailed, owner) == (
            Controller {
                stage: Stage::Terminated(Err(failure(ApplicationErrorType::ProtocolError))),
                ..c
            },
            Action::Exit(Err(failure(ApplicationErrorType::ProtocolError))),
        ),
{
}

/// Once the controller is stopping, whatever it is told afterwards, the
/// store stays as it is, the controller keeps stopping, and the status it
/// reports stays the same.
pub proof fn lemma_stopped_for_good(c: Controller, turns: Seq<Turn>)
    requires
        stopping(c.stage),
    ensures
        after_turns(c, turns).store == c.store,
        after_turns(c, turns).backlog == c.backlog,
        stopping(after_turns(c, turns).stage),
        status_of(after_turns(c, turns).stage) == status_of(c.stage),
    decreases turns.len(),
{
    if turns.len() > 0 {
        let next = step_of(c, turns.first().input, turns.first().owner).0;
        lemma_stopped_for_good(next, turns.drop_first());
    }
}

/// The controller: the store, what it is waiting for, and the windows of the
/// first enumeration that it has not looked at yet.
pub struct Application {
    proc_win_info: ProcessesWindowsInfo,
    stage: Stage,
    backlog: Vec<u32>,
    next: usize,
}

impl View for Application {
    type V = Controller;

    closed spec fn view(&self) -> Controller {
        Controller {
            store: self.proc_win_info@,
            stage: self.stage,
            backlog: self.backlog@.subrange(self.next as int, self.backlog@.len() as int),
        }
    }
}

impl Application {
    /// The store is valid and the backlog's mark is within it.
    pub closed spec fn wf(&self) -> bool {
        self.proc_win_info.wf() && self.next <= self.backlog@.len()
    }

    /// What the process table beside the store holds, as of its last
    /// refresh: the argument vector of each process, by identifier.
    pub closed spec fn process_table(&self) -> Map<usize, Seq<Seq<char>>> {
        self.proc_win_info.process_table()
    }

    /// A valid controller tracks no process without windows, and no window
    /// identifier under two processes.
    pub proof fn lemma_no_empty_entries(&self)
        requires
            self.wf(),
        ensures
            no_empty_entries(self@.store),
            single_owner(self@.store),
    {
        self.proc_win_info.lemma_no_empty_entries();
    }

    /// A controller that has not started: nothing is tracked, and it waits to
    /// hear whether the windowing system lists its windows.
    pub fn new() -> (r: Self)
        ensures
            r.wf(),
            r@ == (Controller {
                store: Map::<ProcessIdentity, Set<WindowRecord>>::empty(),
                stage: Stage::AwaitingCapability,
                backlog: Seq::<u32>::empty(),
            }),
    {
        let r = Application {
            proc_win_info: ProcessesWindowsInfo::new(),
            stage: Stage::AwaitingCapability,
            backlog: Vec::new(),
            next: 0,
        };
        assert(r@.backlog =~= Seq::<u32>::empty());
        r
    }

    /// What the controller is waiting for.
    pub fn stage(&self) -> (stage: Stage)
        ensures
            stage == self@.stage,
    {
        self.stage
    }

    /// Where the controller stands in its life.
    pub fn phase(&self) -> (phase: Phase)
        ensures
            phase == phase_of(self@.stage),
    {
        match self.stage {
            Stage::AwaitingCapability => Phase::Initializing,
            Stage::AwaitingWindows => Phase::BulkSyncing,
            Stage::AwaitingReplies { window, purpose } => match purpose {
                Purpose::BulkSync => Phase::BulkSyncing,
                _ => Phase::Listening,
            },
            Stage::AwaitingReport => Phase::BulkSyncing,
            Stage::AwaitingKeepRunning => Phase::Listening,
            Stage::AwaitingEvent => Phase::Listening,
            Stage::Draining => Phase::Draining,
            Stage::Terminated(_) => Phase::Terminated,
        }
    }

    /// The action that the controller is waiting on.
    pub fn request(&self) -> (action: Action)
        ensures
            action == request_of(self@.stage),
    {
        match self.stage {
            Stage::AwaitingCapability => Action::QueryCapability,
            Stage::AwaitingWindows => Action::ListWindows,
            Stage::AwaitingReplies { window, purpose } => Action::ResolveWindow(window),
            Stage::AwaitingReport => Action::Report,
            Stage::AwaitingKeepRunning => Action::CheckKeepRunning,
            Stage::AwaitingEvent => Action::AwaitEvent,
            Stage::Draining => Action::Exit(Ok(0)),
            Stage::Terminated(status) => Action::Exit(status),
        }
    }

    /// The store, to read.
    pub fn store(&self) -> (store: &ProcessesWindowsInfo)
        requires
            self.wf(),
        ensures
            store.wf(),
            store@ == self@.store,
    {
        &self.proc_win_info
    }

    /// Moves to `stage` and asks for what that stage waits on.
    fn move_to(&mut self, stage: Stage) -> (action: Action)
        requires
            old(self).wf(),
        ensures
            final(self).wf(),
            final(self).process_table() == old(self).process_table(),
            (final(self)@, action) == moved(old(self)@, stage),
    {
        self.stage = stage;
        self.request()
    }

    /// Turns to the next window of the backlog, or to the report where the
    /// backlog is empty.
    fn turn_to_backlog(&mut self) -> (action: Action)
        requires
            old(self).wf(),
        ensures
            final(self).wf(),
            final(self).process_table() == old(self).process_table(),
            (final(self)@, action) == turned_to_backlog(old(self)@),
    {
        if self.next < self.backlog.len() {
            let window = self.backlog[self.next];
            self.next = self.next + 1;
            assert(self@.backlog =~= old(self)@.backlog.drop_first());
            self.move_to(Stage::AwaitingReplies { window, purpose: Purpose::BulkSync })
        } else {
            self.move_to(Stage::AwaitingReport)
        }
    }

    /// Takes in what was found out about the window that was asked for.
    fn settle(
        &mut self,
        purpose: Purpose,
        resolved: Result<X11WindowInformation, GatherInfoError>,
        owner: Option<ProcessInfo>,
    ) -> (action: Action)
        requires
            old(self).wf(),
        ensures
            final(self).wf(),
            final(self).process_table() == old(self).process_table(),
            (final(self)@, action) == settled(
                old(self)@,
                purpose,
                match resolved {
                    Ok(info) => Ok(info@),
                    Err(e) => Err(e.err),
                },
                found_identity(owner),
            ),
    {
        match resolved {
            Ok(info) => match purpose {
                Purpose::Destroyed => self.proc_win_info.remove_resolved(&info, owner),
                _ => self.proc_win_info.insert_resolved(&info, owner),
            },
            Err(_) => {},
        }
        match purpose {
            Purpose::BulkSync => self.turn_to_backlog(),
            _ => self.move_to(Stage::AwaitingKeepRunning),
        }
    }

    /// Takes a step that needs no owner.
    fn carry_on(&mut self, input: Input) -> (action: Action)
        requires
            old(self).wf(),
            !(old(self)@.stage is AwaitingReplies && input@ is Replies),
        ensures
            final(self).wf(),
            final(self).process_table() == old(self).process_table(),
            forall|owner: Option<ProcessIdentity>|
                (final(self)@, action) == #[trigger] step_of(old(self)@, input@, owner),
    {
        match self.stage {
            Stage::AwaitingCapability => match input {
                Input::Capability(present) => if present {
                    self.move_to(Stage::AwaitingWindows)
                } else {
                    self.move_to(
                        Stage::Terminated(Err(ApplicationError::of(ApplicationErrorType::X11Error))),
                    )
                },
                _ => self.request(),
            },
            Stage::AwaitingWindows => match input {
                Input::Windows(windows) => {
                    self.backlog = windows;
                    self.next = 0;
                    assert(self@.backlog =~= windows@);
                    self.turn_to_backlog()
                },
                _ => self.request(),
            },
            Stage::AwaitingReplies { window, purpose } => self.request(),
            Stage::AwaitingReport => match input {
                Input::Reported => self.move_to(Stage::AwaitingKeepRunning),
                _ => self.request(),
            },
            Stage::AwaitingKeepRunning => match input {
                Input::KeepRunning(keep) => if keep {
                    self.move_to(Stage::AwaitingEvent)
                } else {
                    self.move_to(Stage::Draining)
                },
                _ => self.request(),
            },
            Stage::AwaitingEvent => match input {
                Input::Event(event) => match event {
                    WindowEvent::Created(window) => self.move_to(
                        Stage::AwaitingReplies { window, purpose: Purpose::Created },
                    ),
                    WindowEvent::Destroyed(window) => self.move_to(
                        Stage::AwaitingReplies { window, purpose: Purpose::Destroyed },
                    ),
                    WindowEvent::Other => self.move_to(Stage::AwaitingKeepRunning),
                },
                Input::ConnectionFailed => self.move_to(
                    Stage::Terminated(
                        Err(ApplicationError::of(ApplicationErrorType::ConnectionError)),
                    ),
                ),
                Input::ProtocolFailed => self.move_to(
                    Stage::Terminated(Err(ApplicationError::of(ApplicationErrorType::ProtocolError))),
                ),
                _ => self.request(),
            },
            Stage::Draining => self.move_to(Stage::Terminated(Ok(0))),
            Stage::Terminated(status) => self.request(),
        }
    }

    /// One step, with the owner that the process table named for the window
    /// of the answers. The owner is looked at only where answers arrive that
    /// give the window's metadata.
    pub fn advance(&mut self, input: Input, owner: Option<ProcessInfo>) -> (action: Action)
        requires
            old(self).wf(),
        ensures
            final(self).wf(),
            final(self).process_table() == old(self).process_table(),
            (final(self)@, action) == step_of(old(self)@, input@, found_identity(owner)),
    {
        match self.stage {
            Stage::AwaitingReplies { window, purpose } => match input {
                Input::Replies(replies) => {
                    let resolved = replies.get_window_information(window);
                    self.settle(purpose, resolved, owner)
                },
                _ => self.carry_on(input),
            },
            _ => self.carry_on(input),
        }
    }

    /// One step. Where answers arrive that give a window's metadata, the
    /// process table is brought up to date and the owner of the window is
    /// looked up in it first; the step is the one that [`step_of`] gives for
    /// the owner that the table names. In every other step the table is left
    /// as it is.
    pub fn step(&mut self, input: Input) -> (action: Action)
        requires
            old(self).wf(),
        ensures
            final(self).wf(),
            (final(self)@, action) == step_of(
                old(self)@,
                input@,
                owner_at(old(self)@.stage, input@, final(self).process_table()),
            ),
            wanted_process(old(self)@.stage, input@) is None ==> final(self).process_table() == old(
                self,
            ).process_table(),
    {
        match self.stage {
            Stage::AwaitingReplies { window, purpose } => match input {
                Input::Replies(replies) => {
                    let resolved = replies.get_window_information(window);
                    let owner = match &resolved {
                        Ok(info) => self.proc_win_info.resolve_process(info.process_id),
                        Err(_) => None,
                    };
                    self.settle(purpose, resolved, owner)
                },
                _ => self.carry_on(input),
            },
            _ => self.carry_on(input),
        }
    }
}

} // verus!

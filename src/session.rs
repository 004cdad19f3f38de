//! One capture session: start the trace, wait, stop it.
//!
//! The session only decides. Its caller runs each command it asks for,
//! sleeps when asked, and hands back what happened as an [`Event`].
use vstd::prelude::*;

use crate::args::{CaptureRequest, CaptureRequestView};
use crate::decimal::{decimal_of, push_decimal};
use crate::report::{
    classify, joined, outcome_records, records_view, CommandResult, LogLevel, LogRecord,
};

verus! {

/// Where a session stands: `Starting -> Capturing -> Stopping -> Done`,
/// with `Failed` reached from `Starting` or `Stopping`.
#[derive(Clone, Copy, Debug, PartialEq, Eq, Structural)]
pub enum Phase {
    Starting,
    Capturing,
    Stopping,
    Done,
    Failed,
}

/// How a failed session ends.
#[derive(Clone, Copy, Debug, PartialEq, Eq, Structural)]
pub enum Termination {
    /// The command ran and reported failure.
    CommandFailed,
    /// The command shell itself could not be started.
    LaunchFailed,
}

/// What happened since the session's last action.
#[derive(Clone, Debug, PartialEq, Eq)]
pub enum Event {
    /// The requested command ran to its end.
    Completed(CommandResult),
    /// The requested command could not be launched; the reason as text.
    NotLaunched(String),
    /// The requested wait is over.
    WaitElapsed,
}

/// What the caller is to do next.
#[derive(Clone, Debug, PartialEq, Eq)]
pub enum Action {
    /// Run this command line through the command shell.
    Invoke(String),
    /// Block for this many seconds.
    Sleep(u64),
    /// The session is over and succeeded.
    Finish,
    /// The session is over and failed: end the run.
    Abort(Termination),
    /// The event did not fit the session's phase: nothing to do.
    Nothing,
}

/// The mathematical value of an [`Action`].
pub enum ActionView {
    Invoke(Seq<char>),
    Sleep(u64),
    Finish,
    Abort(Termination),
    Nothing,
}

impl View for Action {
    type V = ActionView;

    open spec fn view(&self) -> ActionView {
        match self {
            Action::Invoke(c) => ActionView::Invoke(c@),
            Action::Sleep(s) => ActionView::Sleep(*s),
            Action::Finish => ActionView::Finish,
            Action::Abort(t) => ActionView::Abort(*t),
            Action::Nothing => ActionView::Nothing,
        }
    }
}

/// What an event amounts to for the session's decisions.
pub enum EventKind {
    Succeeded,
    Failed,
    NotLaunched,
    WaitElapsed,
}

pub open spec fn event_kind(e: Event) -> EventKind {
    match e {
        Event::Completed(res) => if res.succeeded {
            EventKind::Succeeded
        } else {
            EventKind::Failed
        },
        Event::NotLaunched(_) => EventKind::NotLaunched,
        Event::WaitElapsed => EventKind::WaitElapsed,
    }
}

/// The log records and the action that answer one event.
pub struct Step {
    pub logs: Vec<LogRecord>,
    pub action: Action,
}

/// The command line that starts the capture; both values go in verbatim.
pub open spec fn start_command(req: CaptureRequestView) -> Seq<char> {
    "netsh trace start capture=yes tracefile="@ + req.output + " maxSize="@ + req.max_size
}

/// The command line that stops the capture.
pub open spec fn stop_command() -> Seq<char> {
    "netsh trace stop"@
}

/// What the start command is called in the log.
pub open spec fn start_label(req: CaptureRequestView) -> Seq<char> {
    "capture start. Duration : "@ + decimal_of(req.duration as nat) + ". Maxsize : "@
        + req.max_size
}

/// What the stop command is called in the log.
pub open spec fn stop_label() -> Seq<char> {
    "capture stop"@
}

/// The phase that follows `phase` on an event of kind `k`, and the action asked for.
pub open spec fn transition(phase: Phase, req: CaptureRequestView, k: EventKind) -> (
    Phase,
    ActionView,
) {
    match (phase, k) {
        (Phase::Starting, EventKind::Succeeded) => (Phase::Capturing, ActionView::Sleep(req.duration)),
        (Phase::Capturing, EventKind::WaitElapsed) => (
            Phase::Stopping,
            ActionView::Invoke(stop_command()),
        ),
        (Phase::Stopping, EventKind::Succeeded) => (Phase::Done, ActionView::Finish),
        (Phase::Starting, EventKind::Failed) | (Phase::Stopping, EventKind::Failed) => (
            Phase::Failed,
            ActionView::Abort(Termination::CommandFailed),
        ),
        (Phase::Starting, EventKind::NotLaunched) | (Phase::Stopping, EventKind::NotLaunched) => (
            Phase::Failed,
            ActionView::Abort(Termination::LaunchFailed),
        ),
        _ => (phase, ActionView::Nothing),
    }
}

/// The label of the command that `phase` waits on, if it waits on one.
pub open spec fn pending_label(phase: Phase, req: CaptureRequestView) -> Option<Seq<char>> {
    match phase {
        Phase::Starting => Some(start_label(req)),
        Phase::Stopping => Some(stop_label()),
        _ => None,
    }
}

/// The log records that answer event `e` in `phase`: the outcome of the
/// command waited on, or why it could not be launched; nothing otherwise.
pub open spec fn event_records(phase: Phase, req: CaptureRequestView, e: Event) -> Seq<
    (LogLevel, Seq<char>),
> {
    match pending_label(phase, req) {
        None => Seq::empty(),
        Some(label) => match e {
            Event::Completed(res) => outcome_records(
                res.succeeded,
                res.status@,
                res.stdout@,
                res.stderr@,
                label,
            ),
            Event::NotLaunched(why) => seq![
                (LogLevel::Error, "Failed to execute PowerShell command: "@ + why@),
            ],
            Event::WaitElapsed => Seq::empty(),
        },
    }
}

/// A capture session for one request.
pub struct Session {
    phase: Phase,
    request: CaptureRequest,
}

impl Session {
    pub closed spec fn spec_phase(&self) -> Phase {
        self.phase
    }

    pub closed spec fn spec_request(&self) -> CaptureRequestView {
        self.request@
    }

    /// Opens the session: it asks first for the start command, logged at debug level.
    pub fn start(request: CaptureRequest) -> (r: (Session, Step))
        ensures
            r.0.spec_phase() == Phase::Starting,
            r.0.spec_request() == request@,
            r.1.action@ == ActionView::Invoke(start_command(request@)),
            records_view(r.1.logs@) == seq![
                (LogLevel::Debug, "PowerShell command : "@ + start_command(request@)),
            ],
    {
        let command = start_command_text(&request);
        let mut logs: Vec<LogRecord> = Vec::new();
        logs.push(
            LogRecord { level: LogLevel::Debug, text: joined("PowerShell command : ", command.as_str()) },
        );
        assert(records_view(logs@) =~= seq![
            (LogLevel::Debug, "PowerShell command : "@ + start_command(request@)),
        ]);
        (Session { phase: Phase::Starting, request }, Step { logs, action: Action::Invoke(command) })
    }

    pub fn phase(&self) -> (r: Phase)
        ensures
            r == self.spec_phase(),
    {
        self.phase
    }

    pub fn request(&self) -> (r: &CaptureRequest)
        ensures
            r@ == self.spec_request(),
    {
        &self.request
    }

    /// Answers event `e`: moves to the next phase and says what to do.
    pub fn handle(&mut self, e: Event) -> (r: Step)
        ensures
            (final(self).spec_phase(), r.action@) == transition(
                old(self).spec_phase(),
                old(self).spec_request(),
                event_kind(e),
            ),
            final(self).spec_request() == old(self).spec_request(),
            records_view(r.logs@) == event_records(
                old(self).spec_phase(),
                old(self).spec_request(),
                e,
            ),
    {
        let waits_on_command = match self.phase {
            Phase::Starting | Phase::Stopping => true,
            _ => false,
        };
        let mut logs: Vec<LogRecord> = Vec::new();
        let action = match e {
            Event::Completed(res) => {
                if waits_on_command {
                    let label = if self.phase == Phase::Starting {
                        start_label_text(&self.request)
                    } else {
                        String::from_str("capture stop")
                    };
                    logs = classify(&res, label.as_str());
                }
                match (self.phase, res.succeeded) {
                    (Phase::Starting, true) => {
                        self.phase = Phase::Capturing;
                        Action::Sleep(self.request.duration)
                    },
                    (Phase::Stopping, true) => {
                        self.phase = Phase::Done;
                        Action::Finish
                    },
                    (Phase::Starting, false) | (Phase::Stopping, false) => {
                        self.phase = Phase::Failed;
                        Action::Abort(Termination::CommandFailed)
                    },
                    _ => Action::Nothing,
                }
            },
            Event::NotLaunched(why) => {
                if waits_on_command {
                    logs.push(
                        LogRecord {
                            level: LogLevel::Error,
                            text: joined("Failed to execute PowerShell command: ", why.as_str()),
                        },
                    );
                    self.phase = Phase::Failed;
                    Action::Abort(Termination::LaunchFailed)
                } else {
                    Action::Nothing
                }
            },
            Event::WaitElapsed => {
                if self.phase == Phase::Capturing {
                    self.phase = Phase::Stopping;
                    Action::Invoke(String::from_str("netsh trace stop"))
                } else {
                    Action::Nothing
                }
            },
        };
        assert(records_view(logs@) =~= event_records(
            old(self).spec_phase(),
            old(self).spec_request(),
            e,
        ));
        Step { logs, action }
    }
}

/// The command line that starts the capture for `req`.
pub fn start_command_text(req: &CaptureRequest) -> (r: String)
    ensures
        r@ == start_command(req@),
{
    let mut r = String::from_str("netsh trace start capture=yes tracefile=");
    r.append(req.output.as_str());
    r.append(" maxSize=");
    r.append(req.max_size.as_str());
    r
}

/// What the start command for `req` is called in the log.
pub fn start_label_text(req: &CaptureRequest) -> (r: String)
    ensures
        r@ == start_label(req@),
{
    let mut r = String::from_str("capture start. Duration : ");
    push_decimal(req.duration, &mut r);
    r.append(". Maxsize : ");
    r.append(req.max_size.as_str());
    r
}

} // verus!

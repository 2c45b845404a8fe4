//! The interpreters: what follows from an event, from a command, and from
//! each answer that comes back while a command is carried out.
//!
//! The global interpreter never waits. It names the work to be done outside
//! as a `Request`, and goes on when it is handed the `Response`. What it does
//! is laid down by `GlobalView::begin` and `GlobalView::resume`, two functions
//! on plain values; the executable methods compute exactly those.

use vstd::prelude::*;
use crate::datatype::access_token::{AccessToken, AccessTokenView};
use crate::datatype::auth::{Auth, AuthView};
use crate::datatype::client_credentials::{ClientId, ClientSecret};
use crate::datatype::command::Command;
use crate::datatype::config::Config;
use crate::datatype::error::Error;
use crate::datatype::event::{views, Event, EventView};
use crate::datatype::package::Package;
use crate::datatype::report::UpdateReport;
use crate::datatype::url::Url;
use crate::datatype::update_request::{
    by_install_pos, ids_of, request_ids, sort_by_install_pos, texts, PendingUpdateRequest,
    UpdateRequestId, UpdateState,
};
use crate::oauth2::{authenticate, token_request};
use crate::ota_plus::{
    download_failure_report, download_request, installation_event, installation_report,
    installed_request, package_path, pending_updates_request, report_request, views_push,
    BackendRequest, BackendRequestView, OTA,
};
use crate::package_manager::InstallOutcome;

verus! {

/// Something that handles one message at a time; what it has to say goes
/// onto `otx`, in order.
pub trait Interpreter<I, O> {
    fn interpret(&mut self, msg: I, otx: &mut Vec<O>);
}

/// Turns what happened into what is to be done about it.
pub struct EventInterpreter;

impl Interpreter<Event, Command> for EventInterpreter {
    /// A client that is not authenticated is told to authenticate. Nothing
    /// follows from any other event.
    fn interpret(&mut self, event: Event, ctx: &mut Vec<Command>)
        ensures
            event is NotAuthenticated ==> final(ctx)@ == old(ctx)@.push(Command::Authenticate(None)),
            !(event is NotAuthenticated) ==> final(ctx)@ == old(ctx)@,
    {
        match event {
            Event::NotAuthenticated => {
                ctx.push(Command::Authenticate(None));
            },
            _ => {},
        }
    }
}

/// A command on its way to the global interpreter, with the handle of
/// whoever waits for its last event, if anyone does.
pub struct Global<H> {
    pub command: Command,
    pub response_tx: Option<H>,
}

/// Passes each command on, with nobody waiting for an answer.
pub struct CommandInterpreter;

impl<H> Interpreter<Command, Global<H>> for CommandInterpreter {
    fn interpret(&mut self, cmd: Command, gtx: &mut Vec<Global<H>>)
        ensures
            final(gtx)@ == old(gtx)@.push(Global { command: cmd, response_tx: None }),
    {
        gtx.push(Global { command: cmd, response_tx: None });
    }
}

/// Work that has to be done outside. Each request that goes over HTTP says
/// how it is to be decorated.
#[derive(Debug, PartialEq, Eq)]
pub enum Request {
    /// Ask the authentication server for a token. Answer: `Response::Token`.
    Authenticate { auth: Auth, request: BackendRequest },
    /// Ask the backend for the pending updates. Answer: `Response::Updates`.
    PendingUpdates { auth: Auth, request: BackendRequest },
    /// Fetch the package of an update and keep it at `path`. Answer:
    /// `Response::Download`, with the path the package lies at.
    Download { auth: Auth, request: BackendRequest, path: String },
    /// Have the package manager install the package at `path`. Answer:
    /// `Response::Install`.
    Install { path: String },
    /// Hand in the report of an update. Answer: `Response::Sent`.
    SendReport { auth: Auth, request: BackendRequest },
    /// Ask the package manager what is installed. Answer: `Response::Packages`.
    InstalledPackages,
    /// Tell the backend what is installed. Answer: `Response::Sent`.
    PutInstalled { auth: Auth, request: BackendRequest },
}

/// What a `Request` holds, as plain values.
pub enum RequestView {
    Authenticate { auth: AuthView, request: BackendRequestView },
    PendingUpdates { auth: AuthView, request: BackendRequestView },
    Download { auth: AuthView, request: BackendRequestView, path: Seq<char> },
    Install { path: Seq<char> },
    SendReport { auth: AuthView, request: BackendRequestView },
    InstalledPackages,
    PutInstalled { auth: AuthView, request: BackendRequestView },
}

impl View for Request {
    type V = RequestView;

    open spec fn view(&self) -> RequestView {
        match self {
            Request::Authenticate { auth, request } => RequestView::Authenticate {
                auth: auth@,
                request: request@,
            },
            Request::PendingUpdates { auth, request } => RequestView::PendingUpdates {
                auth: auth@,
                request: request@,
            },
            Request::Download { auth, request, path } => RequestView::Download {
                auth: auth@,
                request: request@,
                path: path@,
            },
            Request::Install { path } => RequestView::Install { path: path@ },
            Request::SendReport { auth, request } => RequestView::SendReport {
                auth: auth@,
                request: request@,
            },
            Request::InstalledPackages => RequestView::InstalledPackages,
            Request::PutInstalled { auth, request } => RequestView::PutInstalled {
                auth: auth@,
                request: request@,
            },
        }
    }
}

impl RequestView {
    /// How the request is to be decorated, where it goes over HTTP.
    pub open spec fn decoration(self) -> Option<AuthView> {
        match self {
            RequestView::Authenticate { auth, .. } => Some(auth),
            RequestView::PendingUpdates { auth, .. } => Some(auth),
            RequestView::Download { auth, .. } => Some(auth),
            RequestView::SendReport { auth, .. } => Some(auth),
            RequestView::PutInstalled { auth, .. } => Some(auth),
            RequestView::Install { .. } => None,
            RequestView::InstalledPackages => None,
        }
    }
}

/// How the work of a `Request` ended.
#[derive(Debug, PartialEq, Eq)]
pub enum Response {
    Token(Result<AccessToken, Error>),
    Updates(Result<Vec<PendingUpdateRequest>, Error>),
    Download(Result<String, Error>),
    Install(InstallOutcome),
    Sent(Result<(), Error>),
    Packages(Result<Vec<Package>, Error>),
}

/// What a command has led to once it is over.
#[derive(Debug, PartialEq, Eq)]
pub struct Outcome<H> {
    /// The events for the observers, in order.
    pub events: Vec<Event>,
    /// The last of the events, for whoever waited for it.
    pub reply: Option<(H, Event)>,
    /// The updates that are to be accepted next, by a command of their own.
    pub loopback: Option<Vec<UpdateRequestId>>,
}

/// What an `Outcome` holds, as plain values.
pub struct OutcomeView<H> {
    pub events: Seq<EventView>,
    pub reply: Option<(H, EventView)>,
    pub loopback: Option<Seq<Seq<char>>>,
}

impl<H> View for Outcome<H> {
    type V = OutcomeView<H>;

    open spec fn view(&self) -> OutcomeView<H> {
        OutcomeView {
            events: views(self.events@),
            reply: match self.reply {
                Some((handle, event)) => Some((handle, event@)),
                None => None,
            },
            loopback: match self.loopback {
                Some(ids) => Some(texts(ids@)),
                None => None,
            },
        }
    }
}

/// What the caller is to do next.
#[derive(Debug, PartialEq, Eq)]
pub enum Step<H> {
    /// Do this work and come back with its outcome.
    Perform(Request),
    /// The command is over.
    Done(Outcome<H>),
    /// End the process.
    Shutdown,
}

/// What a `Step` holds, as plain values.
pub enum StepView<H> {
    Perform(RequestView),
    Done(OutcomeView<H>),
    Shutdown,
}

impl<H> View for Step<H> {
    type V = StepView<H>;

    open spec fn view(&self) -> StepView<H> {
        match self {
            Step::Perform(request) => StepView::Perform(request@),
            Step::Done(outcome) => StepView::Done(outcome@),
            Step::Shutdown => StepView::Shutdown,
        }
    }
}

/// What is awaited for the update that is being carried out.
#[derive(Clone, Copy, Debug, PartialEq, Eq, Structural)]
pub enum Phase {
    /// The package is being fetched.
    Download,
    /// The package manager is installing the package.
    Install,
    /// The report is on its way to the backend.
    Report,
    /// The package manager is listing what is installed.
    Packages,
    /// The list of what is installed is on its way to the backend.
    Put,
}

/// What the interpreter is in the middle of.
pub enum TaskView {
    /// Nothing: it is ready for a command.
    Idle,
    /// Authenticating: the token is awaited.
    Token,
    /// Looking for updates: the list is awaited.
    Updates,
    /// Listing the installed packages for the observers.
    Listing,
    /// Telling the backend what is installed: the list is awaited.
    Refreshing,
    /// Telling the backend what is installed: the backend's answer is awaited.
    Putting,
    /// Carrying out the updates `ids`, one after the other; `ids[at]` is in `phase`.
    Accepting { ids: Seq<Seq<char>>, at: nat, phase: Phase },
}

/// The event by which observers learn of an error: a client that the backend
/// refused learns that it is not authenticated; every other error is shown
/// with its message.
pub open spec fn error_event(error: Error) -> EventView {
    if error is AuthorizationError {
        EventView::NotAuthenticated
    } else {
        EventView::Error(error.message())
    }
}

/// The error that kept the list of installed packages from being written
/// out, if that is what went wrong with sending it.
pub open spec fn not_written(sent: Result<(), Error>) -> Option<Error> {
    match sent {
        Err(error) => if error is JsonEncoderError {
            Some(error)
        } else {
            None
        },
        Ok(_) => None,
    }
}

/// Whether `event` stands in `events` before position `before`.
pub open spec fn stands_before(events: Seq<EventView>, event: EventView, before: int) -> bool {
    exists|i: int| 0 <= i < before && i < events.len() && events[i] == event
}

/// Whether the event at position `at` was led up to: an update that enters
/// `Installing` or fails was announced as `Downloading` before, and one that
/// enters `Installed` was announced as `Installing` before.
pub open spec fn led_up_to(events: Seq<EventView>, at: int) -> bool {
    match events[at] {
        EventView::UpdateStateChanged(id, UpdateState::Installing) => stands_before(
            events,
            EventView::UpdateStateChanged(id, UpdateState::Downloading),
            at,
        ),
        EventView::UpdateStateChanged(id, UpdateState::Installed) => stands_before(
            events,
            EventView::UpdateStateChanged(id, UpdateState::Installing),
            at,
        ),
        EventView::UpdateErrored(id, _) => stands_before(
            events,
            EventView::UpdateStateChanged(id, UpdateState::Downloading),
            at,
        ),
        _ => true,
    }
}

/// Whether every event of the run was led up to.
pub open spec fn lifecycle_ordered(events: Seq<EventView>) -> bool {
    forall|at: int| 0 <= at < events.len() ==> #[trigger] led_up_to(events, at)
}

/// The state of the global interpreter, as plain values.
pub struct GlobalView<H> {
    pub config: Config,
    /// The suffix of the package files, as the package manager names it.
    pub extension: Seq<char>,
    pub token: Option<AccessTokenView>,
    /// How outbound requests are decorated.
    pub auth: AuthView,
    /// What the command at hand has had to say so far.
    pub events: Seq<EventView>,
    /// The handle of whoever waits for the last event of the command at hand.
    pub reply: Option<H>,
    pub task: TaskView,
}

impl<H> GlobalView<H> {
    /// Whether commands are carried out: a token is held, or the client is
    /// configured not to authenticate.
    pub open spec fn authenticated(self) -> bool {
        self.token is Some || self.config.auth is None
    }

    /// What holds of the state between any two steps.
    pub open spec fn inv(self) -> bool {
        &&& self.token matches Some(token) ==> self.auth == AuthView::Token(token)
        &&& lifecycle_ordered(self.events)
        &&& match self.task {
            TaskView::Idle => self.events.len() == 0 && self.reply is None,
            TaskView::Token => {
                &&& !self.authenticated()
                &&& self.events.len() == 0
                &&& self.config.auth matches Some(config)
                &&& self.auth == AuthView::Credentials(config.client_id@, config.secret@)
            },
            TaskView::Updates => self.authenticated() && self.events.len() == 0,
            TaskView::Listing => self.authenticated() && self.events.len() == 0,
            TaskView::Refreshing => self.authenticated() && self.events.len() == 0,
            TaskView::Putting => self.authenticated() && self.events.len() == 0,
            TaskView::Accepting { ids, at, phase } => {
                &&& self.authenticated()
                &&& at < ids.len() <= usize::MAX
                &&& stands_before(
                    self.events,
                    EventView::UpdateStateChanged(ids[at as int], UpdateState::Downloading),
                    self.events.len() as int,
                )
                &&& phase == Phase::Install ==> stands_before(
                    self.events,
                    EventView::UpdateStateChanged(ids[at as int], UpdateState::Installing),
                    self.events.len() as int,
                )
            },
        }
    }

    /// Whether `response` answers the request that is under way.
    pub open spec fn awaits(self, response: Response) -> bool {
        match self.task {
            TaskView::Idle => false,
            TaskView::Token => response is Token,
            TaskView::Updates => response is Updates,
            TaskView::Listing => response is Packages,
            TaskView::Refreshing => response is Packages,
            TaskView::Putting => response is Sent,
            TaskView::Accepting { phase, .. } => match phase {
                Phase::Download => response is Download,
                Phase::Install => response is Install,
                Phase::Report => response is Sent,
                Phase::Packages => response is Packages,
                Phase::Put => response is Sent,
            },
        }
    }

    /// The state with one more event for the observers.
    pub open spec fn say(self, event: EventView) -> GlobalView<H> {
        GlobalView { events: self.events.push(event), ..self }
    }

    /// The state with the task that is under way.
    pub open spec fn doing(self, task: TaskView) -> GlobalView<H> {
        GlobalView { task, ..self }
    }

    /// The state after a command: idle, with nothing left to say and nobody waiting.
    pub open spec fn at_rest(self) -> GlobalView<H> {
        GlobalView { events: Seq::empty(), reply: None, task: TaskView::Idle, ..self }
    }

    /// The end of a command: the observers get what was said, and whoever
    /// waited gets the last of it.
    pub open spec fn done(self, loopback: Option<Seq<Seq<char>>>) -> (GlobalView<H>, StepView<H>) {
        (
            self.at_rest(),
            StepView::Done(
                OutcomeView {
                    events: self.events,
                    reply: match self.reply {
                        Some(handle) => Some((handle, self.events.last())),
                        None => None,
                    },
                    loopback,
                },
            ),
        )
    }

    /// The start of the update `ids[at]`: it is announced as downloading, and
    /// its package is asked for.
    pub open spec fn start_update(self, ids: Seq<Seq<char>>, at: nat) -> (
        GlobalView<H>,
        StepView<H>,
    ) {
        let id = ids[at as int];
        (
            self.say(EventView::UpdateStateChanged(id, UpdateState::Downloading)).doing(
                TaskView::Accepting { ids, at, phase: Phase::Download },
            ),
            StepView::Perform(
                RequestView::Download {
                    auth: self.auth,
                    request: download_request(self.config, id),
                    path: package_path(self.config, id, self.extension),
                },
            ),
        )
    }

    /// What follows the update `ids[at]`: the next update, or the end of the command.
    pub open spec fn next_update(self, ids: Seq<Seq<char>>, at: nat) -> (
        GlobalView<H>,
        StepView<H>,
    ) {
        if at + 1 < ids.len() {
            self.start_update(ids, at + 1)
        } else {
            self.done(None)
        }
    }

    /// What a command leads to where commands are carried out.
    pub open spec fn begin_authenticated(self, command: Command) -> (GlobalView<H>, StepView<H>) {
        match command {
            Command::AcceptUpdates(ids) => if ids@.len() == 0 {
                self.say(EventView::OK).done(None)
            } else {
                self.start_update(texts(ids@), 0)
            },
            Command::Authenticate(_) => self.say(EventView::OK).done(None),
            Command::GetPendingUpdates => (
                self.doing(TaskView::Updates),
                StepView::Perform(
                    RequestView::PendingUpdates {
                        auth: self.auth,
                        request: pending_updates_request(self.config),
                    },
                ),
            ),
            Command::ListInstalledPackages => (
                self.doing(TaskView::Listing),
                StepView::Perform(RequestView::InstalledPackages),
            ),
            Command::UpdateInstalledPackages => (
                self.doing(TaskView::Refreshing),
                StepView::Perform(RequestView::InstalledPackages),
            ),
            Command::UpdateReport(_) => self.say(EventView::OK).done(None),
            Command::ReportInstalledSoftware(_) => self.say(EventView::OK).done(None),
            Command::Shutdown => (self.at_rest(), StepView::Shutdown),
        }
    }

    /// What a command leads to while the client has yet to authenticate: it
    /// authenticates when told to, and turns every other command down.
    pub open spec fn begin_unauthenticated(self, command: Command) -> (
        GlobalView<H>,
        StepView<H>,
    ) {
        match command {
            Command::Authenticate(_) => {
                let config = self.config.auth->0;
                let auth = AuthView::Credentials(config.client_id@, config.secret@);
                (
                    GlobalView { auth, task: TaskView::Token, ..self },
                    StepView::Perform(
                        RequestView::Authenticate {
                            auth,
                            request: token_request(config.server@ + "/token"@),
                        },
                    ),
                )
            },
            Command::Shutdown => (self.at_rest(), StepView::Shutdown),
            _ => self.say(EventView::NotAuthenticated).done(None),
        }
    }

    /// What a command leads to, from the state at rest.
    pub open spec fn begin(self, command: Command, reply: Option<H>) -> (
        GlobalView<H>,
        StepView<H>,
    ) {
        let waiting = GlobalView { reply, ..self };
        if self.authenticated() {
            waiting.begin_authenticated(command)
        } else {
            waiting.begin_unauthenticated(command)
        }
    }

    /// The report of an update goes to the backend.
    pub open spec fn report(self, ids: Seq<Seq<char>>, at: nat, request: BackendRequestView) -> (
        GlobalView<H>,
        StepView<H>,
    ) {
        (
            self.doing(TaskView::Accepting { ids, at, phase: Phase::Report }),
            StepView::Perform(RequestView::SendReport { auth: self.auth, request }),
        )
    }

    /// The state after the backend was told what is installed. That the
    /// request failed is not held against the command; that the list could
    /// not be written out is.
    pub open spec fn told_installed(self, sent: Result<(), Error>) -> GlobalView<H> {
        match not_written(sent) {
            Some(error) => self.say(error_event(error)),
            None => self,
        }
    }

    /// What an answer leads to while the update `ids[at]` is carried out.
    /// An error in reporting is shown to the observers, and the next update
    /// is taken up.
    pub open spec fn resume_update(
        self,
        ids: Seq<Seq<char>>,
        at: nat,
        phase: Phase,
        response: Response,
    ) -> (GlobalView<H>, StepView<H>) {
        let id = ids[at as int];
        match (phase, response) {
            (Phase::Download, Response::Download(Ok(path))) => (
                self.say(EventView::UpdateStateChanged(id, UpdateState::Installing)).doing(
                    TaskView::Accepting { ids, at, phase: Phase::Install },
                ),
                StepView::Perform(RequestView::Install { path: path@ }),
            ),
            (Phase::Download, Response::Download(Err(error))) => self.say(
                EventView::UpdateErrored(id, error.diagnostic()),
            ).report(ids, at, report_request(self.config, download_failure_report(id, error))),
            (Phase::Install, Response::Install(installed)) => self.say(
                installation_event(id, installed),
            ).report(ids, at, report_request(self.config, installation_report(id, installed))),
            (Phase::Report, Response::Sent(Ok(_))) => (
                self.doing(TaskView::Accepting { ids, at, phase: Phase::Packages }),
                StepView::Perform(RequestView::InstalledPackages),
            ),
            (Phase::Report, Response::Sent(Err(error))) => self.say(error_event(error)).next_update(
                ids,
                at,
            ),
            (Phase::Packages, Response::Packages(Ok(packages))) => (
                self.doing(TaskView::Accepting { ids, at, phase: Phase::Put }),
                StepView::Perform(
                    RequestView::PutInstalled {
                        auth: self.auth,
                        request: installed_request(self.config, packages@),
                    },
                ),
            ),
            (Phase::Packages, Response::Packages(Err(error))) => self.say(
                error_event(error),
            ).next_update(ids, at),
            (Phase::Put, Response::Sent(sent)) => self.told_installed(sent).next_update(ids, at),
            _ => (self, StepView::Shutdown),
        }
    }

    /// What an answer leads to. It is meant for the answers that `awaits` admits.
    pub open spec fn resume(self, response: Response) -> (GlobalView<H>, StepView<H>) {
        match (self.task, response) {
            (TaskView::Token, Response::Token(Ok(token))) => GlobalView {
                token: Some(token@),
                auth: AuthView::Token(token@),
                ..self
            }.say(EventView::Authenticated).done(None),
            (TaskView::Token, Response::Token(Err(error))) => self.say(error_event(error)).done(
                None,
            ),
            (TaskView::Updates, Response::Updates(Ok(updates))) => self.say(EventView::OK).done(
                if updates@.len() > 0 {
                    Some(request_ids(by_install_pos(updates@)))
                } else {
                    None
                },
            ),
            (TaskView::Updates, Response::Updates(Err(error))) => self.say(error_event(error)).done(
                None,
            ),
            (TaskView::Listing, Response::Packages(Ok(packages))) => self.say(
                EventView::FoundInstalledPackages(packages@),
            ).done(None),
            (TaskView::Listing, Response::Packages(Err(error))) => self.say(
                error_event(error),
            ).done(None),
            (TaskView::Refreshing, Response::Packages(Ok(packages))) => (
                self.doing(TaskView::Putting),
                StepView::Perform(
                    RequestView::PutInstalled {
                        auth: self.auth,
                        request: installed_request(self.config, packages@),
                    },
                ),
            ),
            (TaskView::Refreshing, Response::Packages(Err(error))) => self.say(
                error_event(error),
            ).done(None),
            (TaskView::Putting, Response::Sent(sent)) => match not_written(sent) {
                Some(error) => self.say(error_event(error)).done(None),
                None => self.say(EventView::OK).done(None),
            },
            (TaskView::Accepting { ids, at, phase }, response) => self.resume_update(
                ids,
                at,
                phase,
                response,
            ),
            _ => (self, StepView::Shutdown),
        }
    }
}

/// Whether the run leads up to `event`, so that the event may follow it.
pub open spec fn leads_up_to(events: Seq<EventView>, event: EventView) -> bool {
    match event {
        EventView::UpdateStateChanged(id, UpdateState::Installing) => stands_before(
            events,
            EventView::UpdateStateChanged(id, UpdateState::Downloading),
            events.len() as int,
        ),
        EventView::UpdateStateChanged(id, UpdateState::Installed) => stands_before(
            events,
            EventView::UpdateStateChanged(id, UpdateState::Installing),
            events.len() as int,
        ),
        EventView::UpdateErrored(id, _) => stands_before(
            events,
            EventView::UpdateStateChanged(id, UpdateState::Downloading),
            events.len() as int,
        ),
        _ => true,
    }
}

/// A run that is in order stays in order when an event that it leads up to
/// is put behind it, and what stood in the run still stands in the longer one.
pub proof fn ordered_push(events: Seq<EventView>, event: EventView)
    requires
        lifecycle_ordered(events),
        leads_up_to(events, event),
    ensures
        lifecycle_ordered(events.push(event)),
        stands_before(events.push(event), event, events.len() as int + 1),
        forall|e: EventView| #[trigger]
            stands_before(events, e, events.len() as int) ==> stands_before(
                events.push(event),
                e,
                events.len() as int + 1,
            ),
{
    let longer = events.push(event);
    assert(longer[events.len() as int] == event);
    assert forall|e: EventView| #[trigger]
        stands_before(events, e, events.len() as int) implies stands_before(
        longer,
        e,
        events.len() as int + 1,
    ) by {
        let i = choose|i: int| 0 <= i < events.len() && events[i] == e;
        assert(longer[i] == e);
    }
    assert forall|at: int| 0 <= at < longer.len() implies #[trigger] led_up_to(longer, at) by {
        if at == events.len() {
            match event {
                EventView::UpdateStateChanged(id, UpdateState::Installing) => {
                    let e = EventView::UpdateStateChanged(id, UpdateState::Downloading);
                    assert(stands_before(events, e, events.len() as int));
                    assert(stands_before(longer, e, events.len() as int + 1));
                    let i = choose|i: int| 0 <= i < at + 1 && i < longer.len() && longer[i] == e;
                    assert(i != at);
                },
                EventView::UpdateStateChanged(id, UpdateState::Installed) => {
                    let e = EventView::UpdateStateChanged(id, UpdateState::Installing);
                    assert(stands_before(events, e, events.len() as int));
                    assert(stands_before(longer, e, events.len() as int + 1));
                    let i = choose|i: int| 0 <= i < at + 1 && i < longer.len() && longer[i] == e;
                    assert(i != at);
                },
                EventView::UpdateErrored(id, _) => {
                    let e = EventView::UpdateStateChanged(id, UpdateState::Downloading);
                    assert(stands_before(events, e, events.len() as int));
                    assert(stands_before(longer, e, events.len() as int + 1));
                    let i = choose|i: int| 0 <= i < at + 1 && i < longer.len() && longer[i] == e;
                    assert(i != at);
                },
                _ => {},
            }
        } else {
            assert(led_up_to(events, at));
            assert(longer[at] == events[at]);
            match events[at] {
                EventView::UpdateStateChanged(id, UpdateState::Installing) => {
                    let e = EventView::UpdateStateChanged(id, UpdateState::Downloading);
                    let i = choose|i: int| 0 <= i < at && i < events.len() && events[i] == e;
                    assert(longer[i] == e);
                },
                EventView::UpdateStateChanged(id, UpdateState::Installed) => {
                    let e = EventView::UpdateStateChanged(id, UpdateState::Installing);
                    let i = choose|i: int| 0 <= i < at && i < events.len() && events[i] == e;
                    assert(longer[i] == e);
                },
                EventView::UpdateErrored(id, _) => {
                    let e = EventView::UpdateStateChanged(id, UpdateState::Downloading);
                    let i = choose|i: int| 0 <= i < at && i < events.len() && events[i] == e;
                    assert(longer[i] == e);
                },
                _ => {},
            }
        }
    }
}

impl RequestView {
    /// Whether `response` is an answer to this request.
    pub open spec fn answered_by(self, response: Response) -> bool {
        match self {
            RequestView::Authenticate { .. } => response is Token,
            RequestView::PendingUpdates { .. } => response is Updates,
            RequestView::Download { .. } => response is Download,
            RequestView::Install { .. } => response is Install,
            RequestView::SendReport { .. } => response is Sent,
            RequestView::InstalledPackages => response is Packages,
            RequestView::PutInstalled { .. } => response is Sent,
        }
    }
}

/// Whether a step was taken as it should be, `waiting` being the handle of
/// whoever waits for the last event of the command.
///
/// The state it leads to is sound. A command that ends hands over at least
/// one event, in order, and hands the last of them, once, to whoever waits;
/// the interpreter is then at rest. A request goes out decorated as the state
/// has it, it is answered by what the state then awaits, and whoever waits
/// goes on waiting.
pub open spec fn in_keeping<H>(waiting: Option<H>, next: GlobalView<H>, step: StepView<H>) -> bool {
    &&& next.inv()
    &&& match step {
        StepView::Done(outcome) => {
            &&& next.task is Idle
            &&& outcome.events.len() > 0
            &&& lifecycle_ordered(outcome.events)
            &&& outcome.reply == match waiting {
                Some(handle) => Some((handle, outcome.events.last())),
                None => None,
            }
        },
        StepView::Perform(request) => {
            &&& !(next.task is Idle)
            &&& next.reply == waiting
            &&& request.decoration() matches Some(auth) ==> auth == next.auth
            &&& forall|response: Response| #[trigger]
                next.awaits(response) <==> request.answered_by(response)
        },
        StepView::Shutdown => next.task is Idle,
    }
}

proof fn start_in_keeping<H>(state: GlobalView<H>, ids: Seq<Seq<char>>, at: nat)
    requires
        state.authenticated(),
        state.token matches Some(token) ==> state.auth == AuthView::Token(token),
        lifecycle_ordered(state.events),
        at < ids.len() <= usize::MAX,
    ensures
        in_keeping(state.reply, state.start_update(ids, at).0, state.start_update(ids, at).1),
{
    ordered_push(
        state.events,
        EventView::UpdateStateChanged(ids[at as int], UpdateState::Downloading),
    );
}

proof fn done_in_keeping<H>(state: GlobalView<H>, loopback: Option<Seq<Seq<char>>>)
    requires
        state.token matches Some(token) ==> state.auth == AuthView::Token(token),
        lifecycle_ordered(state.events),
        state.events.len() > 0,
    ensures
        in_keeping(state.reply, state.done(loopback).0, state.done(loopback).1),
{
}

proof fn next_in_keeping<H>(state: GlobalView<H>, ids: Seq<Seq<char>>, at: nat)
    requires
        state.authenticated(),
        state.token matches Some(token) ==> state.auth == AuthView::Token(token),
        lifecycle_ordered(state.events),
        state.events.len() > 0,
        at < ids.len() <= usize::MAX,
    ensures
        in_keeping(state.reply, state.next_update(ids, at).0, state.next_update(ids, at).1),
{
    if at + 1 < ids.len() {
        start_in_keeping(state, ids, at + 1);
    } else {
        done_in_keeping(state, None);
    }
}

/// A command leads from a sound state at rest to a step that is in keeping.
pub proof fn begin_in_keeping<H>(state: GlobalView<H>, command: Command, reply: Option<H>)
    requires
        state.inv(),
        state.task is Idle,
    ensures
        in_keeping(reply, state.begin(command, reply).0, state.begin(command, reply).1),
{
    let waiting = GlobalView { reply, ..state };
    if state.authenticated() {
        match command {
            Command::AcceptUpdates(ids) => {
                if ids@.len() == 0 {
                    ordered_push(waiting.events, EventView::OK);
                    done_in_keeping(waiting.say(EventView::OK), None);
                } else {
                    assert(ids@.len() == ids.len());
                    start_in_keeping(waiting, texts(ids@), 0);
                }
            },
            Command::Authenticate(_) => {
                ordered_push(waiting.events, EventView::OK);
                done_in_keeping(waiting.say(EventView::OK), None);
            },
            Command::UpdateReport(_) => {
                ordered_push(waiting.events, EventView::OK);
                done_in_keeping(waiting.say(EventView::OK), None);
            },
            Command::ReportInstalledSoftware(_) => {
                ordered_push(waiting.events, EventView::OK);
                done_in_keeping(waiting.say(EventView::OK), None);
            },
            _ => {},
        }
    } else {
        match command {
            Command::Authenticate(_) => {},
            Command::Shutdown => {},
            _ => {
                ordered_push(waiting.events, EventView::NotAuthenticated);
                done_in_keeping(waiting.say(EventView::NotAuthenticated), None);
            },
        }
    }
}

proof fn error_in_keeping<H>(state: GlobalView<H>, error: Error)
    requires
        lifecycle_ordered(state.events),
    ensures
        lifecycle_ordered(state.say(error_event(error)).events),
        forall|e: EventView| #[trigger]
            stands_before(state.events, e, state.events.len() as int) ==> stands_before(
                state.say(error_event(error)).events,
                e,
                state.events.len() as int + 1,
            ),
{
    ordered_push(state.events, error_event(error));
}

/// An answer that is awaited leads from a sound state to a step that is in
/// keeping, and a command never ends on an answer without a word.
pub proof fn resume_in_keeping<H>(state: GlobalView<H>, response: Response)
    requires
        state.inv(),
        state.awaits(response),
    ensures
        in_keeping(state.reply, state.resume(response).0, state.resume(response).1),
        state.resume(response).1 matches StepView::Done(outcome) ==> outcome.events.len() > 0,
{
    match (state.task, response) {
        (TaskView::Token, Response::Token(Ok(token))) => {
            let holding = GlobalView {
                token: Some(token@),
                auth: AuthView::Token(token@),
                ..state
            };
            ordered_push(holding.events, EventView::Authenticated);
            done_in_keeping(holding.say(EventView::Authenticated), None);
        },
        (TaskView::Token, Response::Token(Err(error))) => {
            error_in_keeping(state, error);
            done_in_keeping(state.say(error_event(error)), None);
        },
        (TaskView::Updates, Response::Updates(Ok(updates))) => {
            ordered_push(state.events, EventView::OK);
            done_in_keeping(
                state.say(EventView::OK),
                if updates@.len() > 0 {
                    Some(request_ids(by_install_pos(updates@)))
                } else {
                    None
                },
            );
        },
        (TaskView::Updates, Response::Updates(Err(error))) => {
            error_in_keeping(state, error);
            done_in_keeping(state.say(error_event(error)), None);
        },
        (TaskView::Listing, Response::Packages(Ok(packages))) => {
            ordered_push(state.events, EventView::FoundInstalledPackages(packages@));
            done_in_keeping(state.say(EventView::FoundInstalledPackages(packages@)), None);
        },
        (TaskView::Listing, Response::Packages(Err(error))) => {
            error_in_keeping(state, error);
            done_in_keeping(state.say(error_event(error)), None);
        },
        (TaskView::Refreshing, Response::Packages(Ok(packages))) => {},
        (TaskView::Refreshing, Response::Packages(Err(error))) => {
            error_in_keeping(state, error);
            done_in_keeping(state.say(error_event(error)), None);
        },
        (TaskView::Putting, Response::Sent(sent)) => {
            match not_written(sent) {
                Some(error) => {
                    error_in_keeping(state, error);
                    done_in_keeping(state.say(error_event(error)), None);
                },
                None => {
                    ordered_push(state.events, EventView::OK);
                    done_in_keeping(state.say(EventView::OK), None);
                },
            }
        },
        (TaskView::Accepting { ids, at, phase }, response) => {
            update_in_keeping(state, ids, at, phase, response);
        },
        _ => {},
    }
}

proof fn update_in_keeping<H>(
    state: GlobalView<H>,
    ids: Seq<Seq<char>>,
    at: nat,
    phase: Phase,
    response: Response,
)
    requires
        state.inv(),
        state.task == (TaskView::Accepting { ids, at, phase }),
        state.awaits(response),
    ensures
        in_keeping(
            state.reply,
            state.resume_update(ids, at, phase, response).0,
            state.resume_update(ids, at, phase, response).1,
        ),
        state.resume_update(ids, at, phase, response).1 matches StepView::Done(outcome)
            ==> outcome.events.len() > 0,
{
    let id = ids[at as int];
    let downloading = EventView::UpdateStateChanged(id, UpdateState::Downloading);
    assert(state.events.len() > 0);
    match (phase, response) {
        (Phase::Download, Response::Download(Ok(path))) => {
            ordered_push(state.events, EventView::UpdateStateChanged(id, UpdateState::Installing));
            assert(stands_before(state.events, downloading, state.events.len() as int));
        },
        (Phase::Download, Response::Download(Err(error))) => {
            ordered_push(state.events, EventView::UpdateErrored(id, error.diagnostic()));
            assert(stands_before(state.events, downloading, state.events.len() as int));
        },
        (Phase::Install, Response::Install(installed)) => {
            ordered_push(state.events, installation_event(id, installed));
            assert(stands_before(state.events, downloading, state.events.len() as int));
        },
        (Phase::Report, Response::Sent(Ok(_))) => {},
        (Phase::Report, Response::Sent(Err(error))) => {
            error_in_keeping(state, error);
            next_in_keeping(state.say(error_event(error)), ids, at);
        },
        (Phase::Packages, Response::Packages(Ok(packages))) => {},
        (Phase::Packages, Response::Packages(Err(error))) => {
            error_in_keeping(state, error);
            next_in_keeping(state.say(error_event(error)), ids, at);
        },
        (Phase::Put, Response::Sent(sent)) => {
            match not_written(sent) {
                Some(error) => {
                    error_in_keeping(state, error);
                },
                None => {},
            }
            next_in_keeping(state.told_installed(sent), ids, at);
        },
        _ => {},
    }
}

/// While a token is held, every request that goes over HTTP carries it, and
/// the token changes only when the authentication server hands out a new one.
pub proof fn requests_carry_the_token<H>(state: GlobalView<H>, response: Response)
    requires
        state.inv(),
        state.awaits(response),
    ensures
        ({
            let (next, step) = state.resume(response);
            &&& next.token matches Some(token) ==> (step matches StepView::Perform(request)
                ==> (request.decoration() matches Some(auth) ==> auth == AuthView::Token(token)))
            &&& next.token != state.token ==> {
                &&& state.task is Token
                &&& response matches Response::Token(Ok(token))
                &&& next.token == Some(token@)
            }
        }),
{
    resume_in_keeping(state, response);
}

/// A command that is taken up while a token is held sends its first request
/// with that token.
pub proof fn commands_carry_the_token<H>(state: GlobalView<H>, command: Command, reply: Option<H>)
    requires
        state.inv(),
        state.task is Idle,
    ensures
        ({
            let (next, step) = state.begin(command, reply);
            &&& next.token == state.token
            &&& next.token matches Some(token) ==> (step matches StepView::Perform(request)
                ==> (request.decoration() matches Some(auth) ==> auth == AuthView::Token(token)))
        }),
{
    begin_in_keeping(state, command, reply);
}

/// A command that ends at once has at least one event, and hands the last of
/// its events to whoever waits for it, and to nobody where nobody waits.
pub proof fn the_last_event_is_the_reply<H>(
    state: GlobalView<H>,
    command: Command,
    reply: Option<H>,
)
    requires
        state.inv(),
        state.task is Idle,
    ensures
        state.begin(command, reply).1 matches StepView::Done(outcome) ==> {
            &&& outcome.events.len() > 0
            &&& outcome.reply is Some <==> reply is Some
            &&& outcome.reply matches Some((handle, event)) ==> (reply == Some(handle) && event
                == outcome.events.last())
        },
{
    begin_in_keeping(state, command, reply);
}

/// Where no update is pending, the observers learn that all is well, and no
/// command follows.
pub proof fn nothing_pending_nothing_follows<H>(
    state: GlobalView<H>,
    updates: Vec<PendingUpdateRequest>,
)
    requires
        state.inv(),
        state.task is Updates,
        updates@.len() == 0,
    ensures
        state.resume(Response::Updates(Ok(updates))).1 matches StepView::Done(outcome)
            && outcome.events == seq![EventView::OK] && outcome.loopback is None,
{
    assert(state.events.push(EventView::OK) =~= seq![EventView::OK]);
}

/// What the interpreter is in the middle of.
enum Task {
    Idle,
    Token,
    Updates,
    Listing,
    Refreshing,
    Putting,
    Accepting { ids: Vec<UpdateRequestId>, at: usize, phase: Phase },
}

impl View for Task {
    type V = TaskView;

    closed spec fn view(&self) -> TaskView {
        match self {
            Task::Idle => TaskView::Idle,
            Task::Token => TaskView::Token,
            Task::Updates => TaskView::Updates,
            Task::Listing => TaskView::Listing,
            Task::Refreshing => TaskView::Refreshing,
            Task::Putting => TaskView::Putting,
            Task::Accepting { ids, at, phase } => TaskView::Accepting {
                ids: texts(ids@),
                at: *at as nat,
                phase: *phase,
            },
        }
    }
}

/// The event by which observers learn of an error.
pub fn surface(error: &Error) -> (event: Event)
    ensures
        event@ == error_event(*error),
{
    if error.is_authorization() {
        Event::NotAuthenticated
    } else {
        Event::Error(error.to_string())
    }
}

/// Carries out commands against the backend, the authentication server and
/// the package manager, one command at a time.
///
/// `interpret` takes a command up; `resume` goes on with the answer to the
/// request that the last step asked for. Both compute what `GlobalView::begin`
/// and `GlobalView::resume` lay down.
pub struct GlobalInterpreter<H> {
    config: Config,
    extension: String,
    token: Option<AccessToken>,
    auth: Auth,
    events: Vec<Event>,
    reply: Option<H>,
    task: Task,
}

impl<H> View for GlobalInterpreter<H> {
    type V = GlobalView<H>;

    closed spec fn view(&self) -> GlobalView<H> {
        GlobalView {
            config: self.config,
            extension: self.extension@,
            token: match self.token {
                Some(token) => Some(token@),
                None => None,
            },
            auth: self.auth@,
            events: views(self.events@),
            reply: self.reply,
            task: self.task@,
        }
    }
}

impl<H> GlobalInterpreter<H> {
    /// An interpreter at rest. `extension` is the suffix the package manager
    /// gives its files. With a token at hand, requests carry it from the start.
    pub fn new(config: Config, extension: String, token: Option<AccessToken>) -> (interpreter:
        GlobalInterpreter<H>)
        ensures
            interpreter@.inv(),
            interpreter@.task is Idle,
            interpreter@.config == config,
            interpreter@.extension == extension@,
            match token {
                Some(token) => interpreter@.token == Some(token@),
                None => interpreter@.token is None && interpreter@.auth == AuthView::NoAuth,
            },
    {
        let auth = match &token {
            Some(token) => Auth::Token(token.duplicate()),
            None => Auth::NoAuth,
        };
        let interpreter = GlobalInterpreter {
            config,
            extension,
            token,
            auth,
            events: Vec::new(),
            reply: None,
            task: Task::Idle,
        };
        assert(interpreter@.events =~= Seq::empty());
        interpreter
    }

    /// Whether the interpreter is at rest, ready for a command.
    pub fn is_idle(&self) -> (idle: bool)
        ensures
            idle == (self@.task is Idle),
    {
        match self.task {
            Task::Idle => true,
            _ => false,
        }
    }

    /// Whether `response` answers the request that is under way.
    pub fn expects(&self, response: &Response) -> (awaited: bool)
        ensures
            awaited == self@.awaits(*response),
    {
        match &self.task {
            Task::Idle => false,
            Task::Token => matches!(response, Response::Token(_)),
            Task::Updates => matches!(response, Response::Updates(_)),
            Task::Listing => matches!(response, Response::Packages(_)),
            Task::Refreshing => matches!(response, Response::Packages(_)),
            Task::Putting => matches!(response, Response::Sent(_)),
            Task::Accepting { phase, .. } => match phase {
                Phase::Download => matches!(response, Response::Download(_)),
                Phase::Install => matches!(response, Response::Install(_)),
                Phase::Report => matches!(response, Response::Sent(_)),
                Phase::Packages => matches!(response, Response::Packages(_)),
                Phase::Put => matches!(response, Response::Sent(_)),
            },
        }
    }

    /// The token that is held, if one is.
    pub fn token(&self) -> (token: &Option<AccessToken>)
        ensures
            match token {
                Some(token) => self@.token == Some(token@),
                None => self@.token is None,
            },
    {
        &self.token
    }

    /// How outbound requests are decorated.
    pub fn auth(&self) -> (auth: &Auth)
        ensures
            auth@ == self@.auth,
    {
        &self.auth
    }

    fn say(&mut self, event: Event)
        ensures
            final(self)@ == old(self)@.say(event@),
    {
        proof {
            views_push(self.events@, event);
        }
        self.events.push(event);
    }

    fn done(&mut self, loopback: Option<Vec<UpdateRequestId>>) -> (step: Step<H>)
        requires
            old(self)@.events.len() > 0,
        ensures
            (final(self)@, step@) == old(self)@.done(
                match loopback {
                    Some(ids) => Some(texts(ids@)),
                    None => None,
                },
            ),
    {
        let mut events: Vec<Event> = Vec::new();
        core::mem::swap(&mut self.events, &mut events);
        let handle = self.reply.take();
        self.task = Task::Idle;
        let reply = match handle {
            Some(handle) => Some((handle, events[events.len() - 1].duplicate())),
            None => None,
        };
        assert(self@.events =~= Seq::empty());
        Step::Done(Outcome { events, reply, loopback })
    }

    fn start_update(&mut self, ids: Vec<UpdateRequestId>, at: usize) -> (step: Step<H>)
        requires
            at < ids.len(),
        ensures
            (final(self)@, step@) == old(self)@.start_update(texts(ids@), at as nat),
    {
        self.say(Event::UpdateStateChanged(ids[at].clone(), UpdateState::Downloading));
        let download = OTA::new(&self.config).download_package_update(
            &ids[at],
            self.extension.as_str(),
        );
        let auth = self.auth.duplicate();
        self.task = Task::Accepting { ids, at, phase: Phase::Download };
        Step::Perform(Request::Download { auth, request: download.request, path: download.path })
    }

    fn next_update(&mut self, ids: Vec<UpdateRequestId>, at: usize) -> (step: Step<H>)
        requires
            at < ids.len(),
            old(self)@.events.len() > 0,
        ensures
            (final(self)@, step@) == old(self)@.next_update(texts(ids@), at as nat),
    {
        if at + 1 < ids.len() {
            self.start_update(ids, at + 1)
        } else {
            self.done(None)
        }
    }

    fn authenticated(&mut self, cmd: Command) -> (step: Step<H>)
        ensures
            (final(self)@, step@) == old(self)@.begin_authenticated(cmd),
    {
        match cmd {
            Command::AcceptUpdates(ids) => {
                if ids.len() == 0 {
                    self.say(Event::OK);
                    self.done(None)
                } else {
                    self.start_update(ids, 0)
                }
            },
            Command::Authenticate(_) => {
                self.say(Event::OK);
                self.done(None)
            },
            Command::GetPendingUpdates => {
                let request = OTA::new(&self.config).get_package_updates();
                let auth = self.auth.duplicate();
                self.task = Task::Updates;
                Step::Perform(Request::PendingUpdates { auth, request })
            },
            Command::ListInstalledPackages => {
                self.task = Task::Listing;
                Step::Perform(Request::InstalledPackages)
            },
            Command::UpdateInstalledPackages => {
                self.task = Task::Refreshing;
                Step::Perform(Request::InstalledPackages)
            },
            Command::UpdateReport(_) => {
                self.say(Event::OK);
                self.done(None)
            },
            Command::ReportInstalledSoftware(_) => {
                self.say(Event::OK);
                self.done(None)
            },
            Command::Shutdown => {
                self.rest();
                Step::Shutdown
            },
        }
    }

    fn rest(&mut self)
        ensures
            final(self)@ == old(self)@.at_rest(),
    {
        self.events = Vec::new();
        self.reply = None;
        self.task = Task::Idle;
        assert(self@.events =~= Seq::empty());
    }

    fn unauthenticated(&mut self, cmd: Command) -> (step: Step<H>)
        requires
            old(self)@.config.auth is Some,
        ensures
            (final(self)@, step@) == old(self)@.begin_unauthenticated(cmd),
    {
        match cmd {
            Command::Authenticate(_) => {
                let (auth, server) = match &self.config.auth {
                    Some(config) => (
                        Auth::Credentials(
                            ClientId(config.client_id.clone()),
                            ClientSecret(config.secret.clone()),
                        ),
                        config.server.join("/token"),
                    ),
                    None => (Auth::NoAuth, Url::new("")),
                };
                let decoration = auth.duplicate();
                self.auth = auth;
                self.task = Task::Token;
                Step::Perform(Request::Authenticate { auth: decoration, request: authenticate(server) })
            },
            Command::Shutdown => {
                self.rest();
                Step::Shutdown
            },
            _ => {
                self.say(Event::NotAuthenticated);
                self.done(None)
            },
        }
    }

    /// Takes a command up. The step that comes back says what is to be done
    /// next: a request to perform, or the outcome of the command, or to end
    /// the process.
    pub fn interpret(&mut self, global: Global<H>) -> (step: Step<H>)
        requires
            old(self)@.inv(),
            old(self)@.task is Idle,
        ensures
            (final(self)@, step@) == old(self)@.begin(global.command, global.response_tx),
            in_keeping(global.response_tx, final(self)@, step@),
            step matches Step::Done(outcome) ==> outcome.events@.len() > 0,
    {
        proof {
            begin_in_keeping(self@, global.command, global.response_tx);
        }
        let Global { command, response_tx } = global;
        let carried_out = self.token.is_some() || self.config.auth.is_none();
        self.reply = response_tx;
        if carried_out {
            self.authenticated(command)
        } else {
            self.unauthenticated(command)
        }
    }

    fn report(&mut self, ids: Vec<UpdateRequestId>, at: usize, report: UpdateReport) -> (step:
        Step<H>)
        ensures
            (final(self)@, step@) == old(self)@.report(
                texts(ids@),
                at as nat,
                report_request(old(self)@.config, report@),
            ),
    {
        let request = OTA::new(&self.config).send_install_report(report);
        let auth = self.auth.duplicate();
        self.task = Task::Accepting { ids, at, phase: Phase::Report };
        Step::Perform(Request::SendReport { auth, request })
    }

    fn put_installed(&mut self, packages: Vec<Package>, task: Task) -> (step: Step<H>)
        ensures
            final(self)@ == old(self)@.doing(task@),
            step@ == StepView::<H>::Perform(
                RequestView::PutInstalled {
                    auth: old(self)@.auth,
                    request: installed_request(old(self)@.config, packages@),
                },
            ),
    {
        let request = OTA::new(&self.config).update_installed_packages(packages);
        let auth = self.auth.duplicate();
        self.task = task;
        Step::Perform(Request::PutInstalled { auth, request })
    }

    fn told_installed(&mut self, sent: Result<(), Error>)
        ensures
            final(self)@ == old(self)@.told_installed(sent),
    {
        match sent {
            Err(error) => {
                match error {
                    Error::JsonEncoderError(_) => {
                        self.say(surface(&error));
                    },
                    _ => {},
                }
            },
            Ok(_) => {},
        }
    }

    fn resume_update(
        &mut self,
        ids: Vec<UpdateRequestId>,
        at: usize,
        phase: Phase,
        response: Response,
    ) -> (step: Step<H>)
        requires
            at < ids.len(),
            old(self)@.events.len() > 0,
        ensures
            (final(self)@, step@) == old(self)@.resume_update(
                texts(ids@),
                at as nat,
                phase,
                response,
            ),
    {
        match (phase, response) {
            (Phase::Download, Response::Download(downloaded)) => {
                let next = OTA::new(&self.config).install_package_update(
                    &ids[at],
                    downloaded,
                    &mut self.events,
                );
                match next {
                    Ok(path) => {
                        self.task = Task::Accepting { ids, at, phase: Phase::Install };
                        Step::Perform(Request::Install { path })
                    },
                    Err(report) => self.report(ids, at, report),
                }
            },
            (Phase::Install, Response::Install(installed)) => {
                let report = OTA::new(&self.config).installation_report(
                    &ids[at],
                    installed,
                    &mut self.events,
                );
                self.report(ids, at, report)
            },
            (Phase::Report, Response::Sent(Ok(_))) => {
                self.task = Task::Accepting { ids, at, phase: Phase::Packages };
                Step::Perform(Request::InstalledPackages)
            },
            (Phase::Report, Response::Sent(Err(error))) => {
                self.say(surface(&error));
                self.next_update(ids, at)
            },
            (Phase::Packages, Response::Packages(Ok(packages))) => {
                self.put_installed(packages, Task::Accepting { ids, at, phase: Phase::Put })
            },
            (Phase::Packages, Response::Packages(Err(error))) => {
                self.say(surface(&error));
                self.next_update(ids, at)
            },
            (Phase::Put, Response::Sent(sent)) => {
                self.told_installed(sent);
                self.next_update(ids, at)
            },
            _ => Step::Shutdown,
        }
    }

    /// Goes on with the answer to the request that the last step asked for.
    pub fn resume(&mut self, response: Response) -> (step: Step<H>)
        requires
            old(self)@.inv(),
            old(self)@.awaits(response),
        ensures
            (final(self)@, step@) == old(self)@.resume(response),
            in_keeping(old(self)@.reply, final(self)@, step@),
            step matches Step::Done(outcome) ==> outcome.events@.len() > 0,
    {
        proof {
            resume_in_keeping(self@, response);
        }
        let mut task = Task::Idle;
        core::mem::swap(&mut self.task, &mut task);
        match (task, response) {
            (Task::Token, Response::Token(Ok(token))) => {
                self.auth = Auth::Token(token.duplicate());
                self.token = Some(token);
                self.say(Event::Authenticated);
                self.done(None)
            },
            (Task::Token, Response::Token(Err(error))) => {
                self.say(surface(&error));
                self.done(None)
            },
            (Task::Updates, Response::Updates(Ok(updates))) => {
                self.say(Event::OK);
                let loopback = if updates.len() > 0 {
                    let ordered = sort_by_install_pos(&updates);
                    Some(ids_of(&ordered))
                } else {
                    None
                };
                self.done(loopback)
            },
            (Task::Updates, Response::Updates(Err(error))) => {
                self.say(surface(&error));
                self.done(None)
            },
            (Task::Listing, Response::Packages(Ok(packages))) => {
                self.say(Event::FoundInstalledPackages(packages));
                self.done(None)
            },
            (Task::Listing, Response::Packages(Err(error))) => {
                self.say(surface(&error));
                self.done(None)
            },
            (Task::Refreshing, Response::Packages(Ok(packages))) => {
                self.put_installed(packages, Task::Putting)
            },
            (Task::Refreshing, Response::Packages(Err(error))) => {
                self.say(surface(&error));
                self.done(None)
            },
            (Task::Putting, Response::Sent(sent)) => {
                match sent {
                    Err(Error::JsonEncoderError(text)) => {
                        self.say(surface(&Error::JsonEncoderError(text)));
                    },
                    _ => {
                        self.say(Event::OK);
                    },
                }
                self.done(None)
            },
            (Task::Accepting { ids, at, phase }, response) => self.resume_update(
                ids,
                at,
                phase,
                response,
            ),
            (task, _) => {
                self.task = task;
                Step::Shutdown
            },
        }
    }
}

} // verus!

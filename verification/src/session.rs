//! One run from its command line to its exit code, as a state machine.
//!
//! The caller performs each request that a step asks for and hands the
//! reply to the next step.

use vstd::prelude::*;
use crate::config::{chosen, load_config, Candidate, Config, ConfigView};
use crate::error::Failure;
use crate::utils::{
    join_outcome, join_result, join_room, join_url, login, login_body, login_outcome,
    login_result, login_url, logout, logout_result, logout_url, message_body, plain_outcome,
    send_message, send_result, send_url,
};
use crate::wire::{Reply, Request, RequestView};

verus! {

/// The exit code of a run that delivered its message.
pub const EXIT_SUCCESS: u8 = 0;

/// The exit code of a run that did not.
pub const EXIT_FAILURE: u8 = 1;

/// How far a run has come.
#[derive(Debug)]
pub enum Stage {
    /// The login request is on its way.
    LoggingIn,
    /// Logged in; the join request is on its way.
    Joining { access_token: String },
    /// In the room; the message is on its way.
    Sending { access_token: String, room_id: String },
    /// The logout request is on its way; `sent` says whether the message
    /// was accepted.
    LoggingOut { access_token: String, sent: bool },
    /// The run is over.
    Finished { exit_code: u8 },
}

/// A `Stage` with its strings as sequences of characters.
pub enum StageView {
    LoggingIn,
    Joining { access_token: Seq<char> },
    Sending { access_token: Seq<char>, room_id: Seq<char> },
    LoggingOut { access_token: Seq<char>, sent: bool },
    Finished { exit_code: u8 },
}

impl View for Stage {
    type V = StageView;

    open spec fn view(&self) -> StageView {
        match *self {
            Stage::LoggingIn => StageView::LoggingIn,
            Stage::Joining { access_token } => StageView::Joining { access_token: access_token@ },
            Stage::Sending { access_token, room_id } => StageView::Sending {
                access_token: access_token@,
                room_id: room_id@,
            },
            Stage::LoggingOut { access_token, sent } => StageView::LoggingOut {
                access_token: access_token@,
                sent,
            },
            Stage::Finished { exit_code } => StageView::Finished { exit_code },
        }
    }
}

/// A run in progress: its settings, the message to post, and how far it has
/// come.
#[derive(Debug)]
pub struct Session {
    pub config: Config,
    pub message: String,
    pub stage: Stage,
}

/// A `Session` with its strings as sequences of characters.
pub struct SessionView {
    pub config: ConfigView,
    pub message: Seq<char>,
    pub stage: StageView,
}

impl View for Session {
    type V = SessionView;

    open spec fn view(&self) -> SessionView {
        SessionView { config: self.config@, message: self.message@, stage: self.stage@ }
    }
}

/// What the caller is to do next.
#[derive(Debug)]
pub enum Action {
    /// Perform this request and hand its reply to `advance`.
    Send(Request),
    /// End the process with this exit code.
    Exit(u8),
}

/// An `Action` whose request is a `RequestView`.
pub enum ActionView {
    Send(RequestView),
    Exit(u8),
}

impl View for Action {
    type V = ActionView;

    open spec fn view(&self) -> ActionView {
        match *self {
            Action::Send(request) => ActionView::Send(request@),
            Action::Exit(code) => ActionView::Exit(code),
        }
    }
}

/// The outcome of one step: what to do next, and the failure to report to
/// the user, if the reply just read was one.
#[derive(Debug)]
pub struct Step {
    pub action: Action,
    pub report: Option<Failure>,
}

/// A `Step` whose action is an `ActionView`.
pub struct StepView {
    pub action: ActionView,
    pub report: Option<Failure>,
}

impl View for Step {
    type V = StepView;

    open spec fn view(&self) -> StepView {
        StepView { action: self.action@, report: self.report }
    }
}

/// The login request of a run with the settings `config`.
pub open spec fn login_request(config: ConfigView) -> RequestView {
    RequestView {
        url: login_url(config.server_url),
        body: Some(login_body(config.username, config.password)),
    }
}

/// The join request of a run with the settings `config`, once logged in.
pub open spec fn join_request(config: ConfigView, access_token: Seq<char>) -> RequestView {
    RequestView { url: join_url(config.server_url, config.room_name, access_token), body: None }
}

/// The request that posts `message` to the room `room_id`.
pub open spec fn send_request(
    config: ConfigView,
    room_id: Seq<char>,
    access_token: Seq<char>,
    message: Seq<char>,
) -> RequestView {
    RequestView {
        url: send_url(config.server_url, room_id, access_token),
        body: Some(message_body(message)),
    }
}

/// The logout request of a run with the settings `config`.
pub open spec fn logout_request(config: ConfigView, access_token: Seq<char>) -> RequestView {
    RequestView { url: logout_url(config.server_url, access_token), body: None }
}

/// The session at `stage`, with the settings and the message of `session`.
pub open spec fn at_stage(session: SessionView, stage: StageView) -> SessionView {
    SessionView { config: session.config, message: session.message, stage }
}

/// A step that ends the run in failure and reports why.
pub open spec fn give_up(session: SessionView, failure: Failure) -> (SessionView, StepView) {
    (
        at_stage(session, StageView::Finished { exit_code: EXIT_FAILURE }),
        StepView { action: ActionView::Exit(EXIT_FAILURE), report: Some(failure) },
    )
}

/// A step that moves on to `stage` by sending `request`.
pub open spec fn move_on(
    session: SessionView,
    stage: StageView,
    request: RequestView,
    report: Option<Failure>,
) -> (SessionView, StepView) {
    (at_stage(session, stage), StepView { action: ActionView::Send(request), report })
}

/// The failure in `result`, if it is one.
pub open spec fn failure_in<T>(result: Result<T, Failure>) -> Option<Failure> {
    match result {
        Ok(_) => None,
        Err(failure) => Some(failure),
    }
}

/// The exit code of a run whose message was, or was not, accepted.
pub open spec fn exit_code_for(sent: bool) -> u8 {
    if sent {
        EXIT_SUCCESS
    } else {
        EXIT_FAILURE
    }
}

/// The step that `session` takes when `reply` comes back for the request
/// that is on its way.
///
/// A failed login ends the run at once: there is no session to end. Once
/// logged in, every path leads through the logout: a failed join is reported
/// and the logout is asked for in place of the send; a failed send is
/// reported and the logout is asked for all the same. The logout's own
/// failure is reported, but the exit code goes by the message alone. A
/// finished session stays as it is.
pub open spec fn next(session: SessionView, reply: Reply) -> (SessionView, StepView) {
    match session.stage {
        StageView::LoggingIn => match login_outcome(reply) {
            Ok(access_token) => move_on(
                session,
                StageView::Joining { access_token },
                join_request(session.config, access_token),
                None,
            ),
            Err(failure) => give_up(session, failure),
        },
        StageView::Joining { access_token } => match join_outcome(reply) {
            Ok(room_id) => move_on(
                session,
                StageView::Sending { access_token, room_id },
                send_request(session.config, room_id, access_token, session.message),
                None,
            ),
            Err(failure) => move_on(
                session,
                StageView::LoggingOut { access_token, sent: false },
                logout_request(session.config, access_token),
                Some(failure),
            ),
        },
        StageView::Sending { access_token, room_id } => {
            let sent = plain_outcome(reply, Failure::SendFailed);
            move_on(
                session,
                StageView::LoggingOut { access_token, sent: sent is Ok },
                logout_request(session.config, access_token),
                failure_in(sent),
            )
        },
        StageView::LoggingOut { access_token, sent } => (
            at_stage(session, StageView::Finished { exit_code: exit_code_for(sent) }),
            StepView {
                action: ActionView::Exit(exit_code_for(sent)),
                report: failure_in(plain_outcome(reply, Failure::LogoutFailed)),
            },
        ),
        StageView::Finished { exit_code } => (
            session,
            StepView { action: ActionView::Exit(exit_code), report: None },
        ),
    }
}

/// The message that a command line gives: its one argument. `arguments` are
/// the arguments after the program's name.
pub open spec fn message_in(arguments: Seq<String>) -> Result<Seq<char>, Failure> {
    if arguments.len() == 1 {
        Ok(arguments[0]@)
    } else {
        Err(Failure::UsageError)
    }
}

/// The session that a run opens with, or the failure that keeps it from
/// starting: a command line without exactly one argument is a `UsageError`;
/// after that, the configuration decides.
pub open spec fn opening(arguments: Seq<String>, found: Seq<Candidate>) -> Result<
    SessionView,
    Failure,
> {
    match message_in(arguments) {
        Err(failure) => Err(failure),
        Ok(message) => match chosen(found) {
            Err(failure) => Err(failure),
            Ok(config) => Ok(
                SessionView { config: config@, message, stage: StageView::LoggingIn },
            ),
        },
    }
}

/// The message to post, from the arguments after the program's name.
pub fn message_from(arguments: &Vec<String>) -> (message: Result<String, Failure>)
    ensures
        crate::utils::outcome_of(message) == message_in(arguments@),
{
    if arguments.len() == 1 {
        Ok(arguments[0].clone())
    } else {
        Err(Failure::UsageError)
    }
}

impl Session {
    /// Opens a run: reads the message from the command line and picks the
    /// configuration. On success the run is logging in, and the request
    /// returned is its login request. On failure nothing is to be sent.
    pub fn open(arguments: &Vec<String>, found: &Vec<Candidate>) -> (opened: Result<
        (Session, Request),
        Failure,
    >)
        ensures
            match opened {
                Ok((session, request)) => opening(arguments@, found@) == Ok::<
                    SessionView,
                    Failure,
                >(session@) && request@ == login_request(session@.config),
                Err(failure) => opening(arguments@, found@) == Err::<SessionView, Failure>(
                    failure,
                ),
            },
    {
        let message = match message_from(arguments) {
            Ok(message) => message,
            Err(failure) => {
                return Err(failure);
            },
        };
        let config = match load_config(found) {
            Ok(config) => config,
            Err(failure) => {
                return Err(failure);
            },
        };
        let request = login(&config);
        Ok((Session { config, message, stage: Stage::LoggingIn }, request))
    }

    /// Takes the step that `reply` calls for, `reply` being what came back
    /// for the request that the step before asked for.
    pub fn advance(self, reply: &Reply) -> (taken: (Session, Step))
        ensures
            (taken.0@, taken.1@) == next(self@, *reply),
    {
        let Session { config, message, stage } = self;
        match stage {
            Stage::LoggingIn => match login_result(reply) {
                Ok(access_token) => {
                    let request = join_room(
                        config.server_url.as_str(),
                        config.room_name.as_str(),
                        access_token.as_str(),
                    );
                    (
                        Session { config, message, stage: Stage::Joining { access_token } },
                        Step { action: Action::Send(request), report: None },
                    )
                },
                Err(failure) => (
                    Session { config, message, stage: Stage::Finished { exit_code: EXIT_FAILURE } },
                    Step { action: Action::Exit(EXIT_FAILURE), report: Some(failure) },
                ),
            },
            Stage::Joining { access_token } => match join_result(reply) {
                Ok(room_id) => {
                    let request = send_message(
                        config.server_url.as_str(),
                        room_id.as_str(),
                        access_token.as_str(),
                        message.as_str(),
                    );
                    (
                        Session { config, message, stage: Stage::Sending { access_token, room_id } },
                        Step { action: Action::Send(request), report: None },
                    )
                },
                Err(failure) => {
                    let request = logout(&config, access_token.as_str());
                    (
                        Session {
                            config,
                            message,
                            stage: Stage::LoggingOut { access_token, sent: false },
                        },
                        Step { action: Action::Send(request), report: Some(failure) },
                    )
                },
            },
            Stage::Sending { access_token, room_id } => {
                let request = logout(&config, access_token.as_str());
                let (sent, report) = match send_result(reply) {
                    Ok(_) => (true, None),
                    Err(failure) => (false, Some(failure)),
                };
                (
                    Session { config, message, stage: Stage::LoggingOut { access_token, sent } },
                    Step { action: Action::Send(request), report },
                )
            },
            Stage::LoggingOut { access_token, sent } => {
                let exit_code = if sent {
                    EXIT_SUCCESS
                } else {
                    EXIT_FAILURE
                };
                let report = match logout_result(reply) {
                    Ok(_) => None,
                    Err(failure) => Some(failure),
                };
                (
                    Session { config, message, stage: Stage::Finished { exit_code } },
                    Step { action: Action::Exit(exit_code), report },
                )
            },
            Stage::Finished { exit_code } => (
                Session { config, message, stage: Stage::Finished { exit_code } },
                Step { action: Action::Exit(exit_code), report: None },
            ),
        }
    }
}

} // verus!

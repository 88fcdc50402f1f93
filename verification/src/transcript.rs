//! Whole runs: what is sent, what is reported and how the run exits, given
//! the replies that come back one after the other.

use vstd::prelude::*;
use crate::config::{all_missing, chosen, Candidate, Config};
use crate::error::Failure;
use crate::session::{
    failure_in, join_request, login_request, logout_request, next, opening, send_request,
    ActionView, SessionView, StageView, StepView, EXIT_FAILURE, EXIT_SUCCESS,
};
use crate::status::{class_of, StatusClass};
use crate::utils::{
    granted_token, join_outcome, joined_room, login_outcome, plain_outcome, token_query,
};
use crate::wire::{body_of, succeeded, Reply, RequestView};

verus! {

/// The record of a run.
pub struct Transcript {
    /// The requests sent, in their order.
    pub requests: Seq<RequestView>,
    /// The failures reported to the user, in their order.
    pub reports: Seq<Failure>,
    /// The exit code, or `None` for a run that is still waiting for a reply.
    pub exit_code: Option<u8>,
}

/// The request that a step sends, as a sequence of one or none.
pub open spec fn sent_by(step: StepView) -> Seq<RequestView> {
    match step.action {
        ActionView::Send(request) => seq![request],
        ActionView::Exit(_) => Seq::empty(),
    }
}

/// The failure in `report`, as a sequence of one or none.
pub open spec fn reported(report: Option<Failure>) -> Seq<Failure> {
    match report {
        Some(failure) => seq![failure],
        None => Seq::empty(),
    }
}

/// The record of what `session` does from here on when `replies` come back,
/// one for each request it sends. The request that is on its way when the
/// record begins is not part of it.
pub open spec fn run(session: SessionView, replies: Seq<Reply>) -> Transcript
    decreases replies.len(),
{
    match session.stage {
        StageView::Finished { exit_code } => Transcript {
            requests: Seq::empty(),
            reports: Seq::empty(),
            exit_code: Some(exit_code),
        },
        _ => if replies.len() == 0 {
            Transcript { requests: Seq::empty(), reports: Seq::empty(), exit_code: None }
        } else {
            let (after, step) = next(session, replies[0]);
            let rest = run(after, replies.drop_first());
            Transcript {
                requests: sent_by(step) + rest.requests,
                reports: reported(step.report) + rest.reports,
                exit_code: rest.exit_code,
            }
        },
    }
}

/// The record of a run from its command line on: `arguments` are the
/// arguments after the program's name, `found` is what the places searched
/// for a configuration gave, and `replies` are what comes back for the
/// requests, in their order.
pub open spec fn whole_run(
    arguments: Seq<String>,
    found: Seq<Candidate>,
    replies: Seq<Reply>,
) -> Transcript {
    match opening(arguments, found) {
        Err(failure) => Transcript {
            requests: Seq::empty(),
            reports: seq![failure],
            exit_code: Some(EXIT_FAILURE),
        },
        Ok(session) => {
            let rest = run(session, replies);
            Transcript {
                requests: seq![login_request(session.config)] + rest.requests,
                reports: rest.reports,
                exit_code: rest.exit_code,
            }
        },
    }
}

/// `request` presents the access token `token`: its URL ends in the query
/// that names it.
pub open spec fn presents(request: RequestView, token: Seq<char>) -> bool {
    exists|head: Seq<char>| request.url == head + token_query(token)
}

/// The access token that a session holds at `stage`, if it is logged in.
pub open spec fn token_at(stage: StageView) -> Option<Seq<char>> {
    match stage {
        StageView::Joining { access_token } => Some(access_token),
        StageView::Sending { access_token, .. } => Some(access_token),
        StageView::LoggingOut { access_token, .. } => Some(access_token),
        _ => None,
    }
}

/// With a reply that ran out of `replies` removed from the front, the
/// second reply is the first.
proof fn drop_first_shifts(replies: Seq<Reply>, i: int)
    requires
        0 <= i,
        i + 1 < replies.len(),
    ensures
        replies.drop_first()[i] == replies[i + 1],
        replies.drop_first().len() == replies.len() - 1,
{
}

/// A session never sends a request without the access token it holds, and
/// holds the same token for as long as it is logged in: whatever the reply,
/// a request that a step sends presents the token of the stage that the
/// step leads to, and a session that held a token before the step holds no
/// other after it.
pub proof fn token_runs_through(session: SessionView, reply: Reply)
    ensures
        next(session, reply).1.action matches ActionView::Send(request) ==> {
            &&& token_at(next(session, reply).0.stage) matches Some(token)
            &&& presents(request, token)
        },
        token_at(session.stage) is Some && token_at(next(session, reply).0.stage) is Some
            ==> token_at(next(session, reply).0.stage) == token_at(session.stage),
        next(session, reply).0.config == session.config,
        next(session, reply).0.message == session.message,
{
    let (after, step) = next(session, reply);
    match step.action {
        ActionView::Send(request) => {
            let token = token_at(after.stage)->0;
            let head = request.url.subrange(0, request.url.len() - token_query(token).len());
            assert(request.url =~= head + token_query(token));
        },
        ActionView::Exit(_) => {},
    }
}

/// A run whose replies are all successes with well-formed bodies sends
/// exactly four requests, the login, the join, the message and the logout,
/// in this order; the last three present the access token that the login
/// reply granted; nothing is reported, and the run exits with success.
/// Replies beyond the fourth are not looked at.
pub proof fn smooth_run_sends_four(
    arguments: Seq<String>,
    found: Seq<Candidate>,
    replies: Seq<Reply>,
    config: Config,
    token: Seq<char>,
    room_id: Seq<char>,
)
    requires
        arguments.len() == 1,
        chosen(found) == Ok::<Config, Failure>(config),
        replies.len() >= 4,
        forall|i: int| 0 <= i < 4 ==> succeeded(#[trigger] replies[i]),
        granted_token(body_of(replies[0])) == Some(token),
        joined_room(body_of(replies[1])) == Some(room_id),
    ensures
        whole_run(arguments, found, replies) == (Transcript {
            requests: seq![
                login_request(config@),
                join_request(config@, token),
                send_request(config@, room_id, token, arguments[0]@),
                logout_request(config@, token),
            ],
            reports: Seq::empty(),
            exit_code: Some(EXIT_SUCCESS),
        }),
        forall|i: int| 1 <= i < 4 ==> presents(
            #[trigger] whole_run(arguments, found, replies).requests[i],
            token,
        ),
{
    let s0 = opening(arguments, found)->Ok_0;
    assert(succeeded(replies[0]) && succeeded(replies[1]) && succeeded(replies[2]) && succeeded(
        replies[3],
    ));
    let r1 = replies.drop_first();
    let r2 = r1.drop_first();
    let r3 = r2.drop_first();
    let r4 = r3.drop_first();
    drop_first_shifts(replies, 0);
    drop_first_shifts(replies, 1);
    drop_first_shifts(replies, 2);
    drop_first_shifts(r1, 0);
    drop_first_shifts(r1, 1);
    drop_first_shifts(r2, 0);
    let (s1, t1) = next(s0, replies[0]);
    let (s2, t2) = next(s1, replies[1]);
    let (s3, t3) = next(s2, replies[2]);
    let (s4, t4) = next(s3, replies[3]);
    token_runs_through(s0, replies[0]);
    token_runs_through(s1, replies[1]);
    token_runs_through(s2, replies[2]);
    assert(run(s4, r4).requests =~= Seq::empty());
    assert(run(s3, r3).requests =~= Seq::empty());
    assert(run(s3, r3).reports =~= Seq::empty());
    assert(run(s2, r2).requests =~= seq![logout_request(config@, token)]);
    assert(run(s2, r2).reports =~= Seq::empty());
    assert(run(s1, r1).requests =~= seq![
        send_request(config@, room_id, token, arguments[0]@),
        logout_request(config@, token),
    ]);
    assert(run(s1, r1).reports =~= Seq::empty());
    assert(run(s0, replies).requests =~= seq![
        join_request(config@, token),
        send_request(config@, room_id, token, arguments[0]@),
        logout_request(config@, token),
    ]);
    assert(run(s0, replies).reports =~= Seq::empty());
    assert(whole_run(arguments, found, replies).requests =~= seq![
        login_request(config@),
        join_request(config@, token),
        send_request(config@, room_id, token, arguments[0]@),
        logout_request(config@, token),
    ]);
}

/// A run whose login fails sends the login request and nothing after it,
/// reports the failure and exits with failure. A login that the server
/// answers with a status in the 400s fails with `AuthenticationFailed`.
pub proof fn failed_login_ends_run(
    arguments: Seq<String>,
    found: Seq<Candidate>,
    replies: Seq<Reply>,
    config: Config,
)
    requires
        arguments.len() == 1,
        chosen(found) == Ok::<Config, Failure>(config),
        replies.len() >= 1,
        login_outcome(replies[0]) is Err,
    ensures
        whole_run(arguments, found, replies) == (Transcript {
            requests: seq![login_request(config@)],
            reports: seq![login_outcome(replies[0])->Err_0],
            exit_code: Some(EXIT_FAILURE),
        }),
        replies[0] matches Reply::Answered { status, .. } && class_of(status)
            == StatusClass::ClientError ==> login_outcome(replies[0]) == Err::<
            Seq<char>,
            Failure,
        >(Failure::AuthenticationFailed),
{
    let s0 = opening(arguments, found)->Ok_0;
    let (s1, t1) = next(s0, replies[0]);
    let r1 = replies.drop_first();
    assert(run(s1, r1).requests =~= Seq::empty());
    assert(run(s0, replies).requests =~= Seq::empty());
    assert(run(s0, replies).reports =~= seq![login_outcome(replies[0])->Err_0]);
    assert(whole_run(arguments, found, replies).requests =~= seq![login_request(config@)]);
}

/// A run whose message is not accepted still logs out: after a login and a
/// join that succeed, a failed send is followed by the logout request, the
/// failure is reported before anything the logout gives rise to, and the
/// run exits with failure whatever the logout's reply. A send that the
/// server answers with a status in the 500s fails with `ServerError`.
pub proof fn failed_send_still_logs_out(
    arguments: Seq<String>,
    found: Seq<Candidate>,
    replies: Seq<Reply>,
    config: Config,
    token: Seq<char>,
    room_id: Seq<char>,
)
    requires
        arguments.len() == 1,
        chosen(found) == Ok::<Config, Failure>(config),
        replies.len() >= 4,
        login_outcome(replies[0]) == Ok::<Seq<char>, Failure>(token),
        join_outcome(replies[1]) == Ok::<Seq<char>, Failure>(room_id),
        plain_outcome(replies[2], Failure::SendFailed) is Err,
    ensures
        whole_run(arguments, found, replies) == (Transcript {
            requests: seq![
                login_request(config@),
                join_request(config@, token),
                send_request(config@, room_id, token, arguments[0]@),
                logout_request(config@, token),
            ],
            reports: seq![plain_outcome(replies[2], Failure::SendFailed)->Err_0] + reported(
                failure_in(plain_outcome(replies[3], Failure::LogoutFailed)),
            ),
            exit_code: Some(EXIT_FAILURE),
        }),
        replies[2] matches Reply::Answered { status, .. } && class_of(status)
            == StatusClass::ServerError ==> plain_outcome(replies[2], Failure::SendFailed)
            == Err::<(), Failure>(Failure::ServerError),
{
    let s0 = opening(arguments, found)->Ok_0;
    let r1 = replies.drop_first();
    let r2 = r1.drop_first();
    let r3 = r2.drop_first();
    let r4 = r3.drop_first();
    drop_first_shifts(replies, 0);
    drop_first_shifts(replies, 1);
    drop_first_shifts(replies, 2);
    drop_first_shifts(r1, 0);
    drop_first_shifts(r1, 1);
    drop_first_shifts(r2, 0);
    let (s1, t1) = next(s0, replies[0]);
    let (s2, t2) = next(s1, replies[1]);
    let (s3, t3) = next(s2, replies[2]);
    let (s4, t4) = next(s3, replies[3]);
    let failure = plain_outcome(replies[2], Failure::SendFailed)->Err_0;
    let last = reported(failure_in(plain_outcome(replies[3], Failure::LogoutFailed)));
    assert(run(s4, r4).requests =~= Seq::empty());
    assert(run(s3, r3).requests =~= Seq::empty());
    assert(run(s3, r3).reports =~= last);
    assert(run(s2, r2).requests =~= seq![logout_request(config@, token)]);
    assert(run(s2, r2).reports =~= seq![failure] + last);
    assert(run(s1, r1).requests =~= seq![
        send_request(config@, room_id, token, arguments[0]@),
        logout_request(config@, token),
    ]);
    assert(run(s1, r1).reports =~= seq![failure] + last);
    assert(run(s0, replies).requests =~= seq![
        join_request(config@, token),
        send_request(config@, room_id, token, arguments[0]@),
        logout_request(config@, token),
    ]);
    assert(run(s0, replies).reports =~= seq![failure] + last);
    assert(whole_run(arguments, found, replies).requests =~= seq![
        login_request(config@),
        join_request(config@, token),
        send_request(config@, room_id, token, arguments[0]@),
        logout_request(config@, token),
    ]);
}

/// Every run that starts is over after four replies at the latest, having
/// sent no more than four requests, and it exits with success exactly when
/// its login, its join and its send succeeded: the reply to the logout has
/// no part in the exit code.
pub proof fn exit_code_goes_by_the_message(
    arguments: Seq<String>,
    found: Seq<Candidate>,
    replies: Seq<Reply>,
)
    requires
        opening(arguments, found) is Ok,
        replies.len() >= 4,
    ensures
        whole_run(arguments, found, replies).exit_code is Some,
        whole_run(arguments, found, replies).requests.len() <= 4,
        whole_run(arguments, found, replies).exit_code == Some(EXIT_SUCCESS) <==> {
            &&& login_outcome(replies[0]) is Ok
            &&& join_outcome(replies[1]) is Ok
            &&& plain_outcome(replies[2], Failure::SendFailed) is Ok
        },
{
    let s0 = opening(arguments, found)->Ok_0;
    let r1 = replies.drop_first();
    let r2 = r1.drop_first();
    let r3 = r2.drop_first();
    let r4 = r3.drop_first();
    drop_first_shifts(replies, 0);
    drop_first_shifts(replies, 1);
    drop_first_shifts(replies, 2);
    drop_first_shifts(r1, 0);
    drop_first_shifts(r1, 1);
    drop_first_shifts(r2, 0);
    let (s1, t1) = next(s0, replies[0]);
    let (s2, t2) = next(s1, replies[1]);
    let (s3, t3) = next(s2, replies[2]);
    let (s4, t4) = next(s3, replies[3]);
    assert(s4.stage is Finished);
    assert(run(s4, r4).requests.len() == 0);
    assert(run(s3, r3).requests.len() <= 1);
    assert(run(s2, r2).requests.len() <= 2);
    assert(run(s1, r1).requests.len() <= 3);
    assert(run(s0, replies).requests.len() <= 3);
}

/// A run that finds no configuration sends nothing and exits with failure,
/// whatever its command line, and so does a run whose command line or
/// configuration is turned down for another reason.
pub proof fn run_without_config_sends_nothing(
    arguments: Seq<String>,
    found: Seq<Candidate>,
    replies: Seq<Reply>,
)
    ensures
        all_missing(found) ==> opening(arguments, found) is Err,
        opening(arguments, found) matches Err(failure) ==> whole_run(arguments, found, replies)
            == (Transcript {
            requests: Seq::empty(),
            reports: seq![failure],
            exit_code: Some(EXIT_FAILURE),
        }),
        EXIT_FAILURE != EXIT_SUCCESS,
{
}

} // verus!

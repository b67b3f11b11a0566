//! One run from login to logout.
//!
//! A run logs in, carries out one command, and logs out. A login that fails
//! ends the run: nothing else is sent. A command that fails does not: the
//! logout is still sent. The logout itself never changes how the run ends.
//!
//! [`Invocation`] holds how far a run has come. [`Invocation::step`] takes
//! what happened to the last request and says what comes next.

use crate::client::{
    login_outcome, login_request_view, logout_outcome, Client, ClientView, LoginAttempt,
    LogoutOutcome,
};
use crate::envelope::{envelope_document, parameters_document};
use crate::error::{
    AuthError, AuthErrorView, NatError, NatErrorView, RpcError, RpcErrorView,
};
use crate::forwarding::{SetPortFowardingParams, SetPortFowardingParamsView};
use crate::http::{HttpRequest, HttpRequestView};
use crate::json::{Json, JsonView};
use crate::listing::{listed_rules, rules_document, rules_to_json};
use crate::output::{document_of, payload_document};
use crate::reply::{reply_payload, Reply, ReplyView};
use crate::workflow::{
    list_document, next_step, set_document, started, RuleAction, RuleChange, RuleChangeView, Step,
    StepView,
};
use vstd::prelude::*;
use vstd::string::*;

verus! {

/// What a run is to do once it has logged in.
#[derive(Debug, PartialEq, Eq)]
pub enum Command {
    /// Invoke a method of a service without parameters.
    Exec { service: String, method: String },
    /// List the port-forwarding rules.
    List,
    /// Store a port-forwarding rule. No commit follows.
    Add(SetPortFowardingParams),
    /// Enable, disable or remove the port-forwarding rule with an id, and
    /// commit.
    Change { action: RuleAction, id: String },
}

pub enum CommandView {
    Exec { service: Seq<char>, method: Seq<char> },
    List,
    Add(SetPortFowardingParamsView),
    Change { action: RuleAction, id: Seq<char> },
}

impl View for Command {
    type V = CommandView;

    open spec fn view(&self) -> CommandView {
        match self {
            Command::Exec { service, method } => CommandView::Exec {
                service: service@,
                method: method@,
            },
            Command::List => CommandView::List,
            Command::Add(rule) => CommandView::Add(rule@),
            Command::Change { action, id } => CommandView::Change { action: *action, id: id@ },
        }
    }
}

/// What happened to a request: a reply came, or the transport failed and
/// says why.
#[derive(Debug, PartialEq, Eq)]
pub enum Event {
    Reply(Reply),
    Failure(String),
}

pub enum EventView {
    Reply(ReplyView),
    Failure(Seq<char>),
}

impl View for Event {
    type V = EventView;

    open spec fn view(&self) -> EventView {
        match self {
            Event::Reply(reply) => EventView::Reply(reply@),
            Event::Failure(reason) => EventView::Failure(reason@),
        }
    }
}

/// Why a run did not yield a result.
#[derive(Debug, PartialEq, Eq)]
pub enum Failure {
    /// The login did not open a session.
    Auth(AuthError),
    /// The call of the command failed.
    Rpc(RpcError),
    /// The change to a rule did not go through.
    Nat(NatError),
    /// The transport failed, at the login or during the command.
    Transport(String),
}

pub enum FailureView {
    Auth(AuthErrorView),
    Rpc(RpcErrorView),
    Nat(NatErrorView),
    Transport(Seq<char>),
}

impl View for Failure {
    type V = FailureView;

    open spec fn view(&self) -> FailureView {
        match self {
            Failure::Auth(error) => FailureView::Auth(error@),
            Failure::Rpc(error) => FailureView::Rpc(error@),
            Failure::Nat(error) => FailureView::Nat(error@),
            Failure::Transport(reason) => FailureView::Transport(reason@),
        }
    }
}

impl FailureView {
    pub open spec fn message(self) -> Seq<char> {
        match self {
            FailureView::Auth(error) => error.message(),
            FailureView::Rpc(error) => error.message(),
            FailureView::Nat(error) => error.message(),
            FailureView::Transport(reason) => reason,
        }
    }
}

impl Failure {
    /// The failure in words.
    pub fn message(&self) -> (r: String)
        ensures
            r@ == self@.message(),
    {
        match self {
            Failure::Auth(error) => error.message(),
            Failure::Rpc(error) => error.message(),
            Failure::Nat(error) => error.message(),
            Failure::Transport(reason) => reason.clone(),
        }
    }
}

/// The view of how a command ended.
pub open spec fn result_view(result: Result<Json, Failure>) -> Result<JsonView, FailureView> {
    match result {
        Ok(doc) => Ok(doc@),
        Err(failure) => Err(failure@),
    }
}

/// What the reply to the one call of a command is read as.
#[derive(Debug, PartialEq, Eq)]
pub enum Pending {
    /// The data of the envelope is the result.
    Payload,
    /// The rules of the listing are the result.
    Rules,
    /// The reply belongs to a change to a rule.
    Change(RuleChange),
}

pub enum PendingView {
    Payload,
    Rules,
    Change(RuleChangeView),
}

impl View for Pending {
    type V = PendingView;

    open spec fn view(&self) -> PendingView {
        match self {
            Pending::Payload => PendingView::Payload,
            Pending::Rules => PendingView::Rules,
            Pending::Change(change) => PendingView::Change(change@),
        }
    }
}

#[derive(Debug, PartialEq, Eq)]
enum Phase {
    LoggingIn { base_url_ws: String, command: Command },
    Running { client: Client, pending: Pending },
    LoggingOut { result: Result<Json, Failure> },
}

/// A run under way: the request that was handed out last is the one whose
/// outcome it waits for.
#[derive(Debug, PartialEq, Eq)]
pub struct Invocation {
    phase: Phase,
}

pub enum InvocationView {
    /// The login was sent.
    LoggingIn { base_url_ws: Seq<char>, command: CommandView },
    /// A call of the command was sent.
    Running { client: ClientView, pending: PendingView },
    /// The logout was sent; how the command ended is kept.
    LoggingOut { result: Result<JsonView, FailureView> },
}

impl View for Invocation {
    type V = InvocationView;

    closed spec fn view(&self) -> InvocationView {
        match self.phase {
            Phase::LoggingIn { base_url_ws, command } => InvocationView::LoggingIn {
                base_url_ws: base_url_ws@,
                command: command@,
            },
            Phase::Running { client, pending } => InvocationView::Running {
                client: client@,
                pending: pending@,
            },
            Phase::LoggingOut { result } => InvocationView::LoggingOut {
                result: result_view(result),
            },
        }
    }
}

/// What comes next in a run.
#[derive(Debug, PartialEq, Eq)]
pub enum Next {
    /// Post the request, and hand what happened to [`Invocation::step`].
    Send { invocation: Invocation, request: HttpRequest },
    /// The run is over. `logout` tells how the logout ended; it is `None`
    /// where no logout was sent. A logout on which the transport failed is
    /// unconfirmed.
    Done { result: Result<Json, Failure>, logout: Option<LogoutOutcome> },
}

pub enum NextView {
    Send { invocation: InvocationView, request: HttpRequestView },
    Done { result: Result<JsonView, FailureView>, logout: Option<LogoutOutcome> },
}

impl View for Next {
    type V = NextView;

    open spec fn view(&self) -> NextView {
        match self {
            Next::Send { invocation, request } => NextView::Send {
                invocation: invocation@,
                request: request@,
            },
            Next::Done { result, logout } => NextView::Done {
                result: result_view(*result),
                logout: *logout,
            },
        }
    }
}

/// The first call of a command, and what its reply is read as.
pub open spec fn first_call(client: ClientView, command: CommandView) -> (
    PendingView,
    HttpRequestView,
) {
    match command {
        CommandView::Exec { service, method } => (
            PendingView::Payload,
            client.call(envelope_document(service, method, parameters_document(Seq::empty()))),
        ),
        CommandView::List => (PendingView::Rules, client.call(list_document())),
        CommandView::Add(rule) => (PendingView::Payload, client.call(set_document(rule))),
        CommandView::Change { action, id } => (
            PendingView::Change(started(action, id)),
            client.call(list_document()),
        ),
    }
}

/// The step that sends the logout, with how the command ended kept.
pub open spec fn logging_out(client: ClientView, result: Result<JsonView, FailureView>) -> NextView {
    NextView::Send { invocation: InvocationView::LoggingOut { result }, request: client.logout() }
}

/// What comes next in a run, given what happened to its last request.
pub open spec fn next(invocation: InvocationView, event: EventView) -> NextView {
    match invocation {
        InvocationView::LoggingIn { base_url_ws, command } => match event {
            EventView::Failure(reason) => NextView::Done {
                result: Err(FailureView::Transport(reason)),
                logout: None,
            },
            EventView::Reply(reply) => match login_outcome(base_url_ws, reply) {
                Ok(client) => NextView::Send {
                    invocation: InvocationView::Running {
                        client,
                        pending: first_call(client, command).0,
                    },
                    request: first_call(client, command).1,
                },
                Err(error) => NextView::Done { result: Err(FailureView::Auth(error)), logout: None },
            },
        },
        InvocationView::Running { client, pending } => match event {
            EventView::Failure(reason) => logging_out(client, Err(FailureView::Transport(reason))),
            EventView::Reply(reply) => match pending {
                PendingView::Payload => match reply_payload(reply) {
                    Ok(data) => logging_out(client, Ok(document_of(data))),
                    Err(error) => logging_out(client, Err(FailureView::Rpc(error))),
                },
                PendingView::Rules => match listed_rules(reply) {
                    Ok(rules) => logging_out(client, Ok(rules_document(rules))),
                    Err(error) => logging_out(client, Err(FailureView::Rpc(error))),
                },
                PendingView::Change(change) => match next_step(client, change, reply) {
                    StepView::Send { change, request } => NextView::Send {
                        invocation: InvocationView::Running {
                            client,
                            pending: PendingView::Change(change),
                        },
                        request,
                    },
                    StepView::Done(Ok(data)) => logging_out(client, Ok(document_of(data))),
                    StepView::Done(Err(error)) => logging_out(
                        client,
                        Err(FailureView::Nat(error)),
                    ),
                },
            },
        },
        InvocationView::LoggingOut { result } => match event {
            EventView::Failure(reason) => NextView::Done {
                result,
                logout: Some(LogoutOutcome::Unconfirmed),
            },
            EventView::Reply(reply) => NextView::Done {
                result,
                logout: Some(logout_outcome(reply)),
            },
        },
    }
}

/// A login that fails ends the run at once: no call and no logout is sent.
pub proof fn law_failed_login_ends_the_run(
    base_url_ws: Seq<char>,
    command: CommandView,
    event: EventView,
)
    requires
        event is Failure || login_outcome(base_url_ws, event->Reply_0) is Err,
    ensures
        next(InvocationView::LoggingIn { base_url_ws, command }, event) is Done,
        next(InvocationView::LoggingIn { base_url_ws, command }, event)->result is Err,
        next(InvocationView::LoggingIn { base_url_ws, command }, event)->logout is None,
{
}

/// Whatever happens to a call of the command, the run goes on: with another
/// call of a change that is not over, and else with the logout.
pub proof fn law_command_is_followed_by_logout(
    client: ClientView,
    pending: PendingView,
    event: EventView,
)
    ensures
        next(InvocationView::Running { client, pending }, event) matches NextView::Send {
            invocation,
            request,
        } && (invocation is LoggingOut ==> request == client.logout()) && (invocation
            is Running ==> pending is Change && event is Reply),
{
}

/// The logout decides nothing: whatever is answered to it, and also where
/// nothing is, the run ends as the command ended. A session that the
/// gateway closed before, which it tells by a 401, is no exception.
pub proof fn law_logout_never_changes_the_result(
    result: Result<JsonView, FailureView>,
    event: EventView,
)
    ensures
        next(InvocationView::LoggingOut { result }, event) is Done,
        next(InvocationView::LoggingOut { result }, event)->result == result,
        next(InvocationView::LoggingOut { result }, event)->logout is Some,
        event matches EventView::Reply(reply) && reply.status == 401 ==> next(
            InvocationView::LoggingOut { result },
            event,
        )->logout == Some(LogoutOutcome::Expired),
{
}

impl Invocation {
    /// Starts a run: the request logs in.
    pub fn start(login: LoginAttempt, command: Command) -> (start: (Invocation, HttpRequest))
        ensures
            start.0@ == (InvocationView::LoggingIn {
                base_url_ws: login.base_url_ws@,
                command: command@,
            }),
            start.1@ == login_request_view(login.base_url_ws@, login.username@, login.password@),
    {
        let request = login.request();
        (
            Invocation { phase: Phase::LoggingIn { base_url_ws: login.base_url_ws, command } },
            request,
        )
    }

    fn first_call(client: &Client, command: Command) -> (call: (Pending, HttpRequest))
        ensures
            (call.0@, call.1@) == first_call(client@, command@),
    {
        match command {
            Command::Exec { service, method } => (Pending::Payload, client.execute(service, method)),
            Command::List => (Pending::Rules, client.list_nat_rules()),
            Command::Add(rule) => (Pending::Payload, client.add_nat_rule(&rule)),
            Command::Change { action, id } => {
                let (change, request) = client.change_nat_rule(action, id);
                (Pending::Change(change), request)
            },
        }
    }

    fn logging_out(client: Client, result: Result<Json, Failure>) -> (step: Next)
        ensures
            step@ == logging_out(client@, result_view(result)),
    {
        let request = client.logout();
        Next::Send { invocation: Invocation { phase: Phase::LoggingOut { result } }, request }
    }

    /// Takes what happened to the last request and says what comes next.
    pub fn step(self, event: Event) -> (step: Next)
        ensures
            step@ == next(self@, event@),
    {
        match self.phase {
            Phase::LoggingIn { base_url_ws, command } => match event {
                Event::Failure(reason) => Next::Done {
                    result: Err(Failure::Transport(reason)),
                    logout: None,
                },
                Event::Reply(reply) => match Client::login(base_url_ws, &reply) {
                    Ok(client) => {
                        let (pending, request) = Invocation::first_call(&client, command);
                        Next::Send {
                            invocation: Invocation { phase: Phase::Running { client, pending } },
                            request,
                        }
                    },
                    Err(error) => Next::Done { result: Err(Failure::Auth(error)), logout: None },
                },
            },
            Phase::Running { client, pending } => match event {
                Event::Failure(reason) => Invocation::logging_out(
                    client,
                    Err(Failure::Transport(reason)),
                ),
                Event::Reply(reply) => match pending {
                    Pending::Payload => match reply.payload() {
                        Ok(data) => Invocation::logging_out(client, Ok(payload_document(data))),
                        Err(error) => Invocation::logging_out(client, Err(Failure::Rpc(error))),
                    },
                    Pending::Rules => match reply.rules() {
                        Ok(rules) => Invocation::logging_out(client, Ok(rules_to_json(&rules))),
                        Err(error) => Invocation::logging_out(client, Err(Failure::Rpc(error))),
                    },
                    Pending::Change(change) => match client.advance(change, &reply) {
                        Step::Send { change, request } => Next::Send {
                            invocation: Invocation {
                                phase: Phase::Running { client, pending: Pending::Change(change) },
                            },
                            request,
                        },
                        Step::Done(Ok(data)) => Invocation::logging_out(
                            client,
                            Ok(payload_document(data)),
                        ),
                        Step::Done(Err(error)) => Invocation::logging_out(
                            client,
                            Err(Failure::Nat(error)),
                        ),
                    },
                },
            },
            Phase::LoggingOut { result } => match event {
                Event::Failure(reason) => Next::Done {
                    result,
                    logout: Some(LogoutOutcome::Unconfirmed),
                },
                Event::Reply(reply) => Next::Done {
                    result,
                    logout: Some(Client::logout_outcome(&reply)),
                },
            },
        }
    }
}

} // verus!

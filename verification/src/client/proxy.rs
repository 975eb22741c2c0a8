//! The client's broker: for each chat request a ticket from the
//! coordinator, then the request itself to the worker that the ticket names.
//!
//! The calls are made elsewhere, each under the retry schedule. Here is what
//! is decided between them.

use crate::client::config::Config;
use crate::shared::errors::{TroopError, TroopResult, AUTH_TIMEOUT, INFERENCE_TIMEOUT};
use crate::shared::http::{is_success, success, BAD_GATEWAY, INTERNAL_SERVER_ERROR};
use crate::shared::models::{AuthorizeRequest, AuthorizeResponse};
use crate::text::{decimal, join2, join3, push_decimal};
use vstd::prelude::*;

verus! {

/// The port on which every worker listens.
pub const WORKER_PORT: u16 = 8080;

/// The address on which the client listens: this machine only, at `port`.
pub fn listen_address(port: u16) -> (addr: String)
    ensures
        addr@ == "127.0.0.1:"@ + decimal(port as nat),
{
    let mut addr = "127.0.0.1:".to_owned();
    push_decimal(&mut addr, port as u64);
    addr
}

/// What the health check answers: the names and values of a JSON object.
pub fn health_fields() -> (fields: Vec<(&'static str, &'static str)>)
    ensures
        fields@.len() == 2,
        fields@[0].0@ == "status"@ && fields@[0].1@ == "healthy"@,
        fields@[1].0@ == "service"@ && fields@[1].1@ == "monkey-troop-client"@,
{
    let mut fields: Vec<(&'static str, &'static str)> = Vec::new();
    fields.push(("status", "healthy"));
    fields.push(("service", "monkey-troop-client"));
    fields
}

/// Where the list of models is fetched.
pub fn models_url(coordinator_url: &str) -> (url: String)
    ensures
        url@ == coordinator_url@ + "/v1/models"@,
{
    join2(coordinator_url, "/v1/models")
}

/// The answer to a request for the list of models: the list, where the
/// coordinator sent one that could be read; 502 where it could not be
/// reached, 500 where its answer could not be read.
pub fn models_outcome<T>(reached: bool, list: Option<T>) -> (r: Result<T, u16>)
    ensures
        r == if !reached {
            Err::<T, u16>(BAD_GATEWAY)
        } else {
            match list {
                Some(list) => Ok::<T, u16>(list),
                None => Err::<T, u16>(INTERNAL_SERVER_ERROR),
            }
        },
{
    if !reached {
        Err(BAD_GATEWAY)
    } else {
        match list {
            Some(list) => Ok(list),
            None => Err(INTERNAL_SERVER_ERROR),
        }
    }
}

/// Where tickets are asked for.
pub fn authorize_url(coordinator_url: &str) -> (url: String)
    ensures
        url@ == coordinator_url@ + "/authorize"@,
{
    join2(coordinator_url, "/authorize")
}

/// The request for a ticket for `model`, in the name of this client.
pub fn authorization_request(config: &Config, model: &str) -> (request: AuthorizeRequest)
    ensures
        request.model@ == model@,
        request.requester@ == config.requester_id@,
{
    AuthorizeRequest { model: model.to_owned(), requester: config.requester_id.clone() }
}

/// The address of the chat endpoint of the worker at `target_ip`.
pub open spec fn worker_address(target_ip: Seq<char>) -> Seq<char> {
    "http://"@ + target_ip + ":8080/v1/chat/completions"@
}

/// The address of the chat endpoint of the worker at `target_ip`.
pub fn worker_url(target_ip: &str) -> (url: String)
    ensures
        url@ == worker_address(target_ip@),
{
    join3("http://", target_ip, ":8080/v1/chat/completions")
}

/// The `Authorization` header that shows `token`.
pub fn bearer_header(token: &str) -> (header: String)
    ensures
        header@ == "Bearer "@ + token@,
{
    join2("Bearer ", token)
}

/// What an answer of a worker with `status` counts as: a success from 200
/// to 299, else a worker that is unavailable. `shown` is the status as the
/// message is to show it.
pub fn check_worker_status(status: u16, shown: &str) -> (r: Result<(), TroopError>)
    ensures
        match r {
            Ok(_) => success(status),
            Err(e) => !success(status) && e.is_worker_unavailable(
                "Worker returned status "@ + shown@,
            ),
        },
{
    if is_success(status) {
        Ok(())
    } else {
        Err(TroopError::WorkerUnavailable(join2("Worker returned status ", shown)))
    }
}

// ---------------------------------------------------------------------------
// A chat request, step by step

/// How far a chat request has come.
#[derive(Debug, Clone, Copy, PartialEq, Eq, Structural)]
pub enum ChatState {
    /// The coordinator has been asked for a ticket.
    AwaitingTicket,
    /// The worker has been sent the request.
    AwaitingWorker,
    /// The worker has answered with this status, and its body is being read.
    AwaitingBody { status: u16 },
    /// The requester has its answer.
    Finished,
}

/// What happened to a chat request.
#[derive(Debug)]
pub enum ChatEvent {
    /// The attempts to get a ticket ended so.
    Ticket(TroopResult<AuthorizeResponse>),
    /// The attempts to reach the worker ended so: with the status of its
    /// answer, or an error.
    Worker(TroopResult<u16>),
    /// The body of the worker's answer was read, or could not be.
    Body(Option<Vec<u8>>),
}

/// What to do next for a chat request.
#[derive(Debug)]
pub enum ChatAction {
    /// Send the request to `url` with this `Authorization` header, and give
    /// up after `timeout` seconds.
    Dispatch { url: String, authorization: String, timeout: u64 },
    /// Read the body of the worker's answer.
    ReadBody,
    /// Answer with the worker's status and body.
    Respond { status: u16, body: Vec<u8> },
    /// Answer with this status and no body.
    Fail(u16),
}

/// Whether `action` and `next` are what follows `event` in `state`.
///
/// A ticket leads to the worker it names. A worker that answered has its
/// body read. The body goes back with the status it came with. A ticket
/// that could not be had, a worker that could not be reached and a body
/// that could not be read all end in 502; an event that does not fit the
/// state ends in 500.
pub open spec fn chat_follows(
    state: ChatState,
    event: ChatEvent,
    next: ChatState,
    action: ChatAction,
) -> bool {
    match (state, event) {
        (ChatState::AwaitingTicket, ChatEvent::Ticket(Ok(ticket))) => {
            &&& next == ChatState::AwaitingWorker
            &&& action matches ChatAction::Dispatch { url, authorization, timeout }
            &&& url@ == worker_address(ticket.target_ip@)
            &&& authorization@ == "Bearer "@ + ticket.token@
            &&& timeout == INFERENCE_TIMEOUT
        },
        (ChatState::AwaitingTicket, ChatEvent::Ticket(Err(_))) => {
            next == ChatState::Finished && action == ChatAction::Fail(BAD_GATEWAY)
        },
        (ChatState::AwaitingWorker, ChatEvent::Worker(Ok(status))) => {
            next == (ChatState::AwaitingBody { status }) && action == ChatAction::ReadBody
        },
        (ChatState::AwaitingWorker, ChatEvent::Worker(Err(_))) => {
            next == ChatState::Finished && action == ChatAction::Fail(BAD_GATEWAY)
        },
        (ChatState::AwaitingBody { status }, ChatEvent::Body(Some(body))) => {
            next == ChatState::Finished && action == (ChatAction::Respond { status, body })
        },
        (ChatState::AwaitingBody { .. }, ChatEvent::Body(None)) => {
            next == ChatState::Finished && action == ChatAction::Fail(BAD_GATEWAY)
        },
        _ => next == ChatState::Finished && action == ChatAction::Fail(INTERNAL_SERVER_ERROR),
    }
}

/// How a chat request begins: where the ticket is asked for, with what, and
/// after how many seconds the call gives up.
pub fn chat_start(config: &Config, model: &str) -> (start: (ChatState, String, AuthorizeRequest, u64))
    ensures
        start.0 == ChatState::AwaitingTicket,
        start.1@ == config.coordinator_url@ + "/authorize"@,
        start.2.model@ == model@,
        start.2.requester@ == config.requester_id@,
        start.3 == AUTH_TIMEOUT,
{
    (
        ChatState::AwaitingTicket,
        authorize_url(config.coordinator_url.as_str()),
        authorization_request(config, model),
        AUTH_TIMEOUT,
    )
}

/// What follows `event` in `state`.
pub fn chat_step(state: ChatState, event: ChatEvent) -> (r: (ChatState, ChatAction))
    ensures
        chat_follows(state, event, r.0, r.1),
{
    match (state, event) {
        (ChatState::AwaitingTicket, ChatEvent::Ticket(Ok(ticket))) => (
            ChatState::AwaitingWorker,
            ChatAction::Dispatch {
                url: worker_url(ticket.target_ip.as_str()),
                authorization: bearer_header(ticket.token.as_str()),
                timeout: INFERENCE_TIMEOUT,
            },
        ),
        (ChatState::AwaitingTicket, ChatEvent::Ticket(Err(_))) => (
            ChatState::Finished,
            ChatAction::Fail(BAD_GATEWAY),
        ),
        (ChatState::AwaitingWorker, ChatEvent::Worker(Ok(status))) => (
            ChatState::AwaitingBody { status },
            ChatAction::ReadBody,
        ),
        (ChatState::AwaitingWorker, ChatEvent::Worker(Err(_))) => (
            ChatState::Finished,
            ChatAction::Fail(BAD_GATEWAY),
        ),
        (ChatState::AwaitingBody { status }, ChatEvent::Body(Some(body))) => (
            ChatState::Finished,
            ChatAction::Respond { status, body },
        ),
        (ChatState::AwaitingBody { .. }, ChatEvent::Body(None)) => (
            ChatState::Finished,
            ChatAction::Fail(BAD_GATEWAY),
        ),
        _ => (ChatState::Finished, ChatAction::Fail(INTERNAL_SERVER_ERROR)),
    }
}

} // verus!

//! The worker's proxy: it checks the ticket of each request, finds the
//! engine that serves the model, and says how the answer is relayed.

use crate::shared::http::{BAD_GATEWAY, BAD_REQUEST, INTERNAL_SERVER_ERROR, NOT_FOUND, UNAUTHORIZED};
use crate::shared::json::{
    bool_field, flag_member, json_document, json_from_slice, json_members, number_field,
    number_member, text_field, text_member, Field, JsonMembers,
};
use crate::text::{decimal, has_prefix, join2, push_decimal, same_text, text_after};
use crate::worker::engines::ModelRegistry;
use vstd::prelude::*;

verus! {

// ---------------------------------------------------------------------------
// Tickets

#[verifier::external_type_specification]
#[verifier::external_body]
pub struct ExDecodingKey(jsonwebtoken::DecodingKey);

#[verifier::external_type_specification]
#[verifier::external_body]
pub struct ExValidation(jsonwebtoken::Validation);

#[verifier::external_type_specification]
#[verifier::external_body]
pub struct ExTicketError(jsonwebtoken::errors::Error);

/// The audience that a ticket must name for this worker to accept it.
pub open spec fn ticket_audience() -> Seq<char> {
    "troop-worker"@
}

/// How a ticket is signed.
#[derive(Debug, Clone, Copy, PartialEq, Eq, Structural)]
pub enum TicketAlgorithm {
    /// HMAC with SHA-256.
    Hs256,
    /// RSA with SHA-256.
    Rs256,
}

/// What a ticket claims.
#[derive(Debug)]
pub struct TicketClaims {
    /// Who asked.
    pub sub: String,
    /// Whom the ticket is for.
    pub aud: String,
    /// When the ticket expires, in seconds since the epoch.
    pub exp: u64,
}

/// The longest PEM text that is read as a key, in bytes. An RSA public key
/// of 16384 bits takes fewer.
pub const MAX_KEY_PEM_BYTES: usize = 4096;

/// Whether `pem` is PEM text that holds an RSA public key.
pub uninterp spec fn rsa_pem_holds_key(pem: Seq<u8>) -> bool;

/// `jsonwebtoken::DecodingKey::from_rsa_pem`: the RSA public key that the
/// PEM text holds, or the error where it holds none. Which texts hold one
/// is what `rsa_pem_holds_key` names; nothing is claimed of the key. The
/// reader goes as deep as the text is nested, so the text is kept short.
#[verifier::external_body]
fn rsa_key_from_pem(pem: &[u8]) -> (r: Result<jsonwebtoken::DecodingKey, jsonwebtoken::errors::Error>)
    requires
        pem@.len() <= MAX_KEY_PEM_BYTES,
    ensures
        r is Ok == rsa_pem_holds_key(pem@),
{
    jsonwebtoken::DecodingKey::from_rsa_pem(pem)
}

/// The algorithms with which a ticket may be signed to meet `rules`.
pub uninterp spec fn accepted_algorithms(rules: jsonwebtoken::Validation) -> Seq<TicketAlgorithm>;

/// The audiences of which a ticket that names one must name one to meet
/// `rules`; `None` where the rules were given none.
pub uninterp spec fn accepted_audiences(rules: jsonwebtoken::Validation) -> Option<
    Set<Seq<char>>,
>;

/// `jsonwebtoken::Validation::new`: the rules that accept tickets signed
/// with `algorithm` and no other, that ask for an expiry, and that were
/// given no audience yet.
#[verifier::external_body]
fn new_validation(algorithm: TicketAlgorithm) -> (v: jsonwebtoken::Validation)
    ensures
        accepted_algorithms(v) == seq![algorithm],
        accepted_audiences(v) is None,
{
    jsonwebtoken::Validation::new(
        match algorithm {
            TicketAlgorithm::Hs256 => jsonwebtoken::Algorithm::HS256,
            TicketAlgorithm::Rs256 => jsonwebtoken::Algorithm::RS256,
        },
    )
}

/// `jsonwebtoken::Validation::set_audience`: from now on `audience` is the
/// one audience that the rules were given; the algorithms stay. A ticket
/// that names an audience must then name this one. One that names none is
/// not refused by these rules.
#[verifier::external_body]
fn set_audience(validation: &mut jsonwebtoken::Validation, audience: &str)
    ensures
        accepted_algorithms(*final(validation)) == accepted_algorithms(*old(validation)),
        accepted_audiences(*final(validation)) == Some(set![audience@]),
{
    validation.set_audience(&[audience]);
}

/// `jsonwebtoken::decode` for a JSON document: the claims of `token`, where
/// its signature fits `key` and the claims meet `validation` at the time of
/// the call; else the error. Nothing is claimed of the outcome.
#[verifier::external_body]
fn decode_claims(
    token: &str,
    key: &jsonwebtoken::DecodingKey,
    validation: &jsonwebtoken::Validation,
) -> (r: Result<serde_json::Value, jsonwebtoken::errors::Error>) {
    jsonwebtoken::decode::<serde_json::Value>(token, key, validation).map(|data| data.claims)
}

/// The ticket that an `Authorization` header carries: what follows
/// `Bearer `. `None` where there is no header, or it does not begin so.
pub open spec fn bearer_of(header: Option<&str>) -> Option<Seq<char>> {
    match header {
        Some(h) => if "Bearer "@.is_prefix_of(h@) {
            Some(h@.skip(7))
        } else {
            None
        },
        None => None,
    }
}

/// The ticket that an `Authorization` header carries.
pub fn bearer_token(header: Option<&str>) -> (token: Option<String>)
    ensures
        match token {
            Some(t) => bearer_of(header) == Some(t@),
            None => bearer_of(header) is None,
        },
{
    match header {
        Some(h) => {
            if has_prefix(h, "Bearer ") {
                proof {
                    reveal_strlit("Bearer ");
                }
                Some(text_after(h, 7))
            } else {
                None
            }
        },
        None => None,
    }
}

/// What the client sends is what the worker reads: a header made of
/// `Bearer ` and a ticket carries that ticket.
pub proof fn law_bearer_round_trip(header: &str, ticket: Seq<char>)
    requires
        header@ == "Bearer "@ + ticket,
    ensures
        bearer_of(Some(header)) == Some(ticket),
{
    reveal_strlit("Bearer ");
    assert("Bearer "@.is_prefix_of(header@)) by {
        assert(header@.subrange(0, 7) =~= "Bearer "@);
    }
    assert(header@.skip(7) =~= ticket);
}

/// The key with which tickets are checked, read from the PEM text that the
/// coordinator sent. `None` where the text holds no RSA public key, or is
/// longer than `MAX_KEY_PEM_BYTES` and so is not read at all.
pub fn parse_public_key(pem: &[u8]) -> (key: Option<jsonwebtoken::DecodingKey>)
    ensures
        key is Some == (pem@.len() <= MAX_KEY_PEM_BYTES && rsa_pem_holds_key(pem@)),
{
    if pem.len() > MAX_KEY_PEM_BYTES {
        return None;
    }
    match rsa_key_from_pem(pem) {
        Ok(key) => Some(key),
        Err(_) => None,
    }
}

/// The rules that a ticket must meet: signed with RS256, not expired, and,
/// where it names an audience, for this worker.
pub fn ticket_rules() -> (rules: jsonwebtoken::Validation)
    ensures
        accepted_algorithms(rules) == seq![TicketAlgorithm::Rs256],
        accepted_audiences(rules) == Some(set![ticket_audience()]),
{
    let mut rules = new_validation(TicketAlgorithm::Rs256);
    set_audience(&mut rules, "troop-worker");
    rules
}

/// Subject and expiry of the claims among `members`: the text under `sub`
/// and the number under `exp`, where both are there and the text under
/// `aud` is this worker's audience. `None` where a claim is absent or of
/// another type, or the audience is another.
pub open spec fn ticket_claims_in(members: JsonMembers) -> Option<(Seq<char>, u64)> {
    match (
        text_member(members, "sub"@),
        text_member(members, "aud"@),
        number_member(members, "exp"@),
    ) {
        (Field::Present(sub), Field::Present(aud), Field::Present(exp)) => if aud
            == ticket_audience() {
            Some((sub, exp))
        } else {
            None
        },
        _ => None,
    }
}

/// The claims of a ticket, read out of the document that its payload
/// holds; 401 where subject, audience or expiry is absent or of another
/// type, or the audience is not this worker's.
pub fn claims_in(doc: &serde_json::Value) -> (r: Result<TicketClaims, u16>)
    ensures
        match r {
            Ok(claims) => ticket_claims_in(json_members(*doc)) == Some((claims.sub@, claims.exp))
                && claims.aud@ == ticket_audience(),
            Err(status) => status == UNAUTHORIZED && ticket_claims_in(json_members(*doc)) is None,
        },
{
    admit_claims(text_field(doc, "sub"), text_field(doc, "aud"), number_field(doc, "exp"))
}

/// What is made of the claims that were read out of a ticket whose
/// signature and expiry were found in order.
pub open spec fn claims_verdict(
    sub: Field<String>,
    aud: Field<String>,
    exp: Field<u64>,
) -> Result<TicketClaims, u16> {
    match (sub, aud, exp) {
        (Field::Present(sub), Field::Present(aud), Field::Present(exp)) => if aud@
            == ticket_audience() {
            Ok(TicketClaims { sub, aud, exp })
        } else {
            Err(UNAUTHORIZED)
        },
        _ => Err(UNAUTHORIZED),
    }
}

/// The claims of a ticket whose signature and expiry were found in order:
/// subject, audience and expiry must all be there, and the audience must be
/// this worker's. Anything else is refused with 401.
pub fn admit_claims(sub: Field<String>, aud: Field<String>, exp: Field<u64>) -> (r: Result<
    TicketClaims,
    u16,
>)
    ensures
        r == claims_verdict(sub, aud, exp),
        r matches Ok(claims) ==> claims.aud@ == ticket_audience(),
        r matches Err(status) ==> status == UNAUTHORIZED,
{
    match (sub, aud, exp) {
        (Field::Present(sub), Field::Present(aud), Field::Present(exp)) => {
            if same_text(aud.as_str(), "troop-worker") {
                Ok(TicketClaims { sub, aud, exp })
            } else {
                Err(UNAUTHORIZED)
            }
        },
        _ => Err(UNAUTHORIZED),
    }
}

/// Checks the ticket of a request. `header` is the `Authorization` header,
/// where the request has one that is text; `key` is the coordinator's
/// public key, where it was loaded.
///
/// A request without a ticket is refused with 401, before the key is looked
/// at. Without a key the answer is 500. A ticket is accepted only where it
/// is signed with RS256 by that key, has not expired, and names this worker
/// as its audience; any other is refused with 401.
pub fn verify_ticket(header: Option<&str>, key: Option<&jsonwebtoken::DecodingKey>) -> (r: Result<
    TicketClaims,
    u16,
>)
    ensures
        bearer_of(header) is None ==> r == Err::<TicketClaims, u16>(UNAUTHORIZED),
        bearer_of(header) is Some && key is None ==> r == Err::<TicketClaims, u16>(
            INTERNAL_SERVER_ERROR,
        ),
        bearer_of(header) is Some && key is Some ==> (r matches Err(status) ==> status
            == UNAUTHORIZED),
        r matches Ok(claims) ==> claims.aud@ == ticket_audience(),
{
    let token = match bearer_token(header) {
        Some(token) => token,
        None => {
            return Err(UNAUTHORIZED);
        },
    };
    let key = match key {
        Some(key) => key,
        None => {
            return Err(INTERNAL_SERVER_ERROR);
        },
    };
    let rules = ticket_rules();
    match decode_claims(token.as_str(), key, &rules) {
        Ok(doc) => claims_in(&doc),
        Err(_) => Err(UNAUTHORIZED),
    }
}

// ---------------------------------------------------------------------------
// Requests

/// What the proxy reads out of the body of a request.
#[derive(Debug)]
pub struct InferenceRequest {
    pub model: String,
    pub stream: bool,
}

/// The request that a body with these fields makes. The model must be
/// there, as text. Whether to stream must be a truth value where it is
/// there, and is `false` where it is not.
pub open spec fn request_of(model: Field<String>, stream: Field<bool>) -> Option<InferenceRequest> {
    match (model, stream) {
        (Field::Present(model), Field::Present(stream)) => Some(InferenceRequest { model, stream }),
        (Field::Present(model), Field::Missing) => Some(InferenceRequest { model, stream: false }),
        _ => None,
    }
}

/// The model and the wish to stream of the request that a document makes:
/// the text under `model`, and the truth value under `stream`, or `false`
/// where the document has no such member. `None` where there is no
/// document, no model that is text, or a `stream` that is no truth value.
pub open spec fn request_in(document: Option<JsonMembers>) -> Option<(Seq<char>, bool)> {
    match document {
        Some(members) => match (text_member(members, "model"@), flag_member(members, "stream"@)) {
            (Field::Present(model), Field::Present(stream)) => Some((model, stream)),
            (Field::Present(model), Field::Missing) => Some((model, false)),
            _ => None,
        },
        None => None,
    }
}

impl InferenceRequest {
    /// The request that a body with these fields makes.
    pub fn from_fields(model: Field<String>, stream: Field<bool>) -> (r: Option<InferenceRequest>)
        ensures
            r == request_of(model, stream),
            stream is Missing ==> (r matches Some(request) ==> !request.stream),
    {
        match (model, stream) {
            (Field::Present(model), Field::Present(stream)) => Some(
                InferenceRequest { model, stream },
            ),
            (Field::Present(model), Field::Missing) => Some(
                InferenceRequest { model, stream: false },
            ),
            _ => None,
        }
    }

    /// The request that `body` makes; `None` where the body is no JSON, or
    /// its fields are not those of a request.
    pub fn parse(body: &[u8]) -> (r: Option<InferenceRequest>)
        ensures
            match r {
                Some(request) => request_in(json_document(body@)) == Some(
                    (request.model@, request.stream),
                ),
                None => request_in(json_document(body@)) is None,
            },
    {
        match json_from_slice(body) {
            Ok(doc) => InferenceRequest::from_fields(
                text_field(&doc, "model"),
                bool_field(&doc, "stream"),
            ),
            Err(_) => None,
        }
    }
}

/// Where a request is sent on.
#[derive(Debug)]
pub struct ForwardPlan {
    /// The address: that of the engine, followed by the path of the request.
    pub target_url: String,
    /// The content type to send the body with.
    pub content_type: &'static str,
    /// Whether the answer is to be streamed.
    pub stream: bool,
}

/// Where `request` is sent on, or the status with which it is refused: 400
/// where the body could not be read as a request, 404 where no engine
/// serves the model.
pub fn plan_forward(request: Option<&InferenceRequest>, registry: &ModelRegistry, path: &str) -> (r:
    Result<ForwardPlan, u16>)
    ensures
        match request {
            None => r == Err::<ForwardPlan, u16>(BAD_REQUEST),
            Some(request) => if registry@.routes.contains_key(request.model@) {
                &&& r matches Ok(plan)
                &&& plan.target_url@ == registry@.routes[request.model@] + path@
                &&& plan.content_type@ == "application/json"@
                &&& plan.stream == request.stream
            } else {
                r == Err::<ForwardPlan, u16>(NOT_FOUND)
            },
        },
{
    let request = match request {
        Some(request) => request,
        None => {
            return Err(BAD_REQUEST);
        },
    };
    match registry.get_engine_url(request.model.as_str()) {
        Some(engine_url) => Ok(
            ForwardPlan {
                target_url: join2(engine_url.as_str(), path),
                content_type: "application/json",
                stream: request.stream,
            },
        ),
        None => Err(NOT_FOUND),
    }
}

/// How the answer of an engine goes back to the requester.
#[derive(Debug)]
pub struct RelayPlan {
    /// The status of the answer: that of the engine.
    pub status: u16,
    /// The headers of the answer.
    pub headers: Vec<(&'static str, &'static str)>,
    /// Whether the body is passed on as it arrives, without being gathered
    /// first.
    pub streamed: bool,
}

/// The headers as text.
pub open spec fn header_texts(headers: Seq<(&'static str, &'static str)>) -> Seq<
    (Seq<char>, Seq<char>),
> {
    headers.map_values(|h: (&'static str, &'static str)| (h.0@, h.1@))
}

/// The headers of a relayed answer.
pub open spec fn relay_header_texts(stream: bool) -> Seq<(Seq<char>, Seq<char>)> {
    if stream {
        seq![
            ("Content-Type"@, "text/event-stream"@),
            ("Cache-Control"@, "no-cache"@),
            ("Connection"@, "keep-alive"@),
        ]
    } else {
        seq![("Content-Type"@, "application/json"@)]
    }
}

/// How the answer of an engine goes back, where the requester did or did
/// not ask for a stream and the engine answered with `upstream`; 502 where
/// the engine could not be reached.
pub fn plan_relay(stream: bool, upstream: Option<u16>) -> (r: Result<RelayPlan, u16>)
    ensures
        match upstream {
            None => r == Err::<RelayPlan, u16>(BAD_GATEWAY),
            Some(status) => {
                &&& r matches Ok(plan)
                &&& plan.status == status
                &&& plan.streamed == stream
                &&& header_texts(plan.headers@) == relay_header_texts(stream)
            },
        },
{
    match upstream {
        None => Err(BAD_GATEWAY),
        Some(status) => {
            let mut headers: Vec<(&'static str, &'static str)> = Vec::new();
            if stream {
                headers.push(("Content-Type", "text/event-stream"));
                headers.push(("Cache-Control", "no-cache"));
                headers.push(("Connection", "keep-alive"));
            } else {
                headers.push(("Content-Type", "application/json"));
            }
            assert(header_texts(headers@) =~= relay_header_texts(stream));
            Ok(RelayPlan { status, headers, streamed: stream })
        },
    }
}

/// The body of an answer that was gathered before it goes back, or 502
/// where gathering it failed.
pub fn gathered_body(body: Option<Vec<u8>>) -> (r: Result<Vec<u8>, u16>)
    ensures
        r == match body {
            Some(bytes) => Ok::<Vec<u8>, u16>(bytes),
            None => Err::<Vec<u8>, u16>(BAD_GATEWAY),
        },
{
    match body {
        Some(bytes) => Ok(bytes),
        None => Err(BAD_GATEWAY),
    }
}

// ---------------------------------------------------------------------------
// Start-up

/// The address on which the proxy listens: every interface, at `port`.
pub fn listen_address(port: u16) -> (addr: String)
    ensures
        addr@ == "0.0.0.0:"@ + decimal(port as nat),
{
    let mut addr = "0.0.0.0:".to_owned();
    push_decimal(&mut addr, port as u64);
    addr
}

/// Where the coordinator's public key is fetched.
pub fn public_key_url(coordinator_url: &str) -> (url: String)
    ensures
        url@ == coordinator_url@ + "/public-key"@,
{
    join2(coordinator_url, "/public-key")
}

} // verus!

//! What each request is answered with.
//!
//! Answering takes one outbound call at most, and this module makes none. It
//! decides in two steps: `begin` reads the request and either answers it or
//! asks for the version document; the caller fetches the document from
//! `VERSIONS_URL` and hands the outcome to `finish`, which gives the answer.

use crate::location::{parse_url, parsed_url, parsed_view};
use crate::version::{
    channel_named, fetched_view, get_source_url, invalid_target_message, resolved_view, source_url,
    version_from, version_from_target, Failure, FirefoxTargets, FirefoxVersionAPI, VersionDocument,
    VersionError,
};
use vstd::prelude::*;

verus! {

/// The routes that take a target.
#[derive(Clone, Copy, Debug, PartialEq, Eq, Structural)]
pub enum Endpoint {
    /// `/version/{target}`: the version, as text.
    Version,
    /// `/source/{target}`: a redirect to the source archive.
    Source,
    /// `/source/{target}/url`: the URL of the source archive, as text.
    SourceUrl,
}

/// An answer to a request.
#[derive(Clone, Debug, PartialEq, Eq)]
pub enum Reply {
    /// Status 200 with a plain-text body.
    Text(String),
    /// Status 302 with the location to go to.
    Redirect(String),
    /// An error status with a message as the body.
    Error { status: u16, message: String },
    /// No reply could be made, for the reason given. The host reports this
    /// to the client as its own failure, with status 500 and in its own
    /// words.
    Failed(String),
}

/// A `Reply` as contracts see it.
pub enum ReplyView {
    Text(Seq<char>),
    Redirect(Seq<char>),
    Error { status: u16, message: Seq<char> },
    Failed(Seq<char>),
}

impl ReplyView {
    /// The HTTP status that the reply goes out with.
    pub open spec fn status(self) -> u16 {
        match self {
            ReplyView::Text(_) => 200,
            ReplyView::Redirect(_) => 302,
            ReplyView::Error { status, .. } => status,
            ReplyView::Failed(_) => 500,
        }
    }
}

impl View for Reply {
    type V = ReplyView;

    open spec fn view(&self) -> ReplyView {
        match self {
            Reply::Text(body) => ReplyView::Text(body@),
            Reply::Redirect(location) => ReplyView::Redirect(location@),
            Reply::Error { status, message } => ReplyView::Error {
                status: *status,
                message: message@,
            },
            Reply::Failed(reason) => ReplyView::Failed(reason@),
        }
    }
}

impl Reply {
    /// The HTTP status that the reply goes out with.
    pub fn status(&self) -> (status: u16)
        ensures
            status == self@.status(),
    {
        match self {
            Reply::Text(_) => 200,
            Reply::Redirect(_) => 302,
            Reply::Error { status, .. } => *status,
            Reply::Failed(_) => 500,
        }
    }
}

/// What is to be done with a request next.
#[derive(Clone, Debug, PartialEq, Eq)]
pub enum Step {
    /// Fetch the version document, then `finish` for this channel.
    Fetch(FirefoxTargets),
    /// Send this reply: no fetch is needed.
    Respond(Reply),
}

/// A `Step` as contracts see it.
pub enum StepView {
    Fetch(FirefoxTargets),
    Respond(ReplyView),
}

impl View for Step {
    type V = StepView;

    open spec fn view(&self) -> StepView {
        match self {
            Step::Fetch(channel) => StepView::Fetch(*channel),
            Step::Respond(reply) => StepView::Respond(reply@),
        }
    }
}

/// The reply to a request whose route matched without a target.
pub open spec fn bad_request() -> ReplyView {
    ReplyView::Error { status: 400, message: "Bad Request"@ }
}

/// The body of the reply that reports `failure`. The version route sends the
/// failure's own text; the source routes say first what they were doing.
pub open spec fn failure_text(endpoint: Endpoint, failure: Failure) -> Seq<char> {
    match endpoint {
        Endpoint::Version => failure.message(),
        Endpoint::Source | Endpoint::SourceUrl => "Error finding version: "@ + failure.message(),
    }
}

/// The redirect to a location that the URL parser has been given: to the
/// URL that it read, or no reply where it read none.
pub open spec fn redirect_to(parsed: Result<Seq<char>, Seq<char>>) -> ReplyView {
    match parsed {
        Ok(location) => ReplyView::Redirect(location),
        Err(reason) => ReplyView::Failed(reason),
    }
}

/// The reply of `endpoint` to the outcome of looking up a version. A version
/// is sent as it is, as a redirect to its source archive, or as the URL of
/// that archive. Every failure, an unknown target too, is reported with
/// status 500.
pub open spec fn reply_to(endpoint: Endpoint, resolved: Result<Seq<char>, Failure>) -> ReplyView {
    match resolved {
        Ok(version) => match endpoint {
            Endpoint::Version => ReplyView::Text(version),
            Endpoint::Source => redirect_to(parsed_url(source_url(version))),
            Endpoint::SourceUrl => ReplyView::Text(source_url(version)),
        },
        Err(failure) => ReplyView::Error { status: 500, message: failure_text(endpoint, failure) },
    }
}

/// The reply of `endpoint` to a request with this target, given how the
/// fetch of the version document ended.
pub open spec fn answer(
    endpoint: Endpoint,
    target: Option<Seq<char>>,
    fetched: Result<VersionDocument, Seq<char>>,
) -> ReplyView {
    match target {
        Some(name) => reply_to(endpoint, version_from_target(name, fetched)),
        None => bad_request(),
    }
}

/// What `begin` decides: a request without a target, or with one that names
/// no channel, is answered at once; for a channel the document is fetched.
pub open spec fn first_step(endpoint: Endpoint, target: Option<Seq<char>>) -> StepView {
    match target {
        Some(name) => match channel_named(name) {
            Some(channel) => StepView::Fetch(channel),
            None => StepView::Respond(
                reply_to(endpoint, Err(Failure::InvalidChannel(invalid_target_message(name)))),
            ),
        },
        None => StepView::Respond(bad_request()),
    }
}

/// What `finish` decides: the reply to the version of `channel`, or to the
/// failure of the fetch.
pub open spec fn last_step(
    endpoint: Endpoint,
    channel: FirefoxTargets,
    fetched: Result<VersionDocument, Seq<char>>,
) -> ReplyView {
    reply_to(endpoint, version_from(channel, fetched))
}

/// Makes the redirect to a location out of what the URL parser made of it.
pub fn redirect(parsed: Result<String, String>) -> (reply: Reply)
    ensures
        reply@ == redirect_to(parsed_view(parsed)),
{
    match parsed {
        Ok(location) => Reply::Redirect(location),
        Err(reason) => Reply::Failed(reason),
    }
}

/// Turns the outcome of looking up a version into the reply of `endpoint`.
pub fn respond(endpoint: Endpoint, resolved: Result<String, VersionError>) -> (reply: Reply)
    ensures
        reply@ == reply_to(endpoint, resolved_view(resolved)),
{
    match resolved {
        Ok(version) => match endpoint {
            Endpoint::Version => Reply::Text(version),
            Endpoint::Source => {
                let location = get_source_url(version);
                redirect(parse_url(location.as_str()))
            },
            Endpoint::SourceUrl => Reply::Text(get_source_url(version)),
        },
        Err(error) => {
            let message = match endpoint {
                Endpoint::Version => error.message(),
                Endpoint::Source | Endpoint::SourceUrl => {
                    let text = error.message();
                    String::from_str("Error finding version: ").concat(text.as_str())
                },
            };
            Reply::Error { status: 500, message }
        },
    }
}

/// Reads a request to `endpoint`. `target` is the path segment that the
/// route matched as the target, if it matched one.
pub fn begin(endpoint: Endpoint, target: Option<&String>) -> (step: Step)
    ensures
        step@ == first_step(
            endpoint,
            match target {
                Some(name) => Some(name@),
                None => None,
            },
        ),
{
    match target {
        Some(name) => match FirefoxTargets::try_from(name) {
            Ok(channel) => Step::Fetch(channel),
            Err(message) => Step::Respond(
                respond(endpoint, Err(VersionError::InvalidChannel(message))),
            ),
        },
        None => Step::Respond(
            Reply::Error { status: 400, message: String::from_str("Bad Request") },
        ),
    }
}

/// Answers a request to `endpoint` for `channel`, once the version document
/// has been fetched. `fetched` is what the fetch gave: the document, or the
/// text of the error that it ended with.
pub fn finish(
    endpoint: Endpoint,
    channel: FirefoxTargets,
    fetched: Result<FirefoxVersionAPI, String>,
) -> (reply: Reply)
    ensures
        reply@ == last_step(endpoint, channel, fetched_view(fetched)),
{
    respond(endpoint, channel.get_version(fetched))
}

/// The two steps give the answer. A reply that `begin` decides on is the
/// answer whatever a fetch would have given, so none is made; and where
/// `begin` asks for the document, the target names the channel that it
/// passes on, and `finish` for that channel gives the answer.
pub proof fn lemma_steps_give_answer(
    endpoint: Endpoint,
    target: Option<Seq<char>>,
    fetched: Result<VersionDocument, Seq<char>>,
)
    ensures
        match first_step(endpoint, target) {
            StepView::Respond(reply) => reply == answer(endpoint, target, fetched),
            StepView::Fetch(channel) => {
                &&& target matches Some(name) && channel_named(name) == Some(channel)
                &&& last_step(endpoint, channel, fetched) == answer(endpoint, target, fetched)
            },
        },
{
}

/// Where the document was fetched, each route answers with the version that
/// the document gives for the channel: the version route with the version as
/// the body, the URL route with the URL of the version's source archive as
/// the body, both with status 200, and the redirecting route with a redirect
/// to what the URL parser makes of that same URL.
pub proof fn lemma_replies_to_a_version(channel: FirefoxTargets, document: VersionDocument)
    ensures
        last_step(Endpoint::Version, channel, Ok(document)) == ReplyView::Text(
            document.version(channel),
        ),
        last_step(Endpoint::Version, channel, Ok(document)).status() == 200,
        last_step(Endpoint::SourceUrl, channel, Ok(document)) == ReplyView::Text(
            source_url(document.version(channel)),
        ),
        last_step(Endpoint::SourceUrl, channel, Ok(document)).status() == 200,
        last_step(Endpoint::Source, channel, Ok(document)) == redirect_to(
            parsed_url(source_url(document.version(channel))),
        ),
{
}

/// A redirect goes out with status 302 and the location that the URL parser
/// wrote. So where the parser reads the URL of the source archive as it is
/// written, the redirecting route answers with status 302 and that very URL
/// as the location.
pub proof fn lemma_redirect_location(channel: FirefoxTargets, document: VersionDocument)
    ensures
        ({
            let archive = source_url(document.version(channel));
            let reply = last_step(Endpoint::Source, channel, Ok(document));
            &&& reply is Redirect ==> reply.status() == 302
            &&& parsed_url(archive) is Ok ==> reply == ReplyView::Redirect(parsed_url(archive)->Ok_0)
            &&& parsed_url(archive) == Ok::<Seq<char>, Seq<char>>(archive) ==> reply
                == ReplyView::Redirect(archive)
        }),
{
}

/// Whatever goes wrong after the route has matched a target is reported with
/// status 500: an unknown target and a failed fetch alike.
pub proof fn lemma_failures_are_500(
    endpoint: Endpoint,
    name: Seq<char>,
    fetched: Result<VersionDocument, Seq<char>>,
)
    requires
        version_from_target(name, fetched) is Err,
    ensures
        answer(endpoint, Some(name), fetched) == (ReplyView::Error {
            status: 500,
            message: failure_text(endpoint, version_from_target(name, fetched)->Err_0),
        }),
{
}

} // verus!

//! From a request line to the reply, up to the one read of a document that
//! the caller performs.

use crate::config::{Config, ConfigView};
use crate::policy::{authorization, authorize};
use crate::request::{parse_outcome, parse_request, parsed_url, RequestUrl, UrlView};
use crate::resolver::{file_reply, location, resolve, FileOutcomeView};
use crate::response::{Response, ResponseView};
use crate::status::Status;
use crate::text::{decimal, decimal_string};
use vstd::prelude::*;
use vstd::string::*;

verus! {

/// What to do about a request once it is parsed and authorized.
#[derive(Debug, PartialEq, Eq)]
pub enum Plan {
    /// The reply is settled: the request was rejected or refused.
    Reply(Response),
    /// The reply depends on the document at `location`: read it and hand
    /// the outcome to `file_response`.
    Fetch { location: String },
}

/// A plan as contracts see it.
pub enum PlanView {
    Reply(ResponseView),
    Fetch { location: Seq<char> },
}

impl View for Plan {
    type V = PlanView;

    open spec fn view(&self) -> PlanView {
        match self {
            Plan::Reply(response) => PlanView::Reply(response@),
            Plan::Fetch { location } => PlanView::Fetch { location: location@ },
        }
    }
}

/// The plan for a parsed URL: a refusal with `Status::ProxyRequestRefused`
/// unless the URL is authorized, else the location of its document.
pub open spec fn route_plan(url: UrlView, config: ConfigView) -> PlanView {
    match authorization(url, config) {
        Err(refusal) => PlanView::Reply(
            ResponseView::failure(Status::ProxyRequestRefused, refusal.reason()),
        ),
        Ok(_) => PlanView::Fetch { location: location(config.root, url.path) },
    }
}

/// The plan for a request line that the URL parser made `parsed` of: a
/// rejection with `Status::BadRequest` unless the line is valid, else the
/// plan for its URL.
pub open spec fn request_plan(
    line: Seq<char>,
    parsed: Option<UrlView>,
    config: ConfigView,
) -> PlanView {
    match parse_outcome(line, parsed) {
        Err(reason) => PlanView::Reply(ResponseView::failure(Status::BadRequest, reason)),
        Ok(url) => route_plan(url, config),
    }
}

/// The response to a request line, where `documents` tells for every
/// location what reading it gives.
pub open spec fn reply_to(
    line: Seq<char>,
    parsed: Option<UrlView>,
    config: ConfigView,
    documents: spec_fn(Seq<char>) -> FileOutcomeView,
) -> ResponseView {
    match request_plan(line, parsed, config) {
        PlanView::Reply(response) => response,
        PlanView::Fetch { location } => file_reply(documents(location)),
    }
}

/// Authorizes a parsed URL and maps its path to the location to read.
pub fn route(url: &RequestUrl, config: &Config) -> (plan: Plan)
    ensures
        plan@ == route_plan(url@, config@),
        plan matches Plan::Reply(response) ==> response@.well_formed(),
{
    match authorize(url, config) {
        Err(refusal) => Plan::Reply(
            Response::failure(Status::ProxyRequestRefused, refusal.message()),
        ),
        Ok(_) => Plan::Fetch { location: resolve(config.root(), url.path.as_str()) },
    }
}

/// Handles a request line up to the read of the document: validates and
/// parses it, authorizes the URL and maps its path.
pub fn process_request(request: String, config: &Config) -> (plan: Plan)
    ensures
        plan@ == request_plan(request@, parsed_url(request@), config@),
        plan matches Plan::Reply(response) ==> response@.well_formed(),
{
    match parse_request(request) {
        Ok(url) => route(&url, config),
        Err(reason) => Plan::Reply(Response::failure(Status::BadRequest, reason)),
    }
}

/// The record of a completed request: what happened, then the request line.
pub open spec fn record_text(status: Status, line: Seq<char>) -> Seq<char> {
    match status {
        Status::Success => "Request: ["@ + decimal(status.code() as nat) + "] "@ + line,
        Status::BadRequest => "BadRequest: "@ + line,
        Status::NotFound => "Not found: "@ + line,
        _ => "Not able to process request: "@ + line,
    }
}

/// Writes the record of a completed request for the operator's log.
pub fn record(status: Status, request_line: &str) -> (text: String)
    ensures
        text@ == record_text(status, request_line@),
{
    match status {
        Status::Success => {
            let mut text = "Request: [".to_owned();
            text.append(decimal_string(status.code()).as_str());
            text.append("] ");
            text.append(request_line);
            text
        },
        Status::BadRequest => "BadRequest: ".to_owned().concat(request_line),
        Status::NotFound => "Not found: ".to_owned().concat(request_line),
        _ => "Not able to process request: ".to_owned().concat(request_line),
    }
}

} // verus!

use vstd::prelude::*;
use crate::error::{ClientError, RedeemFailure};
use crate::cookies::cookie_pairs;
use crate::header::{ascii_chars, header_bytes_of, header_text, session_cookie_headers, visible_text};
use crate::session::{is_success_status, success_status, SessionRecord};

verus! {

/// The input sent with a redeem when none is given. The remote service
/// expects this exact text.
pub const DEFAULT_INPUT: &'static str = "undefined";

/// The input a redeem sends: the given one, else the default text.
pub fn resolve_input(input: Option<String>) -> (r: String)
    ensures
        input matches Some(s) ==> r@ == s@,
        input is None ==> r@ == DEFAULT_INPUT@,
{
    match input {
        Some(s) => s,
        None => DEFAULT_INPUT.to_owned(),
    }
}

/// How a redeem is dispatched.
#[derive(Debug, Clone, Copy, PartialEq, Eq, Structural)]
pub enum RedeemPlan {
    /// One request, whose outcome is reported.
    Single,
    /// `count` requests, one launched every `period_ms` milliseconds.
    Burst { period_ms: u64, count: usize },
}

impl RedeemPlan {
    /// Burst mode needs both a period and a count; with either missing the
    /// redeem is a single request.
    pub fn from_options(period_ms: Option<u64>, count: Option<usize>) -> (r: RedeemPlan)
        ensures
            r == (match (period_ms, count) {
                (Some(p), Some(c)) => RedeemPlan::Burst { period_ms: p, count: c },
                _ => RedeemPlan::Single,
            }),
    {
        match (period_ms, count) {
            (Some(p), Some(c)) => RedeemPlan::Burst { period_ms: p, count: c },
            _ => RedeemPlan::Single,
        }
    }
}

/// One redeem command: what to redeem, the input to send, and the plan.
#[derive(Debug, Clone)]
pub struct RedeemRequest {
    pub name: String,
    pub input: String,
    pub plan: RedeemPlan,
}

impl RedeemRequest {
    /// Gathers the options of a redeem command, filling in the defaults.
    pub fn new(name: String, input: Option<String>, period_ms: Option<u64>, count: Option<usize>) -> (r: RedeemRequest)
        ensures
            r.name@ == name@,
            input matches Some(s) ==> r.input@ == s@,
            input is None ==> r.input@ == DEFAULT_INPUT@,
            r.plan == (match (period_ms, count) {
                (Some(p), Some(c)) => RedeemPlan::Burst { period_ms: p, count: c },
                _ => RedeemPlan::Single,
            }),
    {
        RedeemRequest { name, input: resolve_input(input), plan: RedeemPlan::from_options(period_ms, count) }
    }

    /// The multipart form fields of a submission, in order: `name`, then `input`.
    pub fn form_fields(&self) -> (r: Vec<(String, String)>)
        ensures
            r@.len() == 2,
            r@[0].0@ == "name"@,
            r@[0].1@ == self.name@,
            r@[1].0@ == "input"@,
            r@[1].1@ == self.input@,
    {
        let mut fields: Vec<(String, String)> = Vec::new();
        fields.push(("name".to_owned(), self.name.clone()));
        fields.push(("input".to_owned(), self.input.clone()));
        fields
    }
}

/// The result of one redeem submission.
#[derive(Debug, Clone)]
pub enum Outcome {
    Success,
    /// The endpoint answered with this non-success status.
    Failure(u16),
    /// No response came; the cause as text.
    Error(String),
}

impl Outcome {
    /// The outcome of a submission that got a response with this status.
    pub fn from_status(status: u16) -> (r: Outcome)
        ensures
            success_status(status) ==> r is Success,
            !success_status(status) ==> (r matches Outcome::Failure(s) && s == status),
    {
        if is_success_status(status) {
            Outcome::Success
        } else {
            Outcome::Failure(status)
        }
    }
}

/// What a single-mode redeem reports: success only on a success outcome, and
/// otherwise the status or the transport cause.
pub fn single_result(outcome: Outcome) -> (r: Result<(), ClientError>)
    ensures
        r is Ok <==> outcome is Success,
        outcome matches Outcome::Failure(s) ==> (r matches Err(ClientError::RedeemFailed(RedeemFailure::Status(t))) && t == s),
        outcome matches Outcome::Error(c) ==> (r matches Err(ClientError::RedeemFailed(RedeemFailure::Transport(d))) && d@ == c@),
{
    match outcome {
        Outcome::Success => Ok(()),
        Outcome::Failure(s) => Err(ClientError::RedeemFailed(RedeemFailure::Status(s))),
        Outcome::Error(c) => Err(ClientError::RedeemFailed(RedeemFailure::Transport(c))),
    }
}

/// What was found where the session is stored.
#[derive(Debug, Clone)]
pub enum StoredSession {
    /// Nothing is stored: no login has succeeded yet.
    Missing,
    /// The store exists but could not be read; the cause as text.
    Unreadable(String),
    /// The stored text is not a session record; the cause as text.
    Corrupt(String),
    Present(SessionRecord),
}

/// A redeem ready to be sent: the cookie headers to seed the client with,
/// one per stored cookie pair, and the request.
#[derive(Debug)]
pub struct RedeemJob {
    pub cookies: Vec<reqwest::header::HeaderValue>,
    pub request: RedeemRequest,
}

/// Checks the stored session before any request is made. Without a stored
/// session the redeem fails as unauthenticated; stored cookie text without a
/// pair, or with a pair that is not a valid header, makes the session unusable.
pub fn prepare_redeem(stored: StoredSession, request: RedeemRequest) -> (r: Result<RedeemJob, ClientError>)
    ensures
        stored is Missing ==> r matches Err(ClientError::NotAuthenticated),
        stored matches StoredSession::Unreadable(c) ==> (r matches Err(ClientError::Storage(d)) && d@ == c@),
        stored matches StoredSession::Corrupt(c) ==> (r matches Err(ClientError::CorruptSession(d)) && d@ == c@),
        stored matches StoredSession::Present(rec) ==> {
            &&& (r is Ok <==> {
                &&& cookie_pairs(rec.cookies@).len() > 0
                &&& forall|j: int| 0 <= j < cookie_pairs(rec.cookies@).len() ==> header_text(#[trigger] cookie_pairs(rec.cookies@)[j])
            })
            &&& (r is Err ==> r matches Err(ClientError::InvalidSessionFormat))
            &&& (r matches Ok(job) ==> {
                &&& job.cookies@.len() == cookie_pairs(rec.cookies@).len()
                &&& forall|j: int|
                    0 <= j < job.cookies@.len() && visible_text(cookie_pairs(rec.cookies@)[j]) ==> ascii_chars(
                        header_bytes_of(#[trigger] job.cookies@[j]),
                    ) == cookie_pairs(rec.cookies@)[j]
            })
        },
        r matches Ok(job) ==> {
            &&& job.request.name@ == request.name@
            &&& job.request.input@ == request.input@
            &&& job.request.plan == request.plan
        },
{
    match stored {
        StoredSession::Missing => Err(ClientError::NotAuthenticated),
        StoredSession::Unreadable(c) => Err(ClientError::Storage(c)),
        StoredSession::Corrupt(c) => Err(ClientError::CorruptSession(c)),
        StoredSession::Present(rec) => match session_cookie_headers(&rec.cookies) {
            Ok(cookies) => Ok(RedeemJob { cookies, request }),
            Err(e) => Err(e),
        },
    }
}

} // verus!

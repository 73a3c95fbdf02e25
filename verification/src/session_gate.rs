//! The session gate: who may pass with the session id they show, and what
//! the others are told.

use crate::request::{Request, RequestView};
use crate::response::{
    empty_response, json_response, message_response, text_of, Response, ResponseView,
    STATUS_FORBIDDEN, STATUS_OK,
};
use vstd::prelude::*;
use vstd::utf8::{decode_utf8, valid_utf8};

verus! {

/// The name of the header in which a client shows its session id.
pub const SESSION_HEADER: &'static str = "session";

/// The text that bytes are read as when they need not be UTF-8: what is
/// valid stays, and U+FFFD stands for what is not.
pub uninterp spec fn utf8_lossy(bytes: Seq<u8>) -> Seq<char>;

/// Calls `String::from_utf8_lossy` on the bytes and owns what it gives.
/// Taken on trust: that the text depends on the bytes alone, and that bytes
/// which are valid UTF-8 come back as the string they encode.
#[verifier::external_body]
fn from_utf8_lossy(bytes: &[u8]) -> (text: String)
    ensures
        text@ == utf8_lossy(bytes@),
        valid_utf8(bytes@) ==> text@ == decode_utf8(bytes@),
{
    String::from_utf8_lossy(bytes).into_owned()
}

/// The session id that a request shows: the text of its `session` header.
pub open spec fn session_id(request: RequestView) -> Option<Seq<char>> {
    match request.headers.session {
        Some(value) => Some(utf8_lossy(value)),
        None => None,
    }
}

/// What a client without a valid session is told.
pub open spec fn invalid_session_response() -> ResponseView {
    message_response(STATUS_FORBIDDEN, "Invalid session"@)
}

/// What a client is told whose session is gone.
pub open spec fn logged_out_response() -> ResponseView {
    json_response("{}"@)
}

/// Reads the session id off a request.
pub fn get_session(request: &Request) -> (id: Option<String>)
    ensures
        text_of(id) == session_id(request@),
        request@.headers.session matches Some(value) ==> (valid_utf8(value) ==> text_of(id) == Some(
            decode_utf8(value),
        )),
{
    match &request.headers.session {
        Some(value) => Some(from_utf8_lossy(value.as_slice())),
        None => None,
    }
}

/// The answer to a client without a valid session.
pub fn invalid_session() -> (response: Response)
    ensures
        response@ == invalid_session_response(),
{
    Response::message(STATUS_FORBIDDEN, "Invalid session")
}

/// What is to be done next for a logout.
#[derive(Clone, Debug, PartialEq, Eq)]
pub enum LogoutStep {
    /// Ask the session store to remove this id, whether it has it or not.
    Remove(String),
    /// Send this; nothing is left to do.
    Respond(Response),
}

/// What a logout step asks for.
pub enum LogoutStepView {
    Remove(Seq<char>),
    Respond(ResponseView),
}

impl View for LogoutStep {
    type V = LogoutStepView;

    open spec fn view(&self) -> LogoutStepView {
        match self {
            LogoutStep::Remove(id) => LogoutStepView::Remove(id@),
            LogoutStep::Respond(response) => LogoutStepView::Respond(response@),
        }
    }
}

/// The first step of a logout: the session that the request shows is to be
/// removed. A request that shows none is turned away.
pub open spec fn logout_step(request: RequestView) -> LogoutStepView {
    match session_id(request) {
        Some(id) => LogoutStepView::Remove(id),
        None => LogoutStepView::Respond(invalid_session_response()),
    }
}

/// The step after the store has removed the session.
pub open spec fn logout_advance(step: LogoutStepView) -> LogoutStepView {
    match step {
        LogoutStepView::Remove(_) => LogoutStepView::Respond(logged_out_response()),
        LogoutStepView::Respond(_) => step,
    }
}

/// Ends sessions.
#[derive(Clone, Copy, Debug, PartialEq, Eq, Structural)]
pub struct LogoutHandler {}

impl LogoutHandler {
    pub fn new() -> (handler: Box<LogoutHandler>)
        ensures
            *handler == (LogoutHandler {  }),
    {
        Box::new(LogoutHandler {  })
    }

    /// The first step for a request.
    pub fn handle(&self, request: &Request) -> (step: LogoutStep)
        ensures
            step@ == logout_step(request@),
    {
        match get_session(request) {
            Some(id) => LogoutStep::Remove(id),
            None => LogoutStep::Respond(invalid_session()),
        }
    }

    /// The step after the store has removed the session.
    pub fn advance(&self, step: LogoutStep) -> (next: LogoutStep)
        ensures
            next@ == logout_advance(step@),
    {
        match step {
            LogoutStep::Remove(_) => LogoutStep::Respond(Response::json(String::from_str("{}"))),
            LogoutStep::Respond(response) => LogoutStep::Respond(response),
        }
    }
}

/// What is to be done next for a request that asks whether its session is
/// valid.
#[derive(Clone, Debug, PartialEq, Eq)]
pub enum CheckStep {
    /// Ask the session store whether this id is valid.
    Validate(String),
    /// Send this; nothing is left to do.
    Respond(Response),
}

/// What such a step asks for.
pub enum CheckStepView {
    Validate(Seq<char>),
    Respond(ResponseView),
}

impl View for CheckStep {
    type V = CheckStepView;

    open spec fn view(&self) -> CheckStepView {
        match self {
            CheckStep::Validate(id) => CheckStepView::Validate(id@),
            CheckStep::Respond(response) => CheckStepView::Respond(response@),
        }
    }
}

/// The first step for a request that asks about its session: the session
/// that it shows is to be validated. A request that shows none is turned away.
pub open spec fn check_step(request: RequestView) -> CheckStepView {
    match session_id(request) {
        Some(id) => CheckStepView::Validate(id),
        None => CheckStepView::Respond(invalid_session_response()),
    }
}

/// The answer to a client whose session the store has judged.
pub open spec fn check_response(valid: bool) -> ResponseView {
    if valid {
        empty_response(STATUS_OK)
    } else {
        invalid_session_response()
    }
}

/// The step after the store has judged the session.
pub open spec fn check_advance(step: CheckStepView, valid: bool) -> CheckStepView {
    match step {
        CheckStepView::Validate(_) => CheckStepView::Respond(check_response(valid)),
        CheckStepView::Respond(_) => step,
    }
}

/// Tells a client whether its session is valid.
#[derive(Clone, Copy, Debug, PartialEq, Eq, Structural)]
pub struct SessionCheckHandler {}

impl SessionCheckHandler {
    pub fn new() -> (handler: Box<SessionCheckHandler>)
        ensures
            *handler == (SessionCheckHandler {  }),
    {
        Box::new(SessionCheckHandler {  })
    }

    /// The first step for a request.
    pub fn handle(&self, request: &Request) -> (step: CheckStep)
        ensures
            step@ == check_step(request@),
    {
        match get_session(request) {
            Some(id) => CheckStep::Validate(id),
            None => CheckStep::Respond(invalid_session()),
        }
    }

    /// The step after the store has judged the session.
    pub fn advance(&self, step: CheckStep, valid: bool) -> (next: CheckStep)
        ensures
            next@ == check_advance(step@, valid),
    {
        match step {
            CheckStep::Validate(_) => {
                if valid {
                    CheckStep::Respond(Response::empty(STATUS_OK))
                } else {
                    CheckStep::Respond(invalid_session())
                }
            },
            CheckStep::Respond(response) => CheckStep::Respond(response),
        }
    }
}

/// What a filter says of a request: let it through, or stop here and send
/// this instead.
#[derive(Clone, Debug, PartialEq, Eq)]
pub enum FilterResult {
    Continue,
    Halt(Response),
}

/// What a filter result says.
pub enum FilterResultView {
    Continue,
    Halt(ResponseView),
}

impl View for FilterResult {
    type V = FilterResultView;

    open spec fn view(&self) -> FilterResultView {
        match self {
            FilterResult::Continue => FilterResultView::Continue,
            FilterResult::Halt(response) => FilterResultView::Halt(response@),
        }
    }
}

/// What is to be done next for a request at the filter.
#[derive(Clone, Debug, PartialEq, Eq)]
pub enum FilterStep {
    /// Ask the session store whether this id is valid.
    Validate(String),
    /// The filter has decided.
    Done(FilterResult),
}

/// What a step at the filter asks for.
pub enum FilterStepView {
    Validate(Seq<char>),
    Done(FilterResultView),
}

impl View for FilterStep {
    type V = FilterStepView;

    open spec fn view(&self) -> FilterStepView {
        match self {
            FilterStep::Validate(id) => FilterStepView::Validate(id@),
            FilterStep::Done(result) => FilterStepView::Done(result@),
        }
    }
}

/// The first step at the filter: the session that the request shows is to
/// be validated. A request that shows none is halted.
pub open spec fn filter_step(request: RequestView) -> FilterStepView {
    match session_id(request) {
        Some(id) => FilterStepView::Validate(id),
        None => FilterStepView::Done(FilterResultView::Halt(invalid_session_response())),
    }
}

/// What the filter says of a request whose session the store has judged.
pub open spec fn filter_result(valid: bool) -> FilterResultView {
    if valid {
        FilterResultView::Continue
    } else {
        FilterResultView::Halt(invalid_session_response())
    }
}

/// The step after the store has judged the session.
pub open spec fn filter_advance(step: FilterStepView, valid: bool) -> FilterStepView {
    match step {
        FilterStepView::Validate(_) => FilterStepView::Done(filter_result(valid)),
        FilterStepView::Done(_) => step,
    }
}

/// Lets requests with a valid session through, and no others.
#[derive(Clone, Copy, Debug, PartialEq, Eq, Structural)]
pub struct LoginSessionFilter {}

impl LoginSessionFilter {
    pub fn new() -> (filter: Box<LoginSessionFilter>)
        ensures
            *filter == (LoginSessionFilter {  }),
    {
        Box::new(LoginSessionFilter {  })
    }

    /// The first step for a request.
    pub fn filter(&self, request: &Request) -> (step: FilterStep)
        ensures
            step@ == filter_step(request@),
    {
        match get_session(request) {
            Some(id) => FilterStep::Validate(id),
            None => FilterStep::Done(FilterResult::Halt(invalid_session())),
        }
    }

    /// The step after the store has judged the session.
    pub fn advance(&self, step: FilterStep, valid: bool) -> (next: FilterStep)
        ensures
            next@ == filter_advance(step@, valid),
    {
        match step {
            FilterStep::Validate(_) => {
                if valid {
                    FilterStep::Done(FilterResult::Continue)
                } else {
                    FilterStep::Done(FilterResult::Halt(invalid_session()))
                }
            },
            FilterStep::Done(result) => FilterStep::Done(result),
        }
    }
}

/// A request without a `session` header is turned away with the same answer
/// by the logout, by the session query and by the filter, and the session
/// store is not asked.
pub proof fn lemma_missing_session_is_turned_away(request: RequestView)
    requires
        request.headers.session is None,
    ensures
        logout_step(request) == LogoutStepView::Respond(invalid_session_response()),
        check_step(request) == CheckStepView::Respond(invalid_session_response()),
        filter_step(request) == FilterStepView::Done(
            FilterResultView::Halt(invalid_session_response()),
        ),
        invalid_session_response().status == 403,
{
}

/// A request that shows a session gets a `200` to its query and gets
/// through the filter if
/// and only if the session store calls the session valid.
pub proof fn lemma_validity_decides(request: RequestView, valid: bool)
    requires
        request.headers.session is Some,
    ensures
        check_advance(check_step(request), valid) == CheckStepView::Respond(
            if valid {
                empty_response(STATUS_OK)
            } else {
                invalid_session_response()
            },
        ),
        filter_advance(filter_step(request), valid) == FilterStepView::Done(
            if valid {
                FilterResultView::Continue
            } else {
                FilterResultView::Halt(invalid_session_response())
            },
        ),
{
}

/// A logout asks for the removal of the session that the request shows and
/// answers alike whether the session was there or not: to log out twice is
/// no error.
pub proof fn lemma_logout_answers_alike(request: RequestView)
    requires
        request.headers.session is Some,
    ensures
        logout_step(request) == LogoutStepView::Remove(session_id(request)->0),
        logout_advance(logout_step(request)) == LogoutStepView::Respond(logged_out_response()),
{
}

/// The sessions that a store holds valid once it has done what a logout
/// step asks of it, where it held `valid` before.
pub open spec fn valid_after_logout(valid: Set<Seq<char>>, step: LogoutStepView) -> Set<Seq<char>> {
    match step {
        LogoutStepView::Remove(id) => valid.remove(id),
        LogoutStepView::Respond(_) => valid,
    }
}

/// How the query about a session ends for a request, with a store that holds
/// `valid`.
pub open spec fn check_outcome(valid: Set<Seq<char>>, request: RequestView) -> CheckStepView {
    match check_step(request) {
        CheckStepView::Validate(id) => check_advance(check_step(request), valid.contains(id)),
        CheckStepView::Respond(_) => check_step(request),
    }
}

/// How the filter ends for a request, with a store that holds `valid`.
pub open spec fn filter_outcome(valid: Set<Seq<char>>, request: RequestView) -> FilterStepView {
    match filter_step(request) {
        FilterStepView::Validate(id) => filter_advance(filter_step(request), valid.contains(id)),
        FilterStepView::Done(_) => filter_step(request),
    }
}

/// The life of a session as a client sees it, with a store that keeps the
/// ids it was given until it is asked to remove them. A request that shows
/// a session which the store has made is let through. Once a logout with
/// the same header has been carried out, the request is turned away. A
/// second logout finds the store as the first one left it, and is answered
/// like the first.
pub proof fn lemma_session_lifecycle(valid: Set<Seq<char>>, request: RequestView)
    requires
        request.headers.session is Some,
    ensures
        check_outcome(valid.insert(session_id(request)->0), request) == CheckStepView::Respond(
            empty_response(STATUS_OK),
        ),
        filter_outcome(valid.insert(session_id(request)->0), request) == FilterStepView::Done(
            FilterResultView::Continue,
        ),
        check_outcome(valid_after_logout(valid, logout_step(request)), request)
            == CheckStepView::Respond(invalid_session_response()),
        filter_outcome(valid_after_logout(valid, logout_step(request)), request)
            == FilterStepView::Done(FilterResultView::Halt(invalid_session_response())),
        valid_after_logout(valid_after_logout(valid, logout_step(request)), logout_step(request))
            == valid_after_logout(valid, logout_step(request)),
        logout_advance(logout_step(request)) == LogoutStepView::Respond(logged_out_response()),
{
}

} // verus!

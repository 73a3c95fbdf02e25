//! The login decision: a configured administrator first, the directory
//! service for everyone else, and a session for whoever got through.

use crate::credentials::{password_matches, verify_password};
use crate::json::{session_body, write_session_body};
use crate::response::{empty_response, json_response, Response, ResponseView, STATUS_UNAUTHORIZED};
use std::sync::Arc;
use vstd::prelude::*;

verus! {

/// The credentials that a client sends to log in.
#[derive(Clone, Debug, PartialEq, Eq)]
pub struct LoginRequest {
    pub username: String,
    pub password: String,
}

/// What a login request says.
pub struct LoginRequestView {
    pub username: Seq<char>,
    pub password: Seq<char>,
}

impl View for LoginRequest {
    type V = LoginRequestView;

    open spec fn view(&self) -> LoginRequestView {
        LoginRequestView { username: self.username@, password: self.password@ }
    }
}

/// The administrator: a name, and a password stored as a salted hash in
/// hexadecimal.
#[derive(Clone, Debug, PartialEq, Eq)]
pub struct AdminIdentity {
    pub name: String,
    pub salt: String,
    pub pass_hash: String,
}

/// What is known of the administrator.
pub struct AdminIdentityView {
    pub name: Seq<char>,
    pub salt: Seq<char>,
    pub pass_hash: Seq<char>,
}

impl View for AdminIdentity {
    type V = AdminIdentityView;

    open spec fn view(&self) -> AdminIdentityView {
        AdminIdentityView { name: self.name@, salt: self.salt@, pass_hash: self.pass_hash@ }
    }
}

/// What the login decision is configured with: the administrator, if there
/// is one, and whether a directory service can be asked.
#[derive(Clone, Debug, PartialEq, Eq)]
pub struct Config {
    pub admin: Option<AdminIdentity>,
    pub directory: bool,
}

/// What a configuration says.
pub struct ConfigView {
    pub admin: Option<AdminIdentityView>,
    pub directory: bool,
}

impl View for Config {
    type V = ConfigView;

    open spec fn view(&self) -> ConfigView {
        ConfigView {
            admin: match self.admin {
                Some(admin) => Some(admin@),
                None => None,
            },
            directory: self.directory,
        }
    }
}

/// Where a login attempt stands.
#[derive(Clone, Copy, Debug, PartialEq, Eq, Structural)]
pub enum AuthOutcome {
    /// Nobody has vouched for the client, and nobody has turned it away.
    Unknown,
    Authenticated,
    /// The client gave the administrator's name and another password.
    Rejected,
}

/// What the directory service said of a client's credentials.
#[derive(Clone, Copy, Debug, PartialEq, Eq, Structural)]
pub enum DirectoryReply {
    Accepted,
    Denied,
    /// The service could not be asked, or did not answer.
    Failed,
}

/// What is to be done next for a login attempt.
#[derive(Clone, Debug, PartialEq, Eq)]
pub enum LoginStep {
    /// Ask the directory service about these credentials.
    AskDirectory(LoginRequest),
    /// Ask the session store for a new session.
    MintSession,
    /// Send this; nothing is left to do.
    Respond(Response),
}

/// What a step asks for.
pub enum LoginStepView {
    AskDirectory(LoginRequestView),
    MintSession,
    Respond(ResponseView),
}

impl View for LoginStep {
    type V = LoginStepView;

    open spec fn view(&self) -> LoginStepView {
        match self {
            LoginStep::AskDirectory(request) => LoginStepView::AskDirectory(request@),
            LoginStep::MintSession => LoginStepView::MintSession,
            LoginStep::Respond(response) => LoginStepView::Respond(response@),
        }
    }
}

/// What came back from outside for a login attempt.
#[derive(Clone, Debug, PartialEq, Eq)]
pub enum LoginEvent {
    Directory(DirectoryReply),
    /// The id of the session that the store made.
    Session(String),
}

/// What an event tells.
pub enum LoginEventView {
    Directory(DirectoryReply),
    Session(Seq<char>),
}

impl View for LoginEvent {
    type V = LoginEventView;

    open spec fn view(&self) -> LoginEventView {
        match self {
            LoginEvent::Directory(reply) => LoginEventView::Directory(*reply),
            LoginEvent::Session(id) => LoginEventView::Session(id@),
        }
    }
}

/// The outcome for a client that gave the administrator's name, by whether
/// it gave the administrator's password too.
pub open spec fn admin_password_outcome(matches: bool) -> AuthOutcome {
    if matches {
        AuthOutcome::Authenticated
    } else {
        AuthOutcome::Rejected
    }
}

/// The administrator's part of the decision. A request under the
/// administrator's name is settled by the administrator's password alone.
pub open spec fn admin_check(config: ConfigView, request: LoginRequestView) -> AuthOutcome {
    match config.admin {
        Some(admin) => if admin.name == request.username {
            admin_password_outcome(
                password_matches(request.password, admin.salt, admin.pass_hash),
            )
        } else {
            AuthOutcome::Unknown
        },
        None => AuthOutcome::Unknown,
    }
}

/// The directory's part of the decision. Only its acceptance counts, and
/// only where nothing was decided before: a denial and a fault leave the
/// outcome as open as it was, and nothing but the administrator's password
/// rejects.
pub open spec fn directory_outcome(outcome: AuthOutcome, reply: DirectoryReply) -> AuthOutcome {
    if outcome == AuthOutcome::Unknown && reply == DirectoryReply::Accepted {
        AuthOutcome::Authenticated
    } else {
        outcome
    }
}

/// The answer to a client that did not get through.
pub open spec fn unauthorized() -> ResponseView {
    empty_response(STATUS_UNAUTHORIZED)
}

/// The step that settles an attempt: a session for a client that got
/// through, and the same answer for every other.
pub open spec fn last_step(outcome: AuthOutcome) -> LoginStepView {
    match outcome {
        AuthOutcome::Authenticated => LoginStepView::MintSession,
        AuthOutcome::Rejected => LoginStepView::Respond(unauthorized()),
        AuthOutcome::Unknown => LoginStepView::Respond(unauthorized()),
    }
}

/// The first step for a request: the directory service is asked about the
/// request's credentials where nothing is decided yet and there is such a
/// service; else the attempt is settled.
pub open spec fn login_step(config: ConfigView, request: LoginRequestView) -> LoginStepView {
    let outcome = admin_check(config, request);
    if outcome == AuthOutcome::Unknown && config.directory {
        LoginStepView::AskDirectory(request)
    } else {
        last_step(outcome)
    }
}

/// The step after an event. An event that was not asked for changes nothing.
pub open spec fn login_advance(step: LoginStepView, event: LoginEventView) -> LoginStepView {
    match (step, event) {
        (LoginStepView::AskDirectory(_), LoginEventView::Directory(reply)) => last_step(
            directory_outcome(AuthOutcome::Unknown, reply),
        ),
        (LoginStepView::MintSession, LoginEventView::Session(id)) => LoginStepView::Respond(
            json_response(session_body(id)),
        ),
        _ => step,
    }
}

/// What the directory service said, by the result of asking it: a fault is
/// no acceptance.
pub open spec fn directory_reply<E>(result: Result<bool, E>) -> DirectoryReply {
    match result {
        Ok(accepted) => if accepted {
            DirectoryReply::Accepted
        } else {
            DirectoryReply::Denied
        },
        Err(_) => DirectoryReply::Failed,
    }
}

impl DirectoryReply {
    /// Reads the result of asking the directory service.
    pub fn from_result<E>(result: &Result<bool, E>) -> (reply: DirectoryReply)
        ensures
            reply == directory_reply(*result),
    {
        match result {
            Ok(true) => DirectoryReply::Accepted,
            Ok(false) => DirectoryReply::Denied,
            Err(_) => DirectoryReply::Failed,
        }
    }
}

impl AuthOutcome {
    /// The outcome for a client that gave the administrator's name.
    pub fn for_admin(password_matches: bool) -> (outcome: AuthOutcome)
        ensures
            outcome == admin_password_outcome(password_matches),
            outcome != AuthOutcome::Unknown,
    {
        if password_matches {
            AuthOutcome::Authenticated
        } else {
            AuthOutcome::Rejected
        }
    }

    /// The outcome once the directory service has answered.
    pub fn after_directory(self, reply: DirectoryReply) -> (outcome: AuthOutcome)
        ensures
            outcome == directory_outcome(self, reply),
            self == AuthOutcome::Rejected ==> outcome == AuthOutcome::Rejected,
    {
        match (self, reply) {
            (AuthOutcome::Unknown, DirectoryReply::Accepted) => AuthOutcome::Authenticated,
            _ => self,
        }
    }

    /// The step that settles an attempt with this outcome.
    pub fn last_step(self) -> (step: LoginStep)
        ensures
            step@ == last_step(self),
    {
        match self {
            AuthOutcome::Authenticated => LoginStep::MintSession,
            _ => LoginStep::Respond(Response::empty(STATUS_UNAUTHORIZED)),
        }
    }
}

/// Decides logins.
pub struct LoginHandler {
    config: Arc<Config>,
}

impl View for LoginHandler {
    type V = ConfigView;

    closed spec fn view(&self) -> ConfigView {
        self.config@
    }
}

impl LoginHandler {
    pub fn new(config: Arc<Config>) -> (handler: Box<LoginHandler>)
        ensures
            handler@ == config@,
    {
        Box::new(LoginHandler { config })
    }

    /// Checks the request against the administrator.
    pub fn admin_outcome(&self, request: &LoginRequest) -> (outcome: AuthOutcome)
        ensures
            outcome == admin_check(self@, request@),
    {
        match &self.config.admin {
            Some(admin) => {
                if admin.name == request.username {
                    AuthOutcome::for_admin(
                        verify_password(
                            request.password.as_str(),
                            admin.salt.as_str(),
                            admin.pass_hash.as_str(),
                        ),
                    )
                } else {
                    AuthOutcome::Unknown
                }
            },
            None => AuthOutcome::Unknown,
        }
    }

    /// The first step for a request. The directory service is asked only
    /// about a client that did not give the administrator's name.
    pub fn handle(&self, request: &LoginRequest) -> (step: LoginStep)
        ensures
            step@ == login_step(self@, request@),
    {
        let outcome = self.admin_outcome(request);
        match outcome {
            AuthOutcome::Unknown => {
                if self.config.directory {
                    LoginStep::AskDirectory(
                        LoginRequest {
                            username: request.username.clone(),
                            password: request.password.clone(),
                        },
                    )
                } else {
                    outcome.last_step()
                }
            },
            _ => outcome.last_step(),
        }
    }

    /// The step after an event.
    pub fn advance(&self, step: LoginStep, event: LoginEvent) -> (next: LoginStep)
        ensures
            next@ == login_advance(step@, event@),
    {
        match (step, event) {
            (LoginStep::AskDirectory(_), LoginEvent::Directory(reply)) => {
                AuthOutcome::Unknown.after_directory(reply).last_step()
            },
            (LoginStep::MintSession, LoginEvent::Session(id)) => {
                LoginStep::Respond(Response::json(write_session_body(id.as_str())))
            },
            (step, _) => step,
        }
    }
}

/// A request under the administrator's name is settled without the
/// directory service: the password alone decides between a session and
/// being turned away.
pub proof fn lemma_admin_shadows_directory(config: ConfigView, request: LoginRequestView)
    requires
        config.admin matches Some(admin) && admin.name == request.username,
    ensures
        !(login_step(config, request) is AskDirectory),
        login_step(config, request) == if password_matches(
            request.password,
            config.admin->0.salt,
            config.admin->0.pass_hash,
        ) {
            LoginStepView::MintSession
        } else {
            LoginStepView::Respond(unauthorized())
        },
{
}

/// Anyone else is settled by the directory service, where there is one: it
/// is asked about the credentials that came, and a session follows its
/// acceptance and nothing else.
pub proof fn lemma_directory_decides_for_others(
    config: ConfigView,
    request: LoginRequestView,
    reply: DirectoryReply,
)
    requires
        config.directory,
        config.admin matches Some(admin) ==> admin.name != request.username,
    ensures
        login_step(config, request) == LoginStepView::AskDirectory(request),
        login_advance(login_step(config, request), LoginEventView::Directory(reply)) == if reply
            == DirectoryReply::Accepted {
            LoginStepView::MintSession
        } else {
            LoginStepView::Respond(unauthorized())
        },
{
}

/// Without a directory service, anyone but the administrator is turned away
/// at once.
pub proof fn lemma_nobody_to_ask(config: ConfigView, request: LoginRequestView)
    requires
        !config.directory,
        config.admin matches Some(admin) ==> admin.name != request.username,
    ensures
        login_step(config, request) == LoginStepView::Respond(unauthorized()),
{
}

/// Once the administrator's password has turned a client away, no answer of
/// the directory service brings it back.
pub proof fn lemma_rejection_is_final(reply: DirectoryReply)
    ensures
        directory_outcome(AuthOutcome::Rejected, reply) == AuthOutcome::Rejected,
        last_step(directory_outcome(AuthOutcome::Rejected, reply)) == LoginStepView::Respond(
            unauthorized(),
        ),
{
}

/// A client that was turned away cannot tell why: a wrong password for the
/// administrator, a directory that denied or failed, and nobody to ask all
/// give the same answer, a `401` with nothing in it.
pub proof fn lemma_failures_look_alike(request: LoginRequestView, reply: DirectoryReply)
    requires
        reply != DirectoryReply::Accepted,
    ensures
        last_step(AuthOutcome::Rejected) == LoginStepView::Respond(unauthorized()),
        last_step(AuthOutcome::Unknown) == LoginStepView::Respond(unauthorized()),
        login_advance(LoginStepView::AskDirectory(request), LoginEventView::Directory(reply))
            == LoginStepView::Respond(unauthorized()),
        unauthorized().status == 401 && unauthorized().body.len() == 0,
{
}

/// A session is made only for a client that got through, and the answer
/// carries its id and nothing else.
pub proof fn lemma_session_only_after_authentication(outcome: AuthOutcome, id: Seq<char>)
    ensures
        last_step(outcome) == LoginStepView::MintSession <==> outcome == AuthOutcome::Authenticated,
        login_advance(LoginStepView::MintSession, LoginEventView::Session(id))
            == LoginStepView::Respond(json_response(session_body(id))),
{
}

} // verus!

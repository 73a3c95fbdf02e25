use authgate::credentials::store_password;
use authgate::login::{
    AdminIdentity, AuthOutcome, Config, DirectoryReply, LoginEvent, LoginHandler, LoginRequest,
    LoginStep,
};
use authgate::json::frame_session_body;
use authgate::response::Response;
use std::sync::Arc;

fn admin() -> AdminIdentity {
    AdminIdentity {
        name: "root".to_string(),
        salt: "some-salt".to_string(),
        pass_hash: store_password("the-pass", "some-salt"),
    }
}

fn handler(admin: Option<AdminIdentity>, directory: bool) -> Box<LoginHandler> {
    LoginHandler::new(Arc::new(Config { admin, directory }))
}

fn request(username: &str, password: &str) -> LoginRequest {
    LoginRequest { username: username.to_string(), password: password.to_string() }
}

fn unauthorized() -> LoginStep {
    LoginStep::Respond(Response { status: 401, json: false, body: String::new(), location: None })
}

fn session(body: &str) -> LoginStep {
    LoginStep::Respond(Response { status: 200, json: true, body: body.to_string(), location: None })
}

#[test]
fn admin_with_the_right_password_gets_a_session() {
    let handler = handler(Some(admin()), true);
    let step = handler.handle(&request("root", "the-pass"));
    assert_eq!(step, LoginStep::MintSession);
    let step = handler.advance(step, LoginEvent::Session("abc123".to_string()));
    assert_eq!(step, session("{\"session\":\"abc123\"}"));
}

#[test]
fn admin_with_a_wrong_password_is_turned_away_without_the_directory() {
    let handler = handler(Some(admin()), true);
    assert_eq!(handler.admin_outcome(&request("root", "wrong-pass")), AuthOutcome::Rejected);
    assert_eq!(handler.handle(&request("root", "wrong-pass")), unauthorized());
}

#[test]
fn admin_with_a_hash_that_is_no_hex_is_turned_away() {
    let broken = AdminIdentity { pass_hash: "no hex".to_string(), ..admin() };
    let handler = handler(Some(broken), true);
    assert_eq!(handler.admin_outcome(&request("root", "the-pass")), AuthOutcome::Rejected);
    assert_eq!(handler.handle(&request("root", "the-pass")), unauthorized());
}

#[test]
fn another_user_goes_to_the_directory() {
    let handler = handler(Some(admin()), true);
    assert_eq!(handler.admin_outcome(&request("alice", "the-pass")), AuthOutcome::Unknown);
    let step = handler.handle(&request("alice", "the-pass"));
    assert_eq!(step, LoginStep::AskDirectory(request("alice", "the-pass")));
    let step = handler.advance(step, LoginEvent::Directory(DirectoryReply::Accepted));
    assert_eq!(step, LoginStep::MintSession);
    let step = handler.advance(step, LoginEvent::Session("s-1".to_string()));
    assert_eq!(step, session("{\"session\":\"s-1\"}"));
}

#[test]
fn directory_that_denies_or_fails_turns_the_user_away() {
    let handler = handler(None, true);
    let step = handler.handle(&request("alice", "pw"));
    assert_eq!(step, LoginStep::AskDirectory(request("alice", "pw")));
    assert_eq!(
        handler.advance(step.clone(), LoginEvent::Directory(DirectoryReply::Denied)),
        unauthorized()
    );
    assert_eq!(handler.advance(step, LoginEvent::Directory(DirectoryReply::Failed)), unauthorized());
}

#[test]
fn nobody_to_ask_turns_the_user_away() {
    assert_eq!(handler(None, false).handle(&request("alice", "pw")), unauthorized());
    assert_eq!(handler(Some(admin()), false).handle(&request("alice", "the-pass")), unauthorized());
}

#[test]
fn admin_needs_no_directory() {
    let handler = handler(Some(admin()), false);
    assert_eq!(handler.admin_outcome(&request("root", "the-pass")), AuthOutcome::Authenticated);
    assert_eq!(handler.handle(&request("root", "the-pass")), LoginStep::MintSession);
}

#[test]
fn admin_name_is_matched_exactly() {
    let handler = handler(Some(admin()), false);
    assert_eq!(handler.admin_outcome(&request("Root", "the-pass")), AuthOutcome::Unknown);
    assert_eq!(handler.admin_outcome(&request("root ", "the-pass")), AuthOutcome::Unknown);
    assert_eq!(handler.admin_outcome(&request("", "the-pass")), AuthOutcome::Unknown);
}

#[test]
fn outcome_after_the_directory() {
    let unknown = AuthOutcome::Unknown;
    assert_eq!(unknown.after_directory(DirectoryReply::Accepted), AuthOutcome::Authenticated);
    assert_eq!(unknown.after_directory(DirectoryReply::Denied), AuthOutcome::Unknown);
    assert_eq!(unknown.after_directory(DirectoryReply::Failed), AuthOutcome::Unknown);
    for reply in [DirectoryReply::Accepted, DirectoryReply::Denied, DirectoryReply::Failed] {
        assert_eq!(AuthOutcome::Rejected.after_directory(reply), AuthOutcome::Rejected);
        assert_eq!(AuthOutcome::Authenticated.after_directory(reply), AuthOutcome::Authenticated);
    }
}

#[test]
fn last_step_of_each_outcome() {
    assert_eq!(AuthOutcome::Authenticated.last_step(), LoginStep::MintSession);
    assert_eq!(AuthOutcome::Rejected.last_step(), unauthorized());
    assert_eq!(AuthOutcome::Unknown.last_step(), unauthorized());
}

#[test]
fn event_that_was_not_asked_for_changes_nothing() {
    let handler = handler(None, true);
    let asking = LoginStep::AskDirectory(request("alice", "pw"));
    assert_eq!(handler.advance(asking.clone(), LoginEvent::Session("x".to_string())), asking);
    assert_eq!(
        handler.advance(LoginStep::MintSession, LoginEvent::Directory(DirectoryReply::Denied)),
        LoginStep::MintSession
    );
    assert_eq!(
        handler.advance(unauthorized(), LoginEvent::Directory(DirectoryReply::Accepted)),
        unauthorized()
    );
    assert_eq!(handler.advance(unauthorized(), LoginEvent::Session("x".to_string())), unauthorized());
}

#[test]
fn session_id_is_written_as_a_json_string() {
    let handler = handler(None, true);
    let id = "a\"b\\c\nd\u{e9}";
    let step = handler.advance(LoginStep::MintSession, LoginEvent::Session(id.to_string()));
    let body = match step {
        LoginStep::Respond(response) => {
            assert_eq!(response.status, 200);
            assert!(response.json);
            response.body
        }
        other => panic!("no response: {:?}", other),
    };
    assert_eq!(body, "{\"session\":\"a\\\"b\\\\c\\nd\u{e9}\"}");
    let mut members = serde_json::Map::new();
    members.insert("session".to_string(), serde_json::Value::String(id.to_string()));
    assert_eq!(body, serde_json::Value::Object(members).to_string());
    let read: serde_json::Value = serde_json::from_str(&body).unwrap();
    assert_eq!(read["session"], serde_json::Value::String(id.to_string()));
}

#[test]
fn directory_reply_of_each_result() {
    assert_eq!(DirectoryReply::from_result::<String>(&Ok(true)), DirectoryReply::Accepted);
    assert_eq!(DirectoryReply::from_result::<String>(&Ok(false)), DirectoryReply::Denied);
    assert_eq!(
        DirectoryReply::from_result(&Err::<bool, String>("no route to host".to_string())),
        DirectoryReply::Failed
    );
}

#[test]
fn session_body_is_one_object_with_one_member() {
    assert_eq!(frame_session_body("\"abc\""), "{\"session\":\"abc\"}");
    assert_eq!(frame_session_body("null"), "{\"session\":null}");
    assert_eq!(authgate::json::write_session_body(""), "{\"session\":\"\"}");
}

#[test]
fn outcome_for_the_admin_is_never_open() {
    assert_eq!(AuthOutcome::for_admin(true), AuthOutcome::Authenticated);
    assert_eq!(AuthOutcome::for_admin(false), AuthOutcome::Rejected);
}

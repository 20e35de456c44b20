use wedding_vanulio2025::query::invite_param;
use wedding_vanulio2025::{
    Answer, Effect, FlowEvent, FromBlobError, Invite, InviteId, Language, RsvpFlow,
};

const ID: &str = "0123456789abcdef0123456789abcdef";

fn expect_reply(effect: Effect, status: u16, html: Option<&str>) {
    match effect {
        Effect::Respond(reply) => {
            assert_eq!(reply.status, status);
            assert_eq!(reply.html.as_deref(), html);
        }
        _ => panic!("expected a reply"),
    }
}

fn expect_fetch(effect: Effect) {
    match effect {
        Effect::Fetch(id) => assert_eq!(id.as_str(), ID),
        _ => panic!("expected a fetch"),
    }
}

fn unanswered() -> Invite {
    Invite::new_pending("Anna".to_string(), 2, Language::English)
}

fn attend() -> Answer {
    Answer::Attend { guests: 3, vegetarians: 1, notes: "hello".to_string() }
}

#[test]
fn query_param_takes_the_last_id() {
    assert_eq!(invite_param(None), None);
    assert_eq!(invite_param(Some("a=b")), None);
    assert_eq!(invite_param(Some("_id=x&_id=y")), Some("y".to_string()));
    assert_eq!(invite_param(Some("_id=a%20b+c")), Some("a b c".to_string()));
}

#[test]
fn page_without_query_is_invalid_url() {
    let (flow, effect) = RsvpFlow::page(None);
    expect_reply(effect, 200, Some("Invalid url"));
    assert!(flow.finished());
}

#[test]
fn page_without_id_param_is_invalid_url() {
    let (_, effect) = RsvpFlow::page(Some("lang=it"));
    expect_reply(effect, 200, Some("Invalid url"));
}

#[test]
fn page_with_short_id_is_incomplete_url() {
    let (_, effect) = RsvpFlow::page(Some("_id=abc"));
    expect_reply(effect, 200, Some("Incomplete url"));
}

#[test]
fn page_with_valid_id_loads_and_renders() {
    let query = format!("other=1&_id={}", ID);
    let (mut flow, effect) = RsvpFlow::page(Some(&query));
    expect_fetch(effect);
    assert!(!flow.finished());
    match flow.step(FlowEvent::Fetched(Ok(unanswered()))) {
        Effect::Render(invite) => assert_eq!(invite.name, "Anna"),
        _ => panic!("expected the page"),
    }
    assert!(flow.finished());
}

#[test]
fn page_of_missing_invite_is_404() {
    let query = format!("_id={}", ID);
    let (mut flow, _) = RsvpFlow::page(Some(&query));
    expect_reply(flow.step(FlowEvent::Fetched(Err(FromBlobError::NotFound))), 404, None);
}

#[test]
fn page_load_error_fails_the_request() {
    let query = format!("_id={}", ID);
    let (mut flow, _) = RsvpFlow::page(Some(&query));
    match flow.step(FlowEvent::Fetched(Err(FromBlobError::Error("boom".to_string())))) {
        Effect::Fail(msg) => assert_eq!(msg, "boom"),
        _ => panic!("expected a failure"),
    }
}

#[test]
fn answer_with_bad_id_is_incomplete_url() {
    let (flow, effect) = RsvpFlow::answer(attend(), "short".to_string());
    expect_reply(effect, 200, Some("Incomplete url"));
    assert!(flow.finished());
    let (_, effect) = RsvpFlow::answer(Answer::Decline, String::new());
    expect_reply(effect, 200, Some("Incomplete url"));
}

#[test]
fn attendance_is_stored_then_notified_then_ok() {
    let (mut flow, effect) = RsvpFlow::answer(attend(), ID.to_string());
    expect_fetch(effect);
    assert!(!flow.accepts(&FlowEvent::Stored(Ok(()))));
    match flow.step(FlowEvent::Fetched(Ok(unanswered()))) {
        Effect::Store(id, invite) => {
            assert_eq!(id.as_str(), ID);
            assert!(invite.responded);
            assert_eq!(invite.attending, Some(true));
            assert_eq!(invite.guests, 3);
            assert_eq!(invite.vegetarians, 1);
            assert_eq!(invite.notes, Some("hello".to_string()));
        }
        _ => panic!("expected a store"),
    }
    match flow.step(FlowEvent::Stored(Ok(()))) {
        Effect::Notify(invite) => {
            assert_eq!(invite.attending, Some(true));
            assert_eq!(invite.notes, Some("hello".to_string()));
        }
        _ => panic!("expected a notification"),
    }
    expect_reply(flow.step(FlowEvent::Notified(Ok(()))), 200, None);
    assert!(flow.finished());
}

#[test]
fn attendance_for_answered_invite_is_400() {
    let (mut flow, _) = RsvpFlow::answer(attend(), ID.to_string());
    let mut invite = unanswered();
    invite.decline();
    expect_reply(flow.step(FlowEvent::Fetched(Ok(invite))), 400, Some("Already responded"));
    assert!(flow.finished());
}

#[test]
fn attendance_store_failure_fails_the_request() {
    let (mut flow, _) = RsvpFlow::answer(attend(), ID.to_string());
    let _ = flow.step(FlowEvent::Fetched(Ok(unanswered())));
    match flow.step(FlowEvent::Stored(Err("store".to_string()))) {
        Effect::Fail(msg) => assert_eq!(msg, "store"),
        _ => panic!("expected a failure"),
    }
}

#[test]
fn attendance_mail_failure_fails_the_request() {
    let (mut flow, _) = RsvpFlow::answer(attend(), ID.to_string());
    let _ = flow.step(FlowEvent::Fetched(Ok(unanswered())));
    let _ = flow.step(FlowEvent::Stored(Ok(())));
    match flow.step(FlowEvent::Notified(Err("smtp".to_string()))) {
        Effect::Fail(msg) => assert_eq!(msg, "smtp"),
        _ => panic!("expected a failure"),
    }
}

#[test]
fn decline_is_stored_even_when_answered_before() {
    let (mut flow, _) = RsvpFlow::answer(Answer::Decline, ID.to_string());
    let mut invite = unanswered();
    invite.accept(5, 0, String::new()).unwrap();
    match flow.step(FlowEvent::Fetched(Ok(invite))) {
        Effect::Store(_, stored) => {
            assert!(stored.responded);
            assert_eq!(stored.attending, Some(false));
            assert_eq!(stored.guests, 5);
        }
        _ => panic!("expected a store"),
    }
    expect_reply(flow.step(FlowEvent::Stored(Ok(()))), 200, None);
    assert!(flow.finished());
}

#[test]
fn decline_store_failure_aborts() {
    let (mut flow, _) = RsvpFlow::answer(Answer::Decline, ID.to_string());
    let _ = flow.step(FlowEvent::Fetched(Ok(unanswered())));
    match flow.step(FlowEvent::Stored(Err("store".to_string()))) {
        Effect::Abort(msg) => assert_eq!(msg, "test"),
        _ => panic!("expected an abort"),
    }
}

#[test]
fn answer_for_missing_invite_is_404() {
    let (mut flow, _) = RsvpFlow::answer(Answer::Decline, ID.to_string());
    expect_reply(flow.step(FlowEvent::Fetched(Err(FromBlobError::NotFound))), 404, None);
    let _ = InviteId::new(ID.to_string());
}

#[test]
fn finished_flow_takes_nothing_more() {
    let (mut flow, _) = RsvpFlow::answer(Answer::Decline, ID.to_string());
    let _ = flow.step(FlowEvent::Fetched(Ok(unanswered())));
    let _ = flow.step(FlowEvent::Stored(Ok(())));
    assert!(flow.finished());
    assert!(!flow.accepts(&FlowEvent::Fetched(Ok(unanswered()))));
    assert!(!flow.accepts(&FlowEvent::Stored(Ok(()))));
    assert!(!flow.accepts(&FlowEvent::Notified(Ok(()))));
}

#[test]
fn page_request_never_stores_even_for_unanswered_invite() {
    let query = format!("_id={}", ID);
    let (mut flow, _) = RsvpFlow::page(Some(&query));
    let effect = flow.step(FlowEvent::Fetched(Ok(unanswered())));
    assert!(!matches!(effect, Effect::Store(..) | Effect::Notify(..)));
    assert!(flow.finished());
}

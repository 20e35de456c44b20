use wedding_vanulio2025::storage::blob_path_of;
use wedding_vanulio2025::{
    FetchEvent, FetchStep, FromBlobError, Invite, InviteFetch, InviteId, InviteUpload, Language,
    StorageAction, UploadEvent, UploadStep,
};

const ID: &str = "0123456789abcdef0123456789abcdef";

fn id() -> InviteId {
    InviteId::new(ID.to_string()).unwrap()
}

fn expect_put(step: UploadStep, body: &str) {
    match step {
        UploadStep::Act(StorageAction::Put { pathname, body: b, content_type }) => {
            assert_eq!(pathname, format!("invites/{}", ID));
            assert_eq!(b, body);
            assert_eq!(content_type, "application/json");
        }
        _ => panic!("expected a put"),
    }
}

#[test]
fn blob_path_is_under_invites() {
    assert_eq!(blob_path_of(&id()), format!("invites/{}", ID));
}

#[test]
fn upload_into_empty_storage_puts_once() {
    let (mut up, first) = InviteUpload::begin(&id(), "{\"a\":1}".to_string());
    match first {
        StorageAction::List { prefix } => assert_eq!(prefix, format!("invites/{}", ID)),
        _ => panic!("expected a listing"),
    }
    assert!(up.accepts(&UploadEvent::Listed(vec![])));
    assert!(!up.accepts(&UploadEvent::Stored));
    expect_put(up.step(UploadEvent::Listed(vec![])), "{\"a\":1}");
    assert!(!up.finished());
    assert!(matches!(up.step(UploadEvent::Stored), UploadStep::Done));
    assert!(up.finished());
    assert!(!up.accepts(&UploadEvent::Failed("x".to_string())));
}

#[test]
fn upload_deletes_the_old_copy_first() {
    let (mut up, _) = InviteUpload::begin(&id(), "body".to_string());
    match up.step(UploadEvent::Listed(vec!["https://blob/old".to_string()])) {
        UploadStep::Act(StorageAction::Delete { url }) => assert_eq!(url, "https://blob/old"),
        _ => panic!("expected a delete"),
    }
    assert!(up.accepts(&UploadEvent::Deleted));
    expect_put(up.step(UploadEvent::Deleted), "body");
    assert!(matches!(up.step(UploadEvent::Stored), UploadStep::Done));
}

#[test]
fn upload_refuses_two_copies() {
    let (mut up, _) = InviteUpload::begin(&id(), "body".to_string());
    let step = up.step(UploadEvent::Listed(vec!["u1".to_string(), "u2".to_string()]));
    match step {
        UploadStep::Failed(msg) => assert_eq!(msg, "Two of same invite exists"),
        _ => panic!("expected a failure"),
    }
    assert!(up.finished());
    assert!(!up.accepts(&UploadEvent::Deleted));
}

#[test]
fn upload_storage_failure_ends_with_its_message() {
    let (mut up, _) = InviteUpload::begin(&id(), "body".to_string());
    let _ = up.step(UploadEvent::Listed(vec![]));
    match up.step(UploadEvent::Failed("network down".to_string())) {
        UploadStep::Failed(msg) => assert_eq!(msg, "network down"),
        _ => panic!("expected a failure"),
    }
    assert!(up.finished());
}

#[test]
fn fetch_lists_where_upload_writes() {
    let (_, upload_first) = InviteUpload::begin(&id(), "b".to_string());
    let (_, fetch_first) = InviteFetch::begin(&id());
    match (upload_first, fetch_first) {
        (StorageAction::List { prefix: a }, StorageAction::List { prefix: b }) => assert_eq!(a, b),
        _ => panic!("expected two listings"),
    }
}

#[test]
fn fetch_downloads_the_single_copy() {
    let (mut f, _) = InviteFetch::begin(&id());
    match f.step(FetchEvent::Listed(vec!["https://blob/one".to_string()])) {
        FetchStep::Act(StorageAction::Download { url }) => assert_eq!(url, "https://blob/one"),
        _ => panic!("expected a download"),
    }
    let invite = Invite::new_pending("Anna".to_string(), 2, Language::English);
    assert!(f.accepts(&FetchEvent::Received(invite.duplicate())));
    match f.step(FetchEvent::Received(invite)) {
        FetchStep::Found(found) => assert_eq!(found.name, "Anna"),
        _ => panic!("expected the invite"),
    }
}

#[test]
fn fetch_without_copy_is_not_found() {
    let (mut f, _) = InviteFetch::begin(&id());
    assert!(matches!(
        f.step(FetchEvent::Listed(vec![])),
        FetchStep::Failed(FromBlobError::NotFound)
    ));
}

#[test]
fn fetch_with_two_copies_is_an_error() {
    let (mut f, _) = InviteFetch::begin(&id());
    match f.step(FetchEvent::Listed(vec!["a".to_string(), "b".to_string()])) {
        FetchStep::Failed(FromBlobError::Error(msg)) => assert_eq!(msg, "Two of same invite exists"),
        _ => panic!("expected an error"),
    }
}

#[test]
fn fetch_failure_is_an_error_with_its_message() {
    let (mut f, _) = InviteFetch::begin(&id());
    let _ = f.step(FetchEvent::Listed(vec!["a".to_string()]));
    match f.step(FetchEvent::Failed("bad json".to_string())) {
        FetchStep::Failed(FromBlobError::Error(msg)) => assert_eq!(msg, "bad json"),
        _ => panic!("expected an error"),
    }
}

use wedding_vanulio2025::{AlreadyResponded, Invite, InviteId, Language};

const VALID: &str = "0123456789abcdef0123456789abcdef";

fn pending(name: &str) -> Invite {
    Invite::new_pending(name.to_string(), 2, Language::English)
}

#[test]
fn invite_id_of_32_bytes_is_accepted() {
    let id = InviteId::new(VALID.to_string()).unwrap();
    assert_eq!(id.as_str(), VALID);
}

#[test]
fn invite_id_of_other_lengths_is_refused() {
    for text in ["", "0123456789abcdef0123456789abcde", "0123456789abcdef0123456789abcdef0"] {
        let err = InviteId::new(text.to_string()).unwrap_err();
        assert_eq!(err, "Invite id must be 32 characters long");
    }
}

#[test]
fn invite_id_length_counts_bytes() {
    // sixteen two-byte characters make 32 bytes
    let accepted = "é".repeat(16);
    assert!(InviteId::new(accepted.clone()).is_ok());
    // thirty-two characters that make 64 bytes
    let refused = "é".repeat(32);
    assert!(InviteId::new(refused).is_err());
}

#[test]
fn new_pending_invite_is_unanswered() {
    let invite = Invite::new_pending("Anna".to_string(), 3, Language::Italian);
    assert_eq!(invite.name, "Anna");
    assert!(!invite.responded);
    assert_eq!(invite.attending, None);
    assert_eq!(invite.notes, None);
    assert_eq!(invite.guests, 3);
    assert_eq!(invite.vegetarians, 0);
    assert_eq!(invite.language, Language::Italian);
}

#[test]
fn accepting_records_the_answer() {
    let mut invite = pending("Anna");
    assert_eq!(invite.accept(4, 1, "no nuts".to_string()), Ok(()));
    assert!(invite.responded);
    assert_eq!(invite.attending, Some(true));
    assert_eq!(invite.guests, 4);
    assert_eq!(invite.vegetarians, 1);
    assert_eq!(invite.notes, Some("no nuts".to_string()));
    assert_eq!(invite.name, "Anna");
}

#[test]
fn accepting_with_empty_notes_keeps_no_notes() {
    let mut invite = pending("Anna");
    assert_eq!(invite.accept(1, 0, String::new()), Ok(()));
    assert_eq!(invite.notes, None);
}

#[test]
fn second_attendance_is_refused_and_changes_nothing() {
    let mut invite = pending("Anna");
    invite.accept(4, 1, "first".to_string()).unwrap();
    assert_eq!(invite.accept(9, 9, "second".to_string()), Err(AlreadyResponded));
    assert_eq!(invite.guests, 4);
    assert_eq!(invite.vegetarians, 1);
    assert_eq!(invite.notes, Some("first".to_string()));
    assert_eq!(invite.attending, Some(true));
}

#[test]
fn attendance_after_decline_is_refused() {
    let mut invite = pending("Anna");
    invite.decline();
    assert_eq!(invite.accept(2, 0, String::new()), Err(AlreadyResponded));
    assert_eq!(invite.attending, Some(false));
}

#[test]
fn decline_replaces_an_earlier_answer() {
    let mut invite = pending("Anna");
    invite.accept(5, 2, "x".to_string()).unwrap();
    invite.decline();
    assert!(invite.responded);
    assert_eq!(invite.attending, Some(false));
    assert_eq!(invite.guests, 5);
    assert_eq!(invite.notes, Some("x".to_string()));
}

#[test]
fn duplicate_copies_every_field() {
    let mut invite = pending("Anna");
    invite.accept(5, 2, "x".to_string()).unwrap();
    let copy = invite.duplicate();
    assert_eq!(format!("{:?}", copy), format!("{:?}", invite));
}

#[test]
fn invite_id_duplicate_is_equal() {
    let id = InviteId::new(VALID.to_string()).unwrap();
    assert_eq!(id.duplicate().as_str(), VALID);
}

#[test]
fn language_codes() {
    assert_eq!(Language::Italian.code(), "it");
    assert_eq!(Language::English.code(), "en");
}

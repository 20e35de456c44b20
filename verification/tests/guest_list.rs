use wedding_vanulio2025::{invitation_line, new_invitation, Invite, InviteId, Language};

fn is_lower_hex(c: char) -> bool {
    c.is_ascii_digit() || ('a'..='f').contains(&c)
}

#[test]
fn fresh_ids_are_random_v4_uuids_and_always_accepted() {
    let a = InviteId::fresh();
    let b = InviteId::fresh();
    for id in [&a, &b] {
        let text = id.as_str();
        assert_eq!(text.len(), 32);
        assert!(text.chars().all(is_lower_hex));
        assert_eq!(text.as_bytes()[12], b'4');
        assert!(matches!(text.as_bytes()[16], b'8' | b'9' | b'a' | b'b'));
        assert!(InviteId::new(text.to_string()).is_ok());
    }
    assert_ne!(a.as_str(), b.as_str());
}

#[test]
fn new_invitation_is_pending_with_fresh_id() {
    let (invite, id) = new_invitation("Elena".to_string(), 4, Language::Italian);
    assert_eq!(invite.name, "Elena");
    assert_eq!(invite.guests, 4);
    assert_eq!(invite.vegetarians, 0);
    assert!(!invite.responded);
    assert_eq!(invite.attending, None);
    assert_eq!(invite.language, Language::Italian);
    assert_eq!(id.as_str().len(), 32);
}

#[test]
fn invitation_line_quotes_name_and_link() {
    let invite = Invite::new_pending("Elena Rossi".to_string(), 2, Language::Italian);
    let id = InviteId::new("0123456789abcdef0123456789abcdef".to_string()).unwrap();
    assert_eq!(
        invitation_line(&invite, &id),
        "\"Elena Rossi\",\"https://vanulio.fun/rsvp?_id=0123456789abcdef0123456789abcdef\"\n"
    );
}
